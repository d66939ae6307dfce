use vstd::arithmetic::div_mod::{
    lemma_fundamental_div_mod, lemma_mod_multiples_basic, lemma_mod_multiples_vanish,
};
use vstd::prelude::*;

verus! {

/// Whether `u` and `v` differ by a multiple of `m`.
#[verifier::opaque]
pub open spec fn congruent(u: int, v: int, m: int) -> bool {
    (u - v) % m == 0
}

/// Congruent numbers differ by a multiple of the modulus; the factor is
/// handed out.
pub proof fn lemma_congruent_factor(u: int, v: int, m: int) -> (k: int)
    requires
        m > 0,
        congruent(u, v, m),
    ensures
        u - v == k * m,
{
    reveal(congruent);
    lemma_fundamental_div_mod(u - v, m);
    let k: int = (u - v) / m;
    assert(m * k == k * m) by (nonlinear_arith);
    k
}

/// Numbers that differ by a multiple of the modulus are congruent.
pub proof fn lemma_congruent_by_factor(u: int, v: int, m: int, k: int)
    requires
        m > 0,
        u - v == k * m,
    ensures
        congruent(u, v, m),
{
    reveal(congruent);
    lemma_mod_multiples_basic(k, m);
}

/// Every number is congruent to itself.
pub proof fn lemma_congruent_reflexive(u: int, m: int)
    requires
        m > 0,
    ensures
        congruent(u, u, m),
{
    lemma_congruent_by_factor(u, u, m, 0);
}

/// Congruence is transitive.
pub proof fn lemma_congruent_transitive(u: int, v: int, w: int, m: int)
    requires
        m > 0,
        congruent(u, v, m),
        congruent(v, w, m),
    ensures
        congruent(u, w, m),
{
    let j: int = lemma_congruent_factor(u, v, m);
    let k: int = lemma_congruent_factor(v, w, m);
    assert(u - w == (j + k) * m) by (nonlinear_arith)
        requires
            u - v == j * m,
            v - w == k * m,
    ;
    lemma_congruent_by_factor(u, w, m, j + k);
}

/// Congruences add up.
pub proof fn lemma_congruent_sum(a: int, a2: int, b: int, b2: int, m: int)
    requires
        m > 0,
        congruent(a, a2, m),
        congruent(b, b2, m),
    ensures
        congruent(a + b, a2 + b2, m),
{
    let j: int = lemma_congruent_factor(a, a2, m);
    let k: int = lemma_congruent_factor(b, b2, m);
    assert((a + b) - (a2 + b2) == (j + k) * m) by (nonlinear_arith)
        requires
            a - a2 == j * m,
            b - b2 == k * m,
    ;
    lemma_congruent_by_factor(a + b, a2 + b2, m, j + k);
}

/// A product changes by a multiple of `m` when one factor does.
pub proof fn lemma_congruent_product(p: int, x: int, y: int, m: int)
    requires
        m > 0,
        congruent(x, y, m),
    ensures
        congruent(p * x, p * y, m),
        congruent(x * p, y * p, m),
{
    let k: int = lemma_congruent_factor(x, y, m);
    assert(p * x - p * y == (p * k) * m && x * p - y * p == (p * k) * m) by (nonlinear_arith)
        requires
            x - y == k * m,
    ;
    lemma_congruent_by_factor(p * x, p * y, m, p * k);
    lemma_congruent_by_factor(x * p, y * p, m, p * k);
}

/// A congruence modulo `n * f` holds modulo `n` too.
pub proof fn lemma_congruent_divisor(u: int, v: int, m: int, n: int, f: int)
    requires
        n > 0,
        f > 0,
        m == n * f,
        congruent(u, v, m),
    ensures
        congruent(u, v, n),
{
    assert(m > 0) by (nonlinear_arith)
        requires
            n > 0,
            f > 0,
            m == n * f,
    ;
    let k: int = lemma_congruent_factor(u, v, m);
    assert(u - v == (k * f) * n) by (nonlinear_arith)
        requires
            u - v == k * m,
            m == n * f,
    ;
    lemma_congruent_by_factor(u, v, n, k * f);
}

/// Congruent numbers leave the same remainder.
pub proof fn lemma_congruent_residue(u: int, v: int, m: int)
    requires
        m > 0,
        congruent(u, v, m),
    ensures
        u % m == v % m,
{
    let k: int = lemma_congruent_factor(u, v, m);
    lemma_mod_multiples_vanish(k, v, m);
    assert(m * k + v == u) by (nonlinear_arith)
        requires
            u - v == k * m,
    ;
}

} // verus!
