use crate::congruence::{
    congruent, lemma_congruent_by_factor, lemma_congruent_product, lemma_congruent_reflexive,
    lemma_congruent_residue, lemma_congruent_sum,
};
use vstd::prelude::*;

verus! {

/// Number of fractional bits in a fixed-point coefficient.
pub const FIXED_POINT_FRAC_BITS: u32 = 10;

/// The fixed-point encoding of the real number one.
pub const FIXED_POINT_ONE: i32 = 1024;

/// The signed 32-bit integer that is congruent to `v` modulo 2^32.
pub open spec fn wrap_i32(v: int) -> int {
    let m = v % 0x1_0000_0000;
    if m >= 0x8000_0000 {
        m - 0x1_0000_0000
    } else {
        m
    }
}

/// The fixed-point value of `p * q + r * s`: the sum of the two products,
/// wrapped to 32 bits, with the fractional bits of one factor shifted out.
pub open spec fn spec_fixed_dot(p: int, q: int, r: int, s: int) -> int {
    wrap_i32(p * q + r * s) / 1024
}

/// The wrapped sample coordinate of the row `(p, q, r)` of a transform at the
/// point `(x, y)`: the integer part of `p * x + q * y + r`, modulo 128.
pub open spec fn spec_sample_coord(p: int, q: int, r: int, x: int, y: int) -> int {
    ((p * x + q * y + r) / 1024) % 128
}

/// Wrapping to 32 bits gives a signed 32-bit value and changes a number by a
/// multiple of 2^32.
pub proof fn lemma_wrap_i32_is_congruent(v: int)
    ensures
        i32::MIN <= wrap_i32(v) <= i32::MAX,
        congruent(wrap_i32(v), v, 0x1_0000_0000),
{
    reveal(congruent);
}

/// Numbers that are congruent modulo 2^32 wrap to the same value.
pub proof fn lemma_wrap_i32_of_congruent(u: int, v: int)
    requires
        congruent(u, v, 0x1_0000_0000),
    ensures
        wrap_i32(u) == wrap_i32(v),
{
    reveal(congruent);
}

/// Wrapping a summand early does not change the wrapped sum.
pub proof fn lemma_wrap_i32_of_sum(u: int, v: int)
    ensures
        wrap_i32(wrap_i32(u) + wrap_i32(v)) == wrap_i32(u + v),
        wrap_i32(wrap_i32(u) + v) == wrap_i32(u + v),
{
    lemma_wrap_i32_is_congruent(u);
    lemma_wrap_i32_is_congruent(v);
    lemma_congruent_reflexive(v, 0x1_0000_0000);
    lemma_congruent_sum(wrap_i32(u), u, wrap_i32(v), v, 0x1_0000_0000);
    lemma_congruent_sum(wrap_i32(u), u, v, v, 0x1_0000_0000);
    lemma_wrap_i32_of_congruent(wrap_i32(u) + wrap_i32(v), u + v);
    lemma_wrap_i32_of_congruent(wrap_i32(u) + v, u + v);
}

/// Where the products lose no fraction, the wrapped fixed-point quotient
/// agrees with the exact one in its low 22 bits.
pub proof fn lemma_fixed_quotient(s: int)
    requires
        s % 1024 == 0,
    ensures
        congruent(wrap_i32(s) / 1024, s / 1024, 0x40_0000),
{
    let w: int = wrap_i32(s);
    let j: int = (w - s) / 0x1_0000_0000;
    let k: int = s / 1024;
    assert(w - s == j * 0x1_0000_0000);
    assert(w == 1024 * (k + 0x40_0000 * j));
    assert(w / 1024 == k + 0x40_0000 * j);
    lemma_congruent_by_factor(w / 1024, k, 0x40_0000, j);
}

/// The sample coordinate of a sum is held in bits 10 to 16 of the sum.
pub proof fn lemma_sample_low_bits(m: int)
    ensures
        (m / 1024) % 128 == (m % 0x2_0000) / 1024,
{
    let k: int = m / 0x2_0000;
    let t: int = m % 0x2_0000;
    assert(m == 1024 * (128 * k) + t);
    assert(m / 1024 == 128 * k + t / 1024);
}

/// The sample coordinate depends on the row only through its low 17 bits.
pub proof fn lemma_sample_coord_congruent(
    p: int,
    q: int,
    r: int,
    pb: int,
    qb: int,
    rb: int,
    x: int,
    y: int,
)
    requires
        congruent(p, pb, 0x2_0000),
        congruent(q, qb, 0x2_0000),
        congruent(r, rb, 0x2_0000),
    ensures
        spec_sample_coord(p, q, r, x, y) == spec_sample_coord(pb, qb, rb, x, y),
{
    let m: int = p * x + q * y + r;
    let mb: int = pb * x + qb * y + rb;
    lemma_congruent_product(x, p, pb, 0x2_0000);
    lemma_congruent_product(y, q, qb, 0x2_0000);
    lemma_congruent_sum(p * x, pb * x, q * y, qb * y, 0x2_0000);
    lemma_congruent_sum(p * x + q * y, pb * x + qb * y, r, rb, 0x2_0000);
    lemma_congruent_residue(m, mb, 0x2_0000);
    lemma_sample_low_bits(m);
    lemma_sample_low_bits(mb);
}

/// The sum of two products, in wrapping 32-bit arithmetic, shifted right by
/// the fractional bits.
pub fn fixed_dot(p: i32, q: i32, r: i32, s: i32) -> (out: i32)
    ensures
        out == spec_fixed_dot(p as int, q as int, r as int, s as int),
{
    let pq: i32 = p.wrapping_mul(q);
    let rs: i32 = r.wrapping_mul(s);
    let sum: i32 = pq.wrapping_add(rs);
    proof {
        assert(pq == wrap_i32(p * q));
        assert(rs == wrap_i32(r * s));
        assert(sum == wrap_i32(pq + rs));
        lemma_wrap_i32_of_sum(p * q, r * s);
        assert(sum >> 10 == sum / 1024) by (bit_vector);
    }
    sum >> FIXED_POINT_FRAC_BITS
}

/// Reinterpreting an unsigned 32-bit value as signed keeps it modulo 2^32.
proof fn lemma_u32_as_i32(x: u32)
    ensures
        (x as i32) as int == wrap_i32(x as int),
{
    let xi: i32 = x as i32;
    assert(xi as int == if x >= 0x8000_0000u32 {
        x as int - 0x1_0000_0000
    } else {
        x as int
    }) by (bit_vector)
        requires
            xi == x as i32,
    ;
}

/// Reinterpreting a signed 32-bit value as unsigned keeps it modulo 2^32.
proof fn lemma_i32_as_u32(v: i32)
    ensures
        (v as u32) as int == (v as int) % 0x1_0000_0000,
{
    let vu: u32 = v as u32;
    assert(vu as int == if v < 0i32 {
        v as int + 0x1_0000_0000
    } else {
        v as int
    }) by (bit_vector)
        requires
            vu == v as u32,
    ;
}

/// The 32-bit accumulation of one row agrees with the exact sum modulo 2^32.
proof fn lemma_row_accumulates(p: int, q: int, r: int, x: int, y: int)
    ensures
        wrap_i32(wrap_i32(wrap_i32(p * wrap_i32(x)) + wrap_i32(q * wrap_i32(y))) + r) == wrap_i32(
            p * x + q * y + r,
        ),
{
    let px: int = p * wrap_i32(x);
    let qy: int = q * wrap_i32(y);
    lemma_wrap_i32_is_congruent(x);
    lemma_wrap_i32_is_congruent(y);
    lemma_congruent_product(p, wrap_i32(x), x, 0x1_0000_0000);
    lemma_congruent_product(q, wrap_i32(y), y, 0x1_0000_0000);
    lemma_congruent_sum(px, p * x, qy, q * y, 0x1_0000_0000);
    lemma_congruent_reflexive(r, 0x1_0000_0000);
    lemma_congruent_sum(px + qy, p * x + q * y, r, r, 0x1_0000_0000);
    lemma_wrap_i32_of_sum(px, qy);
    lemma_wrap_i32_of_sum(px + qy, r);
    lemma_wrap_i32_of_congruent(px + qy + r, p * x + q * y + r);
}

/// Bits 10 to 16 of a wrapped sum are the integer part of the exact sum,
/// modulo 128.
proof fn lemma_sample_of_wrapped(acc: i32, m: int)
    requires
        acc == wrap_i32(m),
    ensures
        (((acc as u32) >> 10) & 0x7f) as int == (m / 1024) % 128,
{
    let bits: u32 = acc as u32;
    lemma_i32_as_u32(acc);
    lemma_wrap_i32_is_congruent(m);
    lemma_congruent_residue(wrap_i32(m), m, 0x1_0000_0000);
    lemma_congruent_by_factor(m % 0x1_0000_0000, m, 0x2_0000, -((m / 0x1_0000_0000) * 0x8000));
    lemma_congruent_residue(m % 0x1_0000_0000, m, 0x2_0000);
    assert((bits >> 10) & 0x7f == (bits / 1024) % 128) by (bit_vector);
    lemma_sample_low_bits(bits as int);
    lemma_sample_low_bits(m);
}

/// Evaluates one row `(p, q, r)` of a transform at the point `(x, y)`, in
/// wrapping 32-bit arithmetic, and keeps bits 10 to 16 of the sum.
pub fn sample_coord(p: i32, q: i32, r: i32, x: u32, y: u32) -> (out: u32)
    ensures
        out == spec_sample_coord(p as int, q as int, r as int, x as int, y as int),
        out < 128,
{
    let xi: i32 = #[verifier::truncate] (x as i32);
    let yi: i32 = #[verifier::truncate] (y as i32);
    let px: i32 = p.wrapping_mul(xi);
    let qy: i32 = q.wrapping_mul(yi);
    let acc: i32 = px.wrapping_add(qy).wrapping_add(r);
    let bits: u32 = #[verifier::truncate] (acc as u32);
    proof {
        assert(acc == wrap_i32(p * x + q * y + r)) by {
            lemma_u32_as_i32(x);
            lemma_u32_as_i32(y);
            assert(px == wrap_i32(p * xi));
            assert(qy == wrap_i32(q * yi));
            assert(px.wrapping_add(qy) == wrap_i32(px + qy));
            assert(acc == wrap_i32(wrap_i32(px + qy) + r));
            lemma_row_accumulates(p as int, q as int, r as int, x as int, y as int);
        }
        lemma_sample_of_wrapped(acc, p * x + q * y + r);
    }
    (bits >> FIXED_POINT_FRAC_BITS) & 0x7f
}

} // verus!
