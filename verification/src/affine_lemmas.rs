use crate::affine_matrix::Transform;
use crate::congruence::{
    congruent, lemma_congruent_by_factor, lemma_congruent_divisor, lemma_congruent_factor,
    lemma_congruent_reflexive, lemma_congruent_sum, lemma_congruent_transitive,
};
use crate::fixed_point::{
    lemma_fixed_quotient, lemma_sample_coord_congruent, lemma_wrap_i32_is_congruent,
    lemma_wrap_i32_of_congruent, spec_fixed_dot, spec_sample_coord, wrap_i32,
};
use vstd::prelude::*;

verus! {

/// The identity sends every point to itself, wrapped onto the torus.
pub proof fn lemma_identity_wraps_points(x: int, y: int)
    ensures
        Transform::identity().eval(x, y) == (x % 128, y % 128),
{
}

/// The identity leaves every point of the 128 x 128 bitmap where it is.
pub proof fn lemma_identity_fixes_points(x: int, y: int)
    requires
        0 <= x < 128,
        0 <= y < 128,
    ensures
        Transform::identity().eval(x, y) == (x, y),
{
}

/// Every transform sends every point, however far out, into the 128 x 128
/// bitmap.
pub proof fn lemma_eval_in_range(t: Transform, x: int, y: int)
    ensures
        0 <= t.eval(x, y).0 < 128,
        0 <= t.eval(x, y).1 < 128,
{
}

/// Transforms that agree in the low 17 bits of every coefficient send every
/// point to the same place.
pub proof fn lemma_congruent_same_effect(t: Transform, u: Transform)
    requires
        t.congruent_to(u, 0x2_0000),
    ensures
        t.same_effect(u),
{
    assert forall|x: int, y: int| #[trigger] t.eval(x, y) == u.eval(x, y) by {
        lemma_sample_coord_congruent(t.a, t.b, t.c, u.a, u.b, u.c, x, y);
        lemma_sample_coord_congruent(t.d, t.e, t.f, u.d, u.e, u.f, x, y);
    }
}

/// The fixed-point product of a row with a column of whole numbers is their
/// exact product, in the low 22 bits.
proof fn lemma_fixed_dot_whole(p: int, q: int, u: int, v: int)
    requires
        u % 1024 == 0,
        v % 1024 == 0,
    ensures
        congruent(spec_fixed_dot(p, u, q, v), p * (u / 1024) + q * (v / 1024), 0x40_0000),
{
    let uw: int = u / 1024;
    let vw: int = v / 1024;
    assert(p * u + q * v == (p * uw + q * vw) * 1024) by (nonlinear_arith)
        requires
            u == 1024 * uw,
            v == 1024 * vw,
    ;
    lemma_fixed_quotient(p * u + q * v);
}

/// One row of a transform, composed with a whole transform, sends a point
/// where the row itself sends the image of the point.
proof fn lemma_row_after_whole(p: int, q: int, r: int, m: Transform, x: int, y: int)
    requires
        m.is_whole(),
    ensures
        spec_sample_coord(
            spec_fixed_dot(p, m.a, q, m.d),
            spec_fixed_dot(p, m.b, q, m.e),
            wrap_i32(spec_fixed_dot(p, m.c, q, m.f) + r),
            x,
            y,
        ) == spec_sample_coord(p, q, r, m.whole_image(x, y).0, m.whole_image(x, y).1),
{
    let a: int = m.a / 1024;
    let b: int = m.b / 1024;
    let c: int = m.c / 1024;
    let d: int = m.d / 1024;
    let e: int = m.e / 1024;
    let f: int = m.f / 1024;
    let pa: int = spec_fixed_dot(p, m.a, q, m.d);
    let qa: int = spec_fixed_dot(p, m.b, q, m.e);
    let sa: int = spec_fixed_dot(p, m.c, q, m.f);
    let ra: int = wrap_i32(sa + r);
    lemma_fixed_dot_whole(p, q, m.a, m.d);
    lemma_fixed_dot_whole(p, q, m.b, m.e);
    lemma_fixed_dot_whole(p, q, m.c, m.f);
    lemma_congruent_divisor(pa, p * a + q * d, 0x40_0000, 0x2_0000, 32);
    lemma_congruent_divisor(qa, p * b + q * e, 0x40_0000, 0x2_0000, 32);
    lemma_congruent_divisor(sa, p * c + q * f, 0x40_0000, 0x2_0000, 32);
    lemma_wrap_i32_is_congruent(sa + r);
    lemma_congruent_divisor(ra, sa + r, 0x1_0000_0000, 0x2_0000, 0x8000);
    lemma_congruent_reflexive(r, 0x2_0000);
    lemma_congruent_sum(sa, p * c + q * f, r, r, 0x2_0000);
    lemma_congruent_transitive(ra, sa + r, p * c + q * f + r, 0x2_0000);
    lemma_sample_coord_congruent(
        pa,
        qa,
        ra,
        p * a + q * d,
        p * b + q * e,
        p * c + q * f + r,
        x,
        y,
    );
    assert((p * a + q * d) * x == p * (a * x) + q * (d * x)) by (nonlinear_arith);
    assert((p * b + q * e) * y == p * (b * y) + q * (e * y)) by (nonlinear_arith);
    assert(p * (a * x + b * y + c) == p * (a * x) + p * (b * y) + p * c) by (nonlinear_arith);
    assert(q * (d * x + e * y + f) == q * (d * x) + q * (e * y) + q * f) by (nonlinear_arith);
}

/// Composition with a whole transform is exact: the composed transform sends
/// a point where the outer one sends the image of the point under the inner
/// one. Shifts by whole pixels, scalings by whole factors and quarter turns
/// are whole transforms.
pub proof fn lemma_compose_with_whole_transform(t: Transform, m: Transform, x: int, y: int)
    requires
        m.is_whole(),
    ensures
        t.compose(m).eval(x, y) == t.eval(m.whole_image(x, y).0, m.whole_image(x, y).1),
{
    lemma_row_after_whole(t.a, t.b, t.c, m, x, y);
    lemma_row_after_whole(t.d, t.e, t.f, m, x, y);
}

/// A shift by whole pixels sends a point to the point that many pixels on.
pub proof fn lemma_whole_image_of_translation(px: int, py: int, x: int, y: int)
    ensures
        Transform::translation(1024 * px, 1024 * py).is_whole(),
        Transform::translation(1024 * px, 1024 * py).whole_image(x, y) == (x + px, y + py),
{
    assert((1024int / 1024) * x == x && (1024int / 1024) * y == y) by (nonlinear_arith);
    assert((0int / 1024) * x == 0 && (0int / 1024) * y == 0) by (nonlinear_arith);
}

/// A scaling by a whole factor sends a point to that multiple of it.
pub proof fn lemma_whole_image_of_scaling(n: int, x: int, y: int)
    ensures
        Transform::scaling(1024 * n).is_whole(),
        Transform::scaling(1024 * n).whole_image(x, y) == (n * x, n * y),
{
    assert((1024 * n) / 1024 == n);
    assert((0int / 1024) * x == 0 && (0int / 1024) * y == 0) by (nonlinear_arith);
}

/// The product of a row with the columns of the fixed-point identity gives
/// the row back in its low 22 bits, and all of it where nothing wraps.
proof fn lemma_unit_dot(p: int, q: int)
    ensures
        congruent(spec_fixed_dot(p, 1024, q, 0), p, 0x40_0000),
        congruent(spec_fixed_dot(p, 0, q, 1024), q, 0x40_0000),
        -0x20_0000 <= p < 0x20_0000 ==> spec_fixed_dot(p, 1024, q, 0) == p,
        -0x20_0000 <= q < 0x20_0000 ==> spec_fixed_dot(p, 0, q, 1024) == q,
{
    assert(p * 1024 + q * 0 == 1024 * p);
    assert(p * 0 + q * 1024 == 1024 * q);
    lemma_fixed_quotient(1024 * p);
    lemma_fixed_quotient(1024 * q);
}

/// A shift that loses no fraction is undone by the opposite shift: the
/// translation coefficient of the row comes back in its low 22 bits.
proof fn lemma_offset_round_trip(s: int, sa: int, r: int)
    requires
        s % 1024 == 0,
        congruent(sa, -s, 0x1_0000_0000),
    ensures
        congruent(
            wrap_i32(wrap_i32(sa) / 1024 + wrap_i32(wrap_i32(s) / 1024 + r)),
            r,
            0x40_0000,
        ),
{
    let e: int = s / 1024;
    let q: int = wrap_i32(s) / 1024;
    let ra: int = wrap_i32(q + r);
    let qa: int = wrap_i32(sa) / 1024;
    let rb: int = wrap_i32(qa + ra);
    // q is e, and qa is -e, in the low 22 bits
    lemma_fixed_quotient(s);
    lemma_wrap_i32_of_congruent(sa, -s);
    lemma_fixed_quotient(-s);
    assert((-s) / 1024 == -e);
    // ra is q + r, and rb is qa + ra, in the low 22 bits
    lemma_wrap_i32_is_congruent(q + r);
    lemma_congruent_divisor(ra, q + r, 0x1_0000_0000, 0x40_0000, 1024);
    lemma_wrap_i32_is_congruent(qa + ra);
    lemma_congruent_divisor(rb, qa + ra, 0x1_0000_0000, 0x40_0000, 1024);
    // so rb is -e + (e + r)
    lemma_congruent_reflexive(r, 0x40_0000);
    lemma_congruent_sum(q, e, r, r, 0x40_0000);
    lemma_congruent_transitive(ra, q + r, e + r, 0x40_0000);
    lemma_congruent_sum(qa, -e, ra, e + r, 0x40_0000);
    lemma_congruent_transitive(rb, qa + ra, -e + (e + r), 0x40_0000);
}

/// The sum that the opposite shift feeds into a row agrees, modulo 2^32,
/// with the opposite of the sum that the shift fed into it.
proof fn lemma_opposite_offset(p: int, q: int, pa: int, qa: int, tx: int, ty: int)
    requires
        congruent(pa, p, 0x40_0000),
        congruent(qa, q, 0x40_0000),
        (tx % 1024 == 0 && ty % 1024 == 0) || (pa == p && qa == q),
    ensures
        congruent(pa * (-tx) + qa * (-ty), -(p * tx + q * ty), 0x1_0000_0000),
        tx % 1024 == 0 && ty % 1024 == 0 ==> (p * tx + q * ty) % 1024 == 0,
{
    if tx % 1024 == 0 && ty % 1024 == 0 {
        let j: int = lemma_congruent_factor(pa, p, 0x40_0000);
        let k: int = lemma_congruent_factor(qa, q, 0x40_0000);
        let u: int = tx / 1024;
        let v: int = ty / 1024;
        assert(pa * (-tx) + qa * (-ty) - (-(p * tx + q * ty)) == (-(j * u) - k * v)
            * 0x1_0000_0000) by (nonlinear_arith)
            requires
                pa - p == j * 0x40_0000,
                qa - q == k * 0x40_0000,
                tx == 1024 * u,
                ty == 1024 * v,
        ;
        lemma_congruent_by_factor(
            pa * (-tx) + qa * (-ty),
            -(p * tx + q * ty),
            0x1_0000_0000,
            -(j * u) - k * v,
        );
        assert(p * tx + q * ty == (p * u + q * v) * 1024) by (nonlinear_arith)
            requires
                tx == 1024 * u,
                ty == 1024 * v,
        ;
    } else {
        assert(p * (-tx) + q * (-ty) - (-(p * tx + q * ty)) == 0 * 0x1_0000_0000)
            by (nonlinear_arith);
        lemma_congruent_by_factor(
            pa * (-tx) + qa * (-ty),
            -(p * tx + q * ty),
            0x1_0000_0000,
            0,
        );
    }
}

/// One row of a transform, after a shift that loses no fraction and the
/// opposite shift, agrees with the row itself in the low 22 bits.
proof fn lemma_row_round_trip(p: int, q: int, r: int, tx: int, ty: int)
    requires
        (p * tx + q * ty) % 1024 == 0,
        (tx % 1024 == 0 && ty % 1024 == 0) || (-0x20_0000 <= p < 0x20_0000 && -0x20_0000 <= q
            < 0x20_0000),
    ensures
        ({
            let pa = spec_fixed_dot(p, 1024, q, 0);
            let qa = spec_fixed_dot(p, 0, q, 1024);
            let ra = wrap_i32(spec_fixed_dot(p, tx, q, ty) + r);
            &&& congruent(spec_fixed_dot(pa, 1024, qa, 0), p, 0x40_0000)
            &&& congruent(spec_fixed_dot(pa, 0, qa, 1024), q, 0x40_0000)
            &&& congruent(wrap_i32(spec_fixed_dot(pa, -tx, qa, -ty) + ra), r, 0x40_0000)
        }),
{
    let pa = spec_fixed_dot(p, 1024, q, 0);
    let qa = spec_fixed_dot(p, 0, q, 1024);
    lemma_unit_dot(p, q);
    lemma_unit_dot(pa, qa);
    lemma_congruent_transitive(spec_fixed_dot(pa, 1024, qa, 0), pa, p, 0x40_0000);
    lemma_congruent_transitive(spec_fixed_dot(pa, 0, qa, 1024), qa, q, 0x40_0000);
    lemma_opposite_offset(p, q, pa, qa, tx, ty);
    lemma_offset_round_trip(p * tx + q * ty, pa * (-tx) + qa * (-ty), r);
}

/// A shift followed by the opposite shift leaves the effect of a transform
/// as it was, at every point, wherever the first shift loses no fraction.
pub proof fn lemma_translate_and_back(t: Transform, tx: int, ty: int)
    requires
        t.shifts_exactly_by(tx, ty),
    ensures
        t.compose(Transform::translation(tx, ty)).compose(
            Transform::translation(-tx, -ty),
        ).congruent_to(t, 0x40_0000),
        t.compose(Transform::translation(tx, ty)).compose(
            Transform::translation(-tx, -ty),
        ).same_effect(t),
{
    let back = t.compose(Transform::translation(tx, ty)).compose(Transform::translation(-tx, -ty));
    if tx % 1024 == 0 && ty % 1024 == 0 {
        lemma_congruent_reflexive(t.a, 0x40_0000);
        lemma_congruent_reflexive(t.b, 0x40_0000);
        lemma_congruent_reflexive(t.d, 0x40_0000);
        lemma_congruent_reflexive(t.e, 0x40_0000);
        lemma_opposite_offset(t.a, t.b, t.a, t.b, tx, ty);
        lemma_opposite_offset(t.d, t.e, t.d, t.e, tx, ty);
    }
    lemma_row_round_trip(t.a, t.b, t.c, tx, ty);
    lemma_row_round_trip(t.d, t.e, t.f, tx, ty);
    assert(back.congruent_to(t, 0x40_0000));
    lemma_congruent_to_divisor(back, t, 0x40_0000, 0x2_0000, 32);
    lemma_congruent_same_effect(back, t);
}

/// Transforms that agree modulo `m` agree modulo every divisor of `m`.
pub proof fn lemma_congruent_to_divisor(t: Transform, u: Transform, m: int, n: int, f: int)
    requires
        n > 0,
        f > 0,
        m == n * f,
        t.congruent_to(u, m),
    ensures
        t.congruent_to(u, n),
{
    lemma_congruent_divisor(t.a, u.a, m, n, f);
    lemma_congruent_divisor(t.b, u.b, m, n, f);
    lemma_congruent_divisor(t.c, u.c, m, n, f);
    lemma_congruent_divisor(t.d, u.d, m, n, f);
    lemma_congruent_divisor(t.e, u.e, m, n, f);
    lemma_congruent_divisor(t.f, u.f, m, n, f);
}

/// A transform whose linear part is that of the identity, and whose
/// translation is a whole number of turns round the torus, acts as the
/// identity ahead of any transform.
proof fn lemma_unit_before(u: Transform, t: Transform)
    requires
        u.a == 1024,
        u.b == 0,
        u.d == 0,
        u.e == 1024,
        congruent(u.c, 0, 0x2_0000),
        congruent(u.f, 0, 0x2_0000),
    ensures
        u.compose(t).congruent_to(t, 0x2_0000),
        u.compose(t).same_effect(t),
{
    let after = u.compose(t);
    assert(1024 * t.a + 0 * t.d == 1024 * t.a && 1024 * t.b + 0 * t.e == 1024 * t.b);
    assert(0 * t.a + 1024 * t.d == 1024 * t.d && 0 * t.b + 1024 * t.e == 1024 * t.e);
    assert(1024 * t.c + 0 * t.f == 1024 * t.c && 0 * t.c + 1024 * t.f == 1024 * t.f);
    lemma_fixed_quotient(1024 * t.a);
    lemma_fixed_quotient(1024 * t.b);
    lemma_fixed_quotient(1024 * t.c);
    lemma_fixed_quotient(1024 * t.d);
    lemma_fixed_quotient(1024 * t.e);
    lemma_fixed_quotient(1024 * t.f);
    lemma_congruent_divisor(after.a, t.a, 0x40_0000, 0x2_0000, 32);
    lemma_congruent_divisor(after.b, t.b, 0x40_0000, 0x2_0000, 32);
    lemma_congruent_divisor(after.d, t.d, 0x40_0000, 0x2_0000, 32);
    lemma_congruent_divisor(after.e, t.e, 0x40_0000, 0x2_0000, 32);
    lemma_shifted_offset(spec_fixed_dot(1024, t.c, 0, t.f), t.c, u.c);
    lemma_shifted_offset(spec_fixed_dot(0, t.c, 1024, t.f), t.f, u.f);
    lemma_congruent_same_effect(after, t);
}

/// An offset that agrees with `c` in the low 22 bits, shifted by a whole
/// number of turns round the torus and wrapped, agrees with `c` in the low
/// 17 bits.
proof fn lemma_shifted_offset(q: int, c: int, turns: int)
    requires
        congruent(q, c, 0x40_0000),
        congruent(turns, 0, 0x2_0000),
    ensures
        congruent(wrap_i32(q + turns), c, 0x2_0000),
{
    lemma_congruent_divisor(q, c, 0x40_0000, 0x2_0000, 32);
    lemma_congruent_sum(q, c, turns, 0, 0x2_0000);
    lemma_wrap_i32_is_congruent(q + turns);
    lemma_congruent_divisor(wrap_i32(q + turns), q + turns, 0x1_0000_0000, 0x2_0000, 0x8000);
    lemma_congruent_transitive(wrap_i32(q + turns), q + turns, c + 0, 0x2_0000);
}

/// The identity ahead of a transform leaves its effect as it was.
pub proof fn lemma_identity_is_left_unit(t: Transform)
    ensures
        Transform::identity().compose(t).same_effect(t),
{
    lemma_congruent_reflexive(0, 0x2_0000);
    lemma_unit_before(Transform::identity(), t);
}

/// The identity behind a transform leaves its effect as it was.
pub proof fn lemma_identity_is_right_unit(t: Transform)
    ensures
        t.compose(Transform::identity()).same_effect(t),
{
    let after = t.compose(Transform::identity());
    lemma_unit_dot(t.a, t.b);
    lemma_unit_dot(t.d, t.e);
    assert(t.a * 0 + t.b * 0 == 0 && t.d * 0 + t.e * 0 == 0);
    lemma_wrap_i32_is_congruent(0 + t.c);
    lemma_wrap_i32_is_congruent(0 + t.f);
    lemma_congruent_divisor(after.a, t.a, 0x40_0000, 0x2_0000, 32);
    lemma_congruent_divisor(after.b, t.b, 0x40_0000, 0x2_0000, 32);
    lemma_congruent_divisor(after.c, t.c, 0x1_0000_0000, 0x2_0000, 0x8000);
    lemma_congruent_divisor(after.d, t.d, 0x40_0000, 0x2_0000, 32);
    lemma_congruent_divisor(after.e, t.e, 0x40_0000, 0x2_0000, 32);
    lemma_congruent_divisor(after.f, t.f, 0x1_0000_0000, 0x2_0000, 0x8000);
    lemma_congruent_same_effect(after, t);
}

/// A shift and the opposite shift, ahead of any transform, leave the effect
/// of the transform as it was, whatever the offset.
pub proof fn lemma_translate_and_back_before(tx: int, ty: int, t: Transform)
    ensures
        Transform::identity().compose(Transform::translation(tx, ty)).compose(
            Transform::translation(-tx, -ty),
        ).compose(t).same_effect(t),
{
    let there = Transform::identity().compose(Transform::translation(tx, ty));
    let back = there.compose(Transform::translation(-tx, -ty));
    assert(1024 * tx + 0 * ty == 1024 * tx && 0 * tx + 1024 * ty == 1024 * ty);
    assert((1024 * tx) % 1024 == 0 && (1024 * ty) % 1024 == 0);
    lemma_translate_and_back(Transform::identity(), tx, ty);
    lemma_unit_dot(1024, 0);
    lemma_unit_dot(0, 1024);
    assert(there.a == 1024 && there.b == 0 && there.d == 0 && there.e == 1024);
    assert(back.a == 1024 && back.b == 0 && back.d == 0 && back.e == 1024);
    lemma_congruent_divisor(back.c, 0, 0x40_0000, 0x2_0000, 32);
    lemma_congruent_divisor(back.f, 0, 0x40_0000, 0x2_0000, 32);
    lemma_unit_before(back, t);
}

} // verus!
