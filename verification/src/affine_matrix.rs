use crate::congruence::congruent;
use crate::fixed_point::{
    fixed_dot, sample_coord, spec_fixed_dot, spec_sample_coord, wrap_i32, FIXED_POINT_ONE,
};
use vstd::prelude::*;

verus! {

/// The mathematical content of an affine map with fixed-point coefficients:
///
/// ```text
/// |x'|   |a b c| |x|
/// |y'| = |d e f| |y|
/// |1 |   |0 0 1| |1|
/// ```
///
/// Every coefficient carries ten fractional bits.
pub struct Transform {
    pub a: int,
    pub b: int,
    pub c: int,
    pub d: int,
    pub e: int,
    pub f: int,
}

impl Transform {
    /// The map that leaves every point where it is.
    pub open spec fn identity() -> Transform {
        Transform { a: 1024, b: 0, c: 0, d: 0, e: 1024, f: 0 }
    }

    /// The shift by `(tx, ty)`, both in fixed-point units.
    pub open spec fn translation(tx: int, ty: int) -> Transform {
        Transform { a: 1024, b: 0, c: tx, d: 0, e: 1024, f: ty }
    }

    /// The rotation whose angle has the fixed-point cosine `cos` and sine
    /// `sin`. The opposite of the sine wraps to 32 bits.
    pub open spec fn rotation(cos: int, sin: int) -> Transform {
        Transform { a: cos, b: wrap_i32(-sin), c: 0, d: sin, e: cos, f: 0 }
    }

    /// The uniform scaling by the fixed-point factor `k`.
    pub open spec fn scaling(k: int) -> Transform {
        Transform { a: k, b: 0, c: 0, d: 0, e: k, f: 0 }
    }

    /// Whether every coefficient is a signed 32-bit value.
    pub open spec fn fits_i32(self) -> bool {
        &&& i32::MIN <= self.a <= i32::MAX
        &&& i32::MIN <= self.b <= i32::MAX
        &&& i32::MIN <= self.c <= i32::MAX
        &&& i32::MIN <= self.d <= i32::MAX
        &&& i32::MIN <= self.e <= i32::MAX
        &&& i32::MIN <= self.f <= i32::MAX
    }

    /// `self` after `m`: the linear part of `self` acts on what `m` puts out,
    /// and the translation of `self` is added. All sums wrap to 32 bits.
    pub open spec fn compose(self, m: Transform) -> Transform {
        Transform {
            a: spec_fixed_dot(self.a, m.a, self.b, m.d),
            b: spec_fixed_dot(self.a, m.b, self.b, m.e),
            c: wrap_i32(spec_fixed_dot(self.a, m.c, self.b, m.f) + self.c),
            d: spec_fixed_dot(self.d, m.a, self.e, m.d),
            e: spec_fixed_dot(self.d, m.b, self.e, m.e),
            f: wrap_i32(spec_fixed_dot(self.d, m.c, self.e, m.f) + self.f),
        }
    }

    /// The point of the 128 x 128 torus that `(x, y)` is sent to.
    pub open spec fn eval(self, x: int, y: int) -> (int, int) {
        (
            spec_sample_coord(self.a, self.b, self.c, x, y),
            spec_sample_coord(self.d, self.e, self.f, x, y),
        )
    }

    /// Whether the two transforms agree, coefficient by coefficient, in the
    /// low bits counted by the modulus `m`.
    pub open spec fn congruent_to(self, other: Transform, m: int) -> bool {
        &&& congruent(self.a, other.a, m)
        &&& congruent(self.b, other.b, m)
        &&& congruent(self.c, other.c, m)
        &&& congruent(self.d, other.d, m)
        &&& congruent(self.e, other.e, m)
        &&& congruent(self.f, other.f, m)
    }

    /// Whether the four coefficients of the linear part are signed 22-bit
    /// values, so that their products with the fixed-point one do not wrap.
    pub open spec fn linear_part_fits_22_bits(self) -> bool {
        &&& -0x20_0000 <= self.a < 0x20_0000
        &&& -0x20_0000 <= self.b < 0x20_0000
        &&& -0x20_0000 <= self.d < 0x20_0000
        &&& -0x20_0000 <= self.e < 0x20_0000
    }

    /// Whether a shift by `(tx, ty)` ahead of this transform loses no
    /// fraction: the offset is a whole number of pixels, or the linear part
    /// carries it to a whole number of fixed-point units without wrapping.
    pub open spec fn shifts_exactly_by(self, tx: int, ty: int) -> bool {
        ||| tx % 1024 == 0 && ty % 1024 == 0
        ||| {
            &&& self.linear_part_fits_22_bits()
            &&& (self.a * tx + self.b * ty) % 1024 == 0
            &&& (self.d * tx + self.e * ty) % 1024 == 0
        }
    }

    /// Whether every coefficient is a whole number, that is, a multiple of
    /// the fixed-point one.
    pub open spec fn is_whole(self) -> bool {
        &&& self.a % 1024 == 0
        &&& self.b % 1024 == 0
        &&& self.c % 1024 == 0
        &&& self.d % 1024 == 0
        &&& self.e % 1024 == 0
        &&& self.f % 1024 == 0
    }

    /// The point of the plane that a whole transform sends `(x, y)` to,
    /// before anything is wrapped.
    pub open spec fn whole_image(self, x: int, y: int) -> (int, int) {
        (
            (self.a / 1024) * x + (self.b / 1024) * y + self.c / 1024,
            (self.d / 1024) * x + (self.e / 1024) * y + self.f / 1024,
        )
    }

    /// Whether two transforms send every point to the same place.
    pub open spec fn same_effect(self, other: Transform) -> bool {
        forall|x: int, y: int| #[trigger] self.eval(x, y) == other.eval(x, y)
    }
}

/// An affine map of the plane onto the 128 x 128 torus, held as six
/// fixed-point coefficients.
#[derive(Clone, Copy, Debug, PartialEq, Eq)]
pub struct AffineMatrix {
    a: i32,
    b: i32,
    c: i32,
    d: i32,
    e: i32,
    f: i32,
}

impl View for AffineMatrix {
    type V = Transform;

    closed spec fn view(&self) -> Transform {
        Transform {
            a: self.a as int,
            b: self.b as int,
            c: self.c as int,
            d: self.d as int,
            e: self.e as int,
            f: self.f as int,
        }
    }
}

impl AffineMatrix {
    /// The identity matrix.
    pub fn new() -> (m: Self)
        ensures
            m@ == Transform::identity(),
    {
        AffineMatrix { a: FIXED_POINT_ONE, b: 0, c: 0, d: 0, e: FIXED_POINT_ONE, f: 0 }
    }

    /// Sends the point `(x, y)` through the matrix and wraps the result onto
    /// the torus.
    pub fn transform(&self, x: u32, y: u32) -> (r: (u32, u32))
        ensures
            (r.0 as int, r.1 as int) == self@.eval(x as int, y as int),
            r.0 < 128,
            r.1 < 128,
    {
        let x_new: u32 = sample_coord(self.a, self.b, self.c, x, y);
        let y_new: u32 = sample_coord(self.d, self.e, self.f, x, y);
        (x_new, y_new)
    }

    /// Replaces the matrix by its product with `m`, so that `m` acts first.
    pub fn apply(&mut self, m: Self)
        ensures
            final(self)@ == old(self)@.compose(m@),
    {
        let a: i32 = fixed_dot(self.a, m.a, self.b, m.d);
        let b: i32 = fixed_dot(self.a, m.b, self.b, m.e);
        let c: i32 = fixed_dot(self.a, m.c, self.b, m.f).wrapping_add(self.c);
        let d: i32 = fixed_dot(self.d, m.a, self.e, m.d);
        let e: i32 = fixed_dot(self.d, m.b, self.e, m.e);
        let f: i32 = fixed_dot(self.d, m.c, self.e, m.f).wrapping_add(self.f);
        *self = AffineMatrix { a, b, c, d, e, f };
    }

    /// Shifts the input by `(tx, ty)`, given in fixed-point units, before the
    /// matrix acts.
    pub fn translate(&mut self, tx: i32, ty: i32)
        ensures
            final(self)@ == old(self)@.compose(Transform::translation(tx as int, ty as int)),
    {
        let t = AffineMatrix { a: FIXED_POINT_ONE, b: 0, c: tx, d: 0, e: FIXED_POINT_ONE, f: ty };
        self.apply(t);
    }

    /// Rotates the input before the matrix acts. The angle is given by its
    /// cosine and sine in fixed-point units.
    pub fn rotate(&mut self, cos: i32, sin: i32)
        ensures
            final(self)@ == old(self)@.compose(Transform::rotation(cos as int, sin as int)),
    {
        let t = AffineMatrix { a: cos, b: 0i32.wrapping_sub(sin), c: 0, d: sin, e: cos, f: 0 };
        self.apply(t);
    }

    /// Scales the input by the fixed-point factor `k` before the matrix acts.
    pub fn scale(&mut self, k: i32)
        ensures
            final(self)@ == old(self)@.compose(Transform::scaling(k as int)),
    {
        let t = AffineMatrix { a: k, b: 0, c: 0, d: 0, e: k, f: 0 };
        self.apply(t);
    }
}

/// Every coefficient of a matrix is a signed 32-bit value.
pub proof fn lemma_view_fits_i32(m: AffineMatrix)
    ensures
        m@.fits_i32(),
{
}

} // verus!
