use rotozoomer::affine_matrix::AffineMatrix;
use rotozoomer::fixed_point::{fixed_dot, sample_coord, FIXED_POINT_FRAC_BITS, FIXED_POINT_ONE};

/// Six coefficients, composed and evaluated with the plain wrapping
/// operations of the machine.
#[derive(Clone, Copy)]
struct Plain {
    a: i32,
    b: i32,
    c: i32,
    d: i32,
    e: i32,
    f: i32,
}

fn plain_identity() -> Plain {
    Plain { a: 1024, b: 0, c: 0, d: 0, e: 1024, f: 0 }
}

fn plain_apply(t: Plain, m: Plain) -> Plain {
    Plain {
        a: (t.a.wrapping_mul(m.a)).wrapping_add(t.b.wrapping_mul(m.d)) >> 10,
        b: (t.a.wrapping_mul(m.b)).wrapping_add(t.b.wrapping_mul(m.e)) >> 10,
        c: ((t.a.wrapping_mul(m.c)).wrapping_add(t.b.wrapping_mul(m.f)) >> 10).wrapping_add(t.c),
        d: (t.d.wrapping_mul(m.a)).wrapping_add(t.e.wrapping_mul(m.d)) >> 10,
        e: (t.d.wrapping_mul(m.b)).wrapping_add(t.e.wrapping_mul(m.e)) >> 10,
        f: ((t.d.wrapping_mul(m.c)).wrapping_add(t.e.wrapping_mul(m.f)) >> 10).wrapping_add(t.f),
    }
}

fn plain_transform(t: Plain, x: u32, y: u32) -> (u32, u32) {
    let xs: i32 = x as i32;
    let ys: i32 = y as i32;
    let x_new: u32 =
        ((t.a.wrapping_mul(xs).wrapping_add(t.b.wrapping_mul(ys)).wrapping_add(t.c)) as u32 >> 10)
            & 0x7f;
    let y_new: u32 =
        ((t.d.wrapping_mul(xs).wrapping_add(t.e.wrapping_mul(ys)).wrapping_add(t.f)) as u32 >> 10)
            & 0x7f;
    (x_new, y_new)
}

fn next_random(seed: &mut u32) -> u32 {
    *seed = seed.wrapping_mul(1664525).wrapping_add(1013904223);
    *seed
}

fn assert_same_on_grid(mat: &AffineMatrix, plain: Plain) {
    let mut y: u32 = 0;
    while y < 128 {
        let mut x: u32 = 0;
        while x < 128 {
            assert_eq!(mat.transform(x, y), plain_transform(plain, x, y));
            x += 1;
        }
        y += 1;
    }
}

#[test]
fn fixed_point_constants() {
    assert_eq!(FIXED_POINT_FRAC_BITS, 10);
    assert_eq!(FIXED_POINT_ONE, 1 << 10);
}

#[test]
fn identity_leaves_bitmap_points_unchanged() {
    let mat = AffineMatrix::new();
    let mut y: u32 = 0;
    while y < 128 {
        let mut x: u32 = 0;
        while x < 128 {
            assert_eq!(mat.transform(x, y), (x, y));
            x += 1;
        }
        y += 1;
    }
}

#[test]
fn identity_wraps_points_outside_the_bitmap() {
    let mat = AffineMatrix::new();
    assert_eq!(mat.transform(128, 300), (0, 44));
    assert_eq!(mat.transform(129, 127), (1, 127));
    assert_eq!(mat.transform(u32::MAX, u32::MAX), (127, 127));
    assert_eq!(mat.transform(0x8000_0000, 0x8000_0005), (0, 5));
}

#[test]
fn transform_stays_in_range_for_any_input() {
    let mut seed: u32 = 2024;
    let mut round: u32 = 0;
    while round < 2000 {
        let mut mat = AffineMatrix::new();
        mat.translate(next_random(&mut seed) as i32, next_random(&mut seed) as i32);
        mat.rotate(next_random(&mut seed) as i32, next_random(&mut seed) as i32);
        mat.scale(next_random(&mut seed) as i32);
        let x: u32 = next_random(&mut seed);
        let y: u32 = next_random(&mut seed);
        let (x1, y1) = mat.transform(x, y);
        assert!(x1 <= 127);
        assert!(y1 <= 127);
        round += 1;
    }
    let mut edge = AffineMatrix::new();
    edge.scale(i32::MIN);
    let (x1, y1) = edge.transform(u32::MAX, u32::MAX);
    assert!(x1 <= 127 && y1 <= 127);
}

#[test]
fn translate_moves_the_sample_point() {
    let mut mat = AffineMatrix::new();
    mat.translate(64 * 1024, 32 * 1024);
    assert_eq!(mat.transform(0, 0), (64, 32));
    assert_eq!(mat.transform(10, 20), (74, 52));
    assert_eq!(mat.transform(100, 100), (36, 4));
}

#[test]
fn translate_by_a_fraction_rounds_down() {
    let mut mat = AffineMatrix::new();
    mat.translate(1536, -512);
    assert_eq!(mat.transform(0, 0), (1, 127));
    assert_eq!(mat.transform(5, 5), (6, 4));
}

#[test]
fn rotate_by_a_quarter_turn() {
    let mut mat = AffineMatrix::new();
    mat.rotate(0, 1024);
    assert_eq!(mat.transform(1, 0), (0, 1));
    assert_eq!(mat.transform(0, 1), (127, 0));
    assert_eq!(mat.transform(3, 5), (123, 3));
}

#[test]
fn rotate_by_half_a_turn() {
    let mut mat = AffineMatrix::new();
    mat.rotate(-1024, 0);
    assert_eq!(mat.transform(1, 2), (127, 126));
    assert_eq!(mat.transform(0, 0), (0, 0));
}

#[test]
fn scale_multiplies_the_sample_point() {
    let mut half = AffineMatrix::new();
    half.scale(512);
    assert_eq!(half.transform(10, 20), (5, 10));
    assert_eq!(half.transform(11, 21), (5, 10));
    let mut double = AffineMatrix::new();
    double.scale(2048);
    assert_eq!(double.transform(10, 20), (20, 40));
    assert_eq!(double.transform(100, 100), (72, 72));
}

#[test]
fn later_steps_act_first() {
    let mut shift_then_scale = AffineMatrix::new();
    shift_then_scale.translate(64 * 1024, 64 * 1024);
    shift_then_scale.scale(2048);
    assert_eq!(shift_then_scale.transform(1, 1), (66, 66));
    let mut scale_then_shift = AffineMatrix::new();
    scale_then_shift.scale(2048);
    scale_then_shift.translate(64 * 1024, 64 * 1024);
    assert_eq!(scale_then_shift.transform(1, 1), (2, 2));
}

#[test]
fn apply_multiplies_matrices() {
    let mut left = AffineMatrix::new();
    left.scale(2048);
    let mut right = AffineMatrix::new();
    right.translate(3 * 1024, 5 * 1024);
    left.apply(right);
    assert_eq!(left.transform(0, 0), (6, 10));
    assert_eq!(left.transform(1, 2), (8, 14));
}

#[test]
fn apply_with_the_identity_changes_nothing() {
    let mut mat = AffineMatrix::new();
    mat.translate(7 * 1024, 9 * 1024);
    mat.rotate(887, 512);
    let mut plain = plain_identity();
    plain = plain_apply(plain, Plain { a: 1024, b: 0, c: 7168, d: 0, e: 1024, f: 9216 });
    plain = plain_apply(plain, Plain { a: 887, b: -512, c: 0, d: 512, e: 887, f: 0 });
    mat.apply(AffineMatrix::new());
    assert_same_on_grid(&mat, plain);
}

#[test]
fn composition_wraps_instead_of_overflowing() {
    let mut mat = AffineMatrix::new();
    mat.scale(i32::MAX);
    assert_eq!(mat.transform(1024, 2048), (127, 126));
    mat.scale(i32::MAX);
    mat.translate(i32::MIN, i32::MAX);
    mat.rotate(i32::MIN, i32::MIN);
    let (x1, y1) = mat.transform(u32::MAX, 1);
    assert!(x1 < 128 && y1 < 128);
}

#[test]
fn composition_agrees_with_plain_wrapping_arithmetic() {
    let mut seed: u32 = 7;
    let mut round: u32 = 0;
    while round < 200 {
        let tx: i32 = next_random(&mut seed) as i32;
        let ty: i32 = next_random(&mut seed) as i32;
        let cos: i32 = (next_random(&mut seed) % 2049) as i32 - 1024;
        let sin: i32 = (next_random(&mut seed) % 2049) as i32 - 1024;
        let k: i32 = (next_random(&mut seed) % 4096) as i32;
        let mut mat = AffineMatrix::new();
        mat.translate(tx, ty);
        mat.rotate(cos, sin);
        mat.scale(k);
        let mut plain = plain_identity();
        plain = plain_apply(plain, Plain { a: 1024, b: 0, c: tx, d: 0, e: 1024, f: ty });
        plain = plain_apply(plain, Plain { a: cos, b: -sin, c: 0, d: sin, e: cos, f: 0 });
        plain = plain_apply(plain, Plain { a: k, b: 0, c: 0, d: 0, e: k, f: 0 });
        let mut probe: u32 = 0;
        while probe < 50 {
            let x: u32 = next_random(&mut seed);
            let y: u32 = next_random(&mut seed);
            assert_eq!(mat.transform(x, y), plain_transform(plain, x, y));
            probe += 1;
        }
        round += 1;
    }
}

#[test]
fn rotation_from_an_angle_agrees_with_plain_arithmetic() {
    let theta: f32 = 0.5;
    let cos: i32 = (theta.cos() * 1024.0) as i32;
    let sin: i32 = (theta.sin() * 1024.0) as i32;
    assert_eq!(cos, 898);
    assert_eq!(sin, 490);
    let mut mat = AffineMatrix::new();
    mat.rotate(cos, sin);
    let plain = plain_apply(
        plain_identity(),
        Plain { a: 898, b: -490, c: 0, d: 490, e: 898, f: 0 },
    );
    assert_same_on_grid(&mat, plain);
    assert_eq!(mat.transform(100, 0), (87, 47));
}

#[test]
fn translate_and_back_has_the_effect_of_the_matrix_alone() {
    let mut seed: u32 = 99;
    let mut round: u32 = 0;
    while round < 100 {
        let cos: i32 = next_random(&mut seed) as i32;
        let sin: i32 = next_random(&mut seed) as i32;
        let k: i32 = next_random(&mut seed) as i32;
        let px: i32 = (next_random(&mut seed) % 4001) as i32 - 2000;
        let py: i32 = (next_random(&mut seed) % 4001) as i32 - 2000;
        let mut alone = AffineMatrix::new();
        alone.translate(next_random(&mut seed) as i32, next_random(&mut seed) as i32);
        alone.rotate(cos, sin);
        alone.scale(k);
        let mut round_trip = alone;
        round_trip.translate(px * 1024, py * 1024);
        round_trip.translate(-px * 1024, -py * 1024);
        let mut probe: u32 = 0;
        while probe < 50 {
            let x: u32 = next_random(&mut seed);
            let y: u32 = next_random(&mut seed);
            assert_eq!(round_trip.transform(x, y), alone.transform(x, y));
            probe += 1;
        }
        round += 1;
    }
}

#[test]
fn translate_and_back_by_a_fraction_can_lose_a_unit() {
    let mut shrunk = AffineMatrix::new();
    shrunk.translate(5 * 1024, 0);
    let mut tiny = AffineMatrix::new();
    tiny.scale(1);
    shrunk.apply(tiny);
    assert_eq!(shrunk.transform(0, 0), (5, 0));
    shrunk.translate(1, 0);
    shrunk.translate(-1, 0);
    assert_eq!(shrunk.transform(0, 0), (4, 0));
}

#[test]
fn fixed_dot_gives_exact_values() {
    assert_eq!(fixed_dot(1024, 1024, 0, 0), 1024);
    assert_eq!(fixed_dot(3, 512, 5, 512), 4);
    assert_eq!(fixed_dot(1024, 7, 1024, -9), -2);
    assert_eq!(fixed_dot(-1, 1, 0, 0), -1);
    assert_eq!(fixed_dot(1, 1023, 0, 0), 0);
    assert_eq!(fixed_dot(i32::MAX, 2, 0, 0), -1);
    assert_eq!(fixed_dot(65536, 65536, 0, 0), 0);
    assert_eq!(fixed_dot(i32::MIN, 1, i32::MIN, 1), 0);
}

#[test]
fn sample_coord_gives_exact_values() {
    assert_eq!(sample_coord(1024, 0, 0, 5, 9), 5);
    assert_eq!(sample_coord(0, 1024, 0, 5, 9), 9);
    assert_eq!(sample_coord(512, 512, 1024, 2, 4), 4);
    assert_eq!(sample_coord(0, 0, -1, 0, 0), 127);
    assert_eq!(sample_coord(1024, 0, 0, 130, 0), 2);
    assert_eq!(sample_coord(-1024, 0, 0, 1, 0), 127);
    assert_eq!(sample_coord(i32::MAX, i32::MAX, i32::MAX, u32::MAX, u32::MAX), 0);
}

#[test]
fn identity_is_a_unit_on_both_sides() {
    let mut seed: u32 = 4711;
    let mut round: u32 = 0;
    while round < 100 {
        let mut mat = AffineMatrix::new();
        mat.translate(next_random(&mut seed) as i32, next_random(&mut seed) as i32);
        mat.rotate(next_random(&mut seed) as i32, next_random(&mut seed) as i32);
        mat.scale(next_random(&mut seed) as i32);
        let mut behind = mat;
        behind.apply(AffineMatrix::new());
        let mut ahead = AffineMatrix::new();
        ahead.apply(mat);
        let mut probe: u32 = 0;
        while probe < 50 {
            let x: u32 = next_random(&mut seed);
            let y: u32 = next_random(&mut seed);
            assert_eq!(behind.transform(x, y), mat.transform(x, y));
            assert_eq!(ahead.transform(x, y), mat.transform(x, y));
            probe += 1;
        }
        round += 1;
    }
}

#[test]
fn translate_and_back_ahead_of_a_matrix_has_the_effect_of_the_matrix_alone() {
    let mut seed: u32 = 31337;
    let mut round: u32 = 0;
    while round < 100 {
        let tx: i32 = (next_random(&mut seed) >> 1) as i32 - 0x3fff_ffff;
        let ty: i32 = (next_random(&mut seed) >> 1) as i32 - 0x3fff_ffff;
        let mut alone = AffineMatrix::new();
        alone.translate(next_random(&mut seed) as i32, next_random(&mut seed) as i32);
        alone.rotate(next_random(&mut seed) as i32, next_random(&mut seed) as i32);
        alone.scale(next_random(&mut seed) as i32);
        let mut round_trip = AffineMatrix::new();
        round_trip.translate(tx, ty);
        round_trip.translate(-tx, -ty);
        round_trip.apply(alone);
        let mut probe: u32 = 0;
        while probe < 50 {
            let x: u32 = next_random(&mut seed);
            let y: u32 = next_random(&mut seed);
            assert_eq!(round_trip.transform(x, y), alone.transform(x, y));
            probe += 1;
        }
        round += 1;
    }
}

#[test]
fn translate_by_whole_pixels_shifts_the_point_that_is_sampled() {
    let mut seed: u32 = 555;
    let mut round: u32 = 0;
    while round < 100 {
        let px: u32 = next_random(&mut seed) % 1000;
        let py: u32 = next_random(&mut seed) % 1000;
        let mut mat = AffineMatrix::new();
        mat.rotate(next_random(&mut seed) as i32, next_random(&mut seed) as i32);
        mat.scale(next_random(&mut seed) as i32);
        let mut shifted = mat;
        shifted.translate((px * 1024) as i32, (py * 1024) as i32);
        let mut probe: u32 = 0;
        while probe < 50 {
            let x: u32 = next_random(&mut seed) % 100_000;
            let y: u32 = next_random(&mut seed) % 100_000;
            assert_eq!(shifted.transform(x, y), mat.transform(x + px, y + py));
            probe += 1;
        }
        round += 1;
    }
}

#[test]
fn scale_by_a_whole_factor_multiplies_the_point_that_is_sampled() {
    let mut mat = AffineMatrix::new();
    mat.translate(3 * 1024, 7 * 1024);
    mat.rotate(600, -830);
    let mut tripled = mat;
    tripled.scale(3 * 1024);
    let mut y: u32 = 0;
    while y < 128 {
        let mut x: u32 = 0;
        while x < 128 {
            assert_eq!(tripled.transform(x, y), mat.transform(3 * x, 3 * y));
            x += 1;
        }
        y += 1;
    }
}
