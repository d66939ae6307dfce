use crate::affine_lemmas::{
    lemma_compose_with_whole_transform, lemma_identity_wraps_points, lemma_whole_image_of_scaling,
    lemma_whole_image_of_translation,
};
use crate::affine_matrix::{AffineMatrix, Transform};
use crate::bitmap::SourceBitmap;
use crate::fixed_point::wrap_i32;
use crate::raster::{column_byte, rasterize};
use vstd::prelude::*;

verus! {

/// The pivot of rotation and scaling, 64 pixels, in fixed-point units.
pub const PIVOT: i32 = 65536;

/// The horizontal shift, -64 pixels, that brings the pivot back into view.
pub const VIEW_SHIFT_X: i32 = -65536;

/// The vertical shift, -32 pixels, that brings the pivot back into view.
pub const VIEW_SHIFT_Y: i32 = -32768;

/// Ticks of the one-megahertz pacing counter between two frames, for sixty
/// frames in a second.
pub const FRAME_TICKS: u64 = 1_000_000 / 60;

/// The transform of a frame: a shift to the pivot, a rotation, a scaling and
/// a shift back into view, each acting before the ones named earlier.
pub open spec fn frame_model(cos: int, sin: int, scale: int) -> Transform {
    Transform::identity().compose(Transform::translation(65536, 65536)).compose(
        Transform::rotation(cos, sin),
    ).compose(Transform::scaling(scale)).compose(Transform::translation(-65536, -32768))
}

/// Builds the matrix of a frame from the cosine and sine of the angle of
/// rotation and from the factor of magnification, all in fixed-point units.
pub fn frame_transform(cos: i32, sin: i32, scale: i32) -> (mat: AffineMatrix)
    ensures
        mat@ == frame_model(cos as int, sin as int, scale as int),
{
    let mut mat = AffineMatrix::new();
    mat.translate(PIVOT, PIVOT);
    mat.rotate(cos, sin);
    mat.scale(scale);
    mat.translate(VIEW_SHIFT_X, VIEW_SHIFT_Y);
    mat
}

/// Draws the frame for the given rotation and magnification: the eight pages
/// that the display is to be handed, from the top down.
pub fn render_frame(cos: i32, sin: i32, scale: i32, bitmap: &SourceBitmap) -> (pages: [[u8; 128]; 8])
    ensures
        forall|p: int, x: int|
            0 <= p < 8 && 0 <= x < 128 ==> #[trigger] pages[p][x] == column_byte(
                frame_model(cos as int, sin as int, scale as int),
                *bitmap,
                p,
                x,
            ),
{
    let mat = frame_transform(cos, sin, scale);
    rasterize(&mat, bitmap)
}

/// The tick of the pacing counter at which the frame after the one due at
/// `deadline` is due.
pub fn next_deadline(deadline: u64) -> (next: u64)
    requires
        deadline + FRAME_TICKS <= u64::MAX,
    ensures
        next == deadline + FRAME_TICKS,
{
    deadline + FRAME_TICKS
}

/// The shift to the pivot, and what follows it, leave the pivot as the
/// translation of the transform.
proof fn lemma_pivot_is_translation(cos: int, sin: int, scale: int)
    ensures
        ({
            let turned = Transform::identity().compose(
                Transform::translation(65536, 65536),
            ).compose(Transform::rotation(cos, sin)).compose(Transform::scaling(scale));
            turned.c == 65536 && turned.f == 65536
        }),
{
    let at_pivot = Transform::identity().compose(Transform::translation(65536, 65536));
    assert(at_pivot.c == 65536 && at_pivot.f == 65536) by {
        assert(1024 * 65536 + 0 * 65536 == 0x400_0000);
        assert(0 * 65536 + 1024 * 65536 == 0x400_0000);
        assert(wrap_i32(0x400_0000) == 0x400_0000);
        assert(0x400_0000int / 1024 == 65536);
        assert(wrap_i32(65536int + 0) == 65536);
    }
    let turned = at_pivot.compose(Transform::rotation(cos, sin));
    assert(turned.c == 65536 && turned.f == 65536) by {
        assert(at_pivot.a * 0 + at_pivot.b * 0 == 0);
        assert(at_pivot.d * 0 + at_pivot.e * 0 == 0);
        assert(wrap_i32(0) == 0);
        assert(wrap_i32(0int + 65536) == 65536);
    }
    let scaled = turned.compose(Transform::scaling(scale));
    assert(scaled.c == 65536 && scaled.f == 65536) by {
        assert(turned.a * 0 + turned.b * 0 == 0);
        assert(turned.d * 0 + turned.e * 0 == 0);
        assert(wrap_i32(0) == 0);
        assert(wrap_i32(0int + 65536) == 65536);
    }
}

/// The pivot stands still: whatever the rotation and the magnification, the
/// display pixel in column 64 of row 32 shows the source pixel in column 64
/// of row 64.
pub proof fn lemma_frame_keeps_pivot(cos: int, sin: int, scale: int)
    ensures
        frame_model(cos, sin, scale).eval(64, 32) == (64int, 64int),
{
    let turned = Transform::identity().compose(Transform::translation(65536, 65536)).compose(
        Transform::rotation(cos, sin),
    ).compose(Transform::scaling(scale));
    let back = Transform::translation(-65536, -32768);
    lemma_compose_with_whole_transform(turned, back, 64, 32);
    assert(back.whole_image(64, 32) == (0int, 0int));
    lemma_pivot_is_translation(cos, sin, scale);
    assert(turned.eval(0, 0) == (64int, 64int)) by {
        assert(turned.a * 0 + turned.b * 0 + turned.c == 65536);
        assert(turned.d * 0 + turned.e * 0 + turned.f == 65536);
    }
}

/// Upright and at full size, a frame shows the source bitmap moved up by 32
/// rows: the display pixel in column `x` of row `y` shows the source pixel
/// in column `x` of row `y + 32`.
pub proof fn lemma_still_frame_shows_rows_from_32(x: int, y: int)
    ensures
        frame_model(1024, 0, 1024).eval(x, y) == (x % 128, (y + 32) % 128),
{
    let to_pivot = Transform::translation(65536, 65536);
    let upright = Transform::rotation(1024, 0);
    let full = Transform::scaling(1024);
    let back = Transform::translation(-65536, -32768);
    let at_pivot = Transform::identity().compose(to_pivot);
    let turned = at_pivot.compose(upright);
    let scaled = turned.compose(full);
    lemma_whole_image_of_translation(-64, -32, x, y);
    lemma_whole_image_of_scaling(1, x - 64, y - 32);
    assert(upright == full);
    lemma_whole_image_of_translation(64, 64, x - 64, y - 32);
    lemma_compose_with_whole_transform(scaled, back, x, y);
    lemma_compose_with_whole_transform(turned, full, x - 64, y - 32);
    lemma_compose_with_whole_transform(at_pivot, upright, x - 64, y - 32);
    lemma_compose_with_whole_transform(Transform::identity(), to_pivot, x - 64, y - 32);
    lemma_identity_wraps_points(x, y + 32);
}

} // verus!
