use crate::affine_lemmas::lemma_identity_fixes_points;
use crate::affine_matrix::{AffineMatrix, Transform};
use crate::bitmap::SourceBitmap;
use vstd::prelude::*;

verus! {

/// Number of pages of the display.
pub const PAGES: u32 = 8;

/// Number of columns of the display, and of bytes in a page.
pub const COLUMNS: u32 = 128;

/// Number of pixel rows that a page stacks in each of its bytes.
pub const ROWS_PER_PAGE: u32 = 8;

/// The display row that bit `dy` of page `page` shows, wrapped to the 128
/// rows of the source.
pub open spec fn display_row(page: int, dy: int) -> int {
    (page * 8 + dy) % 128
}

/// Whether the display pixel in column `x`, bit `dy` of page `page` is lit:
/// whether the source pixel that the transform sends it to is set.
pub open spec fn lit(t: Transform, bitmap: SourceBitmap, page: int, x: int, dy: int) -> bool {
    let to = t.eval(x, display_row(page, dy));
    bitmap.pixel_at(to.0, to.1)
}

/// The value that bit `dy` adds to a byte.
pub open spec fn bit_weight(dy: int) -> int {
    if dy <= 0 {
        1
    } else if dy == 1 {
        2
    } else if dy == 2 {
        4
    } else if dy == 3 {
        8
    } else if dy == 4 {
        16
    } else if dy == 5 {
        32
    } else if dy == 6 {
        64
    } else if dy == 7 {
        128
    } else {
        256
    }
}

/// What bit `dy` adds to the byte in column `x` of page `page`.
pub open spec fn lit_weight(t: Transform, bitmap: SourceBitmap, page: int, x: int, dy: int) -> int {
    if lit(t, bitmap, page, x, dy) {
        bit_weight(dy)
    } else {
        0
    }
}

/// The byte in column `x` of page `page`, with the bits from `n` on left
/// clear.
pub open spec fn column_bits(t: Transform, bitmap: SourceBitmap, page: int, x: int, n: int) -> int
    decreases n,
{
    if n <= 0 {
        0
    } else {
        column_bits(t, bitmap, page, x, n - 1) + lit_weight(t, bitmap, page, x, n - 1)
    }
}

/// The byte in column `x` of page `page`: bit `dy` is set where the display
/// pixel in row `page * 8 + dy` is lit.
pub open spec fn column_byte(t: Transform, bitmap: SourceBitmap, page: int, x: int) -> int {
    column_bits(t, bitmap, page, x, 8)
}

/// The bits below `n` amount to less than the weight of bit `n`.
proof fn lemma_column_bits_bound(t: Transform, bitmap: SourceBitmap, page: int, x: int, n: int)
    requires
        0 <= n <= 8,
    ensures
        0 <= column_bits(t, bitmap, page, x, n) < bit_weight(n),
    decreases n,
{
    if n > 0 {
        lemma_column_bits_bound(t, bitmap, page, x, n - 1);
    }
}

/// Draws one byte: the eight display pixels of column `x` in page `page`.
pub fn render_column(mat: &AffineMatrix, bitmap: &SourceBitmap, page: u32, x: u32) -> (dat: u8)
    ensures
        dat == column_byte(mat@, *bitmap, page as int, x as int),
{
    let mut dat: u8 = 0;
    let mut dy: u32 = 0;
    while dy < ROWS_PER_PAGE
        invariant
            dy <= 8,
            dat == column_bits(mat@, *bitmap, page as int, x as int, dy as int),
        decreases 8 - dy,
    {
        let band: u32 = page & 0xf;
        assert(band < 16 && (band * 8 + dy) == (page * 8 + dy) % 128) by (bit_vector)
            requires
                dy < 8,
                band == page & 0xf,
        ;
        let y: u32 = band * ROWS_PER_PAGE + dy;
        let (x1, y1) = mat.transform(x, y);
        proof {
            lemma_column_bits_bound(mat@, *bitmap, page as int, x as int, dy as int);
        }
        if bitmap.pixel(x1, y1) {
            let bit: u8 = 1u8 << dy;
            assert(bit == bit_weight(dy as int) && dat | bit == dat + bit) by (bit_vector)
                requires
                    dy < 8,
                    bit == 1u8 << dy,
                    dat < bit_weight(dy as int),
            ;
            dat |= bit;
        }
        dy += 1;
    }
    dat
}

/// Draws one page: a band of eight display rows, one byte for each column.
pub fn render_page(mat: &AffineMatrix, bitmap: &SourceBitmap, page: u32) -> (d: [u8; 128])
    ensures
        forall|x: int| 0 <= x < 128 ==> d[x] == column_byte(mat@, *bitmap, page as int, x),
{
    let mut d: [u8; 128] = [0;128];
    let mut x: u32 = 0;
    while x < COLUMNS
        invariant
            x <= 128,
            forall|j: int| 0 <= j < x ==> d[j] == column_byte(mat@, *bitmap, page as int, j),
        decreases 128 - x,
    {
        d[x as usize] = render_column(mat, bitmap, page, x);
        x += 1;
    }
    d
}

/// Draws a frame: the eight pages of the display, from the top down.
pub fn rasterize(mat: &AffineMatrix, bitmap: &SourceBitmap) -> (pages: [[u8; 128]; 8])
    ensures
        forall|p: int, x: int|
            0 <= p < 8 && 0 <= x < 128 ==> #[trigger] pages[p][x] == column_byte(
                mat@,
                *bitmap,
                p,
                x,
            ),
{
    let mut pages: [[u8; 128]; 8] = [[0;128];8];
    let mut p: u32 = 0;
    while p < PAGES
        invariant
            p <= 8,
            forall|q: int, x: int|
                0 <= q < p && 0 <= x < 128 ==> #[trigger] pages[q][x] == column_byte(
                    mat@,
                    *bitmap,
                    q,
                    x,
                ),
        decreases 8 - p,
    {
        pages[p as usize] = render_page(mat, bitmap, p);
        p += 1;
    }
    pages
}

/// Bit `dy` of a drawn byte is set exactly where the display pixel in row
/// `page * 8 + dy` of its column is lit.
pub proof fn lemma_column_byte_bits(t: Transform, bitmap: SourceBitmap, page: int, x: int, dy: int)
    requires
        0 <= dy < 8,
    ensures
        0 <= column_byte(t, bitmap, page, x) < 256,
        (column_byte(t, bitmap, page, x) / bit_weight(dy)) % 2 == 1 <==> lit(
            t,
            bitmap,
            page,
            x,
            dy,
        ),
{
    reveal_with_fuel(column_bits, 9);
    let v0: u8 = lit_weight(t, bitmap, page, x, 0) as u8;
    let v1: u8 = lit_weight(t, bitmap, page, x, 1) as u8;
    let v2: u8 = lit_weight(t, bitmap, page, x, 2) as u8;
    let v3: u8 = lit_weight(t, bitmap, page, x, 3) as u8;
    let v4: u8 = lit_weight(t, bitmap, page, x, 4) as u8;
    let v5: u8 = lit_weight(t, bitmap, page, x, 5) as u8;
    let v6: u8 = lit_weight(t, bitmap, page, x, 6) as u8;
    let v7: u8 = lit_weight(t, bitmap, page, x, 7) as u8;
    let d: u8 = dy as u8;
    let on: bool = lit(t, bitmap, page, x, dy);
    assert(column_byte(t, bitmap, page, x) == v0 + v1 + v2 + v3 + v4 + v5 + v6 + v7);
    assert(((v0 + v1 + v2 + v3 + v4 + v5 + v6 + v7) / bit_weight(d as int)) % 2 == 1 <==> on)
        by (bit_vector)
        requires
            d < 8,
            v0 == 0 || v0 == 1,
            v1 == 0 || v1 == 2,
            v2 == 0 || v2 == 4,
            v3 == 0 || v3 == 8,
            v4 == 0 || v4 == 16,
            v5 == 0 || v5 == 32,
            v6 == 0 || v6 == 64,
            v7 == 0 || v7 == 128,
            on == if d == 0 {
                v0 != 0
            } else if d == 1 {
                v1 != 0
            } else if d == 2 {
                v2 != 0
            } else if d == 3 {
                v3 != 0
            } else if d == 4 {
                v4 != 0
            } else if d == 5 {
                v5 != 0
            } else if d == 6 {
                v6 != 0
            } else {
                v7 != 0
            },
    ;
}

/// Under the identity the display shows the source bitmap as it is: the
/// display pixel in column `x` and row `page * 8 + dy` is lit exactly where
/// that pixel of the source is set.
pub proof fn lemma_identity_copies_bitmap(bitmap: SourceBitmap, page: int, x: int, dy: int)
    requires
        0 <= page < 16,
        0 <= x < 128,
        0 <= dy < 8,
    ensures
        lit(Transform::identity(), bitmap, page, x, dy) == bitmap.pixel_at(x, page * 8 + dy),
{
    lemma_identity_fixes_points(x, page * 8 + dy);
}

/// Under the identity a source bitmap whose only set pixel is the one in the
/// top left corner lights exactly one bit of the frame: bit 0 of column 0 of
/// page 0.
pub proof fn lemma_identity_single_pixel(bitmap: SourceBitmap, page: int, x: int)
    requires
        0 <= page < 8,
        0 <= x < 128,
        forall|u: int, v: int|
            0 <= u < 128 && 0 <= v < 128 ==> (#[trigger] bitmap.pixel_at(u, v) <==> u == 0 && v
                == 0),
    ensures
        column_byte(Transform::identity(), bitmap, page, x) == if page == 0 && x == 0 {
            1int
        } else {
            0int
        },
{
    reveal_with_fuel(column_bits, 9);
    assert forall|dy: int| 0 <= dy < 8 implies (#[trigger] lit(
        Transform::identity(),
        bitmap,
        page,
        x,
        dy,
    ) <==> page == 0 && x == 0 && dy == 0) by {
        lemma_identity_copies_bitmap(bitmap, page, x, dy);
    }
}

} // verus!
