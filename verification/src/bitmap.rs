use vstd::prelude::*;

verus! {

/// Width and height of the source bitmap, in pixels.
pub const BITMAP_SIDE: u32 = 128;

/// Number of pixels of the source bitmap.
pub const BITMAP_PIXELS: usize = 16384;

/// Number of bytes that the asset spends on its header.
pub const ASSET_HEADER_BYTES: usize = 57;

/// Number of bytes of the shortest asset that holds a whole bitmap: the
/// header, then sixteen bytes for each of the 128 rows.
pub const ASSET_MIN_BYTES: usize = 2105;

/// Whether bit `k` of `byte` is set, where bit 0 is the most significant.
pub open spec fn msb_first_bit(byte: u8, k: u8) -> bool {
    byte & (0x80u8 >> k) != 0
}

/// Pixel `i` of the bitmap that an asset holds, counted row by row.
pub open spec fn asset_pixel(asset: Seq<u8>, i: int) -> bool {
    msb_first_bit(asset[57 + i / 8], (i % 8) as u8)
}

/// A picture of 128 x 128 pixels, each of them set or clear.
pub struct SourceBitmap {
    pixels: [bool; 16384],
}

impl View for SourceBitmap {
    type V = Seq<bool>;

    closed spec fn view(&self) -> Seq<bool> {
        self.pixels@
    }
}

impl SourceBitmap {
    /// Whether the pixel in column `x` of row `y` is set.
    pub open spec fn pixel_at(&self, x: int, y: int) -> bool {
        self@[y * 128 + x]
    }

    /// Unpacks the bitmap that follows the header of `asset`, or gives `None`
    /// where the asset is too short to hold one.
    pub fn decode(asset: &[u8]) -> (res: Option<SourceBitmap>)
        ensures
            res.is_some() <==> asset@.len() >= 2105,
            res matches Some(bitmap) ==> {
                &&& bitmap@.len() == 16384
                &&& forall|i: int| 0 <= i < 16384 ==> bitmap@[i] == asset_pixel(asset@, i)
            },
    {
        if asset.len() < ASSET_MIN_BYTES {
            return None;
        }
        let mut pixels: [bool; 16384] = [false;16384];
        let mut i: usize = 0;
        while i < BITMAP_PIXELS
            invariant
                i <= 16384,
                asset@.len() >= 2105,
                forall|j: int| 0 <= j < i ==> pixels@[j] == asset_pixel(asset@, j),
            decreases 16384 - i,
        {
            let byte: u8 = asset[ASSET_HEADER_BYTES + i / 8];
            let k: u8 = (i % 8) as u8;
            pixels[i] = byte & (0x80u8 >> k) != 0;
            i += 1;
        }
        Some(SourceBitmap { pixels })
    }

    /// Whether the pixel in column `x` of row `y` is set.
    pub fn pixel(&self, x: u32, y: u32) -> (set: bool)
        requires
            x < 128,
            y < 128,
        ensures
            set == self.pixel_at(x as int, y as int),
    {
        self.pixels[(y * BITMAP_SIDE + x) as usize]
    }
}

} // verus!
