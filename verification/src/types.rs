use vstd::prelude::*;

verus! {

/// An image as 8-bit RGBA bytes, row by row; the alpha byte is unused.
#[derive(Clone, Debug)]
pub struct RawImage {
    pub width: usize,
    pub height: usize,
    pub pixels: Vec<u8>,
}

/// The offset of the first byte of pixel (x, y) in an RGBA image of the
/// given width.
pub open spec fn pixel_offset(width: int, x: int, y: int) -> int {
    (y * width + x) * 4
}

impl RawImage {
    /// Whether the bytes of pixel (x, y) are there to read, where the pixel
    /// lies inside the image.
    pub open spec fn covers(&self, x: int, y: int) -> bool {
        (x < self.width && y < self.height) ==> pixel_offset(self.width as int, x, y) + 2
            < self.pixels@.len()
    }

    /// The red, green and blue bytes of pixel (x, y), or `None` outside the
    /// image.
    pub fn rgb_bytes_at(&self, x: usize, y: usize) -> (result: Option<(u8, u8, u8)>)
        requires
            self.covers(x as int, y as int),
        ensures
            (x < self.width && y < self.height) <==> result.is_some(),
            result matches Some((red, green, blue)) ==> {
                let offset = pixel_offset(self.width as int, x as int, y as int);
                &&& red == self.pixels@[offset]
                &&& green == self.pixels@[offset + 1]
                &&& blue == self.pixels@[offset + 2]
            },
    {
        if x < self.width && y < self.height {
            let len = self.pixels.len();
            proof {
                assert(0 <= y * self.width + x && (y * self.width + x) * 4 + 2 < len)
                    by (nonlinear_arith)
                    requires
                        (y * self.width + x) * 4 + 2 < len,
                        x >= 0,
                        y >= 0,
                        self.width >= 0,
                ;
            }
            let pixel_index: usize = (y * self.width + x) * 4;
            let red: u8 = self.pixels[pixel_index];
            let green: u8 = self.pixels[pixel_index + 1];
            let blue: u8 = self.pixels[pixel_index + 2];
            Some((red, green, blue))
        } else {
            None
        }
    }
}

} // verus!

verus! {

/// An image of `width` by `height` pixels of any kind, row by row.
#[derive(Clone, Debug)]
pub struct PixelImage<T> {
    pub width: usize,
    pub height: usize,
    pub pixels: Vec<T>,
}

} // verus!

verus! {

/// Pixels lie four bytes apart along a row, rows lie `4 * width` bytes
/// apart, and the first pixel starts at byte 0.
pub proof fn lemma_pixel_offset_layout(width: int, x: int, y: int)
    ensures
        pixel_offset(width, 0, 0) == 0,
        pixel_offset(width, x + 1, y) == pixel_offset(width, x, y) + 4,
        pixel_offset(width, x, y + 1) == pixel_offset(width, x, y) + 4 * width,
{
    assert((y + 1) * width == y * width + width) by (nonlinear_arith);
}

} // verus!
