use vstd::prelude::*;

use crate::types::{PixelImage, RawImage};

verus! {

/// The side, in pixels, that a thumbnail comes near.
pub const THUMBNAIL_SIZE: usize = 100;

/// The stride that takes every n-th pixel of a side of length `size` so
/// that about `THUMBNAIL_SIZE` remain: at least 1.
pub open spec fn thumbnail_skip(size: int) -> int {
    if size / (THUMBNAIL_SIZE as int) > 1 {
        size / (THUMBNAIL_SIZE as int)
    } else {
        1
    }
}

/// The position in the source of pixel `k` of a thumbnail `target_width`
/// wide, sampled with the given strides from a source `width` wide.
pub open spec fn thumbnail_source(
    k: int,
    target_width: int,
    width_skip: int,
    height_skip: int,
    width: int,
) -> int {
    ((k / target_width) * height_skip) * width + (k % target_width) * width_skip
}

/// Every pixel a thumbnail of `image` samples is there to read.
pub open spec fn thumbnail_sources_present<T>(image: PixelImage<T>) -> bool {
    let width_skip = thumbnail_skip(image.width as int);
    let height_skip = thumbnail_skip(image.height as int);
    let target_width = (image.width as int) / width_skip;
    let target_height = (image.height as int) / height_skip;
    forall|k: int|
        0 <= k < target_width * target_height ==> #[trigger] thumbnail_source(
            k,
            target_width,
            width_skip,
            height_skip,
            image.width as int,
        ) < image.pixels@.len()
}

fn skip_for(size: usize) -> (result: usize)
    ensures
        result == thumbnail_skip(size as int),
        result >= 1,
{
    let divided = size / THUMBNAIL_SIZE;
    if divided > 1 {
        divided
    } else {
        1
    }
}

/// A thumbnail of `image` made by keeping every n-th pixel of every n-th
/// row, with strides that leave about `THUMBNAIL_SIZE` pixels a side.
pub fn resize_to_thumbnail_size<T: Copy>(image: &PixelImage<T>) -> (result: PixelImage<T>)
    requires
        thumbnail_sources_present(*image),
    ensures
        ({
            let width_skip = thumbnail_skip(image.width as int);
            let height_skip = thumbnail_skip(image.height as int);
            &&& result.width == (image.width as int) / width_skip
            &&& result.height == (image.height as int) / height_skip
            &&& result.pixels@.len() == result.width * result.height
            &&& forall|k: int|
                0 <= k < result.pixels@.len() ==> #[trigger] result.pixels@[k] == image.pixels@[thumbnail_source(
                    k,
                    result.width as int,
                    width_skip,
                    height_skip,
                    image.width as int,
                )]
        }),
{
    let width_skip: usize = skip_for(image.width);
    let height_skip: usize = skip_for(image.height);
    let target_width: usize = image.width / width_skip;
    let target_height: usize = image.height / height_skip;
    let ghost tw = target_width as int;
    let mut pixels: Vec<T> = Vec::new();
    let mut h: usize = 0;
    while h < target_height
        invariant
            h <= target_height,
            tw == target_width as int,
            pixels@.len() == h * tw,
            width_skip == thumbnail_skip(image.width as int),
            height_skip == thumbnail_skip(image.height as int),
            target_width == (image.width as int) / (width_skip as int),
            target_height == (image.height as int) / (height_skip as int),
            thumbnail_sources_present(*image),
            forall|k: int| 0 <= k < pixels@.len() ==> #[trigger] pixels@[k] == image.pixels@[thumbnail_source(k, tw, width_skip as int, height_skip as int, image.width as int)],
        decreases target_height - h,
    {
        let mut w: usize = 0;
        while w < target_width
            invariant
                h < target_height,
                w <= target_width,
                tw == target_width as int,
                pixels@.len() == h * tw + w,
                width_skip == thumbnail_skip(image.width as int),
                height_skip == thumbnail_skip(image.height as int),
                target_width == (image.width as int) / (width_skip as int),
                target_height == (image.height as int) / (height_skip as int),
                thumbnail_sources_present(*image),
                forall|k: int| 0 <= k < pixels@.len() ==> #[trigger] pixels@[k] == image.pixels@[thumbnail_source(k, tw, width_skip as int, height_skip as int, image.width as int)],
            decreases target_width - w,
        {
            let ghost k = h * tw + w;
            proof {
                assert(0 <= k < tw * (target_height as int)) by (nonlinear_arith)
                    requires
                        k == h * tw + w,
                        0 <= w < tw,
                        0 <= h < target_height,
                ;
                vstd::arithmetic::div_mod::lemma_fundamental_div_mod_converse(
                    k,
                    tw,
                    h as int,
                    w as int,
                );
                assert(thumbnail_source(k, tw, width_skip as int, height_skip as int, image.width as int) < image.pixels@.len());
                assert(0 <= (h * height_skip) * image.width <= thumbnail_source(k, tw, width_skip as int, height_skip as int, image.width as int)) by (nonlinear_arith)
                    requires
                        thumbnail_source(k, tw, width_skip as int, height_skip as int, image.width as int) == (h * height_skip) * image.width + w * width_skip,
                        w >= 0,
                        width_skip >= 1,
                        h >= 0,
                        height_skip >= 1,
                ;
                assert(0 <= w * width_skip) by (nonlinear_arith)
                    requires
                        w >= 0,
                        width_skip >= 1,
                ;
                assert(0 <= h * height_skip <= (h * height_skip) * image.width || image.width == 0)
                    by (nonlinear_arith)
                    requires
                        h >= 0,
                        height_skip >= 1,
                ;
            }
            let available: usize = image.pixels.len();
            let row_start: usize = (h * height_skip) * image.width;
            let index: usize = row_start + w * width_skip;
            assert(index < available);
            pixels.push(image.pixels[index]);
            w = w + 1;
        }
        proof {
            assert(pixels@.len() == (h + 1) * tw) by (nonlinear_arith)
                requires
                    pixels@.len() == h * tw + tw,
            ;
        }
        h = h + 1;
    }
    proof {
        assert(pixels@.len() == (target_width as int) * (target_height as int)) by (nonlinear_arith)
            requires
                pixels@.len() == h * tw,
                h == target_height,
                tw == target_width,
        ;
    }
    PixelImage { width: target_width, height: target_height, pixels }
}

/// Whether `bytes` holds, from `offset` on, the RGBA bytes of `pixel`: its
/// red, green and blue, then an opaque alpha.
pub open spec fn holds_rgba(bytes: Seq<u8>, offset: int, pixel: (u8, u8, u8)) -> bool {
    &&& bytes[offset] == pixel.0
    &&& bytes[offset + 1] == pixel.1
    &&& bytes[offset + 2] == pixel.2
    &&& bytes[offset + 3] == 255u8
}

/// The image as RGBA bytes, pixel by pixel, each with an opaque alpha.
pub fn convert_to_raw_image(image: &PixelImage<(u8, u8, u8)>) -> (result: RawImage)
    requires
        image.pixels@.len() >= image.width * image.height,
        image.width * image.height * 4 <= usize::MAX,
    ensures
        result.width == image.width,
        result.height == image.height,
        result.pixels@.len() == image.width * image.height * 4,
        forall|i: int|
            0 <= i < image.width * image.height ==> holds_rgba(
                result.pixels@,
                4 * i,
                #[trigger] image.pixels@[i],
            ),
{
    proof {
        assert(0 <= image.width * image.height) by (nonlinear_arith)
            requires
                image.width >= 0,
                image.height >= 0,
        ;
    }
    let count: usize = image.width * image.height;
    let mut buffer: Vec<u8> = Vec::new();
    let mut i: usize = 0;
    while i < count
        invariant
            count == image.width * image.height,
            count * 4 <= usize::MAX,
            image.pixels@.len() >= count,
            i <= count,
            buffer@.len() == 4 * i,
            forall|j: int| 0 <= j < i ==> holds_rgba(buffer@, 4 * j, #[trigger] image.pixels@[j]),
        decreases count - i,
    {
        let (red, green, blue) = image.pixels[i];
        let ghost before = buffer@;
        buffer.push(red);
        buffer.push(green);
        buffer.push(blue);
        buffer.push(255u8);
        proof {
            assert forall|j: int| 0 <= j < i + 1 implies holds_rgba(
                buffer@,
                4 * j,
                #[trigger] image.pixels@[j],
            ) by {
                if j < i {
                    assert(holds_rgba(before, 4 * j, image.pixels@[j]));
                }
            }
        }
        i = i + 1;
    }
    RawImage { width: image.width, height: image.height, pixels: buffer }
}

} // verus!

verus! {

/// A thumbnail side comes near `THUMBNAIL_SIZE`: a side of at least that
/// many pixels shrinks to between `THUMBNAIL_SIZE` and twice that (less
/// one), and a shorter side is kept whole. So a 4000 by 3000 photo gives a
/// 100 by 100 thumbnail.
pub proof fn lemma_thumbnail_side(size: int)
    requires
        size >= 0,
    ensures
        thumbnail_skip(size) >= 1,
        size >= THUMBNAIL_SIZE ==> THUMBNAIL_SIZE <= size / thumbnail_skip(size) < 2
            * THUMBNAIL_SIZE,
        size < 2 * THUMBNAIL_SIZE ==> thumbnail_skip(size) == 1,
        size >= 2 * THUMBNAIL_SIZE ==> thumbnail_skip(size) == size / (THUMBNAIL_SIZE as int),
{
    let t = THUMBNAIL_SIZE as int;
    let q = size / t;
    let r = size % t;
    vstd::arithmetic::div_mod::lemma_fundamental_div_mod(size, t);
    if q >= 2 {
        let side = size / q;
        assert(side >= t && side < 2 * t) by (nonlinear_arith)
            requires
                size == t * q + r,
                0 <= r < t,
                q >= 2,
                t == 100,
                side == size / q,
        {
            vstd::arithmetic::div_mod::lemma_fundamental_div_mod(size, q);
        }
    }
}

} // verus!

verus! {

/// The four bytes of a converted pixel are its red, green and blue and an
/// opaque alpha, in that order.
pub proof fn lemma_rgba_order(bytes: Seq<u8>, offset: int, pixel: (u8, u8, u8))
    requires
        0 <= offset,
        offset + 4 <= bytes.len(),
        holds_rgba(bytes, offset, pixel),
    ensures
        bytes.subrange(offset, offset + 4) == seq![pixel.0, pixel.1, pixel.2, 255u8],
{
    assert(bytes.subrange(offset, offset + 4) =~= seq![pixel.0, pixel.1, pixel.2, 255u8]);
}

} // verus!
