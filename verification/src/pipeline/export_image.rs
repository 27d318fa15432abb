use vstd::prelude::*;

verus! {

/// The side of the square the editor renders an export into.
pub const EXPORT_SIZE: u32 = 8192;

/// The red, green and blue bytes of a rendered RGBA pixel, red lowest.
pub open spec fn pixel_rgb(pixel: u32) -> Seq<u8> {
    seq![(pixel & 0xff) as u8, ((pixel >> 8) & 0xff) as u8, ((pixel >> 16) & 0xff) as u8]
}

/// Whether the pixel at `index` of the render lies in the exported
/// `width` by `height` corner of it.
pub open spec fn in_export(index: int, width: int, height: int) -> bool {
    index % (EXPORT_SIZE as int) < width && index / (EXPORT_SIZE as int) < height
}

/// The RGB bytes of the exported corner of the render `data`, row by row.
pub open spec fn export_rgb(data: Seq<u32>, width: int, height: int) -> Seq<u8>
    decreases data.len(),
{
    if data.len() == 0 {
        Seq::empty()
    } else {
        let last = data.len() - 1;
        export_rgb(data.take(last), width, height) + if in_export(last, width, height) {
            pixel_rgb(data[last])
        } else {
            Seq::empty()
        }
    }
}

/// The RGB bytes of the `width` by `height` image in the top left corner of
/// the rendered square `data`, whose rows are `EXPORT_SIZE` pixels long.
pub fn export_rgb_bytes(data: &Vec<u32>, width: u32, height: u32) -> (result: Vec<u8>)
    requires
        (data@.len() as int) / (EXPORT_SIZE as int) <= u32::MAX,
    ensures
        result@ == export_rgb(data@, width as int, height as int),
{
    let mut rgb_data: Vec<u8> = Vec::new();
    let mut x: u32 = 0;
    let mut y: u32 = 0;
    let len = data.len();
    let mut i: usize = 0;
    while i < len
        invariant
            len == data@.len(),
            (data@.len() as int) / (EXPORT_SIZE as int) <= u32::MAX,
            i <= len,
            x < EXPORT_SIZE,
            i == y * (EXPORT_SIZE as int) + x,
            rgb_data@ == export_rgb(data@.take(i as int), width as int, height as int),
        decreases len - i,
    {
        let d: u32 = data[i];
        proof {
            vstd::arithmetic::div_mod::lemma_fundamental_div_mod_converse(
                i as int,
                EXPORT_SIZE as int,
                y as int,
                x as int,
            );
            assert(data@.take(i + 1).take(i as int) == data@.take(i as int));
        }
        if x < width && y < height {
            let red: u8 = (d & 0xff) as u8;
            let green: u8 = ((d >> 8) & 0xff) as u8;
            let blue: u8 = ((d >> 16) & 0xff) as u8;
            rgb_data.push(red);
            rgb_data.push(green);
            rgb_data.push(blue);
        }
        proof {
            assert(data@.take(i + 1)[i as int] == d);
        }
        i = i + 1;
        x = x + 1;
        if x >= EXPORT_SIZE {
            proof {
                assert((i as int) / (EXPORT_SIZE as int) == y + 1) by {
                    vstd::arithmetic::div_mod::lemma_fundamental_div_mod_converse(
                        i as int,
                        EXPORT_SIZE as int,
                        y + 1,
                        0,
                    );
                }
                assert((i as int) / (EXPORT_SIZE as int) <= (len as int) / (EXPORT_SIZE as int)) by {
                    vstd::arithmetic::div_mod::lemma_div_is_ordered(
                        i as int,
                        len as int,
                        EXPORT_SIZE as int,
                    );
                }
            }
            x = 0;
            y = y + 1;
        }
    }
    proof {
        assert(data@.take(len as int) == data@);
    }
    rgb_data
}

} // verus!

verus! {

/// How many pixels of the render before index `n` lie in the exported
/// `width` by `height` corner.
pub open spec fn exported_before(n: int, width: int, height: int) -> int
    decreases n,
{
    if n <= 0 {
        0
    } else {
        exported_before(n - 1, width, height) + if in_export(n - 1, width, height) {
            1int
        } else {
            0int
        }
    }
}

/// Counting exported pixels never goes down.
proof fn lemma_exported_before_grows(i: int, j: int, width: int, height: int)
    requires
        0 <= i <= j,
    ensures
        exported_before(i, width, height) <= exported_before(j, width, height),
    decreases j - i,
{
    if i < j {
        lemma_exported_before_grows(i, j - 1, width, height);
    }
}

/// The bytes of `export_rgb`: three per exported pixel, in the order of the
/// render, the ones of pixel `i` after those of every exported pixel
/// before it.
proof fn lemma_export_rgb_layout(data: Seq<u32>, width: int, height: int)
    ensures
        export_rgb(data, width, height).len() == 3 * exported_before(data.len() as int, width, height),
        forall|i: int, c: int|
            0 <= i < data.len() && in_export(i, width, height) && 0 <= c < 3 ==> export_rgb(
                data,
                width,
                height,
            )[3 * exported_before(i, width, height) + c] == #[trigger] pixel_rgb(data[i])[c],
    decreases data.len(),
{
    if data.len() > 0 {
        let last = data.len() - 1;
        let prefix = data.take(last);
        lemma_export_rgb_layout(prefix, width, height);
        lemma_exported_before_grows(0, last, width, height);
        let before = export_rgb(prefix, width, height);
        let piece = if in_export(last, width, height) {
            pixel_rgb(data[last])
        } else {
            Seq::empty()
        };
        assert(export_rgb(data, width, height) == before + piece);
        assert(exported_before(data.len() as int, width, height) == exported_before(last, width, height) + if in_export(last, width, height) { 1int } else { 0int });
        assert forall|i: int, c: int|
            0 <= i < data.len() && in_export(i, width, height) && 0 <= c < 3 implies export_rgb(
            data,
            width,
            height,
        )[3 * exported_before(i, width, height) + c] == #[trigger] pixel_rgb(data[i])[c] by {
            let k = 3 * exported_before(i, width, height) + c;
            lemma_exported_before_grows(0, i, width, height);
            if i < last {
                assert(prefix[i] == data[i]);
                assert(pixel_rgb(prefix[i])[c] == pixel_rgb(data[i])[c]);
                assert(exported_before(i + 1, width, height) == exported_before(i, width, height) + 1);
                lemma_exported_before_grows(i + 1, last, width, height);
                assert(k < before.len());
                assert((before + piece)[k] == before[k]);
            } else {
                assert(k == before.len() + c);
                assert(piece == pixel_rgb(data[last]));
                assert((before + piece)[k] == piece[c]);
            }
        }
    }
}

/// The closed form of the count: full rows of `width` pixels above, then
/// the part of the current row that lies in the corner.
proof fn lemma_exported_before_closed(n: int, width: int, height: int)
    requires
        0 <= n,
        0 <= width <= EXPORT_SIZE,
        0 <= height,
    ensures
        exported_before(n, width, height) == if n / (EXPORT_SIZE as int) < height {
            (n / (EXPORT_SIZE as int)) * width + if n % (EXPORT_SIZE as int) < width {
                n % (EXPORT_SIZE as int)
            } else {
                width
            }
        } else {
            height * width
        },
    decreases n,
{
    let s = EXPORT_SIZE as int;
    if n == 0 {
        assert(n / s == 0 && n % s == 0);
        assert(0 * width == 0) by (nonlinear_arith);
        assert(height == 0 ==> height * width == 0) by (nonlinear_arith);
    }
    if n > 0 {
        let m = n - 1;
        lemma_exported_before_closed(m, width, height);
        let r = m / s;
        let c = m % s;
        assert(0 <= c < s && m == r * s + c && r >= 0) by {
            vstd::arithmetic::div_mod::lemma_fundamental_div_mod(m, s);
        }
        assert(exported_before(n, width, height) == exported_before(m, width, height) + if in_export(m, width, height) {
            1int
        } else {
            0int
        });
        assert(in_export(m, width, height) == (c < width && r < height));
        let e = exported_before(m, width, height);
        if c + 1 < s {
            vstd::arithmetic::div_mod::lemma_fundamental_div_mod_converse(n, s, r, c + 1);
            assert(n / s == r && n % s == c + 1);
            if r < height {
                assert(e == r * width + if c < width { c } else { width });
                if c < width {
                    assert(exported_before(n, width, height) == r * width + c + 1);
                } else {
                    assert(exported_before(n, width, height) == r * width + width);
                }
            } else {
                assert(e == height * width);
            }
        } else {
            vstd::arithmetic::div_mod::lemma_fundamental_div_mod_converse(n, s, r + 1, 0);
            assert(n / s == r + 1 && n % s == 0);
            assert((r + 1) * width == r * width + width) by (nonlinear_arith);
            if r < height {
                assert(e == r * width + if c < width { c } else { width });
                assert(exported_before(n, width, height) == (r + 1) * width);
            }
        }
    }
}

/// The exported bytes pixel by pixel: for a corner no wider than the
/// render, the red, green and blue of pixel (x, y) of the corner are bytes
/// `3 * (y * width + x)` to `3 * (y * width + x) + 2`, taken from pixel
/// `y * EXPORT_SIZE + x` of the render.
pub proof fn lemma_export_pixel(data: Seq<u32>, width: int, height: int, x: int, y: int, c: int)
    requires
        0 <= x < width <= EXPORT_SIZE,
        0 <= y < height,
        y * (EXPORT_SIZE as int) + x < data.len(),
        0 <= c < 3,
    ensures
        export_rgb(data, width, height)[3 * (y * width + x) + c] == pixel_rgb(
            data[y * (EXPORT_SIZE as int) + x],
        )[c],
{
    let i = y * (EXPORT_SIZE as int) + x;
    vstd::arithmetic::div_mod::lemma_fundamental_div_mod_converse(i, EXPORT_SIZE as int, y, x);
    assert(0 <= y * (EXPORT_SIZE as int)) by (nonlinear_arith)
        requires
            y >= 0,
    ;
    lemma_exported_before_closed(i, width, height);
    lemma_export_rgb_layout(data, width, height);
    assert(in_export(i, width, height));
}

/// The export holds three bytes for each pixel of the `width` by `height`
/// corner, when the render has all the rows of the corner.
pub proof fn lemma_export_len(data: Seq<u32>, width: int, height: int)
    requires
        0 <= width <= EXPORT_SIZE,
        0 <= height,
        height * (EXPORT_SIZE as int) <= data.len(),
    ensures
        export_rgb(data, width, height).len() == 3 * (width * height),
{
    let n = data.len() as int;
    lemma_export_rgb_layout(data, width, height);
    lemma_exported_before_closed(n, width, height);
    let s = EXPORT_SIZE as int;
    assert(n / s >= height) by {
        vstd::arithmetic::div_mod::lemma_div_is_ordered(height * s, n, s);
        vstd::arithmetic::div_mod::lemma_div_multiples_vanish(height, s);
    }
    assert(height * width == width * height) by (nonlinear_arith);
}

} // verus!

verus! {

/// A rendered pixel packs red in its lowest byte, then green, blue and
/// alpha; its exported bytes are its red, green and blue, whatever its
/// alpha.
pub proof fn lemma_pixel_rgb_channels(red: u8, green: u8, blue: u8, alpha: u8)
    ensures
        pixel_rgb(
            (red as u32) | ((green as u32) << 8u32) | ((blue as u32) << 16u32) | ((alpha as u32)
                << 24u32),
        ) == seq![red, green, blue],
{
    let pixel: u32 = (red as u32) | ((green as u32) << 8u32) | ((blue as u32) << 16u32) | ((
    alpha as u32) << 24u32);
    assert((pixel & 0xff) as u8 == red && ((pixel >> 8u32) & 0xff) as u8 == green && ((pixel
        >> 16u32) & 0xff) as u8 == blue) by (bit_vector)
        requires
            pixel == (red as u32) | ((green as u32) << 8u32) | ((blue as u32) << 16u32) | ((
            alpha as u32) << 24u32),
    ;
    assert(pixel_rgb(pixel) =~= seq![red, green, blue]);
}

} // verus!
