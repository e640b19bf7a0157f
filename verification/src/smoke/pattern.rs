//! The pixels the smoke host paints: the test pattern of its hardware
//! buffers, and the random frames of the pixel-data example.
use vstd::prelude::*;

use crate::payload::{BoxedPixelData, PayloadProvider, SimplePixelData};

verus! {

/// Declares `fastrand::Rng` to Verus; a generator is only carried.
#[verifier::external_type_specification]
#[verifier::external_body]
pub struct ExRng(fastrand::Rng);

/// Integer division rounding toward zero, as Rust divides.
pub open spec fn trunc_div(a: int, b: int) -> int {
    if a >= 0 {
        a / b
    } else {
        -((-a) / b)
    }
}

/// `a.saturating_add(b)` on bytes.
pub open spec fn saturating_add_u8(a: u8, b: u8) -> u8 {
    if a + b > 255 {
        255
    } else {
        (a + b) as u8
    }
}

pub open spec fn at_least_one(n: i32) -> int {
    if n >= 1 { n as int } else { 1 }
}

/// The checkerboard of 32-pixel blocks: true on the even blocks.
pub open spec fn on_even_block(x: i32, y: i32) -> bool {
    (trunc_div(x as int, 32) + trunc_div(y as int, 32)) % 2 == 0
}

/// True inside the middle third of `0..extent`.
pub open spec fn in_middle_third(v: i32, extent: i32) -> bool {
    v > trunc_div(extent as int, 3) && v < trunc_div(extent * 2, 3)
}

pub open spec fn pattern_red(x: i32, y: i32, width: i32, height: i32) -> u8 {
    let base = trunc_div(x * 255, at_least_one(width)) as u8;
    let shaded = if on_even_block(x, y) { saturating_add_u8(base, 40) } else { base };
    if in_middle_third(y, height) { saturating_add_u8(shaded, 30) } else { shaded }
}

pub open spec fn pattern_green(x: i32, y: i32, height: i32) -> u8 {
    let base = trunc_div(y * 255, at_least_one(height)) as u8;
    if on_even_block(x, y) { saturating_add_u8(base, 20) } else { base }
}

pub open spec fn pattern_blue(x: i32, width: i32, generation: u32) -> u8 {
    let tint = (generation.wrapping_mul(47) % 255) as u8;
    let base: u8 = if tint >= 40 { tint } else { 40 };
    if in_middle_third(x, width) { saturating_add_u8(base, 50) } else { base }
}

/// The pattern over the pixels of a buffer (coordinates from zero, a
/// buffer at least one pixel wide and high): the red and green ramps run
/// along x and y, and a pixel is shaded (+40 red, +20 green, saturating)
/// exactly when its 32-pixel blocks `x / 32 + y / 32` add up to an even
/// number, a checkerboard; the middle third of the rows gets +30 red after
/// the shading.
pub proof fn law_pattern_checkerboard(x: i32, y: i32, width: i32, height: i32)
    requires
        0 <= x,
        0 <= y,
        1 <= width,
        1 <= height,
        width * 2 <= i32::MAX,
        height * 2 <= i32::MAX,
    ensures
        ({
            let shaded = (x / 32 + y / 32) % 2 == 0;
            let green = ((y * 255) / (height as int)) as u8;
            let red = ((x * 255) / (width as int)) as u8;
            let shaded_red: int = if shaded { red + 40 } else { red as int };
            let clamped_red: u8 = if shaded_red > 255 { 255 } else { shaded_red as u8 };
            let middle_row = y > height / 3 && y < (height * 2) / 3;
            &&& pattern_green(x, y, height) == (if shaded {
                if green + 20 > 255 { 255u8 } else { (green + 20) as u8 }
            } else {
                green
            })
            &&& pattern_red(x, y, width, height) == (if middle_row {
                if clamped_red + 30 > 255 { 255u8 } else { (clamped_red + 30) as u8 }
            } else {
                clamped_red
            })
        }),
{
}

/// The blue channel: the generation's tint `47 * generation` (wrapping in
/// 32 bits) modulo 255, at least 40, plus 50 (saturating) in the middle
/// third of the columns.
pub proof fn law_pattern_blue(x: i32, width: i32, generation: u32)
    requires
        0 <= x,
        1 <= width,
        width * 2 <= i32::MAX,
    ensures
        ({
            let tint: int = ((generation * 47) % 0x1_0000_0000) % 255;
            let base: int = if tint >= 40 { tint } else { 40 };
            let middle_column = x > width / 3 && x < (width * 2) / 3;
            pattern_blue(x, width, generation) == (if middle_column {
                if base + 50 > 255 { 255u8 } else { (base + 50) as u8 }
            } else {
                base as u8
            })
        }),
{
}

/// Where each pixel of a filled smoke buffer lies: the four bytes from
/// `4 * (y * stride + x)` are channel by channel the pattern at (`x`, `y`)
/// for a visible column (`x < cols`), and opaque black in the padding.
pub proof fn law_fill_layout(
    stride: int,
    cols: int,
    width: i32,
    height: i32,
    generation: u32,
    x: int,
    y: int,
    c: int,
)
    requires
        0 <= x < stride,
        0 <= y,
        0 <= c < 4,
    ensures
        fill_byte((y * stride + x) * 4 + c, stride, cols, width, height, generation) == (if x < cols {
            if c == 0 {
                pattern_red(x as i32, y as i32, width, height)
            } else if c == 1 {
                pattern_green(x as i32, y as i32, height)
            } else if c == 2 {
                pattern_blue(x as i32, width, generation)
            } else {
                255u8
            }
        } else {
            if c == 3 { 255u8 } else { 0u8 }
        }),
{
    let pixel = y * stride + x;
    assert(pixel >= 0) by (nonlinear_arith)
        requires
            0 <= x,
            0 <= y,
            x < stride,
            pixel == y * stride + x,
    ;
    vstd::arithmetic::div_mod::lemma_fundamental_div_mod_converse(pixel * 4 + c, 4, pixel, c);
    vstd::arithmetic::div_mod::lemma_fundamental_div_mod_converse(pixel, stride, y, x);
}

fn trunc_div_i64(a: i64, b: i64) -> (q: i64)
    requires
        b >= 1,
        -0x1_0000_0000_0000 <= a <= 0x1_0000_0000_0000,
    ensures
        q == trunc_div(a as int, b as int),
{
    if a >= 0 {
        a / b
    } else {
        -((-a) / b)
    }
}

fn saturating_add_byte(a: u8, b: u8) -> (r: u8)
    ensures
        r == saturating_add_u8(a, b),
{
    a.saturating_add(b)
}

/// The RGBA color of pixel (`x`, `y`) of the smoke pattern for a buffer of
/// `width` by `height` pixels and source generation `generation`.
pub fn pattern_rgba(x: i32, y: i32, width: i32, height: i32, generation: u32) -> (rgba: [u8; 4])
    requires
        i32::MIN <= x * 255 <= i32::MAX,
        i32::MIN <= y * 255 <= i32::MAX,
        i32::MIN <= width * 2 <= i32::MAX,
        i32::MIN <= height * 2 <= i32::MAX,
    ensures
        rgba@ == seq![
            pattern_red(x, y, width, height),
            pattern_green(x, y, height),
            pattern_blue(x, width, generation),
            255u8,
        ],
{
    let block: i64 = 32;
    let width_divisor: i64 = if width >= 1 { width as i64 } else { 1 };
    let height_divisor: i64 = if height >= 1 { height as i64 } else { 1 };
    let mut red = trunc_div_i64(x as i64 * 255, width_divisor) as u8;
    let mut green = trunc_div_i64(y as i64 * 255, height_divisor) as u8;
    let tint = (generation.wrapping_mul(47) % 255) as u8;
    let mut blue: u8 = if tint >= 40 { tint } else { 40 };

    if (trunc_div_i64(x as i64, block) + trunc_div_i64(y as i64, block)) % 2 == 0 {
        red = saturating_add_byte(red, 40);
        green = saturating_add_byte(green, 20);
    }

    if x as i64 > trunc_div_i64(width as i64, 3) && (x as i64) < trunc_div_i64(width as i64 * 2, 3) {
        blue = saturating_add_byte(blue, 50);
    }
    if y as i64 > trunc_div_i64(height as i64, 3) && (y as i64) < trunc_div_i64(height as i64 * 2, 3) {
        red = saturating_add_byte(red, 30);
    }

    let rgba = [red, green, blue, 255];
    assert(rgba@ =~= seq![
        pattern_red(x, y, width, height),
        pattern_green(x, y, height),
        pattern_blue(x, width, generation),
        255u8,
    ]);
    rgba
}

/// The pixel at column `x` of row `y` of a smoke buffer whose rows show
/// `cols` pixels: the pattern there, opaque black in the row padding.
pub open spec fn fill_pixel(x: int, y: int, cols: int, width: i32, height: i32, generation: u32) -> Seq<u8> {
    if x < cols {
        seq![
            pattern_red(x as i32, y as i32, width, height),
            pattern_green(x as i32, y as i32, height),
            pattern_blue(x as i32, width, generation),
            255u8,
        ]
    } else {
        seq![0u8, 0u8, 0u8, 255u8]
    }
}

/// Byte `i` of a filled smoke buffer whose rows hold `stride` pixels:
/// channel `i % 4` of pixel `i / 4`, which stands in row `(i / 4) / stride`
/// at column `(i / 4) % stride`.
pub open spec fn fill_byte(i: int, stride: int, cols: int, width: i32, height: i32, generation: u32) -> u8 {
    let pixel = i / 4;
    fill_pixel(pixel % stride, pixel / stride, cols, width, height, generation)[i % 4]
}

/// The failure of a smoke buffer too large to address.
pub open spec fn fill_overflow_text() -> Seq<char> {
    "AHardwareBuffer byte size overflowed"@
}

/// The bytes of a smoke hardware buffer of `rows` rows of `stride` pixels,
/// the first `cols` of each row painted with the pattern for a `width` by
/// `height` image of source generation `generation`, the rest opaque black.
/// Fails when the buffer's byte count does not fit in `usize`.
pub fn fill_smoke_pixels(
    stride: usize,
    rows: usize,
    cols: usize,
    width: i32,
    height: i32,
    generation: u32,
) -> (r: Result<Vec<u8>, String>)
    requires
        stride <= 8_421_505 || cols <= 8_421_505,
        stride > 0 && cols > 0 ==> rows <= 8_421_505,
        i32::MIN <= width * 2 <= i32::MAX,
        i32::MIN <= height * 2 <= i32::MAX,
    ensures
        (stride * rows * 4 <= usize::MAX) <==> r is Ok,
        r matches Err(msg) ==> msg@ == fill_overflow_text(),
        r matches Ok(bytes) ==> bytes@.len() == stride * rows * 4,
        r matches Ok(bytes) ==> forall|i: int|
            0 <= i < bytes@.len() ==> #[trigger] bytes@[i] == fill_byte(
                i,
                stride as int,
                cols as int,
                width,
                height,
                generation,
            ),
{
    let byte_len = match stride.checked_mul(rows) {
        Some(area) => match area.checked_mul(4) {
            Some(n) => n,
            None => return Err(String::from_str("AHardwareBuffer byte size overflowed")),
        },
        None => return Err(String::from_str("AHardwareBuffer byte size overflowed")),
    };
    let mut bytes: Vec<u8> = Vec::new();
    let mut y: usize = 0;
    while y < rows
        invariant
            y <= rows,
            byte_len == stride * rows * 4,
            stride <= 8_421_505 || cols <= 8_421_505,
            stride > 0 && cols > 0 ==> rows <= 8_421_505,
            i32::MIN <= width * 2 <= i32::MAX,
            i32::MIN <= height * 2 <= i32::MAX,
            bytes@.len() == y * stride * 4,
            forall|i: int|
                0 <= i < bytes@.len() ==> #[trigger] bytes@[i] == fill_byte(
                    i,
                    stride as int,
                    cols as int,
                    width,
                    height,
                    generation,
                ),
        decreases rows - y,
    {
        let mut x: usize = 0;
        while x < stride
            invariant
                y < rows,
                x <= stride,
                stride <= 8_421_505 || cols <= 8_421_505,
                stride > 0 && cols > 0 ==> rows <= 8_421_505,
                i32::MIN <= width * 2 <= i32::MAX,
                i32::MIN <= height * 2 <= i32::MAX,
                bytes@.len() == (y * stride + x) * 4,
                forall|i: int|
                    0 <= i < bytes@.len() ==> #[trigger] bytes@[i] == fill_byte(
                        i,
                        stride as int,
                        cols as int,
                        width,
                        height,
                        generation,
                    ),
            decreases stride - x,
        {
            let rgba: [u8; 4] = if x < cols {
                pattern_rgba(x as i32, y as i32, width, height, generation)
            } else {
                [0, 0, 0, 255]
            };
            let ghost pixel: int = y * stride + x;
            assert forall|c: int| 0 <= c < 4 implies #[trigger] fill_byte(
                pixel * 4 + c,
                stride as int,
                cols as int,
                width,
                height,
                generation,
            ) == rgba@[c] by {
                vstd::arithmetic::div_mod::lemma_fundamental_div_mod_converse(pixel * 4 + c, 4, pixel, c);
                vstd::arithmetic::div_mod::lemma_fundamental_div_mod_converse(
                    pixel,
                    stride as int,
                    y as int,
                    x as int,
                );
            }
            let ghost before = bytes@;
            bytes.push(rgba[0]);
            bytes.push(rgba[1]);
            bytes.push(rgba[2]);
            bytes.push(rgba[3]);
            assert forall|i: int| 0 <= i < bytes@.len() implies #[trigger] bytes@[i] == fill_byte(
                i,
                stride as int,
                cols as int,
                width,
                height,
                generation,
            ) by {
                if i >= before.len() {
                    assert(fill_byte(pixel * 4 + (i - pixel * 4), stride as int, cols as int, width, height, generation)
                        == rgba@[i - pixel * 4]);
                } else {
                    assert(bytes@[i] == before[i]);
                }
            }
            x = x + 1;
        }
        assert(y * stride + stride == (y + 1) * stride) by (nonlinear_arith);
        y = y + 1;
    }
    assert(rows * stride * 4 == stride * rows * 4) by (nonlinear_arith);
    Ok(bytes)
}

/// `fastrand::Rng::new`: a generator seeded from the thread-local
/// generator. Nothing is promised of its state.
#[verifier::external_body]
fn new_rng() -> fastrand::Rng {
    fastrand::Rng::new()
}

/// `fastrand::Rng::u8` over the full range `..`: any byte. The full range
/// is never empty, so the call does not panic; which byte comes is left
/// unsaid.
#[verifier::external_body]
fn random_byte(rng: &fastrand::Rng) -> u8 {
    rng.u8(..)
}

/// Width of the example's random frames.
pub const RANDOM_FRAME_WIDTH: i32 = 100;

/// Height of the example's random frames.
pub const RANDOM_FRAME_HEIGHT: i32 = 100;

/// Pixel-data provider of the example: a new frame of random bytes on
/// every request.
pub struct PixelBufferSource {}

impl PixelBufferSource {
    pub fn new() -> (s: Self) {
        Self {}
    }

    /// A 100 by 100 RGBA frame of random bytes.
    pub fn random_frame(&self) -> (frame: Box<SimplePixelData>)
        ensures
            frame.spec_width() == RANDOM_FRAME_WIDTH,
            frame.spec_height() == RANDOM_FRAME_HEIGHT,
            frame.spec_data().len() == RANDOM_FRAME_WIDTH * RANDOM_FRAME_HEIGHT * 4,
    {
        let rng = new_rng();
        let width = RANDOM_FRAME_WIDTH;
        let height = RANDOM_FRAME_HEIGHT;
        let count = (width * height * 4) as usize;
        let mut bytes: Vec<u8> = Vec::new();
        while bytes.len() < count
            invariant
                bytes@.len() <= count,
                count == 40000,
            decreases count - bytes@.len(),
        {
            bytes.push(random_byte(&rng));
        }
        SimplePixelData::new_boxed(width, height, bytes)
    }
}

impl PayloadProvider<BoxedPixelData> for PixelBufferSource {
    fn get_payload(&self) -> BoxedPixelData {
        self.random_frame()
    }
}

} // verus!
