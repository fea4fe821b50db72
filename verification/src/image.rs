use vstd::prelude::*;

verus! {

/// Width of the synthesized image, in pixels.
pub const WIDTH: u32 = 3840;

/// Height of the synthesized image, in pixels.
pub const HEIGHT: u32 = 2160;

/// Number of bytes in the synthesized pixel buffer: four per pixel.
pub const IMAGE_BYTES: usize = 3840 * 2160 * 4;

/// The red, green and blue channel values of one pixel, each already
/// quantized to eight bits.
#[derive(Clone, Copy, PartialEq, Eq, Structural, Debug)]
pub struct PixelRgb {
    pub r: u8,
    pub g: u8,
    pub b: u8,
}

/// The RGBA byte sequence for a row-major pixel sequence: four bytes per
/// pixel, its red, green and blue channels followed by a fully opaque
/// alpha byte.
pub open spec fn rgba_of(pixels: Seq<PixelRgb>) -> Seq<u8> {
    Seq::new(
        pixels.len() * 4,
        |i: int|
            {
                if i % 4 == 0 {
                    pixels[i / 4].r
                } else if i % 4 == 1 {
                    pixels[i / 4].g
                } else if i % 4 == 2 {
                    pixels[i / 4].b
                } else {
                    255u8
                }
            },
    )
}

/// Flattens a row-major pixel sequence into its RGBA byte buffer.
pub fn rgba_bytes(pixels: &Vec<PixelRgb>) -> (data: Vec<u8>)
    ensures
        data@ == rgba_of(pixels@),
        data@.len() == 4 * pixels@.len(),
{
    let mut data: Vec<u8> = Vec::new();
    let mut i: usize = 0;
    while i < pixels.len()
        invariant
            i <= pixels@.len(),
            data@ == rgba_of(pixels@.take(i as int)),
        decreases pixels@.len() - i,
    {
        let p = pixels[i];
        data.push(p.r);
        data.push(p.g);
        data.push(p.b);
        data.push(255);
        i = i + 1;
        proof {
            assert(data@ =~= rgba_of(pixels@.take(i as int)));
        }
    }
    proof {
        assert(pixels@.take(pixels@.len() as int) =~= pixels@);
    }
    data
}

/// Builds the pixel buffer of the full-size image: the RGBA bytes of
/// exactly `WIDTH * HEIGHT` row-major pixels.
pub fn synthesize_rgba(pixels: &Vec<PixelRgb>) -> (data: Vec<u8>)
    requires
        pixels@.len() == WIDTH as nat * HEIGHT as nat,
    ensures
        data@ == rgba_of(pixels@),
        data@.len() == IMAGE_BYTES,
{
    rgba_bytes(pixels)
}

/// In the buffer for a row-major pixel sequence, the four bytes of the
/// pixel at index `i` are its red, green and blue channels and an alpha
/// byte of 255.
pub proof fn lemma_pixel_layout(pixels: Seq<PixelRgb>, i: int)
    requires
        0 <= i < pixels.len(),
    ensures
        rgba_of(pixels)[4 * i] == pixels[i].r,
        rgba_of(pixels)[4 * i + 1] == pixels[i].g,
        rgba_of(pixels)[4 * i + 2] == pixels[i].b,
        rgba_of(pixels)[4 * i + 3] == 255,
{
}

/// Every pixel of the full-size image buffer is fully opaque: the alpha
/// byte of the pixel at column `x` and row `y` equals 255.
pub proof fn lemma_alpha_opaque(pixels: Seq<PixelRgb>, x: int, y: int)
    requires
        pixels.len() == WIDTH as nat * HEIGHT as nat,
        0 <= x < WIDTH,
        0 <= y < HEIGHT,
    ensures
        rgba_of(pixels)[4 * (y * WIDTH + x) + 3] == 255,
{
    lemma_pixel_layout(pixels, y * (WIDTH as int) + x);
}

} // verus!
