use vstd::prelude::*;
use vstd::pervasive::unreached;
use crate::image::{PixelRgb, rgba_of, synthesize_rgba, WIDTH, HEIGHT};

verus! {

/// The PNG stream that encodes `data` as an 8-bit RGBA image of the given
/// dimensions. The encoder is deterministic, so the stream is a function
/// of the dimensions and the pixel data alone.
pub uninterp spec fn png_rgba_bytes_of(width: u32, height: u32, data: Seq<u8>) -> Seq<u8>;

/// The error type of png's encoder, carried opaquely.
#[verifier::external_type_specification]
#[verifier::external_body]
pub struct ExEncodingError(png::EncodingError);

/// Relies on png::Encoder and png::Writer, configured for 8-bit RGBA color:
/// the encoded stream is a function of the dimensions and the pixel data
/// alone, and encoding succeeds whenever both dimensions are positive and
/// the data holds exactly width * height * 4 bytes — every other failure
/// path of the encoder surfaces a std::io error of the sink, and writing
/// to an in-memory Vec<u8> is infallible.
#[verifier::external_body]
fn encode_rgba_png(width: u32, height: u32, data: &Vec<u8>) -> (r: Result<
    Vec<u8>,
    png::EncodingError,
>)
    ensures
        r matches Ok(png) ==> png@ == png_rgba_bytes_of(width, height, data@),
        (1 <= width && 1 <= height && data@.len() == 4 * (width as nat) * (height as nat)) ==> r
            is Ok,
{
    let mut out: Vec<u8> = Vec::new();
    let mut encoder = png::Encoder::new(&mut out, width, height);
    encoder.set_color(png::ColorType::Rgba);
    encoder.set_depth(png::BitDepth::Eight);
    let mut writer = match encoder.write_header() {
        Ok(w) => w,
        Err(e) => return Err(e),
    };
    if let Err(e) = writer.write_image_data(data) {
        return Err(e);
    }
    if let Err(e) = writer.finish() {
        return Err(e);
    }
    Ok(out)
}

/// Encodes an RGBA pixel buffer with positive dimensions as a PNG stream
/// held in memory.
pub fn encode_rgba_image(width: u32, height: u32, data: &Vec<u8>) -> (png: Vec<u8>)
    requires
        1 <= width,
        1 <= height,
        data@.len() == 4 * (width as nat) * (height as nat),
    ensures
        png@ == png_rgba_bytes_of(width, height, data@),
{
    match encode_rgba_png(width, height, data) {
        Ok(png) => png,
        Err(_) => unreached(),
    }
}

/// Synthesizes the full-size image: flattens exactly `WIDTH * HEIGHT`
/// row-major pixels into their RGBA buffer and encodes it as a PNG stream.
pub fn synthesize_png(pixels: &Vec<PixelRgb>) -> (png: Vec<u8>)
    requires
        pixels@.len() == WIDTH as nat * HEIGHT as nat,
    ensures
        png@ == png_rgba_bytes_of(WIDTH, HEIGHT, rgba_of(pixels@)),
{
    let data = synthesize_rgba(pixels);
    encode_rgba_image(WIDTH, HEIGHT, &data)
}

/// Image synthesis is deterministic: two encoded streams produced from the
/// same pixel sequence at the full image size are byte-identical.
pub proof fn lemma_synthesis_deterministic(a: Seq<u8>, b: Seq<u8>, pixels: Seq<PixelRgb>)
    requires
        a == png_rgba_bytes_of(WIDTH, HEIGHT, rgba_of(pixels)),
        b == png_rgba_bytes_of(WIDTH, HEIGHT, rgba_of(pixels)),
    ensures
        a == b,
{
}

} // verus!
