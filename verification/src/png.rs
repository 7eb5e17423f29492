//! Encoding of RGBA pixels as PNG, by the `image` crate.

use vstd::prelude::*;

verus! {

/// Bytes per pixel: one each for red, green, blue and alpha.
pub const BYTES_PER_PIXEL: u32 = 4;

/// The number of bytes that a picture of `width` by `height` pixels takes.
pub open spec fn picture_len(width: u32, height: u32) -> nat {
    (BYTES_PER_PIXEL * width * height) as nat
}

/// Why pixels could not be turned into a PNG.
#[derive(Debug, Clone, Copy, PartialEq, Eq, Structural)]
pub enum PngError {
    /// There are fewer bytes than the dimensions call for.
    ImageBuffer,
    /// The encoder refused the picture.
    Encoder,
}

/// Whether rows of this width are short enough to be encoded, or there are too
/// few bytes to encode anyway.
pub open spec fn encodable(width: u32, height: u32, len: nat) -> bool {
    width < 0x4000_0000 || len < picture_len(width, height)
}

/// The PNG file that the `image` crate writes for `width` by `height` RGBA
/// pixels of eight bits per channel.
pub uninterp spec fn png_encoding(width: u32, height: u32, pixels: Seq<u8>) -> Seq<u8>;

/// An error of the `image` crate.
#[verifier::external_type_specification]
#[verifier::external_body]
pub struct ExImageError(image::ImageError);

/// Makes an `image::RgbaImage` of the bytes with `ImageBuffer::from_raw`, and
/// calls its `write_to` with a cursor over an empty `Vec` and
/// `ImageFormat::Png`; gives what the `Vec` then holds.
///
/// For rows of fewer than 2^32 bytes, `from_raw` gives an image exactly when the
/// bytes suffice for the dimensions; where it gives none, so does this.
/// `write_to` then fails for an image of zero width or zero height and for no
/// other. What it writes depends on the dimensions and on the pixels alone:
/// bytes past the last pixel are left out.
///
/// Longer rows are admitted only with too few bytes, for which `from_raw` gives
/// no image: it computes the length of a row in a `usize`, and the compressor
/// below `write_to` counts the zeros of a row in 32 bits.
#[verifier::external_body]
fn write_rgba_png(width: u32, height: u32, bytes: Vec<u8>) -> (file: Option<
    Result<Vec<u8>, image::ImageError>,
>)
    requires
        encodable(width, height, bytes@.len()),
    ensures
        file is Some <==> picture_len(width, height) <= bytes@.len(),
        file matches Some(written) ==> (written is Ok <==> width > 0 && height > 0),
        file matches Some(Ok(f)) ==> f@ == png_encoding(
            width,
            height,
            bytes@.take(picture_len(width, height) as int),
        ),
{
    let picture = image::RgbaImage::from_raw(width, height, bytes)?;
    let mut file = Vec::new();
    match picture.write_to(&mut std::io::Cursor::new(&mut file), image::ImageFormat::Png) {
        Ok(()) => Some(Ok(file)),
        Err(error) => Some(Err(error)),
    }
}

/// The answer to a request to encode `bytes` as a PNG of `width` by `height`.
pub open spec fn encoded(width: u32, height: u32, bytes: Seq<u8>) -> Result<Seq<u8>, PngError> {
    if bytes.len() < picture_len(width, height) {
        Err(PngError::ImageBuffer)
    } else if width == 0 || height == 0 {
        Err(PngError::Encoder)
    } else {
        Ok(png_encoding(width, height, bytes.take(picture_len(width, height) as int)))
    }
}

/// Encodes RGBA pixels, eight bits per channel, as a PNG file.
pub fn encode_png(width: u32, height: u32, bytes: Vec<u8>) -> (file: Result<Vec<u8>, PngError>)
    requires
        encodable(width, height, bytes@.len()),
    ensures
        match file {
            Ok(f) => encoded(width, height, bytes@) == Ok::<Seq<u8>, PngError>(f@),
            Err(e) => encoded(width, height, bytes@) == Err::<Seq<u8>, PngError>(e),
        },
        match file {
            Ok(f) => {
                &&& width > 0 && height > 0
                &&& 4 * width * height <= bytes@.len()
                &&& f@ == png_encoding(width, height, bytes@.take(4 * width * height))
            },
            Err(PngError::ImageBuffer) => bytes@.len() < 4 * width * height,
            Err(PngError::Encoder) => {
                &&& width == 0 || height == 0
                &&& 4 * width * height <= bytes@.len()
            },
        },
{
    match write_rgba_png(width, height, bytes) {
        None => Err(PngError::ImageBuffer),
        Some(Ok(file)) => Ok(file),
        Some(Err(_)) => Err(PngError::Encoder),
    }
}

/// Only the pixels count: with bytes enough for the picture, more bytes behind
/// them change nothing, and with exactly enough, all of them are encoded.
pub proof fn law_only_the_pixels_count(width: u32, height: u32, pixels: Seq<u8>, more: Seq<u8>)
    requires
        pixels.len() == 4 * width * height,
    ensures
        encoded(width, height, pixels + more) == encoded(width, height, pixels),
        width > 0 && height > 0 ==> encoded(width, height, pixels) == Ok::<Seq<u8>, PngError>(
            png_encoding(width, height, pixels),
        ),
{
    assert((pixels + more).take(4 * width * height) =~= pixels);
    assert(pixels.take(4 * width * height) =~= pixels);
}

} // verus!
