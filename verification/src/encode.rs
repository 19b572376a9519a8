use vstd::prelude::*;

verus! {

use crate::error::IconError;
use crate::pixel::CANONICAL_SIZE;
use crate::resample::NormalizedImage;

/// The error type of the image crate, carried through opaquely.
#[verifier::external_type_specification]
#[verifier::external_body]
pub struct ExImageError(image::ImageError);

/// The PNG stream that the image crate's PNG encoder emits for a
/// `width x height` RGBA buffer.
pub uninterp spec fn png_encoding(width: u32, height: u32, pixels: Seq<u8>) -> Seq<u8>;

/// The standard-alphabet, padded base64 text of a byte string.
pub uninterp spec fn base64_standard(bytes: Seq<u8>) -> Seq<char>;

/// Relies on `image::codecs::png::PngEncoder::write_image`: it serializes a
/// `width x height` RGBA8 buffer into a PNG stream written to the output
/// vector, a function of its arguments alone.  It asserts that the buffer
/// holds exactly `width * height * 4` bytes, which the precondition
/// guarantees; with both dimensions positive its only remaining failure
/// sources are I/O errors of the output writer, and writing into a `Vec`
/// cannot fail, so the call then succeeds.
#[verifier::external_body]
fn write_png(width: u32, height: u32, pixels: &Vec<u8>) -> (r: Result<Vec<u8>, image::ImageError>)
    requires
        pixels@.len() == width as int * height as int * 4,
    ensures
        r matches Ok(png) ==> png@ == png_encoding(width, height, pixels@),
        width > 0 && height > 0 ==> r is Ok,
{
    let mut out: Vec<u8> = Vec::new();
    let encoder = image::codecs::png::PngEncoder::new(&mut out);
    match image::ImageEncoder::write_image(
        encoder,
        pixels.as_slice(),
        width,
        height,
        image::ExtendedColorType::Rgba8,
    ) {
        Ok(()) => Ok(out),
        Err(e) => Err(e),
    }
}

/// Relies on `base64::Engine::encode` with the `STANDARD` engine: the text is
/// a function of the input bytes alone, four output characters for every
/// complete or partial group of three input bytes, the final group padded.
/// The engine only panics when that output length overflows `usize`, which
/// the precondition rules out.
#[verifier::external_body]
fn base64_encode(bytes: &Vec<u8>) -> (r: String)
    requires
        bytes@.len() <= usize::MAX as int / 4,
    ensures
        r@ == base64_standard(bytes@),
        r@.len() == 4 * ((bytes@.len() + 2) / 3),
{
    base64::Engine::encode(&base64::engine::general_purpose::STANDARD, bytes.as_slice())
}

/// Wraps already-compressed image bytes in their transport-safe text
/// encoding.  This succeeds exactly when the encoded text fits in memory,
/// that is when the input is no longer than a quarter of `usize::MAX`.
pub fn encode_text(png: &Vec<u8>) -> (r: Option<String>)
    ensures
        match r {
            Some(text) => {
                &&& png@.len() <= usize::MAX as int / 4
                &&& text@ == base64_standard(png@)
                &&& text@.len() == 4 * ((png@.len() + 2) / 3)
            },
            None => png@.len() > usize::MAX as int / 4,
        },
{
    if png.len() <= usize::MAX / 4 {
        Some(base64_encode(png))
    } else {
        None
    }
}

/// The terminal artifact of an extraction: the compressed image bytes and
/// their transport-safe text encoding.
pub struct EncodedIcon {
    pub png: Vec<u8>,
    pub text: String,
}

/// Serializes a canonical RGBA image as PNG and wraps the stream in base64
/// text.  The PNG encoder always succeeds on a well-formed canonical buffer,
/// so the only failure this stage can report is `EncodingFailed`, and only
/// when the compressed stream is too large to wrap in text.
pub fn encode_canonical(image: &NormalizedImage) -> (r: Result<EncodedIcon, IconError>)
    requires
        image.wf(),
    ensures
        match r {
            Ok(icon) => {
                &&& icon.png@ == png_encoding(CANONICAL_SIZE, CANONICAL_SIZE, image.bytes@)
                &&& icon.text@ == base64_standard(icon.png@)
            },
            Err(e) => {
                &&& e == IconError::EncodingFailed
                &&& png_encoding(CANONICAL_SIZE, CANONICAL_SIZE, image.bytes@).len()
                    > usize::MAX as int / 4
            },
        },
{
    match write_png(CANONICAL_SIZE, CANONICAL_SIZE, &image.bytes) {
        Ok(png) => match encode_text(&png) {
            Some(text) => Ok(EncodedIcon { png, text }),
            None => Err(IconError::EncodingFailed),
        },
        Err(_) => Err(IconError::EncodingFailed),
    }
}

} // verus!
