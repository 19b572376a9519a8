use vstd::prelude::*;

verus! {

use crate::pixel::{CANONICAL_SIZE, PixelBuffer};

/// The canonical RGBA buffer that the image crate's high-quality (Lanczos)
/// filter produces when a `src_w x src_h` RGBA buffer is resized to the
/// canonical square resolution.
pub uninterp spec fn lanczos_canonical(src_w: u32, src_h: u32, pixels: Seq<u8>) -> Seq<u8>;

/// Relies on `image::imageops::resize` with the `Lanczos3` filter: resizing a
/// `width x height` RGBA image to 128x128 yields a 128x128 RGBA image, so the
/// buffer handed back by `into_raw` holds `128 * 128 * 4` bytes, and the
/// output is a function of the input pixels alone.  `ImageBuffer::from_raw`
/// is documented to succeed whenever the container holds at least
/// `width * height * 4` bytes, which the precondition guarantees.
#[verifier::external_body]
fn lanczos_resize_canonical(width: u32, height: u32, bytes: &Vec<u8>) -> (r: Vec<u8>)
    requires
        width > 0,
        height > 0,
        bytes@.len() == width as int * height as int * 4,
    ensures
        r@.len() == CANONICAL_SIZE as int * CANONICAL_SIZE as int * 4,
        r@ == lanczos_canonical(width, height, bytes@),
{
    let source: image::RgbaImage = image::ImageBuffer::from_raw(width, height, bytes.clone())
        .expect("the buffer length matches the dimensions");
    let resized = image::imageops::resize(
        &source,
        CANONICAL_SIZE,
        CANONICAL_SIZE,
        image::imageops::FilterType::Lanczos3,
    );
    resized.into_raw()
}

/// A canonical square RGBA image: the only shape the pipeline ever emits,
/// whatever the resolution of the source icon.
pub struct NormalizedImage {
    pub bytes: Vec<u8>,
}

impl NormalizedImage {
    /// Exactly 4 bytes for each of the `128 * 128` pixels.
    pub open spec fn wf(self) -> bool {
        self.bytes@.len() == CANONICAL_SIZE as int * CANONICAL_SIZE as int * 4
    }
}

/// What the resampling stage yields: a source buffer already at canonical
/// size passes through unchanged, every other size goes through the
/// high-quality filter.
pub open spec fn canonical_pixels(width: u32, height: u32, pixels: Seq<u8>) -> Seq<u8> {
    if width == CANONICAL_SIZE && height == CANONICAL_SIZE {
        pixels
    } else {
        lanczos_canonical(width, height, pixels)
    }
}

/// Resamples an RGBA pixel buffer to the canonical square resolution.  A
/// source that already has canonical size is passed through unchanged, never
/// re-filtered; everything else is resampled, never cropped or padded.
pub fn resample_to_canonical(buffer: PixelBuffer) -> (r: NormalizedImage)
    requires
        buffer.wf(),
    ensures
        r.wf(),
        r.bytes@ == canonical_pixels(buffer.width, buffer.height, buffer.bytes@),
{
    if buffer.width == CANONICAL_SIZE && buffer.height == CANONICAL_SIZE {
        NormalizedImage { bytes: buffer.bytes }
    } else {
        NormalizedImage {
            bytes: lanczos_resize_canonical(buffer.width, buffer.height, &buffer.bytes),
        }
    }
}

} // verus!
