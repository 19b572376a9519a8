use widget_core::encode::{encode_canonical, encode_text};
use widget_core::error::IconError;
use widget_core::extract::{encode_icon_from_bgra, get_icon};
use widget_core::pixel::{PixelBuffer, CANONICAL_SIZE};
use widget_core::resample::{resample_to_canonical, NormalizedImage};

const CANONICAL_BYTES: usize = 128 * 128 * 4;

fn decode_base64(text: &str) -> Vec<u8> {
    base64::Engine::decode(&base64::engine::general_purpose::STANDARD, text)
        .expect("the pipeline emits valid base64")
}

#[test]
fn channel_swap_known_pixel() {
    let mut buffer = PixelBuffer::new(1, 1, vec![10, 20, 30, 40]).unwrap();
    buffer.swap_channels();
    assert_eq!(buffer.bytes, vec![30, 20, 10, 40]);
}

#[test]
fn channel_swap_whole_buffer() {
    let mut buffer = PixelBuffer::new(2, 1, vec![1, 2, 3, 4, 5, 6, 7, 8]).unwrap();
    buffer.swap_channels();
    assert_eq!(buffer.bytes, vec![3, 2, 1, 4, 7, 6, 5, 8]);
}

#[test]
fn pixel_buffer_rejects_mismatched_input() {
    assert!(PixelBuffer::new(2, 2, vec![0; 15]).is_none());
    assert!(PixelBuffer::new(2, 2, vec![0; 17]).is_none());
    assert!(PixelBuffer::new(0, 2, vec![]).is_none());
    assert!(PixelBuffer::new(2, 0, vec![]).is_none());
    assert!(PixelBuffer::new(2, 2, vec![0; 16]).is_some());
}

#[test]
fn resample_non_canonical_size() {
    let buffer = PixelBuffer::new(32, 32, vec![200; 32 * 32 * 4]).unwrap();
    let image = resample_to_canonical(buffer);
    assert_eq!(image.bytes.len(), CANONICAL_BYTES);
}

#[test]
fn resample_enlarges_and_shrinks() {
    let small = PixelBuffer::new(16, 16, vec![50; 16 * 16 * 4]).unwrap();
    assert_eq!(resample_to_canonical(small).bytes.len(), CANONICAL_BYTES);
    let large = PixelBuffer::new(256, 256, vec![50; 256 * 256 * 4]).unwrap();
    assert_eq!(resample_to_canonical(large).bytes.len(), CANONICAL_BYTES);
}

#[test]
fn resample_passes_canonical_through_unchanged() {
    let bytes: Vec<u8> = (0..CANONICAL_BYTES).map(|i| (i % 251) as u8).collect();
    let buffer = PixelBuffer::new(CANONICAL_SIZE, CANONICAL_SIZE, bytes.clone()).unwrap();
    let image = resample_to_canonical(buffer);
    assert_eq!(image.bytes, bytes);
}

#[test]
fn encode_text_matches_base64_standard() {
    let bytes = vec![1u8, 2, 3, 4, 5];
    let text = encode_text(&bytes).unwrap();
    let direct = base64::Engine::encode(&base64::engine::general_purpose::STANDARD, &bytes);
    assert_eq!(text, direct);
    assert_eq!(text.len(), 4 * ((bytes.len() + 2) / 3));
    assert_ne!(text.as_bytes(), bytes.as_slice());
}

#[test]
fn encode_canonical_yields_decodable_png() {
    let bytes: Vec<u8> = (0..CANONICAL_BYTES).map(|i| (i % 241) as u8).collect();
    let image = NormalizedImage { bytes: bytes.clone() };
    let icon = encode_canonical(&image).unwrap();
    // The text wraps exactly the compressed bytes.
    assert_eq!(decode_base64(&icon.text), icon.png);
    // The compressed stream is a real PNG of canonical size holding the
    // very pixels that went in.
    let decoded = image::load_from_memory(&icon.png).unwrap();
    assert_eq!(decoded.width(), 128);
    assert_eq!(decoded.height(), 128);
    assert_eq!(decoded.to_rgba8().into_raw(), bytes);
    // The encoder really compressed: the stream is not the raw buffer.
    assert_ne!(icon.png, bytes);
}

#[test]
fn extraction_swaps_channels_end_to_end() {
    // A canonical-size source: no resampling, so the decoded image must be
    // the exact channel-swapped input.
    let mut bgra = Vec::with_capacity(CANONICAL_BYTES);
    for _ in 0..(CANONICAL_BYTES / 4) {
        bgra.extend_from_slice(&[10, 20, 30, 40]);
    }
    let buffer = PixelBuffer::new(CANONICAL_SIZE, CANONICAL_SIZE, bgra).unwrap();
    let text = encode_icon_from_bgra(buffer).unwrap();
    let png = decode_base64(&text);
    let decoded = image::load_from_memory(&png).unwrap().to_rgba8();
    assert_eq!(decoded.width(), 128);
    assert_eq!(decoded.height(), 128);
    let pixel = decoded.get_pixel(64, 64);
    assert_eq!(pixel.0, [30, 20, 10, 40]);
}

#[test]
fn extraction_resamples_to_canonical() {
    let buffer = PixelBuffer::new(32, 32, vec![128; 32 * 32 * 4]).unwrap();
    let text = encode_icon_from_bgra(buffer).unwrap();
    let png = decode_base64(&text);
    let decoded = image::load_from_memory(&png).unwrap();
    assert_eq!(decoded.width(), 128);
    assert_eq!(decoded.height(), 128);
}

#[test]
fn extraction_is_repeatable() {
    let source = vec![77u8; 32 * 32 * 4];
    let first = encode_icon_from_bgra(PixelBuffer::new(32, 32, source.clone()).unwrap()).unwrap();
    let second = encode_icon_from_bgra(PixelBuffer::new(32, 32, source).unwrap()).unwrap();
    assert_eq!(first, second);
}

#[test]
fn extraction_under_sequential_load() {
    for round in 0..300u32 {
        let shade = (round % 256) as u8;
        let buffer = PixelBuffer::new(32, 32, vec![shade; 32 * 32 * 4]).unwrap();
        assert!(encode_icon_from_bgra(buffer).is_ok());
    }
}

#[test]
fn get_icon_reports_unsupported() {
    assert_eq!(get_icon(String::from("/")), Err(IconError::Unsupported));
    assert_eq!(
        get_icon(String::from("no-such-file-anywhere")),
        Err(IconError::Unsupported)
    );
}

#[test]
fn error_messages_are_descriptive() {
    assert_eq!(IconError::NotFound.message(), "Path does not exist");
    assert_eq!(
        IconError::HandleAcquisitionFailed.message(),
        "Failed to get icon handle"
    );
    assert_eq!(
        IconError::BufferExtractionFailed.message(),
        "Failed to extract icon pixel data"
    );
    assert_eq!(IconError::EncodingFailed.message(), "Failed to encode icon image");
    assert_eq!(
        IconError::Unsupported.message(),
        "Icon extraction not supported on this platform"
    );
}
