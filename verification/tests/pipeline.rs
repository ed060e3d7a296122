use base64::Engine;
use rifthold::thumbnail::{
    MAX_THUMBNAIL_WIDTH, encode_thumbnail_rgb, rgba_to_rgb, target_dimensions,
    thumbnail_from_rgba,
};

fn checkered_rgba(width: u32, height: u32) -> Vec<u8> {
    let mut buf = Vec::with_capacity((width * height * 4) as usize);
    for y in 0..height {
        for x in 0..width {
            let v = if (x / 8 + y / 8) % 2 == 0 { 220 } else { 40 };
            buf.push(v);
            buf.push(255 - v);
            buf.push(v / 2);
            buf.push(255);
        }
    }
    buf
}

fn decode_data_uri(uri: &str) -> (u32, u32) {
    let payload = uri
        .strip_prefix("data:image/jpeg;base64,")
        .expect("thumbnail must be a jpeg data uri");
    let jpeg = base64::engine::general_purpose::STANDARD
        .decode(payload)
        .expect("payload must be valid base64");
    let img = image::load_from_memory(&jpeg).expect("payload must decode as an image");
    (img.width(), img.height())
}

#[test]
fn wide_capture_is_capped_and_scaled() {
    assert_eq!(target_dimensions(1000, 600, MAX_THUMBNAIL_WIDTH), (500, 300));
    assert_eq!(target_dimensions(1000, 601, MAX_THUMBNAIL_WIDTH), (500, 301));
    assert_eq!(target_dimensions(1000, 1, MAX_THUMBNAIL_WIDTH), (500, 1));
}

#[test]
fn narrow_capture_keeps_native_size() {
    assert_eq!(target_dimensions(500, 900, MAX_THUMBNAIL_WIDTH), (500, 900));
    assert_eq!(target_dimensions(120, 80, MAX_THUMBNAIL_WIDTH), (120, 80));
    assert_eq!(target_dimensions(1, 1, MAX_THUMBNAIL_WIDTH), (1, 1));
}

#[test]
fn scaling_rounds_to_nearest() {
    // 333 * (500 / 1000) = 166.5, rounded up.
    assert_eq!(target_dimensions(1000, 333, MAX_THUMBNAIL_WIDTH), (500, 167));
    // 1000 * (500 / 1500) = 333.33..., rounded down.
    assert_eq!(target_dimensions(1500, 1000, MAX_THUMBNAIL_WIDTH), (500, 333));
}

#[test]
fn alpha_channel_is_dropped() {
    let rgba = vec![1, 2, 3, 255, 4, 5, 6, 0, 7, 8, 9, 127];
    let rgb = rgba_to_rgb(&rgba, 3);
    assert_eq!(rgb, vec![1, 2, 3, 4, 5, 6, 7, 8, 9]);
}

#[test]
fn thumbnail_is_a_jpeg_data_uri_of_the_scaled_size() {
    let (w, h) = target_dimensions(1000, 600, MAX_THUMBNAIL_WIDTH);
    assert_eq!((w, h), (500, 300));
    let rgba = checkered_rgba(w, h);
    let uri = thumbnail_from_rgba(&rgba, w, h).expect("encoding must succeed");
    let (dw, dh) = decode_data_uri(&uri);
    assert_eq!(dw, 500);
    assert_eq!(dh, 300);
}

#[test]
fn encoding_depends_on_the_pixels() {
    let light = vec![230u8; 16 * 16 * 3];
    let dark = vec![20u8; 16 * 16 * 3];
    let a = encode_thumbnail_rgb(&light, 16, 16).expect("encoding must succeed");
    let b = encode_thumbnail_rgb(&dark, 16, 16).expect("encoding must succeed");
    assert_ne!(a, b);
    let c = encode_thumbnail_rgb(&light, 16, 16).expect("encoding must succeed");
    assert_eq!(a, c);
}

#[test]
fn zero_sized_capture_yields_no_thumbnail() {
    assert!(thumbnail_from_rgba(&Vec::new(), 0, 0).is_none());
    assert!(thumbnail_from_rgba(&Vec::new(), 0, 10).is_none());
    assert!(thumbnail_from_rgba(&Vec::new(), 10, 0).is_none());
}

#[test]
fn malformed_capture_yields_no_thumbnail() {
    let short = vec![0u8; 7];
    assert!(thumbnail_from_rgba(&short, 2, 2).is_none());
}

#[test]
fn oversized_dimensions_yield_no_thumbnail() {
    let rgba = vec![0u8; 65536 * 4];
    assert!(thumbnail_from_rgba(&rgba, 65536, 1).is_none());
    let rgb = vec![0u8; 65536 * 3];
    assert!(encode_thumbnail_rgb(&rgb, 65536, 1).is_none());
    assert!(encode_thumbnail_rgb(&rgb, 1, 65536).is_none());
}
