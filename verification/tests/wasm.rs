use jxr2uhdr::types::PixelFormat;
use jxr2uhdr::wasm::{expected_rgba_half_float_len, image_from_rgba_half_float};

#[test]
fn expected_half_float_len_is_eight_bytes_per_pixel() {
    assert_eq!(expected_rgba_half_float_len(3, 5), Ok(120));
    assert_eq!(
        expected_rgba_half_float_len(u32::MAX, u32::MAX),
        Err("Image dimensions overflow the RGBA half-float buffer size".to_string())
    );
}

#[test]
fn image_from_half_float_buffer_copies_pixels() {
    let pixels: Vec<u8> = (0..16).collect();
    let image = image_from_rgba_half_float(2, 1, &pixels).expect("matching buffer is accepted");
    assert_eq!(image.pixels, pixels);
    assert_eq!((image.width, image.height), (2, 1));
    assert_eq!(image.format, PixelFormat::PixelFormat64bppRGBAHalfFloat);
}

#[test]
fn image_from_half_float_buffer_rejects_wrong_length() {
    let error = match image_from_rgba_half_float(2, 1, &[0; 15]) {
        Ok(_) => panic!("short buffer should be rejected"),
        Err(error) => error,
    };
    assert_eq!(
        error,
        "Expected 16 bytes for a 2x1 64bpp RGBA half-float image, got 15 bytes"
    );
}
