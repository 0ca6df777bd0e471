use jxr2uhdr::image::ChannelBits;
use jxr2uhdr::tonemap::{image_rgba_channels, TonemapError};
use jxr2uhdr::types::{Image, PixelFormat};

fn rgba_f32_image(width: u32, height: u32, values: &[f32]) -> Image {
    Image {
        pixels: values.iter().flat_map(|&value| value.to_le_bytes()).collect(),
        width,
        height,
        format: PixelFormat::PixelFormat128bppRGBAFloat,
    }
}

fn rgba_unknown_image(width: u32, height: u32, values: &[f32]) -> Image {
    Image {
        pixels: values.iter().flat_map(|&value| value.to_le_bytes()).collect(),
        width,
        height,
        format: PixelFormat::Unknown,
    }
}

#[test]
fn tonemap_rejects_unknown_pixel_format() {
    let input = rgba_unknown_image(1, 1, &[0.0, 0.0, 0.0, 1.0]);

    let error = match image_rgba_channels(&input) {
        Ok(_) => panic!("unknown image format should be rejected"),
        Err(error) => error,
    };

    assert!(
        error
            .message()
            .contains("Unsupported pixel format for Hable tonemapping"),
        "unexpected error: {}",
        error.message()
    );
}

#[test]
fn tonemap_rejects_mismatched_pixel_buffer_len() {
    let mut input = rgba_f32_image(1, 1, &[0.0, 0.0, 0.0, 1.0]);
    input.pixels.push(0xff);

    let error = match image_rgba_channels(&input) {
        Ok(_) => panic!("mismatched pixel buffer length should be rejected"),
        Err(error) => error,
    };

    assert!(
        error.message().contains("Expected 16 bytes"),
        "unexpected error: {}",
        error.message()
    );
}

#[test]
fn tonemap_checks_sizes_in_u32() {
    // 65536 x 65536 pixels fit in usize but not in u32.
    let input = Image {
        pixels: vec![],
        width: 65536,
        height: 65536,
        format: PixelFormat::PixelFormat64bppRGBAHalfFloat,
    };
    assert_eq!(
        image_rgba_channels(&input).err(),
        Some(TonemapError::DimensionsOverflow)
    );
}

#[test]
fn tonemap_channels_of_half_float_image() {
    let input = Image {
        pixels: vec![0x00, 0x3C, 0x00, 0x00, 0x00, 0x00, 0x00, 0x3C],
        width: 1,
        height: 1,
        format: PixelFormat::PixelFormat64bppRGBAHalfFloat,
    };
    match image_rgba_channels(&input) {
        Ok(ChannelBits::Float16(halves)) => assert_eq!(halves, vec![0x3C00, 0, 0, 0x3C00]),
        _ => panic!("valid f16 image should give binary16 channels"),
    }
}

#[test]
fn tonemap_channels_of_empty_image() {
    let input = rgba_f32_image(0, 0, &[]);
    match image_rgba_channels(&input) {
        Ok(ChannelBits::Float32(words)) => assert!(words.is_empty()),
        _ => panic!("empty f32 image should give no channels"),
    }
}

#[test]
fn tonemap_length_message_names_the_format() {
    let input = Image {
        pixels: vec![0; 3],
        width: 1,
        height: 2,
        format: PixelFormat::PixelFormat64bppRGBAHalfFloat,
    };
    let error = image_rgba_channels(&input).err().expect("short buffer should be rejected");
    assert_eq!(
        error.message(),
        "Expected 16 bytes for a 1x2 PixelFormat64bppRGBAHalfFloat image, got 3 bytes"
    );
}
