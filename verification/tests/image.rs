use jxr2uhdr::image::{ChannelBits, FormatChange, ImageError};
use jxr2uhdr::{Image, PixelFormat};

fn expect_from_bytes_err(result: Result<Image, ImageError>, message: &str) -> ImageError {
    match result {
        Ok(_) => panic!("{message}"),
        Err(error) => error,
    }
}

fn f32_image(width: u32, height: u32, values: &[f32]) -> Image {
    Image::from_bytes(
        width,
        height,
        PixelFormat::PixelFormat128bppRGBAFloat,
        values.iter().flat_map(|&value| value.to_le_bytes()).collect::<Vec<_>>(),
    )
    .expect("test f32 image should be valid")
}

fn f16_image(width: u32, height: u32, values: &[f32]) -> Image {
    Image::from_bytes(
        width,
        height,
        PixelFormat::PixelFormat64bppRGBAHalfFloat,
        values
            .iter()
            .flat_map(|&value| half::f16::from_f32(value).to_le_bytes())
            .collect::<Vec<_>>(),
    )
    .expect("test f16 image should be valid")
}

#[test]
fn from_bytes_rejects_mismatched_pixel_buffer_len() {
    let error = expect_from_bytes_err(
        Image::from_bytes(1, 1, PixelFormat::PixelFormat128bppRGBAFloat, vec![0; 17]),
        "mismatched pixel buffer length should be rejected",
    );

    assert!(
        error.message().contains("Expected 16 bytes"),
        "unexpected error: {}",
        error.message()
    );
}

#[test]
fn from_bytes_rejects_dimension_overflow() {
    let error = expect_from_bytes_err(
        Image::from_bytes(
            u32::MAX,
            u32::MAX,
            PixelFormat::PixelFormat128bppRGBAFloat,
            vec![],
        ),
        "overflowing dimensions should be rejected",
    );

    assert!(
        error
            .message()
            .contains("Image dimensions overflow pixel buffer size"),
        "unexpected error: {}",
        error.message()
    );
}

#[test]
fn from_bytes_length_mismatch_message_is_complete() {
    let error = Image::from_bytes(2, 3, PixelFormat::PixelFormat64bppRGBAHalfFloat, vec![0; 5])
        .err()
        .expect("short buffer should be rejected");
    assert_eq!(
        error,
        ImageError::LengthMismatch {
            expected: 48,
            actual: 5,
            width: 2,
            height: 3,
            format: PixelFormat::PixelFormat64bppRGBAHalfFloat,
        }
    );
    assert_eq!(
        error.message(),
        "Expected 48 bytes for a 2x3 PixelFormat64bppRGBAHalfFloat image, got 5 bytes"
    );
}

#[test]
fn from_bytes_keeps_dimensions_format_and_pixels() {
    let pixels: Vec<u8> = (0..32).collect();
    let image = Image::from_bytes(2, 1, PixelFormat::PixelFormat128bppRGBAFloat, pixels.clone())
        .expect("matching buffer should be accepted");
    assert_eq!(image.width(), 2);
    assert_eq!(image.height(), 1);
    assert_eq!(image.format(), PixelFormat::PixelFormat128bppRGBAFloat);
    assert_eq!(image.as_slice(), pixels.as_slice());
    assert_eq!(image.clone().into_bytes(), pixels);
}

#[test]
fn from_bytes_accepts_empty_images() {
    let image = Image::from_bytes(0, 7, PixelFormat::PixelFormat64bppRGBAHalfFloat, vec![])
        .expect("zero-width image should be accepted");
    assert_eq!(image.height(), 7);
    assert!(image.as_slice().is_empty());
}

#[test]
fn bytes_per_pixel_of_both_formats() {
    assert_eq!(PixelFormat::PixelFormat128bppRGBAFloat.bytes_per_pixel(), 16);
    assert_eq!(PixelFormat::PixelFormat64bppRGBAHalfFloat.bytes_per_pixel(), 8);
}

#[test]
fn channel_bits_read_f32_words_little_endian() {
    let image = f32_image(1, 1, &[1.0, 0.0, 0.5, 0.25]);
    match image.channel_bits() {
        ChannelBits::Float32(words) => assert_eq!(
            words,
            vec![1.0f32.to_bits(), 0.0f32.to_bits(), 0.5f32.to_bits(), 0.25f32.to_bits()]
        ),
        ChannelBits::Float16(_) => panic!("a 128bpp image has binary32 channels"),
    }
}

#[test]
fn channel_bits_read_f16_words_little_endian() {
    let image = f16_image(1, 1, &[0.25, 0.5, 0.75, 1.0]);
    match image.channel_bits() {
        ChannelBits::Float16(halves) => {
            let values: Vec<f32> = halves
                .iter()
                .map(|&bits| half::f16::from_bits(bits).to_f32())
                .collect();
            assert_eq!(values, [0.25, 0.5, 0.75, 1.0]);
        }
        ChannelBits::Float32(_) => panic!("a 64bpp image has binary16 channels"),
    }
}

#[test]
fn rebuilding_from_own_channels_gives_the_same_image() {
    let image = f32_image(2, 1, &[1.0, 2.0, 4.0, 0.5, 8.0, 16.0, 32.0, 1.0]);
    let rebuilt = Image::from_channel_bits(2, 1, image.channel_bits())
        .expect("an image's own channels should rebuild it");
    assert_eq!(rebuilt.as_slice(), image.as_slice());
    assert_eq!(rebuilt.format(), image.format());
}

#[test]
fn from_channel_bits_rejects_wrong_channel_count() {
    let error = Image::from_channel_bits(1, 1, ChannelBits::Float16(vec![0; 3]))
        .err()
        .expect("three channels do not make one RGBA pixel");
    assert_eq!(error.message(), "Expected 8 bytes for a 1x1 PixelFormat64bppRGBAHalfFloat image, got 6 bytes");
}

#[test]
fn into_pixel_format_preserves_same_format_image() {
    let image = f32_image(2, 1, &[1.0, 2.0, 4.0, 0.5, 8.0, 16.0, 32.0, 1.0]);
    let pixels_before = image.as_slice().to_vec();
    match image.into_format_change(PixelFormat::PixelFormat128bppRGBAFloat) {
        FormatChange::Unchanged(output) => {
            assert_eq!(output.width(), 2);
            assert_eq!(output.height(), 1);
            assert_eq!(output.format(), PixelFormat::PixelFormat128bppRGBAFloat);
            assert_eq!(output.as_slice(), pixels_before.as_slice());
        }
        _ => panic!("same-format change should keep the image"),
    }
}

#[test]
fn format_change_to_half_float_narrows_every_channel() {
    let image = f32_image(1, 1, &[0.25, 0.5, 0.75, 1.0]);
    match image.into_format_change(PixelFormat::PixelFormat64bppRGBAHalfFloat) {
        FormatChange::Narrow { width, height, words } => {
            assert_eq!((width, height), (1, 1));
            let halves: Vec<u16> = words
                .iter()
                .map(|&w| half::f16::from_f32(f32::from_bits(w)).to_bits())
                .collect();
            let output = Image::from_channel_bits(width, height, ChannelBits::Float16(halves))
                .expect("narrowed channels should form an image");
            assert_eq!(output.format(), PixelFormat::PixelFormat64bppRGBAHalfFloat);
            let back: Vec<f32> = output
                .as_slice()
                .chunks_exact(2)
                .map(|c| half::f16::from_le_bytes([c[0], c[1]]).to_f32())
                .collect();
            assert_eq!(back, [0.25, 0.5, 0.75, 1.0]);
        }
        _ => panic!("128bpp to 64bpp should narrow"),
    }
}

#[test]
fn format_change_to_float_widens_every_channel() {
    let image = f16_image(1, 1, &[0.25, 0.5, 0.75, 1.0]);
    match image.into_format_change(PixelFormat::PixelFormat128bppRGBAFloat) {
        FormatChange::Widen { width, height, halves } => {
            assert_eq!((width, height), (1, 1));
            let words: Vec<u32> = halves
                .iter()
                .map(|&h| half::f16::from_bits(h).to_f32().to_bits())
                .collect();
            let output = Image::from_channel_bits(width, height, ChannelBits::Float32(words))
                .expect("widened channels of a small image should form an image");
            assert_eq!(output.format(), PixelFormat::PixelFormat128bppRGBAFloat);
            let back: Vec<f32> = output
                .as_slice()
                .chunks_exact(4)
                .map(|c| f32::from_le_bytes([c[0], c[1], c[2], c[3]]))
                .collect();
            assert_eq!(back, [0.25, 0.5, 0.75, 1.0]);
        }
        _ => panic!("64bpp to 128bpp should widen"),
    }
}
