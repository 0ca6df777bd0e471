use jxr2uhdr::decode::{decode_layout, image_from_decoded, DecodeError, DecodeLayout};
use jxr2uhdr::PixelFormat;

#[test]
fn decode_layout_of_a_screenshot() {
    assert_eq!(
        decode_layout(3440, 1440, PixelFormat::PixelFormat128bppRGBAFloat),
        Ok(DecodeLayout { stride: 3440 * 16, size: 3440 * 16 * 1440 })
    );
    assert_eq!(
        decode_layout(3, 2, PixelFormat::PixelFormat64bppRGBAHalfFloat),
        Ok(DecodeLayout { stride: 24, size: 48 })
    );
}

#[test]
fn decode_layout_rejects_negative_width() {
    let error = decode_layout(-1, 1, PixelFormat::PixelFormat64bppRGBAHalfFloat)
        .expect_err("a negative width cannot be laid out");
    assert_eq!(error, DecodeError::WidthOverflow);
    assert_eq!(error.message(), "Width multiplication overflow");
}

#[test]
fn decode_layout_rejects_negative_height() {
    let error = decode_layout(1, -1, PixelFormat::PixelFormat128bppRGBAFloat)
        .expect_err("a negative height cannot be laid out");
    assert_eq!(error, DecodeError::SizeOverflow);
    assert_eq!(error.message(), "Image size overflow");
}

#[test]
fn decoded_buffer_of_layout_size_forms_image() {
    let layout = decode_layout(0, -1, PixelFormat::PixelFormat128bppRGBAFloat)
        .expect("a zero-width image needs no bytes");
    assert_eq!(layout.size, 0);
    let image = image_from_decoded(0, -1, PixelFormat::PixelFormat128bppRGBAFloat, vec![0; layout.size])
        .expect("a buffer of the layout's size forms an image");
    assert_eq!(image.width(), 0);
    assert_eq!(image.height(), u32::MAX);

    let layout = decode_layout(2, 2, PixelFormat::PixelFormat64bppRGBAHalfFloat).unwrap();
    let image = image_from_decoded(2, 2, PixelFormat::PixelFormat64bppRGBAHalfFloat, vec![1; layout.size])
        .expect("a buffer of the layout's size forms an image");
    assert_eq!(image.as_slice().len(), 32);
}
