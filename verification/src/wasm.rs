//! The checks behind the WebAssembly export layer: building an image from a
//! caller's 64bpp RGBA half-float buffer.
use vstd::prelude::*;

use crate::image::expected_pixel_len;
use crate::text::{decimal_chars, push_decimal};
use crate::types::{Image, PixelFormat};

verus! {

pub const RGBA_HALF_FLOAT_BYTES_PER_PIXEL: usize = 8;

/// The error text for dimensions whose buffer size does not fit in `usize`.
pub open spec fn half_float_overflow_message() -> Seq<char> {
    "Image dimensions overflow the RGBA half-float buffer size"@
}

/// The error text for a buffer of the wrong length.
pub open spec fn half_float_len_message(expected: nat, width: u32, height: u32, actual: nat) -> Seq<
    char,
> {
    "Expected "@ + decimal_chars(expected) + " bytes for a "@ + decimal_chars(width as nat) + "x"@
        + decimal_chars(height as nat) + " 64bpp RGBA half-float image, got "@ + decimal_chars(actual)
        + " bytes"@
}

/// The byte length of a `width` x `height` 64bpp RGBA half-float buffer.
pub fn expected_rgba_half_float_len(width: u32, height: u32) -> (r: Result<usize, String>)
    ensures
        match expected_pixel_len(width, height, RGBA_HALF_FLOAT_BYTES_PER_PIXEL as nat) {
            Some(n) => r == Ok::<usize, String>(n as usize),
            None => r matches Err(message) && message@ == half_float_overflow_message(),
        },
{
    match (width as usize).checked_mul(height as usize) {
        Some(pixels) => match pixels.checked_mul(RGBA_HALF_FLOAT_BYTES_PER_PIXEL) {
            Some(len) => Ok(len),
            None => Err(
                String::from_str("Image dimensions overflow the RGBA half-float buffer size"),
            ),
        },
        None => Err(String::from_str("Image dimensions overflow the RGBA half-float buffer size")),
    }
}

/// Copies a caller's buffer into a 64bpp RGBA half-float image, after
/// checking that its length matches the dimensions.
pub fn image_from_rgba_half_float(width: u32, height: u32, pixels: &[u8]) -> (r: Result<
    Image,
    String,
>)
    ensures
        match expected_pixel_len(width, height, RGBA_HALF_FLOAT_BYTES_PER_PIXEL as nat) {
            None => r matches Err(message) && message@ == half_float_overflow_message(),
            Some(n) => if pixels@.len() == n {
                r matches Ok(image) && image.pixels@ == pixels@ && image.width == width
                    && image.height == height && image.format
                    == PixelFormat::PixelFormat64bppRGBAHalfFloat
            } else {
                r matches Err(message) && message@ == half_float_len_message(
                    n,
                    width,
                    height,
                    pixels@.len(),
                )
            },
        },
{
    let expected_len = expected_rgba_half_float_len(width, height)?;
    if pixels.len() != expected_len {
        let mut message = String::from_str("Expected ");
        push_decimal(&mut message, expected_len as u64);
        message.append(" bytes for a ");
        push_decimal(&mut message, width as u64);
        message.append("x");
        push_decimal(&mut message, height as u64);
        message.append(" 64bpp RGBA half-float image, got ");
        push_decimal(&mut message, pixels.len() as u64);
        message.append(" bytes");
        return Err(message);
    }
    Ok(
        Image {
            pixels: vstd::slice::slice_to_vec(pixels),
            width,
            height,
            format: PixelFormat::PixelFormat64bppRGBAHalfFloat,
        },
    )
}

} // verus!
