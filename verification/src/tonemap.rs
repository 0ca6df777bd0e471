//! The checks and channel reads that precede Hable tonemapping: which
//! formats are accepted, and that the buffer matches the dimensions.
use vstd::prelude::*;

use crate::channels::{decode_u16_channels, decode_u32_channels, u16_channels, u32_channels};
use crate::image::ChannelBits;
use crate::text::{decimal_chars, push_decimal};
use crate::types::{Image, PixelFormat};

verus! {

/// Why an image cannot be tonemapped.
#[derive(Debug, PartialEq, Eq, Structural, Clone, Copy)]
pub enum TonemapError {
    /// The format is `PixelFormat::Unknown`.
    UnsupportedFormat,
    /// The buffer size for the dimensions does not fit in `u32`.
    DimensionsOverflow,
    /// The buffer does not have the length that the dimensions call for.
    LengthMismatch { expected: usize, actual: usize, width: u32, height: u32, format: PixelFormat },
}

impl TonemapError {
    /// The text of the error.
    pub open spec fn message_chars(self) -> Seq<char> {
        match self {
            TonemapError::UnsupportedFormat => "Unsupported pixel format for Hable tonemapping: Unknown"@,
            TonemapError::DimensionsOverflow => "Image dimensions overflow pixel buffer size"@,
            TonemapError::LengthMismatch { expected, actual, width, height, format } => "Expected "@
                + decimal_chars(expected as nat) + " bytes for a "@ + decimal_chars(width as nat)
                + "x"@ + decimal_chars(height as nat) + " "@ + format.name() + " image, got "@
                + decimal_chars(actual as nat) + " bytes"@,
        }
    }

    /// The text of the error.
    pub fn message(&self) -> (s: String)
        ensures
            s@ == self.message_chars(),
    {
        match self {
            TonemapError::UnsupportedFormat => String::from_str(
                "Unsupported pixel format for Hable tonemapping: Unknown",
            ),
            TonemapError::DimensionsOverflow => String::from_str(
                "Image dimensions overflow pixel buffer size",
            ),
            TonemapError::LengthMismatch { expected, actual, width, height, format } => {
                let mut s = String::from_str("Expected ");
                push_decimal(&mut s, *expected as u64);
                s.append(" bytes for a ");
                push_decimal(&mut s, *width as u64);
                s.append("x");
                push_decimal(&mut s, *height as u64);
                s.append(" ");
                s.append(format.debug_name());
                s.append(" image, got ");
                push_decimal(&mut s, *actual as u64);
                s.append(" bytes");
                s
            },
        }
    }
}

/// The buffer length the tonemapper expects, computed in `u32`: `None`
/// where the pixel count or the byte count does not fit in `u32`.
pub open spec fn tonemap_expected_len(width: u32, height: u32, bytes_per_pixel: u32) -> Option<nat> {
    if width * height <= u32::MAX && width * height * bytes_per_pixel <= u32::MAX {
        Some((width * height * bytes_per_pixel) as nat)
    } else {
        None
    }
}

/// What checking an image's buffer against its dimensions gives.
pub open spec fn tonemap_len_check(image: &Image, bytes_per_pixel: u32) -> Result<(), TonemapError> {
    match tonemap_expected_len(image.width, image.height, bytes_per_pixel) {
        None => Err(TonemapError::DimensionsOverflow),
        Some(expected) => if image.pixels@.len() == expected {
            Ok(())
        } else {
            Err(
                TonemapError::LengthMismatch {
                    expected: expected as usize,
                    actual: image.pixels@.len() as usize,
                    width: image.width,
                    height: image.height,
                    format: image.format,
                },
            )
        },
    }
}

fn ensure_pixel_len(image: &Image, bytes_per_pixel: u32) -> (r: Result<(), TonemapError>)
    ensures
        r == tonemap_len_check(image, bytes_per_pixel),
{
    let expected = match image.width.checked_mul(image.height) {
        Some(pixels) => match pixels.checked_mul(bytes_per_pixel) {
            Some(len) => len as usize,
            None => {
                return Err(TonemapError::DimensionsOverflow);
            },
        },
        None => {
            return Err(TonemapError::DimensionsOverflow);
        },
    };
    if image.pixels.len() == expected {
        Ok(())
    } else {
        Err(
            TonemapError::LengthMismatch {
                expected,
                actual: image.pixels.len(),
                width: image.width,
                height: image.height,
                format: image.format,
            },
        )
    }
}

/// The RGBA channels that tonemapping works on, read little-endian from the
/// buffer after checking the format and the buffer length: binary32 bit
/// patterns for a 128bpp image, binary16 bit patterns for a 64bpp image
/// (these are widened to binary32 before tonemapping).
pub fn image_rgba_channels(image: &Image) -> (r: Result<ChannelBits, TonemapError>)
    ensures
        r is Ok <==> match image.format {
            PixelFormat::PixelFormat128bppRGBAFloat => image.width * image.height * 16 <= u32::MAX
                && image.pixels@.len() == image.width * image.height * 16,
            PixelFormat::PixelFormat64bppRGBAHalfFloat => image.width * image.height * 8
                <= u32::MAX && image.pixels@.len() == image.width * image.height * 8,
            PixelFormat::Unknown => false,
        },
        image.format == PixelFormat::Unknown ==> r == Err::<ChannelBits, TonemapError>(
            TonemapError::UnsupportedFormat,
        ),
        image.format == PixelFormat::PixelFormat128bppRGBAFloat ==> match tonemap_len_check(
            image,
            16,
        ) {
            Ok(()) => r matches Ok(ChannelBits::Float32(words)) && words@ == u32_channels(
                image.pixels@,
            ),
            Err(e) => r == Err::<ChannelBits, TonemapError>(e),
        },
        image.format == PixelFormat::PixelFormat64bppRGBAHalfFloat ==> match tonemap_len_check(
            image,
            8,
        ) {
            Ok(()) => r matches Ok(ChannelBits::Float16(halves)) && halves@ == u16_channels(
                image.pixels@,
            ),
            Err(e) => r == Err::<ChannelBits, TonemapError>(e),
        },
{
    proof {
        lemma_tonemap_len_check(image, 16);
        lemma_tonemap_len_check(image, 8);
    }
    match image.format {
        PixelFormat::PixelFormat128bppRGBAFloat => {
            ensure_pixel_len(image, 16)?;
            Ok(ChannelBits::Float32(decode_u32_channels(image.pixels.as_slice())))
        },
        PixelFormat::PixelFormat64bppRGBAHalfFloat => {
            ensure_pixel_len(image, 8)?;
            Ok(ChannelBits::Float16(decode_u16_channels(image.pixels.as_slice())))
        },
        PixelFormat::Unknown => Err(TonemapError::UnsupportedFormat),
    }
}

/// The tonemapper's length check accepts an image exactly when its buffer
/// size, `width * height * bytes_per_pixel`, fits in `u32` and the buffer has
/// that many bytes; it reports an overflow exactly when that size does not
/// fit in `u32`.
pub proof fn lemma_tonemap_len_check(image: &Image, bytes_per_pixel: u32)
    requires
        bytes_per_pixel >= 1,
    ensures
        tonemap_len_check(image, bytes_per_pixel) is Ok <==> (image.width * image.height
            * bytes_per_pixel <= u32::MAX && image.pixels@.len() == image.width * image.height
            * bytes_per_pixel),
        tonemap_len_check(image, bytes_per_pixel) == Err::<(), TonemapError>(
            TonemapError::DimensionsOverflow,
        ) <==> image.width * image.height * bytes_per_pixel > u32::MAX,
{
    let n = image.width * image.height;
    assert(n <= n * bytes_per_pixel) by (nonlinear_arith)
        requires
            n >= 0,
            bytes_per_pixel >= 1,
    ;
}

} // verus!
