//! What a JPEG XR decode does with the decoder's answers: the row stride and
//! buffer size for the reported dimensions, and the image made of the
//! decoded buffer.
use vstd::prelude::*;

use crate::image::{pixel_len_check, Image, ImageError, ImageView, PixelFormat};

verus! {

/// Why the decoded dimensions cannot be laid out in memory.
#[derive(Debug, PartialEq, Eq, Structural, Clone, Copy)]
pub enum DecodeError {
    /// `width * bytes_per_pixel` does not fit in `usize`.
    WidthOverflow,
    /// `stride * height` does not fit in `usize`.
    SizeOverflow,
}

impl DecodeError {
    /// The text of the error.
    pub open spec fn message_chars(self) -> Seq<char> {
        match self {
            DecodeError::WidthOverflow => "Width multiplication overflow"@,
            DecodeError::SizeOverflow => "Image size overflow"@,
        }
    }

    /// The text of the error.
    pub fn message(&self) -> (s: String)
        ensures
            s@ == self.message_chars(),
    {
        match self {
            DecodeError::WidthOverflow => String::from_str("Width multiplication overflow"),
            DecodeError::SizeOverflow => String::from_str("Image size overflow"),
        }
    }
}

/// The row stride and total size, in bytes, of a decode buffer.
#[derive(Debug, PartialEq, Eq, Structural, Clone, Copy)]
pub struct DecodeLayout {
    pub stride: usize,
    pub size: usize,
}

/// The layout for a decoder that reports `width` x `height` pixels of
/// `format`; the reported dimensions are signed and are taken as `usize`
/// the way `as` converts them.
pub open spec fn decode_layout_spec(width: i32, height: i32, format: PixelFormat) -> Result<
    DecodeLayout,
    DecodeError,
> {
    let w = width as usize;
    let h = height as usize;
    let stride = w * format.pixel_bytes();
    if stride > usize::MAX {
        Err(DecodeError::WidthOverflow)
    } else if stride * h > usize::MAX {
        Err(DecodeError::SizeOverflow)
    } else {
        Ok(DecodeLayout { stride: stride as usize, size: (stride * h) as usize })
    }
}

/// The stride and size of the buffer that receives the decoded pixels.
pub fn decode_layout(width: i32, height: i32, format: PixelFormat) -> (r: Result<
    DecodeLayout,
    DecodeError,
>)
    ensures
        r == decode_layout_spec(width, height, format),
{
    let bytes_per_pixel = format.bytes_per_pixel();
    let stride = match (width as usize).checked_mul(bytes_per_pixel) {
        Some(stride) => stride,
        None => {
            return Err(DecodeError::WidthOverflow);
        },
    };
    let size = match stride.checked_mul(height as usize) {
        Some(size) => size,
        None => {
            return Err(DecodeError::SizeOverflow);
        },
    };
    Ok(DecodeLayout { stride, size })
}

/// The image made of a decoded buffer, with the reported dimensions taken as
/// `u32` the way `as` converts them.
pub fn image_from_decoded(width: i32, height: i32, format: PixelFormat, buffer: Vec<u8>) -> (r:
    Result<Image, ImageError>)
    ensures
        r is Ok <==> pixel_len_check(
            width as u32,
            height as u32,
            format,
            buffer@.len(),
            format.pixel_bytes(),
        ) is Ok,
        r matches Ok(image) ==> image@ == (ImageView {
            pixels: buffer@,
            width: width as u32,
            height: height as u32,
            format,
        }),
        r matches Err(e) ==> pixel_len_check(
            width as u32,
            height as u32,
            format,
            buffer@.len(),
            format.pixel_bytes(),
        ) == Err::<(), ImageError>(e),
{
    Image::from_bytes(width as u32, height as u32, format, buffer)
}

proof fn lemma_negative_as_usize(x: i32)
    requires
        x < 0,
    ensures
        (x as usize) * 2 > usize::MAX,
{
    assert(usize::BITS == 32 || usize::BITS == 64);
    assert(x < 0 ==> x as usize >= (1usize << ((usize::BITS - 1) as u32))) by (bit_vector);
    assert(usize::BITS == 32 ==> (1usize << ((usize::BITS - 1) as u32)) == 0x8000_0000) by (
    bit_vector);
    assert(usize::BITS == 64 ==> (1usize << ((usize::BITS - 1) as u32)) == 0x8000_0000_0000_0000)
        by (bit_vector);
}

proof fn lemma_nonnegative_casts(x: i32)
    requires
        x >= 0,
    ensures
        x as usize == x,
        x as u32 == x,
{
}

/// Whenever the layout for the reported dimensions exists, a decoded buffer
/// of that size always forms an image with those dimensions: the final step
/// of a decode never fails.
pub proof fn lemma_decoded_buffer_forms_image(width: i32, height: i32, format: PixelFormat)
    requires
        decode_layout_spec(width, height, format) is Ok,
    ensures
        pixel_len_check(
            width as u32,
            height as u32,
            format,
            decode_layout_spec(width, height, format)->Ok_0.size as nat,
            format.pixel_bytes(),
        ) is Ok,
{
    let bpp = format.pixel_bytes();
    let w = width as usize;
    let h = height as usize;
    let stride = w * bpp;
    assert(stride <= usize::MAX && stride * h <= usize::MAX);
    let layout = decode_layout_spec(width, height, format)->Ok_0;
    assert(layout.size == stride * h);
    if width < 0 {
        lemma_negative_as_usize(width);
        assert(w * bpp > usize::MAX) by (nonlinear_arith)
            requires
                w * 2 > usize::MAX,
                bpp >= 8,
        ;
    } else if width == 0 {
        lemma_nonnegative_casts(width);
        assert(stride == 0);
        assert(stride * h == 0) by (nonlinear_arith)
            requires
                stride == 0,
        ;
        let wu = width as u32;
        let hu = height as u32;
        assert(wu * hu == 0 && wu * hu * bpp == 0) by (nonlinear_arith)
            requires
                wu == 0,
        ;
    } else if height < 0 {
        lemma_nonnegative_casts(width);
        lemma_negative_as_usize(height);
        assert(stride * h > usize::MAX) by (nonlinear_arith)
            requires
                h * 2 > usize::MAX,
                stride >= 8,
        ;
    } else {
        lemma_nonnegative_casts(width);
        lemma_nonnegative_casts(height);
        let wi = width as int;
        let hi = height as int;
        assert(wi * hi <= wi * bpp * hi) by (nonlinear_arith)
            requires
                wi >= 1,
                hi >= 0,
                bpp >= 8,
        ;
        assert(wi * bpp * hi == wi * hi * bpp) by (nonlinear_arith);
        assert(width as u32 == wi && height as u32 == hi);
    }
}

/// What the layout is for every reported size: a negative width never fits;
/// otherwise the stride is `width * bytes_per_pixel` and the size
/// `stride * height`, with `width` and `height` taken as numbers, and the
/// layout exists exactly when both fit in `usize`; a negative height fits
/// only a zero width, whose size is zero.
pub proof fn lemma_decode_layout_cases(width: i32, height: i32, format: PixelFormat)
    ensures
        width < 0 ==> decode_layout_spec(width, height, format) == Err::<DecodeLayout, DecodeError>(
            DecodeError::WidthOverflow,
        ),
        width >= 0 && width * format.pixel_bytes() > usize::MAX ==> decode_layout_spec(
            width,
            height,
            format,
        ) == Err::<DecodeLayout, DecodeError>(DecodeError::WidthOverflow),
        width == 0 ==> decode_layout_spec(width, height, format) == Ok::<DecodeLayout, DecodeError>(
            DecodeLayout { stride: 0, size: 0 },
        ),
        width > 0 && height < 0 && width * format.pixel_bytes() <= usize::MAX ==> decode_layout_spec(width, height, format) == Err::<
            DecodeLayout,
            DecodeError,
        >(DecodeError::SizeOverflow),
        width >= 0 && height >= 0 && width * format.pixel_bytes() <= usize::MAX && width
            * format.pixel_bytes() * height > usize::MAX ==> decode_layout_spec(width, height, format)
            == Err::<DecodeLayout, DecodeError>(DecodeError::SizeOverflow),
        width >= 0 && height >= 0 && width * format.pixel_bytes() <= usize::MAX && width
            * format.pixel_bytes() * height <= usize::MAX ==> decode_layout_spec(width, height, format) == Ok::<DecodeLayout, DecodeError>(
            DecodeLayout {
                stride: (width * format.pixel_bytes()) as usize,
                size: (width * format.pixel_bytes() * height) as usize,
            },
        ),
{
    let bpp = format.pixel_bytes();
    let w = width as usize;
    let h = height as usize;
    if width < 0 {
        lemma_negative_as_usize(width);
        assert(w * bpp > usize::MAX) by (nonlinear_arith)
            requires
                w * 2 > usize::MAX,
                bpp >= 8,
        ;
    } else {
        lemma_nonnegative_casts(width);
        if width == 0 {
            assert(w * bpp == 0);
            assert((w * bpp) * h == 0) by (nonlinear_arith)
                requires
                    w * bpp == 0,
            ;
        }
        if height < 0 {
            lemma_negative_as_usize(height);
            if width > 0 {
                assert(w * bpp * h > usize::MAX) by (nonlinear_arith)
                    requires
                        h * 2 > usize::MAX,
                        w >= 1,
                        bpp >= 8,
                ;
            }
        } else {
            lemma_nonnegative_casts(height);
            let wi = width as int;
            let hi = height as int;
            if hi >= 1 {
                assert(wi * bpp <= wi * bpp * hi) by (nonlinear_arith)
                    requires
                        wi >= 0,
                        hi >= 1,
                        bpp >= 8,
                ;
            } else {
                assert(wi * bpp * hi == 0) by (nonlinear_arith)
                    requires
                        hi == 0,
                ;
            }
        }
    }
}

} // verus!
