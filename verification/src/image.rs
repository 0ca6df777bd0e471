//! The HDR image passed between decoding and encoding: interleaved RGBA
//! pixels in one of two float layouts, with a buffer whose length always
//! matches its dimensions.
use vstd::prelude::*;

use crate::channels::{
    decode_u16_channels, decode_u32_channels, encode_u16_channels, encode_u32_channels,
    lemma_u16_bytes_round_trip, lemma_u32_bytes_round_trip, u16_channel_bytes, u16_channels,
    u32_channel_bytes, u32_channels,
};
use crate::text::{decimal_chars, push_decimal};

verus! {

/// Pixel format of an [`Image`].
#[derive(Debug, PartialEq, Eq, Structural, Clone, Copy)]
pub enum PixelFormat {
    /// Four IEEE binary16 channels per pixel.
    PixelFormat64bppRGBAHalfFloat,
    /// Four IEEE binary32 channels per pixel.
    PixelFormat128bppRGBAFloat,
}

impl PixelFormat {
    /// Bytes that one pixel takes in this format.
    pub open spec fn pixel_bytes(self) -> nat {
        match self {
            PixelFormat::PixelFormat128bppRGBAFloat => 16,
            PixelFormat::PixelFormat64bppRGBAHalfFloat => 8,
        }
    }

    /// The variant's name, as `Debug` prints it.
    pub open spec fn name(self) -> Seq<char> {
        match self {
            PixelFormat::PixelFormat128bppRGBAFloat => "PixelFormat128bppRGBAFloat"@,
            PixelFormat::PixelFormat64bppRGBAHalfFloat => "PixelFormat64bppRGBAHalfFloat"@,
        }
    }

    pub fn bytes_per_pixel(self) -> (r: usize)
        ensures
            r == self.pixel_bytes(),
    {
        match self {
            PixelFormat::PixelFormat128bppRGBAFloat => 16,
            PixelFormat::PixelFormat64bppRGBAHalfFloat => 8,
        }
    }

    /// The variant's name, as `Debug` prints it.
    pub fn debug_name(self) -> (s: &'static str)
        ensures
            s@ == self.name(),
    {
        match self {
            PixelFormat::PixelFormat128bppRGBAFloat => "PixelFormat128bppRGBAFloat",
            PixelFormat::PixelFormat64bppRGBAHalfFloat => "PixelFormat64bppRGBAHalfFloat",
        }
    }
}

/// The number of bytes a `width` x `height` image with `bytes_per_pixel`
/// bytes per pixel takes, or `None` where the product, or the pixel count on
/// the way to it, does not fit in `usize`.
pub open spec fn expected_pixel_len(width: u32, height: u32, bytes_per_pixel: nat) -> Option<nat> {
    if width * height <= usize::MAX && width * height * bytes_per_pixel <= usize::MAX {
        Some((width * height * bytes_per_pixel) as nat)
    } else {
        None
    }
}

/// Why a pixel buffer does not make an [`Image`].
#[derive(Debug, PartialEq, Eq, Structural, Clone, Copy)]
pub enum ImageError {
    /// The buffer size for the dimensions does not fit in `usize`.
    DimensionsOverflow,
    /// The buffer does not have the length that the dimensions call for.
    LengthMismatch { expected: usize, actual: usize, width: u32, height: u32, format: PixelFormat },
}

impl ImageError {
    /// The text of the error.
    pub open spec fn message_chars(self) -> Seq<char> {
        match self {
            ImageError::DimensionsOverflow => "Image dimensions overflow pixel buffer size"@,
            ImageError::LengthMismatch { expected, actual, width, height, format } => "Expected "@
                + decimal_chars(expected as nat) + " bytes for a "@ + decimal_chars(width as nat)
                + "x"@ + decimal_chars(height as nat) + " "@ + format.name() + " image, got "@
                + decimal_chars(actual as nat) + " bytes"@,
        }
    }

    /// The text of the error.
    pub fn message(&self) -> (s: String)
        ensures
            s@ == self.message_chars(),
    {
        match self {
            ImageError::DimensionsOverflow => String::from_str(
                "Image dimensions overflow pixel buffer size",
            ),
            ImageError::LengthMismatch { expected, actual, width, height, format } => {
                let mut s = String::from_str("Expected ");
                push_decimal(&mut s, *expected as u64);
                s.append(" bytes for a ");
                push_decimal(&mut s, *width as u64);
                s.append("x");
                push_decimal(&mut s, *height as u64);
                s.append(" ");
                s.append(format.debug_name());
                s.append(" image, got ");
                push_decimal(&mut s, *actual as u64);
                s.append(" bytes");
                s
            },
        }
    }
}

/// What checking a buffer of `actual_len` bytes against the dimensions gives.
pub open spec fn pixel_len_check(
    width: u32,
    height: u32,
    format: PixelFormat,
    actual_len: nat,
    bytes_per_pixel: nat,
) -> Result<(), ImageError> {
    match expected_pixel_len(width, height, bytes_per_pixel) {
        None => Err(ImageError::DimensionsOverflow),
        Some(expected) => if actual_len == expected {
            Ok(())
        } else {
            Err(
                ImageError::LengthMismatch {
                    expected: expected as usize,
                    actual: actual_len as usize,
                    width,
                    height,
                    format,
                },
            )
        },
    }
}

fn ensure_pixel_len(
    width: u32,
    height: u32,
    format: PixelFormat,
    actual_len: usize,
    bytes_per_pixel: usize,
) -> (r: Result<(), ImageError>)
    ensures
        r == pixel_len_check(width, height, format, actual_len as nat, bytes_per_pixel as nat),
{
    let w = width as usize;
    let h = height as usize;
    let expected = match w.checked_mul(h) {
        Some(pixels) => match pixels.checked_mul(bytes_per_pixel) {
            Some(len) => len,
            None => {
                return Err(ImageError::DimensionsOverflow);
            },
        },
        None => {
            return Err(ImageError::DimensionsOverflow);
        },
    };
    if actual_len == expected {
        Ok(())
    } else {
        Err(ImageError::LengthMismatch { expected, actual: actual_len, width, height, format })
    }
}

/// The abstract content of an [`Image`].
pub struct ImageView {
    pub pixels: Seq<u8>,
    pub width: u32,
    pub height: u32,
    pub format: PixelFormat,
}

impl ImageView {
    /// The buffer holds exactly `width * height` pixels of the format, and
    /// its length fits in `usize`.
    pub open spec fn well_formed(self) -> bool {
        &&& self.pixels.len() == self.width * self.height * self.format.pixel_bytes()
        &&& self.pixels.len() <= usize::MAX
    }

    /// Number of channels (four per pixel).
    pub open spec fn channel_count(self) -> nat {
        (self.width * self.height * 4) as nat
    }
}

/// HDR image data structure, used to pass data between decoding and encoding.
pub struct Image {
    pixels: Vec<u8>,
    width: u32,
    height: u32,
    format: PixelFormat,
}

impl View for Image {
    type V = ImageView;

    closed spec fn view(&self) -> ImageView {
        ImageView { pixels: self.pixels@, width: self.width, height: self.height, format: self.format }
    }
}

impl Clone for Image {
    fn clone(&self) -> (r: Self)
        ensures
            r@ == self@,
    {
        proof {
            use_type_invariant(self);
        }
        Image { pixels: self.pixels.clone(), width: self.width, height: self.height, format: self.format }
    }
}

impl Image {
    #[verifier::type_invariant]
    closed spec fn buffer_matches_dimensions(self) -> bool {
        self@.well_formed()
    }

    /// Builds an image from its raw pixel buffer, checking that the buffer
    /// holds exactly `width * height` pixels of `format`.
    pub fn from_bytes(width: u32, height: u32, format: PixelFormat, pixels: Vec<u8>) -> (r: Result<
        Image,
        ImageError,
    >)
        ensures
            r is Ok <==> pixel_len_check(
                width,
                height,
                format,
                pixels@.len(),
                format.pixel_bytes(),
            ) is Ok,
            r matches Ok(image) ==> image@ == (ImageView { pixels: pixels@, width, height, format }),
            r matches Err(e) ==> pixel_len_check(
                width,
                height,
                format,
                pixels@.len(),
                format.pixel_bytes(),
            ) == Err::<(), ImageError>(e),
    {
        let bpp = format.bytes_per_pixel();
        match ensure_pixel_len(width, height, format, pixels.len(), bpp) {
            Ok(()) => Ok(Image { pixels, width, height, format }),
            Err(e) => Err(e),
        }
    }

    pub fn width(&self) -> (r: u32)
        ensures
            r == self@.width,
            self@.well_formed(),
    {
        proof {
            use_type_invariant(self);
        }
        self.width
    }

    pub fn height(&self) -> (r: u32)
        ensures
            r == self@.height,
            self@.well_formed(),
    {
        proof {
            use_type_invariant(self);
        }
        self.height
    }

    pub fn format(&self) -> (r: PixelFormat)
        ensures
            r == self@.format,
            self@.well_formed(),
    {
        proof {
            use_type_invariant(self);
        }
        self.format
    }

    pub fn as_slice(&self) -> (r: &[u8])
        ensures
            r@ == self@.pixels,
            self@.well_formed(),
    {
        proof {
            use_type_invariant(self);
        }
        self.pixels.as_slice()
    }

    pub fn into_bytes(self) -> (r: Vec<u8>)
        ensures
            r@ == self@.pixels,
            self@.well_formed(),
    {
        proof {
            use_type_invariant(&self);
        }
        self.pixels
    }
}

/// The channels of an image as IEEE bit patterns, in buffer order
/// (R, G, B, A for each pixel in turn).
pub enum ChannelBits {
    /// binary32 channels, from a `PixelFormat128bppRGBAFloat` buffer.
    Float32(Vec<u32>),
    /// binary16 channels, from a `PixelFormat64bppRGBAHalfFloat` buffer.
    Float16(Vec<u16>),
}

impl ChannelBits {
    /// Number of channels held.
    pub open spec fn len(&self) -> nat {
        match self {
            ChannelBits::Float32(words) => words@.len(),
            ChannelBits::Float16(halves) => halves@.len(),
        }
    }

    /// The pixel format whose buffer stores these channels.
    pub open spec fn format(&self) -> PixelFormat {
        match self {
            ChannelBits::Float32(_) => PixelFormat::PixelFormat128bppRGBAFloat,
            ChannelBits::Float16(_) => PixelFormat::PixelFormat64bppRGBAHalfFloat,
        }
    }

    /// The buffer that stores these channels has a length that fits in
    /// `usize`.
    pub open spec fn buffer_fits(&self) -> bool {
        match self {
            ChannelBits::Float32(words) => words@.len() * 4 <= usize::MAX,
            ChannelBits::Float16(halves) => halves@.len() * 2 <= usize::MAX,
        }
    }

    /// The buffer that stores these channels little-endian.
    pub open spec fn buffer(&self) -> Seq<u8> {
        match self {
            ChannelBits::Float32(words) => u32_channel_bytes(words@),
            ChannelBits::Float16(halves) => u16_channel_bytes(halves@),
        }
    }
}

/// The buffer obtained by reading a buffer's channels in `format` and
/// writing them back.
pub open spec fn rewritten_buffer(format: PixelFormat, pixels: Seq<u8>) -> Seq<u8> {
    match format {
        PixelFormat::PixelFormat128bppRGBAFloat => u32_channel_bytes(u32_channels(pixels)),
        PixelFormat::PixelFormat64bppRGBAHalfFloat => u16_channel_bytes(u16_channels(pixels)),
    }
}

impl Image {
    /// The channels of the image, read little-endian from its buffer.
    pub fn channel_bits(&self) -> (c: ChannelBits)
        ensures
            c.format() == self@.format,
            self@.format == PixelFormat::PixelFormat128bppRGBAFloat ==> (c matches ChannelBits::Float32(
                words,
            ) && words@ == u32_channels(self@.pixels)),
            self@.format == PixelFormat::PixelFormat64bppRGBAHalfFloat ==> (c matches ChannelBits::Float16(
                halves,
            ) && halves@ == u16_channels(self@.pixels)),
            c.len() == self@.channel_count(),
    {
        proof {
            use_type_invariant(self);
        }
        match self.format {
            PixelFormat::PixelFormat128bppRGBAFloat => ChannelBits::Float32(
                decode_u32_channels(self.pixels.as_slice()),
            ),
            PixelFormat::PixelFormat64bppRGBAHalfFloat => ChannelBits::Float16(
                decode_u16_channels(self.pixels.as_slice()),
            ),
        }
    }

    /// Builds a `width` x `height` image whose buffer stores `bits`
    /// little-endian, in the format that matches the channel width.
    pub fn from_channel_bits(width: u32, height: u32, bits: ChannelBits) -> (r: Result<
        Image,
        ImageError,
    >)
        requires
            bits.buffer_fits(),
        ensures
            r is Ok <==> pixel_len_check(
                width,
                height,
                bits.format(),
                bits.buffer().len(),
                bits.format().pixel_bytes(),
            ) is Ok,
            r matches Ok(image) ==> image@ == (ImageView {
                pixels: bits.buffer(),
                width,
                height,
                format: bits.format(),
            }),
            r matches Err(e) ==> pixel_len_check(
                width,
                height,
                bits.format(),
                bits.buffer().len(),
                bits.format().pixel_bytes(),
            ) == Err::<(), ImageError>(e),
    {
        match bits {
            ChannelBits::Float32(words) => Image::from_bytes(
                width,
                height,
                PixelFormat::PixelFormat128bppRGBAFloat,
                encode_u32_channels(words.as_slice()),
            ),
            ChannelBits::Float16(halves) => Image::from_bytes(
                width,
                height,
                PixelFormat::PixelFormat64bppRGBAHalfFloat,
                encode_u16_channels(halves.as_slice()),
            ),
        }
    }
}

/// How an image reaches a pixel format.
pub enum FormatChange {
    /// The image is already in the format; here it is, unchanged.
    Unchanged(Image),
    /// From 128bpp to 64bpp: each binary32 channel word of a `width` x
    /// `height` image is to be narrowed to binary16.
    Narrow { width: u32, height: u32, words: Vec<u32> },
    /// From 64bpp to 128bpp: each binary16 channel of a `width` x `height`
    /// image is to be widened to binary32.
    Widen { width: u32, height: u32, halves: Vec<u16> },
}

impl Image {
    /// Decides how this image reaches `format`: unchanged where it is
    /// already in that format, else the channels that need converting,
    /// read from its buffer, with its dimensions.
    pub fn into_format_change(self, format: PixelFormat) -> (c: FormatChange)
        ensures
            self@.format == format ==> (c matches FormatChange::Unchanged(image) && image@ == self@),
            self@.format == PixelFormat::PixelFormat128bppRGBAFloat && format
                == PixelFormat::PixelFormat64bppRGBAHalfFloat ==> (c matches FormatChange::Narrow {
                width,
                height,
                words,
            } && width == self@.width && height == self@.height && words@ == u32_channels(
                self@.pixels,
            ) && words@.len() == self@.channel_count()),
            self@.format == PixelFormat::PixelFormat64bppRGBAHalfFloat && format
                == PixelFormat::PixelFormat128bppRGBAFloat ==> (c matches FormatChange::Widen {
                width,
                height,
                halves,
            } && width == self@.width && height == self@.height && halves@ == u16_channels(
                self@.pixels,
            ) && halves@.len() == self@.channel_count()),
    {
        if self.format == format {
            return FormatChange::Unchanged(self);
        }
        let width = self.width();
        let height = self.height();
        match self.channel_bits() {
            ChannelBits::Float32(words) => FormatChange::Narrow { width, height, words },
            ChannelBits::Float16(halves) => FormatChange::Widen { width, height, halves },
        }
    }
}

/// A `width` x `height` image with `bytes_per_pixel` bytes per pixel takes
/// `width * height * bytes_per_pixel` bytes, which is given exactly when it
/// fits in `usize`.
pub proof fn lemma_expected_pixel_len(width: u32, height: u32, bytes_per_pixel: nat)
    requires
        bytes_per_pixel >= 1,
    ensures
        width * height * bytes_per_pixel <= usize::MAX ==> expected_pixel_len(
            width,
            height,
            bytes_per_pixel,
        ) == Some((width * height * bytes_per_pixel) as nat),
        width * height * bytes_per_pixel > usize::MAX ==> expected_pixel_len(
            width,
            height,
            bytes_per_pixel,
        ) is None,
{
    let n = width * height;
    assert(n <= n * bytes_per_pixel) by (nonlinear_arith)
        requires
            n >= 0,
            bytes_per_pixel >= 1,
    ;
}

/// The buffer check accepts exactly the buffers whose length is
/// `width * height * bytes_per_pixel` with that size fitting in `usize`, and
/// reports an overflow exactly when the size does not fit.
pub proof fn lemma_pixel_len_check(
    width: u32,
    height: u32,
    format: PixelFormat,
    actual_len: nat,
    bytes_per_pixel: nat,
)
    requires
        bytes_per_pixel >= 1,
    ensures
        pixel_len_check(width, height, format, actual_len, bytes_per_pixel) is Ok <==> (width * height
            * bytes_per_pixel <= usize::MAX && actual_len == width * height * bytes_per_pixel),
        pixel_len_check(width, height, format, actual_len, bytes_per_pixel) == Err::<(), ImageError>(
            ImageError::DimensionsOverflow,
        ) <==> width * height * bytes_per_pixel > usize::MAX,
{
    let n = width * height;
    assert(n <= n * bytes_per_pixel) by (nonlinear_arith)
        requires
            n >= 0,
            bytes_per_pixel >= 1,
    ;
}

/// Reading the channels of a well-formed image and writing them back gives
/// its buffer again, so rebuilding an image from its own channels gives the
/// same image.
pub proof fn lemma_rebuild_from_channels(v: ImageView)
    requires
        v.well_formed(),
    ensures
        rewritten_buffer(v.format, v.pixels) == v.pixels,
        pixel_len_check(v.width, v.height, v.format, v.pixels.len(), v.format.pixel_bytes()) is Ok,
{
    let n = v.width * v.height;
    match v.format {
        PixelFormat::PixelFormat128bppRGBAFloat => {
            assert(v.pixels.len() == n * 16);
            assert(v.pixels.len() % 4 == 0);
            lemma_u32_bytes_round_trip(v.pixels);
        },
        PixelFormat::PixelFormat64bppRGBAHalfFloat => {
            assert(v.pixels.len() == n * 8);
            assert(v.pixels.len() % 2 == 0);
            lemma_u16_bytes_round_trip(v.pixels);
        },
    }
}

/// A well-formed image holds four channels per pixel, in either format.
pub proof fn lemma_channel_count(v: ImageView)
    requires
        v.well_formed(),
    ensures
        v.format == PixelFormat::PixelFormat128bppRGBAFloat ==> u32_channels(v.pixels).len()
            == v.channel_count(),
        v.format == PixelFormat::PixelFormat64bppRGBAHalfFloat ==> u16_channels(v.pixels).len()
            == v.channel_count(),
{
}

/// Narrowing: any binary16 channels, one for each channel of a well-formed
/// 128bpp image, form a valid 64bpp image of the same dimensions.
pub proof fn lemma_narrowed_channels_fit(v: ImageView, halves: Seq<u16>)
    requires
        v.well_formed(),
        v.format == PixelFormat::PixelFormat128bppRGBAFloat,
        halves.len() == v.channel_count(),
    ensures
        halves.len() * 2 <= usize::MAX,
        pixel_len_check(
            v.width,
            v.height,
            PixelFormat::PixelFormat64bppRGBAHalfFloat,
            u16_channel_bytes(halves).len(),
            8,
        ) is Ok,
{
}

/// Widening: binary32 channels, one for each channel of a well-formed 64bpp
/// image, form a valid 128bpp image of the same dimensions exactly when that
/// image's buffer size fits in `usize`.
pub proof fn lemma_widened_channels_fit(v: ImageView, words: Seq<u32>)
    requires
        v.well_formed(),
        v.format == PixelFormat::PixelFormat64bppRGBAHalfFloat,
        words.len() == v.channel_count(),
    ensures
        words.len() * 4 <= usize::MAX <==> v.width * v.height * 16 <= usize::MAX,
        pixel_len_check(
            v.width,
            v.height,
            PixelFormat::PixelFormat128bppRGBAFloat,
            u32_channel_bytes(words).len(),
            16,
        ) is Ok <==> v.width * v.height * 16 <= usize::MAX,
{
}

} // verus!
