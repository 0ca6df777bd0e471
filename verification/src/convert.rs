//! Viewing a 128bpp RGBA f32 buffer as its 32-bit channel words, in place.
use vstd::prelude::*;

use crate::channels::{decode_u32_channels, le_u32};

verus! {

/// The 32-bit word stored big-endian at `bytes[i..i + 4]`.
pub open spec fn be_u32(bytes: Seq<u8>, i: int) -> u32 {
    (bytes[i + 3] as int + bytes[i + 2] as int * 0x100 + bytes[i + 1] as int * 0x1_0000 + bytes[i] as int
        * 0x100_0000) as u32
}

/// `words` are the four-byte groups of `bytes` read in the machine's byte
/// order, which is either little-endian or big-endian for every word alike.
pub open spec fn native_words(bytes: Seq<u8>, words: Seq<u32>) -> bool {
    &&& words.len() == bytes.len() / 4
    &&& {
        ||| forall|i: int| 0 <= i < words.len() ==> words[i] == le_u32(bytes, 4 * i)
        ||| forall|i: int| 0 <= i < words.len() ==> words[i] == be_u32(bytes, 4 * i)
    }
}

/// Why a byte slice cannot be viewed as words (bytemuck's `PodCastError`).
#[derive(Debug, PartialEq, Eq, Structural, Clone, Copy)]
pub enum CastFailure {
    TargetAlignmentGreaterAndInputNotAligned,
    OutputSliceWouldHaveSlop,
    SizeMismatch,
    AlignmentMismatch,
}

impl CastFailure {
    /// The variant's name, as `Debug` prints it.
    pub open spec fn name(self) -> Seq<char> {
        match self {
            CastFailure::TargetAlignmentGreaterAndInputNotAligned => "TargetAlignmentGreaterAndInputNotAligned"@,
            CastFailure::OutputSliceWouldHaveSlop => "OutputSliceWouldHaveSlop"@,
            CastFailure::SizeMismatch => "SizeMismatch"@,
            CastFailure::AlignmentMismatch => "AlignmentMismatch"@,
        }
    }

    /// The variant's name, as `Debug` prints it.
    pub fn debug_name(self) -> (s: &'static str)
        ensures
            s@ == self.name(),
    {
        match self {
            CastFailure::TargetAlignmentGreaterAndInputNotAligned => "TargetAlignmentGreaterAndInputNotAligned",
            CastFailure::OutputSliceWouldHaveSlop => "OutputSliceWouldHaveSlop",
            CastFailure::SizeMismatch => "SizeMismatch",
            CastFailure::AlignmentMismatch => "AlignmentMismatch",
        }
    }
}

/// Why a 128bpp RGBA f32 buffer cannot be read as f32 channels.
#[derive(Debug, PartialEq, Eq, Structural, Clone, Copy)]
pub enum ConvertError {
    Cast(CastFailure),
}

impl ConvertError {
    /// The text of the error.
    pub open spec fn message_chars(self) -> Seq<char> {
        match self {
            ConvertError::Cast(failure) => "Failed to interpret 128bpp RGBA f32 bytes as f32 values: "@
                + failure.name(),
        }
    }

    /// The text of the error.
    pub fn message(&self) -> (s: String)
        ensures
            s@ == self.message_chars(),
    {
        match self {
            ConvertError::Cast(failure) => {
                let mut s = String::from_str(
                    "Failed to interpret 128bpp RGBA f32 bytes as f32 values: ",
                );
                s.append(failure.debug_name());
                s
            },
        }
    }
}

/// `bytemuck::try_cast_slice::<u8, u32>`, which views the bytes as 32-bit
/// words without copying. Its source fails with
/// `TargetAlignmentGreaterAndInputNotAligned` when the slice does not start
/// on a four-byte boundary, else with `OutputSliceWouldHaveSlop` when the
/// length is not a multiple of four, and otherwise returns the words in the
/// machine's byte order. Where the slice starts in memory is not stated: on a
/// length that is a multiple of four the outcome is left open.
#[verifier::external_body]
fn try_cast_words<'a>(bytes: &'a [u8]) -> (r: Result<&'a [u32], CastFailure>)
    ensures
        r matches Ok(words) ==> bytes@.len() % 4 == 0 && native_words(bytes@, words@),
        bytes@.len() % 4 != 0 ==> r is Err,
        r matches Err(failure) ==> failure == CastFailure::TargetAlignmentGreaterAndInputNotAligned
            || (failure == CastFailure::OutputSliceWouldHaveSlop && bytes@.len() % 4 != 0),
{
    match bytemuck::try_cast_slice::<u8, u32>(bytes) {
        Ok(words) => Ok(words),
        Err(bytemuck::PodCastError::TargetAlignmentGreaterAndInputNotAligned) => Err(
            CastFailure::TargetAlignmentGreaterAndInputNotAligned,
        ),
        Err(bytemuck::PodCastError::OutputSliceWouldHaveSlop) => Err(
            CastFailure::OutputSliceWouldHaveSlop,
        ),
        Err(bytemuck::PodCastError::SizeMismatch) => Err(CastFailure::SizeMismatch),
        Err(bytemuck::PodCastError::AlignmentMismatch) => Err(CastFailure::AlignmentMismatch),
    }
}

/// The f32 channel words of a 128bpp RGBA buffer. The buffer is read
/// exactly when its length is a multiple of four, whatever its address: the
/// words are viewed in place in the machine's byte order, and where the
/// buffer does not start on a four-byte boundary they are read
/// little-endian. A length that is not a multiple of four is refused.
pub fn f32_channel_words(f32_rgba_bytes: &[u8]) -> (r: Result<Vec<u32>, ConvertError>)
    ensures
        r is Ok <==> f32_rgba_bytes@.len() % 4 == 0,
        r matches Ok(words) ==> native_words(f32_rgba_bytes@, words@),
        r matches Err(ConvertError::Cast(failure)) ==> f32_rgba_bytes@.len() % 4 != 0 && (failure
            == CastFailure::TargetAlignmentGreaterAndInputNotAligned || failure
            == CastFailure::OutputSliceWouldHaveSlop),
{
    if f32_rgba_bytes.len() == 0 {
        return Ok(Vec::new());
    }
    match try_cast_words(f32_rgba_bytes) {
        Ok(words) => Ok(vstd::slice::slice_to_vec(words)),
        Err(failure) => {
            if f32_rgba_bytes.len() % 4 == 0 {
                Ok(decode_u32_channels(f32_rgba_bytes))
            } else {
                Err(ConvertError::Cast(failure))
            }
        },
    }
}

} // verus!
