//! The plain image record that the tonemapper and the WebAssembly export
//! layer work on: public fields, no checked relation between them, and a
//! format that may be unknown.
use vstd::prelude::*;

verus! {

/// Pixel format enum.
#[derive(Debug, Eq, PartialEq, Structural, Clone, Copy)]
pub enum PixelFormat {
    PixelFormat64bppRGBAHalfFloat,
    PixelFormat128bppRGBAFloat,
    Unknown,
}

impl PixelFormat {
    /// The variant's name, as `Debug` prints it.
    pub open spec fn name(self) -> Seq<char> {
        match self {
            PixelFormat::PixelFormat64bppRGBAHalfFloat => "PixelFormat64bppRGBAHalfFloat"@,
            PixelFormat::PixelFormat128bppRGBAFloat => "PixelFormat128bppRGBAFloat"@,
            PixelFormat::Unknown => "Unknown"@,
        }
    }

    /// The variant's name, as `Debug` prints it.
    pub fn debug_name(self) -> (s: &'static str)
        ensures
            s@ == self.name(),
    {
        match self {
            PixelFormat::PixelFormat64bppRGBAHalfFloat => "PixelFormat64bppRGBAHalfFloat",
            PixelFormat::PixelFormat128bppRGBAFloat => "PixelFormat128bppRGBAFloat",
            PixelFormat::Unknown => "Unknown",
        }
    }
}

/// HDR image data structure, used to pass data between decoding and encoding.
pub struct Image {
    pub pixels: Vec<u8>,
    pub width: u32,
    pub height: u32,
    pub format: PixelFormat,
}

} // verus!
