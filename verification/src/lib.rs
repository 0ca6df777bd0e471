//! Converting JPEG XR HDR captures to Ultra HDR JPEG: the image model that
//! travels from the decoder to the encoder, the checks on its pixel buffer,
//! and the little-endian channel layout of its two float formats.
pub mod channels;
pub mod convert;
pub mod decode;
pub mod image;
pub mod text;
pub mod tonemap;
pub mod types;
pub mod wasm;

pub use image::{Image, PixelFormat};
