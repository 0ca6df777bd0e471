# jxr2uhdr

Converts JPEG XR HDR captures (128bpp RGBA f32 or 64bpp RGBA f16) to Ultra HDR
JPEG files.

- `src/` is the verified library: the `Image` type, whose pixel buffer always
  matches its dimensions and format; the checked buffer-size arithmetic used
  when images are built, decoded, tonemapped and received from JavaScript; the
  little-endian channel layout of both float formats, with its round-trip
  laws; the decision of how an image reaches another pixel format; and the
  in-place view of an f32 buffer as channel words (through `bytemuck`).
- `app/` is the command-line program and everything that is file I/O, C
  libraries (`jpegxr`, `libultrahdr`), the WebAssembly C ABI, or floating
  point (half/single conversions, the Hable curve, sRGB encoding).
- `tests/` exercises the library.
