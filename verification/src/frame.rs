//! The source image a frame pump re-encodes on every tick: a plain RGBA
//! pixel buffer, decoded once from PNG bytes by the `image` crate.

use vstd::prelude::*;

verus! {

/// A decoded RGBA image: `data` holds 4 bytes per pixel, row-major.
pub struct RgbaFrame {
    pub width: u32,
    pub height: u32,
    pub data: Vec<u8>,
}

/// A well-formed RGBA frame holds exactly width * height * 4 bytes (a byte
/// count that, being the length of a buffer in memory, fits in usize).
pub open spec fn rgba_wf(f: RgbaFrame) -> bool {
    &&& f.data@.len() == f.width as int * f.height as int * 4
    &&& f.width as int * f.height as int * 4 <= usize::MAX
}

/// What decoding a PNG byte string to RGBA yields: the dimensions and the
/// pixel bytes, or nothing when the bytes are not a valid PNG image. The
/// decoder is deterministic, a function of the bytes alone.
pub uninterp spec fn png_rgba_of(bytes: Seq<u8>) -> Option<(u32, u32, Seq<u8>)>;

/// Relies on image::load_from_memory_with_format with the PNG format,
/// DynamicImage::to_rgba8 and ImageBuffer::into_raw: the decode is a
/// function of the bytes alone, named png_rgba_of, and a decoded RGBA
/// buffer holds exactly width * height * 4 bytes (ImageBuffer allocates
/// its container at exactly that length).
#[verifier::external_body]
fn decode_png_rgba(bytes: &Vec<u8>) -> (r: Option<RgbaFrame>)
    ensures
        r is Some <==> png_rgba_of(bytes@) is Some,
        r matches Some(f) ==> png_rgba_of(bytes@) == Some((f.width, f.height, f.data@)),
        r matches Some(f) ==> rgba_wf(f),
{
    match image::load_from_memory_with_format(bytes.as_slice(), image::ImageFormat::Png) {
        Ok(img) => {
            let rgba = img.to_rgba8();
            let width = rgba.width();
            let height = rgba.height();
            Some(RgbaFrame { width, height, data: rgba.into_raw() })
        },
        Err(_) => None,
    }
}

/// Decode the pump's source image from PNG bytes: exactly what the PNG
/// decoder yields on these bytes, as a well-formed frame, or nothing when
/// the bytes are not a valid PNG image.
pub fn decode_source_image(bytes: &Vec<u8>) -> (r: Option<RgbaFrame>)
    ensures
        r is Some <==> png_rgba_of(bytes@) is Some,
        r matches Some(f) ==> png_rgba_of(bytes@) == Some((f.width, f.height, f.data@)),
        r matches Some(f) ==> rgba_wf(f),
{
    decode_png_rgba(bytes)
}

} // verus!
