use vstd::prelude::*;
use image::ImageEncoder;
use crate::error::HdrError;
use crate::raster::{pixel_count, Raster, RasterView};

verus! {

/// What `image` decodes from a file's bytes, widened to 16-bit RGB.
pub uninterp spec fn decoded_rgb16(bytes: Seq<u8>) -> Option<RasterView>;

/// The PNG file that `image` writes for a 16-bit RGB raster.
pub uninterp spec fn png_encoded(image: RasterView) -> Option<Seq<u8>>;

/// Relies on `image::load_from_memory`, which guesses the format from the
/// content and decodes it, and on `DynamicImage::to_rgb16` and
/// `ImageBuffer::into_raw`: grey is replicated, 8-bit values are widened,
/// and the buffer holds at least three channels for each pixel.
#[verifier::external_body]
fn decode_rgb16(bytes: &[u8]) -> (r: Result<(u32, u32, Vec<u16>), String>)
    ensures
        r matches Ok((w, h, d)) ==> decoded_rgb16(bytes@) == Some(
            RasterView { width: w, height: h, data: d@ },
        ) && d@.len() >= 3 * pixel_count(w, h),
        r is Err ==> decoded_rgb16(bytes@) is None,
{
    match image::load_from_memory(bytes) {
        Ok(img) => {
            let buf = img.to_rgb16();
            Ok((buf.width(), buf.height(), buf.into_raw()))
        },
        Err(e) => Err(e.to_string()),
    }
}

/// Relies on `image::codecs::png::PngEncoder::write_image` with 16-bit RGB
/// samples in native byte order; it panics unless the buffer holds exactly
/// three channels for each pixel.
#[verifier::external_body]
fn png_bytes(r: &Raster) -> (res: Result<Vec<u8>, String>)
    requires
        r.wf(),
    ensures
        res matches Ok(b) ==> png_encoded(r@) == Some(b@),
        res is Err ==> png_encoded(r@) is None,
{
    let samples: Vec<u8> = r.data.iter().flat_map(|v| v.to_ne_bytes()).collect();
    let mut out: Vec<u8> = Vec::new();
    match image::codecs::png::PngEncoder::new(&mut out).write_image(
        &samples,
        r.width,
        r.height,
        image::ExtendedColorType::Rgb16,
    ) {
        Ok(()) => Ok(out),
        Err(e) => Err(e.to_string()),
    }
}

/// The first three channels of every pixel of a decoded buffer.
pub open spec fn canonical(v: RasterView) -> RasterView {
    RasterView {
        width: v.width,
        height: v.height,
        data: v.data.take(3 * pixel_count(v.width, v.height) as int),
    }
}

/// The raster that a file's bytes decode to, if any.
pub open spec fn decode_result(bytes: Seq<u8>) -> Option<RasterView> {
    match decoded_rgb16(bytes) {
        Some(v) => Some(canonical(v)),
        None => None,
    }
}

/// Decodes an image file's bytes, of any format the decoder recognises, to
/// a 16-bit RGB raster.
pub fn decode(bytes: &[u8]) -> (r: Result<Raster, HdrError>)
    ensures
        r is Ok <==> decode_result(bytes@) is Some,
        r matches Ok(ras) ==> ras.wf() && decode_result(bytes@) == Some(ras@),
        r matches Err(e) ==> e is Decode,
{
    match decode_rgb16(bytes) {
        Ok((width, height, data)) => {
            let mut data = data;
            assert((width as int) * (height as int) <= 0xffff_ffff_ffff_ffff) by (nonlinear_arith)
                requires
                    width <= 0xffff_ffffu32,
                    height <= 0xffff_ffffu32,
            ;
            let len128: u128 = 3 * ((width as u128) * (height as u128));
            assert(len128 <= data@.len());
            let len: usize = len128 as usize;
            data.truncate(len);
            let ras = Raster { width, height, data };
            assert(ras@.data =~= canonical(decoded_rgb16(bytes@).unwrap()).data);
            Ok(ras)
        },
        Err(m) => Err(HdrError::Decode(m)),
    }
}

/// Encodes a raster as a 16-bit RGB PNG file.
pub fn encode_png(r: &Raster) -> (res: Result<Vec<u8>, HdrError>)
    requires
        r.wf(),
    ensures
        res is Ok <==> png_encoded(r@) is Some,
        res matches Ok(b) ==> png_encoded(r@) == Some(b@),
        res matches Err(e) ==> e is Encode,
{
    match png_bytes(r) {
        Ok(b) => Ok(b),
        Err(m) => Err(HdrError::Encode(m)),
    }
}

} // verus!
