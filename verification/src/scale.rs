//! The fetch-and-rescale pipeline's compute half: gate on the response
//! status, then decode, resample to an exact square and re-encode. The
//! raster work sits behind one trusted wrapper; the gating and error
//! classification are verified.

use vstd::prelude::*;
use crate::outcome::{is_success_status, spec_is_success, IconError};

verus! {

/// What decoding `bytes`, resampling to `size` by `size` pixels with the
/// nearest-neighbor filter, and re-encoding as PNG yields: the encoded
/// buffer, or `None` when the bytes do not decode as an image (or the
/// result cannot be encoded).
pub uninterp spec fn scaled_png_of(bytes: Seq<u8>, size: u32) -> Option<Seq<u8>>;

/// Relies on `image::load_from_memory`, `DynamicImage::resize_exact` with
/// `FilterType::Nearest`, and `DynamicImage::write_to` with PNG output: the
/// scaled encoding is a pure function of the input bytes and the requested
/// size; `resize_exact` gives the output exactly the requested width and
/// height, whatever the source's aspect ratio.
#[verifier::external_body]
fn rescale_to_png(bytes: &[u8], size: u32) -> (r: Option<Vec<u8>>)
    requires
        1 <= size,
    ensures
        r.deep_view() == scaled_png_of(bytes@, size),
{
    let img = match image::load_from_memory(bytes) {
        Ok(img) => img,
        Err(_) => return None,
    };
    let scaled = img.resize_exact(size, size, image::imageops::FilterType::Nearest);
    let mut out = std::io::Cursor::new(Vec::new());
    match scaled.write_to(&mut out, image::ImageOutputFormat::Png) {
        Ok(()) => Some(out.into_inner()),
        Err(_) => None,
    }
}

/// Turn a fetched candidate response into the final encoded icon: a non-2xx
/// status fails with `IconFetchFailed` carrying that status, before any
/// decoding; bytes that do not rescale fail with `IconDecodeFailed`.
pub fn scale_fetched(status: u16, body: &[u8], size: u32) -> (r: Result<Vec<u8>, IconError>)
    requires
        1 <= size,
    ensures
        !spec_is_success(status) ==> r == Err::<Vec<u8>, IconError>(
            IconError::IconFetchFailed { status: Some(status) },
        ),
        spec_is_success(status) ==> match scaled_png_of(body@, size) {
            Some(png) => r matches Ok(v) && v@ == png,
            None => r == Err::<Vec<u8>, IconError>(IconError::IconDecodeFailed),
        },
{
    if !is_success_status(status) {
        return Err(IconError::IconFetchFailed { status: Some(status) });
    }
    match rescale_to_png(body, size) {
        Some(encoded) => Ok(encoded),
        None => Err(IconError::IconDecodeFailed),
    }
}

} // verus!
