use vstd::prelude::*;

use crate::dims::ImageDims;
use crate::errors::TransferError;
use crate::pixels::{rgba_expand, rgb_to_rgba};

verus! {

#[verifier::external_type_specification]
#[verifier::external_body]
pub struct ExImageError(image::error::ImageError);

/// Whether image::load_from_memory decodes these bytes at all; the
/// decoders are deterministic functions of the bytes.
pub uninterp spec fn decode_ok(data: Seq<u8>) -> bool;

/// The strict 8-bit RGB view of the image decoded from these bytes:
/// its width, height and raw channel bytes when the decoded image is
/// 8-bit RGB, and None when it is any other color model. Like the
/// decode itself, a function of the bytes alone.
pub uninterp spec fn decoded_rgb8(data: Seq<u8>) -> Option<(u32, u32, Seq<u8>)>;

/// The mathematical view of the parts the decoder hands back.
pub open spec fn rgb8_parts_view(parts: Option<(u32, u32, Vec<u8>)>) -> Option<
    (u32, u32, Seq<u8>),
> {
    match parts {
        Some(p) => Some((p.0, p.1, p.2@)),
        None => None,
    }
}

/// Decoded RGB parts the loader accepts: positive dimensions, an RGBA
/// byte count that fits in `u32`, and a raw buffer of exactly three
/// bytes per pixel.
pub open spec fn rgb8_valid(q: (u32, u32, Seq<u8>)) -> bool {
    &&& q.0 >= 1
    &&& q.1 >= 1
    &&& 4 * q.0 * q.1 <= u32::MAX
    &&& q.2.len() == 3 * q.0 * q.1
}

/// The bytes decode to a strict 8-bit RGB image that the loader
/// accepts.
pub open spec fn loadable_rgb8(data: Seq<u8>) -> bool {
    &&& decode_ok(data)
    &&& decoded_rgb8(data) matches Some(q) && rgb8_valid(q)
}

/// An image decoded to strict RGB and expanded to RGBA bytes.
#[derive(Debug)]
pub struct LoadedImage {
    pub dims: ImageDims,
    pub rgba: Vec<u8>,
}

impl LoadedImage {
    /// The dimensions are well formed, the buffer holds four bytes for
    /// each pixel, and every fourth byte is the constant alpha 255.
    pub open spec fn wf(self) -> bool {
        &&& self.dims.wf()
        &&& self.rgba@.len() == self.dims.byte_count()
        &&& forall|j: int| 0 <= j < self.rgba@.len() && j % 4 == 3 ==> self.rgba@[j] == 255
    }
}

/// Relies on image::load_from_memory, whose decoders are
/// deterministic in the bytes, and on image::DynamicImage::as_rgb8,
/// which exposes the backing buffer exactly when the decoded image is
/// 8-bit RGB, with ImageBuffer's width, height and as_raw accessors.
/// The outer error is a failed decode; Ok(None) is a decoded image of
/// another color model.
#[verifier::external_body]
fn decode_rgb8(data: &Vec<u8>) -> (r: Result<
    Option<(u32, u32, Vec<u8>)>,
    image::error::ImageError,
>)
    ensures
        (r is Ok) == decode_ok(data@),
        r matches Ok(parts) ==> rgb8_parts_view(parts) == decoded_rgb8(data@),
{
    let img = image::load_from_memory(data.as_slice())?;
    match img.as_rgb8() {
        Some(buffer) => Ok(Some((buffer.width(), buffer.height(), buffer.as_raw().clone()))),
        None => Ok(None),
    }
}

/// Expands raw RGB pixel rows of a `ncols` x `nrows` image into a
/// `LoadedImage`, rejecting dimensions that are zero or whose RGBA
/// byte count cannot be represented, and a buffer of the wrong length.
pub fn expand_loaded(ncols: u32, nrows: u32, raw: &Vec<u8>) -> (r: Result<
    LoadedImage,
    TransferError,
>)
    ensures
        (r is Ok) == rgb8_valid((ncols, nrows, raw@)),
        r matches Ok(img) ==> {
            &&& img.wf()
            &&& img.dims == (ImageDims { nrows, ncols })
            &&& img.rgba@ == rgba_expand(raw@)
        },
        r matches Err(e) ==> e == TransferError::FormatError,
{
    proof {
        assert((ncols as int) * (nrows as int) <= (u32::MAX as int) * (u32::MAX as int))
            by (nonlinear_arith)
            requires
                0 <= ncols <= u32::MAX,
                0 <= nrows <= u32::MAX,
        ;
    }
    let pixels: u64 = (ncols as u64) * (nrows as u64);
    proof {
        assert(4 * ncols * nrows == 4 * ((ncols as int) * (nrows as int)) && 3 * ncols * nrows
            == 3 * ((ncols as int) * (nrows as int))) by (nonlinear_arith);
    }
    if ncols < 1 || nrows < 1 || pixels > (u32::MAX as u64) / 4 {
        return Err(TransferError::FormatError);
    }
    if (raw.len() as u64) != 3 * pixels {
        return Err(TransferError::FormatError);
    }
    proof {
        vstd::arithmetic::div_mod::lemma_fundamental_div_mod_converse(
            raw@.len() as int,
            3,
            (ncols as int) * (nrows as int),
            0,
        );
    }
    let rgba = rgb_to_rgba(raw);
    let dims = ImageDims { nrows, ncols };
    proof {
        assert(rgba@.len() == raw@.len() / 3 * 4);
        crate::pixels::lemma_rgba_expand_alpha(raw@);
    }
    Ok(LoadedImage { dims, rgba })
}

/// Decodes the bytes of an image file, requires the result to be
/// strict 8-bit RGB, and expands it to four bytes per pixel with a
/// constant alpha of 255. Succeeds exactly on bytes that decode to an
/// acceptable strict-RGB image; an undecodable input gives
/// `DecodeError` exactly; an image that is not strict RGB, or whose
/// dimensions cannot be represented, gives `FormatError` exactly.
pub fn load_rgb_image(data: &Vec<u8>) -> (r: Result<LoadedImage, TransferError>)
    ensures
        (r is Ok) == loadable_rgb8(data@),
        r matches Ok(img) ==> {
            &&& img.wf()
            &&& decoded_rgb8(data@) matches Some(q) && img.dims == (ImageDims {
                nrows: q.1,
                ncols: q.0,
            }) && img.rgba@ == rgba_expand(q.2)
        },
        (r == Result::<LoadedImage, TransferError>::Err(TransferError::DecodeError))
            == !decode_ok(data@),
        (r == Result::<LoadedImage, TransferError>::Err(TransferError::FormatError)) == (
        decode_ok(data@) && !loadable_rgb8(data@)),
{
    match decode_rgb8(data) {
        Err(_) => Err(TransferError::DecodeError),
        Ok(None) => Err(TransferError::FormatError),
        Ok(Some((ncols, nrows, raw))) => expand_loaded(ncols, nrows, &raw),
    }
}

} // verus!
