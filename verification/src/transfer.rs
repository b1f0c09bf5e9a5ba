use vstd::prelude::*;

use crate::dims::ImageDims;
use crate::errors::TransferError;
use crate::gpu::{
    create_encoder, create_readback_buffer, create_source_buffer, create_texture_rgba,
    encode_copy_buffer_to_texture, encode_copy_texture_to_buffer, finish_encoder,
    read_buffer_blocking, submit_command, texture_copy_usable, texture_dims,
    write_texture_rgba, MAX_TEXTURE_DIM,
};
use crate::layout::{
    lemma_pad_rows_match, lemma_pad_unpad_round_trip, lemma_padded_row_bytes,
    lemma_unpad_rows_match, pad_rows, pad_rows_spec, padded_bytes_per_row, padded_row_bytes,
    rows_match, unpad_rows, unpad_rows_spec,
};
use crate::loader::{decode_ok, decoded_rgb8, load_rgb_image, loadable_rgb8};
use crate::pixels::rgba_expand;

verus! {

/// The PNG encoding of an RGBA pixel buffer with the given
/// dimensions, as the image encoder produces it.
pub uninterp spec fn png_bytes_of(rgba: Seq<u8>, ncols: u32, nrows: u32) -> Seq<u8>;

/// Relies on image's PngEncoder (ImageEncoder::write_image with the
/// RGBA8 color type): encodes the pixel bytes as a PNG image; the
/// output depends on the pixels and dimensions alone. The call fails
/// unless `rgba.len() == 4 * ncols * nrows`, hence the precondition;
/// under it, with positive dimensions, it succeeds: the remaining
/// failure paths are write errors, and writing into a Vec cannot
/// fail.
#[verifier::external_body]
fn encode_rgba_png(rgba: &Vec<u8>, ncols: u32, nrows: u32) -> (r: Result<
    Vec<u8>,
    image::error::ImageError,
>)
    requires
        rgba@.len() == 4 * ncols * nrows,
        ncols >= 1,
        nrows >= 1,
    ensures
        r is Ok,
        r matches Ok(v) ==> v@ == png_bytes_of(rgba@, ncols, nrows),
{
    let mut out: Vec<u8> = Vec::new();
    let encoder = image::codecs::png::PngEncoder::new(&mut out);
    match image::ImageEncoder::write_image(
        encoder,
        rgba.as_slice(),
        ncols,
        nrows,
        image::ColorType::Rgba8,
    ) {
        Ok(()) => Ok(out),
        Err(e) => Err(e),
    }
}

/// Encodes an RGBA pixel buffer of the given dimensions as a PNG
/// image; for well-formed dimensions and a buffer of the matching
/// length this always succeeds.
pub fn encode_readback(rgba: &Vec<u8>, dims: &ImageDims) -> (r: Result<Vec<u8>, TransferError>)
    requires
        dims.wf(),
        rgba@.len() == dims.byte_count(),
    ensures
        r is Ok,
        r matches Ok(v) ==> v@ == png_bytes_of(rgba@, dims.ncols, dims.nrows),
{
    match encode_rgba_png(rgba, dims.ncols, dims.nrows) {
        Err(_) => Err(TransferError::EncodeError),
        Ok(png) => Ok(png),
    }
}

/// True exactly when a loaded image's dimensions are well formed and
/// within the texture size the device supports; callers outside the
/// library test this before asking for an upload or a readback.
pub fn dims_supported(dims: &ImageDims) -> (ok: bool)
    ensures
        ok == (dims.wf() && dims.ncols <= MAX_TEXTURE_DIM && dims.nrows <= MAX_TEXTURE_DIM),
{
    if dims.nrows < 1 || dims.ncols < 1 {
        return false;
    }
    if dims.ncols > MAX_TEXTURE_DIM || dims.nrows > MAX_TEXTURE_DIM {
        return false;
    }
    proof {
        assert(4 * dims.ncols * dims.nrows <= u32::MAX) by (nonlinear_arith)
            requires
                1 <= dims.ncols <= 8192,
                1 <= dims.nrows <= 8192,
        ;
    }
    true
}

/// A row stride that is a multiple of 256 is a multiple of 4, and so
/// is any whole number of such rows.
proof fn lemma_row_stride_divisible(pbr: int, nrows: int)
    requires
        pbr >= 0,
        pbr % 256 == 0,
        nrows >= 0,
    ensures
        pbr % 4 == 0,
        (nrows * pbr) % 4 == 0,
{
    let q = pbr / 256;
    vstd::arithmetic::div_mod::lemma_fundamental_div_mod(pbr, 256);
    assert(pbr == 256 * q);
    assert(pbr == 4 * (64 * q) + 0) by (nonlinear_arith)
        requires
            pbr == 256 * q,
    ;
    vstd::arithmetic::div_mod::lemma_fundamental_div_mod_converse(pbr, 4, 64 * q, 0);
    assert(nrows * pbr == 4 * (nrows * (64 * q)) + 0) by (nonlinear_arith)
        requires
            pbr == 256 * q,
    ;
    vstd::arithmetic::div_mod::lemma_fundamental_div_mod_converse(
        nrows * pbr,
        4,
        nrows * (64 * q),
        0,
    );
}

/// The decoded image also fits the device's texture limits.
pub open spec fn rgb8_in_limits(data: Seq<u8>) -> bool {
    decoded_rgb8(data) matches Some(q) && q.0 <= MAX_TEXTURE_DIM && q.1 <= MAX_TEXTURE_DIM
}

/// The facts the transfer paths need of the padded stride of an
/// image within the device limits: stride bounds and alignment, and
/// the products over it that the buffer sizes use, all within range.
proof fn lemma_stride_layout_facts(ncols: int, nrows: int, pbr: int)
    requires
        1 <= ncols <= 8192,
        1 <= nrows <= 8192,
        pbr == padded_row_bytes(ncols),
    ensures
        256 <= pbr <= 33023,
        pbr % 256 == 0,
        pbr % 4 == 0,
        4 * ncols <= pbr,
        256 <= nrows * pbr <= 0x4000_0000,
        (nrows * pbr) % 4 == 0,
        pbr * nrows == nrows * pbr,
        nrows * pbr == pbr * (nrows - 1) + pbr,
        nrows * (4 * ncols) == 4 * ncols * nrows,
        (4 * ncols) * nrows == 4 * ncols * nrows,
{
    lemma_padded_row_bytes(ncols);
    assert(pbr >= 256);
    lemma_row_stride_divisible(pbr, nrows);
    assert(nrows * pbr <= 8192 * 33023 && nrows * pbr >= 1 * 256 && pbr * nrows == nrows * pbr
        && nrows * pbr == pbr * (nrows - 1) + pbr) by (nonlinear_arith)
        requires
            1 <= nrows <= 8192,
            256 <= pbr <= 33023,
    ;
    assert(nrows * (4 * ncols) == 4 * ncols * nrows && (4 * ncols) * nrows == 4 * ncols
        * nrows) by (nonlinear_arith);
}

/// Upload strategy A, the direct write: decodes the file bytes,
/// allocates the texture, and writes the pixel buffer straight to it
/// through the queue's texture write, at zero offset with the tight
/// row stride `4 * ncols` and `nrows` rows. Returns the dimensions,
/// the populated texture, and the RGBA pixel buffer that was written.
/// Succeeds exactly on bytes that decode to an acceptable strict-RGB
/// image within the device limits; `DecodeError` exactly when the
/// bytes do not decode, `FormatError` exactly otherwise.
pub fn load_texture_good(device: &wgpu::Device, queue: &wgpu::Queue, data: &Vec<u8>) -> (r:
    Result<(ImageDims, wgpu::Texture, Vec<u8>), TransferError>)
    ensures
        (r is Ok) == (loadable_rgb8(data@) && rgb8_in_limits(data@)),
        r matches Ok(t) ==> {
            &&& t.0.wf()
            &&& t.0.ncols <= MAX_TEXTURE_DIM && t.0.nrows <= MAX_TEXTURE_DIM
            &&& t.2@.len() == t.0.byte_count()
            &&& (forall|j: int| 0 <= j < t.2@.len() && j % 4 == 3 ==> t.2@[j] == 255)
            &&& decoded_rgb8(data@) matches Some(q) && t.0 == (ImageDims {
                nrows: q.1,
                ncols: q.0,
            }) && t.2@ == rgba_expand(q.2)
            &&& texture_dims(t.1) == (t.0.ncols, t.0.nrows)
            &&& texture_copy_usable(t.1)
        },
        r matches Err(e) ==> {
            &&& (e == TransferError::DecodeError || e == TransferError::FormatError)
            &&& (e == TransferError::DecodeError <==> !decode_ok(data@))
        },
{
    let img = match load_rgb_image(data) {
        Err(e) => { return Err(e) },
        Ok(img) => img,
    };
    if img.dims.ncols > MAX_TEXTURE_DIM || img.dims.nrows > MAX_TEXTURE_DIM {
        return Err(TransferError::FormatError);
    }
    let texture = create_texture_rgba(device, img.dims.ncols, img.dims.nrows);
    proof {
        assert(4 * img.dims.ncols <= 4 * img.dims.ncols * img.dims.nrows && (4
            * img.dims.ncols) * img.dims.nrows == 4 * img.dims.ncols * img.dims.nrows)
            by (nonlinear_arith)
            requires
                img.dims.nrows >= 1,
                img.dims.ncols >= 1,
        ;
    }
    let bytes_per_row = 4 * img.dims.ncols;
    write_texture_rgba(
        queue,
        &texture,
        &img.rgba,
        img.dims.ncols,
        img.dims.nrows,
        bytes_per_row,
    );
    Ok((img.dims, texture, img.rgba))
}

/// Upload strategy B, the staged copy: decodes the file bytes,
/// allocates the same texture, stages the pixel buffer in a
/// copy-source buffer with each row padded out to the aligned row
/// stride, records one buffer-to-texture copy of the whole image in a
/// command encoder, and submits it. The staged buffer carries, row
/// for row, exactly the bytes strategy A writes
/// (`lemma_strategies_submit_equal_rows`), and for one input both
/// strategies return the same pixel buffer: the RGBA expansion of the
/// decoded image.
pub fn load_texture_bad(device: &wgpu::Device, queue: &wgpu::Queue, data: &Vec<u8>) -> (r:
    Result<(ImageDims, wgpu::Texture, Vec<u8>), TransferError>)
    ensures
        (r is Ok) == (loadable_rgb8(data@) && rgb8_in_limits(data@)),
        r matches Ok(t) ==> {
            &&& t.0.wf()
            &&& t.0.ncols <= MAX_TEXTURE_DIM && t.0.nrows <= MAX_TEXTURE_DIM
            &&& t.2@.len() == t.0.byte_count()
            &&& (forall|j: int| 0 <= j < t.2@.len() && j % 4 == 3 ==> t.2@[j] == 255)
            &&& decoded_rgb8(data@) matches Some(q) && t.0 == (ImageDims {
                nrows: q.1,
                ncols: q.0,
            }) && t.2@ == rgba_expand(q.2)
            &&& texture_dims(t.1) == (t.0.ncols, t.0.nrows)
            &&& texture_copy_usable(t.1)
        },
        r matches Err(e) ==> {
            &&& (e == TransferError::DecodeError || e == TransferError::FormatError)
            &&& (e == TransferError::DecodeError <==> !decode_ok(data@))
        },
{
    let img = match load_rgb_image(data) {
        Err(e) => { return Err(e) },
        Ok(img) => img,
    };
    if img.dims.ncols > MAX_TEXTURE_DIM || img.dims.nrows > MAX_TEXTURE_DIM {
        return Err(TransferError::FormatError);
    }
    let ncols = img.dims.ncols;
    let nrows = img.dims.nrows;
    let texture = create_texture_rgba(device, ncols, nrows);
    let pbr = padded_bytes_per_row(ncols);
    proof {
        lemma_stride_layout_facts(ncols as int, nrows as int, pbr as int);
    }
    let padded = pad_rows(&img.rgba, 4 * ncols, pbr, nrows);
    let staging = create_source_buffer(device, &padded);
    let mut encoder = create_encoder(device);
    encode_copy_buffer_to_texture(&mut encoder, &staging, &texture, ncols, nrows, pbr);
    let commands = finish_encoder(encoder);
    submit_command(queue, commands);
    Ok((img.dims, texture, img.rgba))
}

/// Reads the texture back into host memory: allocates a mappable
/// buffer of one aligned row stride per row, records and submits a
/// texture-to-buffer copy, blocks until the device has finished, maps
/// the buffer, drops the per-row padding, and encodes the recovered
/// pixels as a PNG for the caller to write out. Fails with `MapError`
/// when the mapping fails and `EncodeError` when the encoding does.
pub fn save_rgb_texture(
    device: &wgpu::Device,
    queue: &wgpu::Queue,
    dims: &ImageDims,
    texture: &wgpu::Texture,
) -> (r: Result<Readback, TransferError>)
    requires
        dims.wf(),
        dims.ncols <= MAX_TEXTURE_DIM,
        dims.nrows <= MAX_TEXTURE_DIM,
        texture_dims(*texture) == (dims.ncols, dims.nrows),
        texture_copy_usable(*texture),
    ensures
        r matches Ok(rb) ==> {
            &&& rb.rgba@.len() == dims.byte_count()
            &&& rb.png@ == png_bytes_of(rb.rgba@, dims.ncols, dims.nrows)
        },
        r matches Err(e) ==> e == TransferError::MapError,
{
    let ncols = dims.ncols;
    let nrows = dims.nrows;
    let pbr = padded_bytes_per_row(ncols);
    proof {
        lemma_stride_layout_facts(ncols as int, nrows as int, pbr as int);
    }
    let size: u64 = (pbr as u64) * (nrows as u64);
    let buffer = create_readback_buffer(device, size);
    let mut encoder = create_encoder(device);
    encode_copy_texture_to_buffer(&mut encoder, texture, &buffer, ncols, nrows, pbr);
    let commands = finish_encoder(encoder);
    submit_command(queue, commands);
    let padded = match read_buffer_blocking(device, buffer) {
        Err(_) => { return Err(TransferError::MapError) },
        Ok(v) => v,
    };
    let rgba = unpad_rows(&padded, 4 * ncols, pbr, nrows);
    match encode_readback(&rgba, dims) {
        Err(e) => Err(e),
        Ok(png) => Ok(Readback { rgba, png }),
    }
}

/// The result of reading a texture back: the raw RGBA bytes, and the
/// same bytes encoded as a PNG image for the caller to write out.
pub struct Readback {
    pub rgba: Vec<u8>,
    pub png: Vec<u8>,
}

/// The directories a run needs before any GPU work: the trace
/// directory for the device's diagnostics, then the outputs directory
/// for the round-tripped images. The caller creates any that are
/// missing and leaves existing ones untouched.
pub fn ensure_directories() -> (dirs: Vec<&'static str>)
    ensures
        dirs@.len() == 2,
        dirs@[0]@ == "trace"@,
        dirs@[1]@ == "outputs"@,
{
    let mut dirs: Vec<&'static str> = Vec::new();
    dirs.push("trace");
    dirs.push("outputs");
    dirs
}

/// Strategy equivalence at the device boundary: for one pixel buffer,
/// the staged buffer that strategy B submits carries, row for row,
/// exactly the bytes that strategy A writes directly. A device that
/// copies rows faithfully therefore fills the two textures
/// identically.
pub proof fn lemma_strategies_submit_equal_rows(rgba: Seq<u8>, ncols: int, nrows: int)
    requires
        ncols >= 1,
        nrows >= 1,
        rgba.len() == nrows * (4 * ncols),
    ensures
        rows_match(
            pad_rows_spec(rgba, 4 * ncols, padded_row_bytes(ncols), nrows),
            rgba,
            4 * ncols,
            padded_row_bytes(ncols),
            nrows,
        ),
{
    lemma_padded_row_bytes(ncols);
    lemma_pad_rows_match(rgba, 4 * ncols, padded_row_bytes(ncols), nrows);
}

/// Round-trip idempotence at the logic level: if the device hands
/// back a buffer whose rows begin with the uploaded pixels — whatever
/// bytes fill the padding — then dropping the padding recovers the
/// original buffer exactly, so the byte-for-byte comparison reports
/// equality. With `lemma_strategies_submit_equal_rows` this covers
/// both strategies, and it holds for any width, aligned or not.
pub proof fn lemma_faithful_readback_recovers_pixels(
    rgba: Seq<u8>,
    readback: Seq<u8>,
    ncols: int,
    nrows: int,
)
    requires
        ncols >= 1,
        nrows >= 1,
        rgba.len() == nrows * (4 * ncols),
        readback.len() >= nrows * padded_row_bytes(ncols),
        rows_match(readback, rgba, 4 * ncols, padded_row_bytes(ncols), nrows),
    ensures
        unpad_rows_spec(readback, 4 * ncols, padded_row_bytes(ncols), nrows) == rgba,
{
    lemma_padded_row_bytes(ncols);
    lemma_unpad_rows_match(readback, rgba, 4 * ncols, padded_row_bytes(ncols), nrows);
}

/// The padding round trip on its own: staging a buffer at the aligned
/// stride and unpadding it returns the original pixels.
pub proof fn lemma_round_trip_preserves_pixels(rgba: Seq<u8>, ncols: int, nrows: int)
    requires
        ncols >= 1,
        nrows >= 1,
        rgba.len() == nrows * (4 * ncols),
    ensures
        unpad_rows_spec(
            pad_rows_spec(rgba, 4 * ncols, padded_row_bytes(ncols), nrows),
            4 * ncols,
            padded_row_bytes(ncols),
            nrows,
        ) == rgba,
{
    lemma_padded_row_bytes(ncols);
    lemma_pad_unpad_round_trip(rgba, 4 * ncols, padded_row_bytes(ncols), nrows);
}

} // verus!
