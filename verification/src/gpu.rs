use vstd::prelude::*;

verus! {

#[verifier::external_type_specification]
#[verifier::external_body]
pub struct ExDevice(wgpu::Device);

#[verifier::external_type_specification]
#[verifier::external_body]
pub struct ExQueue(wgpu::Queue);

#[verifier::external_type_specification]
#[verifier::external_body]
pub struct ExTexture(wgpu::Texture);

#[verifier::external_type_specification]
#[verifier::external_body]
pub struct ExBuffer(wgpu::Buffer);

#[verifier::external_type_specification]
#[verifier::external_body]
pub struct ExCommandEncoder(wgpu::CommandEncoder);

#[verifier::external_type_specification]
#[verifier::external_body]
pub struct ExCommandBuffer(wgpu::CommandBuffer);

#[verifier::external_type_specification]
#[verifier::external_body]
pub struct ExBufferAsyncError(wgpu::BufferAsyncError);

/// The size in bytes that a device buffer was created with.
pub uninterp spec fn buffer_size(b: wgpu::Buffer) -> u64;

/// True of a buffer created with copy-source usage.
pub uninterp spec fn buffer_copy_source(b: wgpu::Buffer) -> bool;

/// True of a buffer created with copy-destination and map-read usage
/// and not currently mapped.
pub uninterp spec fn buffer_readback_usable(b: wgpu::Buffer) -> bool;

/// The (width, height) extent that a texture was created with.
pub uninterp spec fn texture_dims(t: wgpu::Texture) -> (u32, u32);

/// True of a 2D RGBA8 texture with one mip level and one sample,
/// created with copy-source and copy-destination usage.
pub uninterp spec fn texture_copy_usable(t: wgpu::Texture) -> bool;

/// The largest width or height, in pixels, of a 2D texture under the
/// device limits the program requests (the defaults).
pub const MAX_TEXTURE_DIM: u32 = 8192;

/// The largest buffer size, in bytes, under the device limits the
/// program requests (the defaults): one gibibyte.
pub const MAX_BUFFER_BYTES: u64 = 0x4000_0000;

/// Relies on wgpu::Device::create_texture: allocates a 2D texture in
/// 8-bit-per-channel RGBA (Rgba8Unorm), single mip level and sample,
/// usable as both copy source and copy destination. The bounds keep
/// the size within the default device limits, under which the
/// allocation is valid.
#[verifier::external_body]
pub(crate) fn create_texture_rgba(device: &wgpu::Device, width: u32, height: u32) -> (t:
    wgpu::Texture)
    requires
        1 <= width <= MAX_TEXTURE_DIM,
        1 <= height <= MAX_TEXTURE_DIM,
    ensures
        texture_dims(t) == (width, height),
        texture_copy_usable(t),
{
    device.create_texture(
        &wgpu::TextureDescriptor {
            label: None,
            size: wgpu::Extent3d { width, height, depth_or_array_layers: 1 },
            mip_level_count: 1,
            sample_count: 1,
            dimension: wgpu::TextureDimension::D2,
            format: wgpu::TextureFormat::Rgba8Unorm,
            usage: wgpu::TextureUsages::COPY_SRC | wgpu::TextureUsages::COPY_DST,
        },
    )
}

/// Relies on wgpu::Queue::write_texture: enqueues a write of `data`
/// into the texture, rows laid out `bytes_per_row` apart. The write is
/// ordered before later queue submissions. The preconditions are its
/// validation rules: the copy must match the texture's extent and
/// usage, and `data` must cover the copy it describes.
#[verifier::external_body]
pub(crate) fn write_texture_rgba(
    queue: &wgpu::Queue,
    texture: &wgpu::Texture,
    data: &Vec<u8>,
    width: u32,
    height: u32,
    bytes_per_row: u32,
)
    requires
        height >= 1,
        bytes_per_row >= 4 * width,
        data@.len() == bytes_per_row * height,
        texture_dims(*texture) == (width, height),
        texture_copy_usable(*texture),
{
    queue.write_texture(
        wgpu::ImageCopyTexture {
            texture,
            mip_level: 0,
            origin: wgpu::Origin3d::ZERO,
            aspect: wgpu::TextureAspect::All,
        },
        data.as_slice(),
        wgpu::ImageDataLayout {
            offset: 0,
            bytes_per_row: std::num::NonZeroU32::new(bytes_per_row),
            rows_per_image: std::num::NonZeroU32::new(height),
        },
        wgpu::Extent3d { width, height, depth_or_array_layers: 1 },
    );
}

/// Relies on wgpu::util::DeviceExt::create_buffer_init: a copy-source
/// buffer initialized with `data`; the buffer size is `data.len()`
/// rounded up to the 4-byte copy alignment, so it is exactly
/// `data.len()` when that is a positive multiple of 4. The size bound
/// keeps the allocation within the default device buffer limit.
#[verifier::external_body]
pub(crate) fn create_source_buffer(device: &wgpu::Device, data: &Vec<u8>) -> (b: wgpu::Buffer)
    requires
        data@.len() <= MAX_BUFFER_BYTES,
    ensures
        data@.len() > 0 && data@.len() % 4 == 0 ==> buffer_size(b) == data@.len(),
        buffer_copy_source(b),
{
    wgpu::util::DeviceExt::create_buffer_init(
        device,
        &wgpu::util::BufferInitDescriptor {
            label: None,
            contents: data.as_slice(),
            usage: wgpu::BufferUsages::COPY_SRC,
        },
    )
}

/// Relies on wgpu::Device::create_buffer: a host-mappable
/// copy-destination buffer of exactly `size` bytes, not mapped at
/// creation. The size bound keeps the allocation within the default
/// device buffer limit.
#[verifier::external_body]
pub(crate) fn create_readback_buffer(device: &wgpu::Device, size: u64) -> (b: wgpu::Buffer)
    requires
        size > 0,
        size % 4 == 0,
        size <= MAX_BUFFER_BYTES,
    ensures
        buffer_size(b) == size,
        buffer_readback_usable(b),
{
    device.create_buffer(
        &wgpu::BufferDescriptor {
            label: None,
            size,
            usage: wgpu::BufferUsages::COPY_DST | wgpu::BufferUsages::MAP_READ,
            mapped_at_creation: false,
        },
    )
}

/// Relies on wgpu::Device::create_command_encoder.
#[verifier::external_body]
pub(crate) fn create_encoder(device: &wgpu::Device) -> (e: wgpu::CommandEncoder) {
    device.create_command_encoder(&wgpu::CommandEncoderDescriptor { label: None })
}

/// Relies on wgpu::CommandEncoder::copy_buffer_to_texture. The
/// preconditions are wgpu's validation rules for buffer-texture
/// copies: row stride a multiple of 256 and at least the tight row, a
/// copy-source buffer that covers the copy, and a copy-usable texture
/// whose extent the copy matches; under them the recorded command is
/// valid.
#[verifier::external_body]
pub(crate) fn encode_copy_buffer_to_texture(
    encoder: &mut wgpu::CommandEncoder,
    buffer: &wgpu::Buffer,
    texture: &wgpu::Texture,
    width: u32,
    height: u32,
    bytes_per_row: u32,
)
    requires
        height >= 1,
        bytes_per_row % 256 == 0,
        bytes_per_row >= 4 * width,
        buffer_size(*buffer) >= bytes_per_row * (height - 1) + 4 * width,
        buffer_copy_source(*buffer),
        texture_dims(*texture) == (width, height),
        texture_copy_usable(*texture),
{
    let layout = wgpu::ImageDataLayout {
        offset: 0,
        bytes_per_row: std::num::NonZeroU32::new(bytes_per_row),
        rows_per_image: std::num::NonZeroU32::new(height),
    };
    let target = wgpu::ImageCopyTexture {
        texture,
        mip_level: 0,
        origin: wgpu::Origin3d::ZERO,
        aspect: wgpu::TextureAspect::All,
    };
    let extent = wgpu::Extent3d { width, height, depth_or_array_layers: 1 };
    encoder.copy_buffer_to_texture(wgpu::ImageCopyBuffer { buffer, layout }, target, extent);
}

/// Relies on wgpu::CommandEncoder::copy_texture_to_buffer, under the
/// same validation rules as the buffer-to-texture direction, with a
/// copy-destination buffer in place of the copy source.
#[verifier::external_body]
pub(crate) fn encode_copy_texture_to_buffer(
    encoder: &mut wgpu::CommandEncoder,
    texture: &wgpu::Texture,
    buffer: &wgpu::Buffer,
    width: u32,
    height: u32,
    bytes_per_row: u32,
)
    requires
        height >= 1,
        bytes_per_row % 256 == 0,
        bytes_per_row >= 4 * width,
        buffer_size(*buffer) >= bytes_per_row * (height - 1) + 4 * width,
        buffer_readback_usable(*buffer),
        texture_dims(*texture) == (width, height),
        texture_copy_usable(*texture),
{
    let layout = wgpu::ImageDataLayout {
        offset: 0,
        bytes_per_row: std::num::NonZeroU32::new(bytes_per_row),
        rows_per_image: std::num::NonZeroU32::new(height),
    };
    let source = wgpu::ImageCopyTexture {
        texture,
        mip_level: 0,
        origin: wgpu::Origin3d::ZERO,
        aspect: wgpu::TextureAspect::All,
    };
    let extent = wgpu::Extent3d { width, height, depth_or_array_layers: 1 };
    encoder.copy_texture_to_buffer(source, wgpu::ImageCopyBuffer { buffer, layout }, extent);
}

/// Relies on wgpu::CommandEncoder::finish.
#[verifier::external_body]
pub(crate) fn finish_encoder(encoder: wgpu::CommandEncoder) -> (c: wgpu::CommandBuffer) {
    encoder.finish()
}

/// Relies on wgpu::Queue::submit, handing it the one command buffer.
#[verifier::external_body]
pub(crate) fn submit_command(queue: &wgpu::Queue, commands: wgpu::CommandBuffer) {
    queue.submit(std::iter::once(commands));
}

/// Relies on wgpu::BufferSlice::map_async in read mode,
/// wgpu::Device::poll with Maintain::Wait (which blocks until queued
/// work is done and the map callback has run), and
/// BufferSlice::get_mapped_range: on success the returned bytes are
/// the buffer's entire contents, whose length is the buffer's size.
/// What those bytes hold depends on the device, so nothing more is
/// stated of them. The map needs a mappable, unmapped buffer, hence
/// the precondition; the buffer is consumed, so it is mapped at most
/// once.
#[verifier::external_body]
pub(crate) fn read_buffer_blocking(device: &wgpu::Device, buffer: wgpu::Buffer) -> (r: Result<
    Vec<u8>,
    wgpu::BufferAsyncError,
>)
    requires
        buffer_readback_usable(buffer),
    ensures
        r matches Ok(v) ==> v@.len() == buffer_size(buffer),
{
    let slice = buffer.slice(..);
    let (tx, rx) = std::sync::mpsc::channel();
    slice.map_async(wgpu::MapMode::Read, move |res| {
        let _ = tx.send(res);
    });
    device.poll(wgpu::Maintain::Wait);
    match rx.recv() {
        Ok(Ok(())) => {
            let bytes = slice.get_mapped_range().to_vec();
            buffer.unmap();
            Ok(bytes)
        },
        Ok(Err(e)) => Err(e),
        Err(_) => Err(wgpu::BufferAsyncError),
    }
}

} // verus!
