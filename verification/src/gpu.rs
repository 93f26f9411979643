//! The boundary to the native GPU API. Every item here is trusted: the type
//! declarations make the native handles visible to the verifier as opaque
//! values, and each wrapper performs exactly one call into the GPU library,
//! converting arguments and results. Nothing else in the crate touches the
//! native API.

use crate::error::SurfaceError;
use vstd::prelude::*;
use wgpu::util::DeviceExt;

verus! {

#[verifier::external_type_specification]
#[verifier::external_body]
pub struct ExInstance(wgpu::Instance);

#[verifier::external_type_specification]
#[verifier::external_body]
pub struct ExSurface(wgpu::Surface);

#[verifier::external_type_specification]
#[verifier::external_body]
pub struct ExAdapter(wgpu::Adapter);

#[verifier::external_type_specification]
#[verifier::external_body]
pub struct ExDevice(wgpu::Device);

#[verifier::external_type_specification]
#[verifier::external_body]
pub struct ExQueue(wgpu::Queue);

#[verifier::external_type_specification]
#[verifier::external_body]
pub struct ExShaderModule(wgpu::ShaderModule);

#[verifier::external_type_specification]
#[verifier::external_body]
pub struct ExBuffer(wgpu::Buffer);

#[verifier::external_type_specification]
#[verifier::external_body]
pub struct ExRenderPipeline(wgpu::RenderPipeline);

#[verifier::external_type_specification]
#[verifier::external_body]
pub struct ExCommandEncoder(wgpu::CommandEncoder);

#[verifier::external_type_specification]
#[verifier::external_body]
pub struct ExRenderPass<'a>(wgpu::RenderPass<'a>);

#[verifier::external_type_specification]
#[verifier::external_body]
pub struct ExCommandBuffer(wgpu::CommandBuffer);

#[verifier::external_type_specification]
#[verifier::external_body]
pub struct ExSurfaceTexture(wgpu::SurfaceTexture);

#[verifier::external_type_specification]
#[verifier::external_body]
pub struct ExTextureView(wgpu::TextureView);

/// Relies on wgpu's `Instance::request_adapter`: returns an adapter
/// compatible with the given surface, or nothing when none suffices. Which
/// adapter comes back depends on the machine, so nothing is promised of the
/// result.
#[verifier::external_body]
pub fn request_adapter(instance: &wgpu::Instance, surface: &wgpu::Surface) -> Option<
    wgpu::Adapter,
> {
    pollster::block_on(instance.request_adapter(&wgpu::RequestAdapterOptions {
        power_preference: wgpu::PowerPreference::HighPerformance,
        compatible_surface: Some(surface),
        force_fallback_adapter: false,
    }))
}

/// Relies on wgpu's `Adapter::request_device` and `Adapter::limits`:
/// returns a logical device and its command queue, or an error that is
/// mapped to nothing here. The device is requested at the adapter's own
/// reported limits and with no optional features, so the request never
/// exceeds what the adapter supports and the refusal paths the call
/// documents for excessive requests are unreachable; which device comes
/// back depends on the machine, so nothing is promised of the result. One
/// abort remains and is the adapter's, not the arguments': wgpu panics
/// when an adapter lacks features wgpu itself needs to operate safely.
#[verifier::external_body]
pub fn request_device(adapter: &wgpu::Adapter) -> Option<(wgpu::Device, wgpu::Queue)> {
    let desc = wgpu::DeviceDescriptor {
        label: None,
        features: wgpu::Features::empty(),
        limits: adapter.limits(),
    };
    match pollster::block_on(adapter.request_device(&desc, None)) {
        Ok(pair) => Some(pair),
        Err(_) => None,
    }
}

/// Relies on wgpu's `Surface::get_preferred_format` and
/// `Surface::configure`: configures the surface for presentation at the
/// given size, in the surface's preferred pixel format, with
/// render-attachment usage and the vertical-sync-locked presentation mode.
/// Returns whether a preferred format existed; with none the adapter
/// cannot present to this surface, nothing is configured, and the caller
/// must not draw. The format query reads only the fixed surface/adapter
/// pair, so once a caller has seen `true` the false arm stays dead. A
/// zero-area configuration is a fatal validation error in wgpu, so the
/// precondition keeps such sizes out.
#[verifier::external_body]
pub fn configure_surface(
    surface: &wgpu::Surface,
    device: &wgpu::Device,
    adapter: &wgpu::Adapter,
    width: u32,
    height: u32,
) -> bool
    requires
        width > 0,
        height > 0,
{
    if let Some(format) = surface.get_preferred_format(adapter) {
        surface.configure(device, &wgpu::SurfaceConfiguration {
            usage: wgpu::TextureUsages::RENDER_ATTACHMENT,
            format,
            width,
            height,
            present_mode: wgpu::PresentMode::Fifo,
        });
        true
    } else {
        false
    }
}

/// Relies on wgpu's `Device::create_shader_module`: compiles the given WGSL
/// text into a shader module under the given label. WGSL text that fails
/// to parse or validate is a fatal error: wgpu panics on it, which matches
/// the framework's failure policy of treating a malformed resource
/// submission as a programming error, not a runtime condition.
#[verifier::external_body]
pub fn create_shader_module(
    device: &wgpu::Device,
    label: &String,
    source: &String,
) -> wgpu::ShaderModule {
    device.create_shader_module(&wgpu::ShaderModuleDescriptor {
        label: Some(label),
        source: wgpu::ShaderSource::Wgsl(source.as_str().into()),
    })
}

/// Relies on wgpu's `DeviceExt::create_buffer_init`: uploads the given
/// bytes into a new vertex buffer under the given label.
#[verifier::external_body]
pub fn create_vertex_buffer(
    device: &wgpu::Device,
    label: &String,
    contents: &Vec<u8>,
) -> wgpu::Buffer {
    device.create_buffer_init(&wgpu::util::BufferInitDescriptor {
        label: Some(label),
        contents: contents.as_slice(),
        usage: wgpu::BufferUsages::VERTEX,
    })
}

/// Relies on wgpu's `DeviceExt::create_buffer_init`: uploads the given
/// bytes into a new index buffer under the given label.
#[verifier::external_body]
pub fn create_index_buffer(
    device: &wgpu::Device,
    label: &String,
    contents: &Vec<u8>,
) -> wgpu::Buffer {
    device.create_buffer_init(&wgpu::util::BufferInitDescriptor {
        label: Some(label),
        contents: contents.as_slice(),
        usage: wgpu::BufferUsages::INDEX,
    })
}

/// Relies on wgpu's `DeviceExt::create_buffer_init`: uploads the given
/// bytes into a new uniform buffer (copy destination) under the given
/// label.
#[verifier::external_body]
pub fn create_uniform_buffer(
    device: &wgpu::Device,
    label: &String,
    contents: &Vec<u8>,
) -> wgpu::Buffer {
    device.create_buffer_init(&wgpu::util::BufferInitDescriptor {
        label: Some(label),
        contents: contents.as_slice(),
        usage: wgpu::BufferUsages::UNIFORM | wgpu::BufferUsages::COPY_DST,
    })
}

/// Relies on wgpu's `Surface::get_current_texture`: acquires the next
/// presentable image, blocking until one is available under the
/// vertical-sync-locked mode. The four error variants are mapped one to
/// one; the outcome depends on the compositor, so nothing is promised of
/// it.
#[verifier::external_body]
pub fn get_current_texture(surface: &wgpu::Surface) -> Result<
    wgpu::SurfaceTexture,
    SurfaceError,
> {
    match surface.get_current_texture() {
        Ok(texture) => Ok(texture),
        Err(wgpu::SurfaceError::Timeout) => Err(SurfaceError::Timeout),
        Err(wgpu::SurfaceError::Outdated) => Err(SurfaceError::Outdated),
        Err(wgpu::SurfaceError::Lost) => Err(SurfaceError::Lost),
        Err(wgpu::SurfaceError::OutOfMemory) => Err(SurfaceError::OutOfMemory),
    }
}

/// Relies on wgpu's `Texture::create_view`: makes a default view of the
/// acquired surface image.
#[verifier::external_body]
pub fn create_texture_view(texture: &wgpu::SurfaceTexture) -> wgpu::TextureView {
    texture.texture.create_view(&wgpu::TextureViewDescriptor::default())
}

/// Relies on wgpu's `Device::create_command_encoder`: makes an encoder for
/// one frame's commands.
#[verifier::external_body]
pub fn create_command_encoder(device: &wgpu::Device) -> wgpu::CommandEncoder {
    device.create_command_encoder(&wgpu::CommandEncoderDescriptor { label: Some("RENDER_ENCODER") })
}

/// Relies on wgpu's `CommandEncoder::begin_render_pass`: starts one render
/// pass that clears the given view to opaque black before drawing.
#[verifier::external_body]
pub fn begin_clear_pass<'a>(
    encoder: &'a mut wgpu::CommandEncoder,
    view: &'a wgpu::TextureView,
) -> wgpu::RenderPass<'a> {
    encoder.begin_render_pass(&wgpu::RenderPassDescriptor {
        label: Some("RENDER_PASS"),
        color_attachments: &[wgpu::RenderPassColorAttachment {
            view,
            resolve_target: None,
            ops: wgpu::Operations { load: wgpu::LoadOp::Clear(wgpu::Color::BLACK), store: true },
        }],
        depth_stencil_attachment: None,
    })
}

/// Relies on wgpu's `RenderPass::set_pipeline`: binds the pipeline for the
/// following draw.
#[verifier::external_body]
pub fn set_pipeline<'a>(pass: &mut wgpu::RenderPass<'a>, pipeline: &'a wgpu::RenderPipeline) {
    pass.set_pipeline(pipeline);
}

/// Relies on wgpu's `RenderPass::set_vertex_buffer`: binds the whole buffer
/// to vertex slot zero.
#[verifier::external_body]
pub fn set_vertex_buffer<'a>(pass: &mut wgpu::RenderPass<'a>, buffer: &'a wgpu::Buffer) {
    pass.set_vertex_buffer(0, buffer.slice(..));
}

/// Relies on wgpu's `RenderPass::set_index_buffer`: binds the whole buffer
/// as 16 bit indices.
#[verifier::external_body]
pub fn set_index_buffer<'a>(pass: &mut wgpu::RenderPass<'a>, buffer: &'a wgpu::Buffer) {
    pass.set_index_buffer(buffer.slice(..), wgpu::IndexFormat::Uint16);
}

/// Relies on wgpu's `RenderPass::draw_indexed`: issues one indexed draw
/// over indices `0..num_indices`, instance `0..1`.
#[verifier::external_body]
pub fn draw_indexed<'a>(pass: &mut wgpu::RenderPass<'a>, num_indices: u32) {
    pass.draw_indexed(0..num_indices, 0, 0..1);
}

/// Relies on wgpu's `CommandEncoder::finish`: closes the encoder into a
/// submittable command buffer.
#[verifier::external_body]
pub fn finish_encoder(encoder: wgpu::CommandEncoder) -> wgpu::CommandBuffer {
    encoder.finish()
}

/// Relies on wgpu's `Queue::submit`: hands one command buffer to the GPU.
/// A command buffer that failed validation is a fatal panic here; the
/// renderer's draw contract bounds the recorded indexed range by the
/// registered index bytes, which keeps the one command buffer built in
/// this crate valid.
#[verifier::external_body]
pub fn submit(queue: &wgpu::Queue, commands: wgpu::CommandBuffer) {
    queue.submit([commands]);
}

/// Relies on wgpu's `SurfaceTexture::present`: schedules the acquired image
/// for presentation; the image is consumed and cannot be reused.
#[verifier::external_body]
pub fn present(texture: wgpu::SurfaceTexture) {
    texture.present();
}

} // verus!
