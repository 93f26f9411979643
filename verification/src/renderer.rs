//! The renderer: single authority over the GPU device, queue, surface and
//! every named resource. Resources are registered by label; re-submitting
//! under an existing label replaces the prior handle. Draws are issued
//! against registered labels, and each successful draw presents one frame at
//! the surface's configured dimensions.

use crate::buffer::IndexBuffer;
use crate::buffer::UniformBuffer;
use crate::buffer::VertexBuffer;
use crate::error::InitError;
use crate::error::SurfaceError;
use crate::gpu;
use crate::registry::Registry;
use crate::shader::Shader;
use crate::shader::ShaderSource;
use vstd::prelude::*;

verus! {

/// What one successful draw presented: the surface dimensions at that
/// moment, the pipeline label, the bytes of the vertex and index buffers it
/// drew from, and the number of indices covered.
pub struct Frame {
    pub width: u32,
    pub height: u32,
    pub pipeline: Seq<char>,
    pub vertex: Seq<u8>,
    pub index: Seq<u8>,
    pub index_count: u32,
}

/// The renderer. Its abstract state is the surface dimensions, one map per
/// resource kind from label to submitted content, the set of registered
/// pipeline labels, and the sequence of frames presented so far.
pub struct Renderer {
    surface: wgpu::Surface,
    device: wgpu::Device,
    queue: wgpu::Queue,
    adapter: wgpu::Adapter,
    width: u32,
    height: u32,
    pipelines: Registry<wgpu::RenderPipeline>,
    shaders: Registry<wgpu::ShaderModule>,
    vertex_buffers: Registry<wgpu::Buffer>,
    index_buffers: Registry<wgpu::Buffer>,
    uniform_buffers: Registry<wgpu::Buffer>,
    shader_sources: Ghost<Map<Seq<char>, Seq<char>>>,
    vertex_contents: Ghost<Map<Seq<char>, Seq<u8>>>,
    index_contents: Ghost<Map<Seq<char>, Seq<u8>>>,
    uniform_contents: Ghost<Map<Seq<char>, Seq<u8>>>,
    frames: Ghost<Seq<Frame>>,
}

impl Renderer {
    /// Width, in pixels, the surface is configured at.
    pub closed spec fn width_spec(self) -> u32 {
        self.width
    }

    /// Height, in pixels, the surface is configured at.
    pub closed spec fn height_spec(self) -> u32 {
        self.height
    }

    /// The WGSL text registered per shader label.
    pub closed spec fn shaders_spec(self) -> Map<Seq<char>, Seq<char>> {
        self.shader_sources@
    }

    /// The bytes registered per vertex buffer label.
    pub closed spec fn vertex_contents_spec(self) -> Map<Seq<char>, Seq<u8>> {
        self.vertex_contents@
    }

    /// The bytes registered per index buffer label.
    pub closed spec fn index_contents_spec(self) -> Map<Seq<char>, Seq<u8>> {
        self.index_contents@
    }

    /// The bytes registered per uniform buffer label.
    pub closed spec fn uniform_contents_spec(self) -> Map<Seq<char>, Seq<u8>> {
        self.uniform_contents@
    }

    /// The labels under which a pipeline is registered.
    pub closed spec fn pipelines_spec(self) -> Set<Seq<char>> {
        self.pipelines@.dom()
    }

    /// The frames presented so far, in order.
    pub closed spec fn frames_spec(self) -> Seq<Frame> {
        self.frames@
    }

    /// Well-formedness: each registry is well formed and the recorded
    /// contents run exactly in parallel with the registered handles.
    pub closed spec fn wf(self) -> bool {
        &&& self.pipelines.wf()
        &&& self.shaders.wf()
        &&& self.vertex_buffers.wf()
        &&& self.index_buffers.wf()
        &&& self.uniform_buffers.wf()
        &&& self.shader_sources@.dom() == self.shaders@.dom()
        &&& self.vertex_contents@.dom() == self.vertex_buffers@.dom()
        &&& self.index_contents@.dom() == self.index_buffers@.dom()
        &&& self.uniform_contents@.dom() == self.uniform_buffers@.dom()
    }

    /// The registries and contents all other operations leave alone, named
    /// so that contracts can say exactly what one operation does not touch.
    pub open spec fn same_resources(self, other: Renderer) -> bool {
        &&& self.shaders_spec() == other.shaders_spec()
        &&& self.vertex_contents_spec() == other.vertex_contents_spec()
        &&& self.index_contents_spec() == other.index_contents_spec()
        &&& self.uniform_contents_spec() == other.uniform_contents_spec()
        &&& self.pipelines_spec() == other.pipelines_spec()
    }

    /// Acquires a GPU adapter compatible with the given presentation
    /// surface, requests a logical device and queue, and configures the
    /// surface at the given size, in its preferred pixel format, with a
    /// vertical-sync-locked presentation mode. Fails when no compatible
    /// adapter or device exists or the surface has no preferred format;
    /// there is no usable GPU then and no recovery. The GPU API rejects a
    /// zero-area surface, so the dimensions must be positive.
    pub fn New(instance: wgpu::Instance, surface: wgpu::Surface, width: u32, height: u32) -> (r:
        Result<Renderer, InitError>)
        requires
            width > 0,
            height > 0,
        ensures
            r matches Ok(renderer) ==> {
                &&& renderer.wf()
                &&& renderer.width_spec() == width
                &&& renderer.height_spec() == height
                &&& renderer.shaders_spec() == Map::<Seq<char>, Seq<char>>::empty()
                &&& renderer.vertex_contents_spec() == Map::<Seq<char>, Seq<u8>>::empty()
                &&& renderer.index_contents_spec() == Map::<Seq<char>, Seq<u8>>::empty()
                &&& renderer.uniform_contents_spec() == Map::<Seq<char>, Seq<u8>>::empty()
                &&& renderer.pipelines_spec() == Set::<Seq<char>>::empty()
                &&& renderer.frames_spec() == Seq::<Frame>::empty()
            },
    {
        let adapter = match gpu::request_adapter(&instance, &surface) {
            Some(adapter) => adapter,
            None => {
                return Err(InitError::NoAdapter);
            },
        };
        let (device, queue) = match gpu::request_device(&adapter) {
            Some(pair) => pair,
            None => {
                return Err(InitError::NoDevice);
            },
        };
        if !gpu::configure_surface(&surface, &device, &adapter, width, height) {
            return Err(InitError::NoFormat);
        }
        let renderer = Renderer {
            surface,
            device,
            queue,
            adapter,
            width,
            height,
            pipelines: Registry::New(),
            shaders: Registry::New(),
            vertex_buffers: Registry::New(),
            index_buffers: Registry::New(),
            uniform_buffers: Registry::New(),
            shader_sources: Ghost(Map::empty()),
            vertex_contents: Ghost(Map::empty()),
            index_contents: Ghost(Map::empty()),
            uniform_contents: Ghost(Map::empty()),
            frames: Ghost(Seq::empty()),
        };
        proof {
            assert(renderer.shader_sources@.dom() =~= renderer.shaders@.dom());
            assert(renderer.vertex_contents@.dom() =~= renderer.vertex_buffers@.dom());
            assert(renderer.index_contents@.dom() =~= renderer.index_buffers@.dom());
            assert(renderer.uniform_contents@.dom() =~= renderer.uniform_buffers@.dom());
        }
        Ok(renderer)
    }

    /// Compiles the shader's WGSL text and registers the module under the
    /// shader's label, replacing any prior module under that label. The
    /// descriptor admits three source languages, but the GPU library as
    /// compiled here accepts only WGSL, so handing in another kind is a
    /// caller error and the precondition excludes it; a caller unsure of
    /// the kind can test it with `ShaderSource::WgslToString` first. Text
    /// that fails to compile is a fatal error inside the GPU library, per
    /// the framework's policy that a malformed submission is a programming
    /// error.
    pub fn SubmitShader(&mut self, shader: &Shader)
        requires
            old(self).wf(),
            shader.source is Wgsl,
        ensures
            final(self).wf(),
            final(self).shaders_spec() == old(self).shaders_spec().insert(
                shader.label@,
                shader.source.wgsl_spec(),
            ),
            final(self).vertex_contents_spec() == old(self).vertex_contents_spec(),
            final(self).index_contents_spec() == old(self).index_contents_spec(),
            final(self).uniform_contents_spec() == old(self).uniform_contents_spec(),
            final(self).pipelines_spec() == old(self).pipelines_spec(),
            final(self).width_spec() == old(self).width_spec(),
            final(self).height_spec() == old(self).height_spec(),
            final(self).frames_spec() == old(self).frames_spec(),
    {
        let source = match shader.source.WgslToString() {
            Some(source) => source,
            None => unreached(),
        };
        let module = gpu::create_shader_module(&self.device, &shader.label, source);
        self.shaders.Submit(shader.label.clone(), module);
        proof {
            self.shader_sources@ = self.shader_sources@.insert(
                shader.label@,
                shader.source.wgsl_spec(),
            );
            assert(self.shader_sources@.dom() =~= self.shaders@.dom());
        }
    }

    /// Uploads the vertex bytes and registers the buffer under the
    /// descriptor's label, replacing any prior buffer under that label.
    pub fn SubmitVertexBuffer(&mut self, vertex_buffer: &VertexBuffer)
        requires
            old(self).wf(),
        ensures
            final(self).wf(),
            final(self).vertex_contents_spec() == old(self).vertex_contents_spec().insert(
                vertex_buffer.label@,
                vertex_buffer.content@,
            ),
            final(self).shaders_spec() == old(self).shaders_spec(),
            final(self).index_contents_spec() == old(self).index_contents_spec(),
            final(self).uniform_contents_spec() == old(self).uniform_contents_spec(),
            final(self).pipelines_spec() == old(self).pipelines_spec(),
            final(self).width_spec() == old(self).width_spec(),
            final(self).height_spec() == old(self).height_spec(),
            final(self).frames_spec() == old(self).frames_spec(),
    {
        let handle = gpu::create_vertex_buffer(
            &self.device,
            &vertex_buffer.label,
            &vertex_buffer.content,
        );
        self.vertex_buffers.Submit(vertex_buffer.label.clone(), handle);
        proof {
            self.vertex_contents@ = self.vertex_contents@.insert(
                vertex_buffer.label@,
                vertex_buffer.content@,
            );
            assert(self.vertex_contents@.dom() =~= self.vertex_buffers@.dom());
        }
    }

    /// Uploads the index bytes and registers the buffer under the
    /// descriptor's label, replacing any prior buffer under that label.
    pub fn SubmitIndexBuffer(&mut self, index_buffer: &IndexBuffer)
        requires
            old(self).wf(),
        ensures
            final(self).wf(),
            final(self).index_contents_spec() == old(self).index_contents_spec().insert(
                index_buffer.label@,
                index_buffer.content@,
            ),
            final(self).shaders_spec() == old(self).shaders_spec(),
            final(self).vertex_contents_spec() == old(self).vertex_contents_spec(),
            final(self).uniform_contents_spec() == old(self).uniform_contents_spec(),
            final(self).pipelines_spec() == old(self).pipelines_spec(),
            final(self).width_spec() == old(self).width_spec(),
            final(self).height_spec() == old(self).height_spec(),
            final(self).frames_spec() == old(self).frames_spec(),
    {
        let handle = gpu::create_index_buffer(
            &self.device,
            &index_buffer.label,
            &index_buffer.content,
        );
        self.index_buffers.Submit(index_buffer.label.clone(), handle);
        proof {
            self.index_contents@ = self.index_contents@.insert(
                index_buffer.label@,
                index_buffer.content@,
            );
            assert(self.index_contents@.dom() =~= self.index_buffers@.dom());
        }
    }

    /// Uploads the uniform bytes and registers the buffer under the
    /// descriptor's label, replacing any prior buffer under that label.
    pub fn SubmitUniformBuffer(&mut self, uniform_buffer: &UniformBuffer)
        requires
            old(self).wf(),
        ensures
            final(self).wf(),
            final(self).uniform_contents_spec() == old(self).uniform_contents_spec().insert(
                uniform_buffer.label@,
                uniform_buffer.content@,
            ),
            final(self).shaders_spec() == old(self).shaders_spec(),
            final(self).vertex_contents_spec() == old(self).vertex_contents_spec(),
            final(self).index_contents_spec() == old(self).index_contents_spec(),
            final(self).pipelines_spec() == old(self).pipelines_spec(),
            final(self).width_spec() == old(self).width_spec(),
            final(self).height_spec() == old(self).height_spec(),
            final(self).frames_spec() == old(self).frames_spec(),
    {
        let handle = gpu::create_uniform_buffer(
            &self.device,
            &uniform_buffer.label,
            &uniform_buffer.content,
        );
        self.uniform_buffers.Submit(uniform_buffer.label.clone(), handle);
        proof {
            self.uniform_contents@ = self.uniform_contents@.insert(
                uniform_buffer.label@,
                uniform_buffer.content@,
            );
            assert(self.uniform_contents@.dom() =~= self.uniform_buffers@.dom());
        }
    }

    /// Registers an externally built render pipeline under `label`,
    /// replacing any prior pipeline under that label.
    pub fn RegisterPipeline(&mut self, label: &String, pipeline: wgpu::RenderPipeline)
        requires
            old(self).wf(),
        ensures
            final(self).wf(),
            final(self).pipelines_spec() == old(self).pipelines_spec().insert(label@),
            final(self).shaders_spec() == old(self).shaders_spec(),
            final(self).vertex_contents_spec() == old(self).vertex_contents_spec(),
            final(self).index_contents_spec() == old(self).index_contents_spec(),
            final(self).uniform_contents_spec() == old(self).uniform_contents_spec(),
            final(self).width_spec() == old(self).width_spec(),
            final(self).height_spec() == old(self).height_spec(),
            final(self).frames_spec() == old(self).frames_spec(),
    {
        self.pipelines.Submit(label.clone(), pipeline);
        proof {
            assert(self.pipelines@.dom() =~= old(self).pipelines@.dom().insert(label@));
        }
    }

    /// Reconfigures the surface at the new dimensions. Must run before the
    /// next draw after any window-size change; a draw against stale
    /// dimensions reports a surface error instead. The GPU API rejects a
    /// zero-area surface, so the dimensions must be positive; the runtime
    /// never issues a zero-area reconfiguration.
    pub fn Resize(&mut self, width: u32, height: u32)
        requires
            old(self).wf(),
            width > 0,
            height > 0,
        ensures
            final(self).wf(),
            final(self).width_spec() == width,
            final(self).height_spec() == height,
            final(self).same_resources(*old(self)),
            final(self).frames_spec() == old(self).frames_spec(),
    {
        self.width = width;
        self.height = height;
        // Construction checked that the surface/adapter pair has a preferred
        // format, and the pair never changes, so this cannot report none.
        gpu::configure_surface(&self.surface, &self.device, &self.adapter, width, height);
    }

    /// Acquires the next surface image (blocking until the compositor
    /// consumed the previous frame, as presentation is vertical-sync
    /// locked), records one render pass that clears the image and issues one
    /// indexed draw with the resources registered under the given labels,
    /// submits it and presents. On success exactly one frame is presented,
    /// at the configured dimensions, from the currently registered contents;
    /// when acquisition fails the classified error is returned and nothing
    /// is presented. The indices are drawn as 16 bit values, so the drawn
    /// range must lie within the registered index bytes: the GPU validates
    /// the recorded range at submission and treats an overrun as fatal.
    pub fn Draw(
        &mut self,
        pipeline: &String,
        vertex_buffer: &String,
        index_buffer: &String,
        num_indices: u32,
    ) -> (r: Result<(), SurfaceError>)
        requires
            old(self).wf(),
            old(self).pipelines_spec().contains(pipeline@),
            old(self).vertex_contents_spec().contains_key(vertex_buffer@),
            old(self).index_contents_spec().contains_key(index_buffer@),
            2 * num_indices <= old(self).index_contents_spec()[index_buffer@].len(),
        ensures
            final(self).wf(),
            final(self).same_resources(*old(self)),
            final(self).width_spec() == old(self).width_spec(),
            final(self).height_spec() == old(self).height_spec(),
            r matches Ok(_) ==> final(self).frames_spec() == old(self).frames_spec().push(
                Frame {
                    width: old(self).width_spec(),
                    height: old(self).height_spec(),
                    pipeline: pipeline@,
                    vertex: old(self).vertex_contents_spec()[vertex_buffer@],
                    index: old(self).index_contents_spec()[index_buffer@],
                    index_count: num_indices,
                },
            ),
            r matches Err(_) ==> final(self).frames_spec() == old(self).frames_spec(),
    {
        let pipeline_handle = match self.pipelines.Get(pipeline) {
            Some(handle) => handle,
            None => unreached(),
        };
        let vertex_handle = match self.vertex_buffers.Get(vertex_buffer) {
            Some(handle) => handle,
            None => unreached(),
        };
        let index_handle = match self.index_buffers.Get(index_buffer) {
            Some(handle) => handle,
            None => unreached(),
        };
        let output = match gpu::get_current_texture(&self.surface) {
            Ok(output) => output,
            Err(error) => {
                return Err(error);
            },
        };
        let view = gpu::create_texture_view(&output);
        let mut encoder = gpu::create_command_encoder(&self.device);
        {
            let mut pass = gpu::begin_clear_pass(&mut encoder, &view);
            gpu::set_pipeline(&mut pass, pipeline_handle);
            gpu::set_vertex_buffer(&mut pass, vertex_handle);
            gpu::set_index_buffer(&mut pass, index_handle);
            gpu::draw_indexed(&mut pass, num_indices);
        }
        let commands = gpu::finish_encoder(encoder);
        gpu::submit(&self.queue, commands);
        gpu::present(output);
        proof {
            self.frames@ = self.frames@.push(
                Frame {
                    width: self.width,
                    height: self.height,
                    pipeline: pipeline@,
                    vertex: self.vertex_contents@[vertex_buffer@],
                    index: self.index_contents@[index_buffer@],
                    index_count: num_indices,
                },
            );
        }
        Ok(())
    }

    /// The logical GPU device, for callers that build native resources
    /// (such as render pipelines) to register here.
    pub fn GetDevice(&self) -> &wgpu::Device {
        &self.device
    }

    /// Reports whether a pipeline is registered under `label`.
    pub fn HasPipeline(&self, label: &String) -> (r: bool)
        requires
            self.wf(),
        ensures
            r == self.pipelines_spec().contains(label@),
    {
        self.pipelines.Contains(label)
    }

    /// Reports whether a vertex buffer is registered under `label`.
    pub fn HasVertexBuffer(&self, label: &String) -> (r: bool)
        requires
            self.wf(),
        ensures
            r == self.vertex_contents_spec().contains_key(label@),
    {
        self.vertex_buffers.Contains(label)
    }

    /// Reports whether an index buffer is registered under `label`.
    pub fn HasIndexBuffer(&self, label: &String) -> (r: bool)
        requires
            self.wf(),
        ensures
            r == self.index_contents_spec().contains_key(label@),
    {
        self.index_buffers.Contains(label)
    }

    /// Reports whether a uniform buffer is registered under `label`.
    pub fn HasUniformBuffer(&self, label: &String) -> (r: bool)
        requires
            self.wf(),
        ensures
            r == self.uniform_contents_spec().contains_key(label@),
    {
        self.uniform_buffers.Contains(label)
    }

    /// Reports whether a shader module is registered under `label`.
    pub fn HasShader(&self, label: &String) -> (r: bool)
        requires
            self.wf(),
        ensures
            r == self.shaders_spec().contains_key(label@),
    {
        self.shaders.Contains(label)
    }

    /// Width, in pixels, the surface is configured at.
    pub fn GetWidth(&self) -> (r: u32)
        ensures
            r == self.width_spec(),
    {
        self.width
    }

    /// Height, in pixels, the surface is configured at.
    pub fn GetHeight(&self) -> (r: u32)
        ensures
            r == self.height_spec(),
    {
        self.height
    }
}

} // verus!
