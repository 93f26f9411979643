//! A minimal real-time rendering framework: serializable GPU resource
//! descriptors, a label-keyed resource registry owned by a renderer, and an
//! event/frame state machine that drives an application through a fixed
//! per-frame lifecycle.
#![allow(non_snake_case)]

pub mod buffer;
pub mod error;
mod gpu;
pub mod pipeline;
pub mod registry;
pub mod renderer;
pub mod runtime;
pub mod shader;
pub mod state;
pub mod vertex;

pub use buffer::IndexBuffer;
pub use buffer::UniformBuffer;
pub use buffer::VertexBuffer;
pub use error::InitError;
pub use error::SurfaceError;
pub use pipeline::CompareFunction;
pub use pipeline::Face;
pub use pipeline::FragmentState;
pub use pipeline::FrontFace;
pub use pipeline::PipelineDescriptor;
pub use pipeline::PolygonMode;
pub use pipeline::PrimitiveState;
pub use pipeline::PrimitiveTopology;
pub use pipeline::StencilFaceState;
pub use pipeline::StencilOperation;
pub use pipeline::StencilState;
pub use pipeline::TextureFormat;
pub use registry::Registry;
pub use renderer::Frame;
pub use renderer::Renderer;
pub use runtime::Cmd;
pub use runtime::Event;
pub use runtime::Flow;
pub use runtime::Runtime;
pub use runtime::Step;
pub use runtime::WindowEvent;
pub use shader::Shader;
pub use shader::ShaderSource;
pub use shader::ShaderStage;
pub use state::State;
pub use vertex::IndexFormat;
pub use vertex::StepMode;
pub use vertex::VertexAttribute;
pub use vertex::VertexBufferLayout;
pub use vertex::VertexFormat;
