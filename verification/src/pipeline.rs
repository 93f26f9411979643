//! Pipeline-state fragments: plain configuration value objects (comparison
//! functions, stencil state, primitive assembly, texture formats) consumed
//! when a render pipeline is described.

use crate::shader::Shader;
use crate::vertex::IndexFormat;
use crate::vertex::VertexBufferLayout;
use vstd::prelude::*;

verus! {

/// Comparison function used for depth and stencil tests.
#[derive(Copy, Clone, Debug, PartialEq, Eq, Structural)]
pub enum CompareFunction {
    /// The test never passes.
    Never,
    /// Passes if the new value is less than the existing value.
    Less,
    /// Passes if the new value is equal to the existing value.
    Equal,
    /// Passes if the new value is less than or equal to the existing value.
    LessEqual,
    /// Passes if the new value is greater than the existing value.
    Greater,
    /// Passes if the new value is not equal to the existing value.
    NotEqual,
    /// Passes if the new value is greater than or equal to the existing value.
    GreaterEqual,
    /// The test always passes.
    Always,
}

impl CompareFunction {
    /// Every comparison except the two constant ones reads the reference
    /// value.
    pub open spec fn needs_reference_spec(self) -> bool {
        !(self is Never || self is Always)
    }

    /// Returns true if the comparison depends on the reference value.
    pub fn NeedsReferenceValue(self) -> (r: bool)
        ensures
            r == self.needs_reference_spec(),
    {
        match self {
            Self::Never | Self::Always => false,
            _ => true,
        }
    }
}

/// Operation performed on a stencil value when a test settles.
#[derive(Copy, Clone, Debug, PartialEq, Eq, Structural)]
pub enum StencilOperation {
    /// Keep the stencil value unchanged.
    Keep,
    /// Set the stencil value to zero.
    Zero,
    /// Replace the stencil value with the reference value.
    Replace,
    /// Bitwise-invert the stencil value.
    Invert,
    /// Increment the stencil value by one, clamping on overflow.
    IncrementClamp,
    /// Decrement the stencil value by one, clamping on underflow.
    DecrementClamp,
    /// Increment the stencil value by one, wrapping on overflow.
    IncrementWrap,
    /// Decrement the stencil value by one, wrapping on underflow.
    DecrementWrap,
}

impl Default for StencilOperation {
    /// Keeping the stencil value is the default.
    fn default() -> (r: Self)
        ensures
            r == StencilOperation::Keep,
    {
        Self::Keep
    }
}

/// Stencil configuration for one face orientation.
#[derive(Copy, Clone, Debug, PartialEq, Eq, Structural)]
pub struct StencilFaceState {
    /// Comparison deciding whether the pass or fail operation applies.
    pub compare: CompareFunction,
    /// Operation performed when the stencil test fails.
    pub fail_op: StencilOperation,
    /// Operation performed when the depth test fails but the stencil test
    /// passes.
    pub depth_fail_op: StencilOperation,
    /// Operation performed when the stencil test passes.
    pub pass_op: StencilOperation,
}

impl StencilFaceState {
    /// The face state that ignores the stencil: the comparison always passes
    /// and every operation keeps the value.
    pub open spec fn ignore_spec() -> StencilFaceState {
        StencilFaceState {
            compare: CompareFunction::Always,
            fail_op: StencilOperation::Keep,
            depth_fail_op: StencilOperation::Keep,
            pass_op: StencilOperation::Keep,
        }
    }

    /// Builds the face state that ignores the stencil for this face.
    pub fn Ignore() -> (r: Self)
        ensures
            r == Self::ignore_spec(),
    {
        StencilFaceState {
            compare: CompareFunction::Always,
            fail_op: StencilOperation::Keep,
            depth_fail_op: StencilOperation::Keep,
            pass_op: StencilOperation::Keep,
        }
    }

    /// The face reads the reference value when its comparison does, or when
    /// any of its operations replaces the stencil value with it.
    pub open spec fn needs_reference_spec(self) -> bool {
        ||| self.compare.needs_reference_spec()
        ||| self.fail_op is Replace
        ||| self.depth_fail_op is Replace
        ||| self.pass_op is Replace
    }

    /// Returns true if the face state uses the reference value for testing
    /// or for an operation.
    pub fn NeedsReferenceValue(&self) -> (r: bool)
        ensures
            r == self.needs_reference_spec(),
    {
        self.compare.NeedsReferenceValue() || self.fail_op == StencilOperation::Replace
            || self.depth_fail_op == StencilOperation::Replace
            || self.pass_op == StencilOperation::Replace
    }
}

impl Default for StencilFaceState {
    /// The default face state ignores the stencil.
    fn default() -> (r: Self)
        ensures
            r == Self::ignore_spec(),
    {
        Self::Ignore()
    }
}

/// Stencil configuration for both face orientations plus the read and write
/// masks applied to the stencil buffer.
#[derive(Copy, Clone, Debug, PartialEq, Eq, Structural)]
pub struct StencilState {
    /// Front face mode.
    pub front: StencilFaceState,
    /// Back face mode.
    pub back: StencilFaceState,
    /// Mask AND-ed with stencil values read from the stencil buffer.
    pub read_mask: u32,
    /// Mask AND-ed with stencil values written to the stencil buffer.
    pub write_mask: u32,
}

impl StencilState {
    /// The stencil test is enabled when some face differs from the ignoring
    /// state and some mask lets bits through.
    pub open spec fn is_enabled_spec(self) -> bool {
        (self.front != StencilFaceState::ignore_spec() || self.back
            != StencilFaceState::ignore_spec()) && (self.read_mask != 0 || self.write_mask != 0)
    }

    /// Returns true if the stencil test is enabled.
    pub fn IsEnabled(&self) -> (r: bool)
        ensures
            r == self.is_enabled_spec(),
    {
        let ignore = StencilFaceState::Ignore();
        (self.front != ignore || self.back != ignore) && (self.read_mask != 0 || self.write_mask
            != 0)
    }

    /// The state cannot mutate the stencil buffer when the write mask keeps
    /// every bit back.
    pub open spec fn is_read_only_spec(self) -> bool {
        self.write_mask == 0
    }

    /// Returns true if the state does not mutate the target values.
    pub fn IsReadOnly(&self) -> (r: bool)
        ensures
            r == self.is_read_only_spec(),
    {
        self.write_mask == 0
    }

    /// The state reads the reference value when either face does.
    pub open spec fn needs_reference_spec(self) -> bool {
        self.front.needs_reference_spec() || self.back.needs_reference_spec()
    }

    /// Returns true if the stencil state uses the reference value for
    /// testing.
    pub fn NeedsReferenceValue(&self) -> (r: bool)
        ensures
            r == self.needs_reference_spec(),
    {
        self.front.NeedsReferenceValue() || self.back.NeedsReferenceValue()
    }
}

/// Face of a triangle, named for culling and stencil selection.
#[derive(Copy, Clone, Debug, PartialEq, Eq, Structural)]
pub enum Face {
    /// The front face.
    Front,
    /// The back face.
    Back,
}

/// Winding order that classifies the front face of a triangle.
#[derive(Copy, Clone, Debug, PartialEq, Eq, Structural)]
pub enum FrontFace {
    /// Counter-clockwise vertices form the front face.
    Ccw,
    /// Clockwise vertices form the front face.
    Cw,
}

impl Default for FrontFace {
    /// Counter-clockwise winding is the default.
    fn default() -> (r: Self)
        ensures
            r == FrontFace::Ccw,
    {
        FrontFace::Ccw
    }
}

/// Primitive type the input mesh is composed of.
#[derive(Copy, Clone, Debug, PartialEq, Eq, Structural)]
pub enum PrimitiveTopology {
    /// Each vertex is a new point.
    PointList,
    /// Each pair of vertices composes a new line.
    LineList,
    /// Each pair of adjacent vertices forms a line.
    LineStrip,
    /// Each set of three vertices composes a new triangle.
    TriangleList,
    /// Each set of three adjacent vertices forms a triangle.
    TriangleStrip,
}

impl Default for PrimitiveTopology {
    /// Triangle lists are the default.
    fn default() -> (r: Self)
        ensures
            r == PrimitiveTopology::TriangleList,
    {
        PrimitiveTopology::TriangleList
    }
}

/// How each polygon is rasterized.
#[derive(Copy, Clone, Debug, PartialEq, Eq, Structural)]
pub enum PolygonMode {
    /// Polygons are filled.
    Fill,
    /// Polygons are drawn as line segments.
    Line,
    /// Polygons are drawn as points.
    Point,
}

impl Default for PolygonMode {
    /// Filled polygons are the default.
    fn default() -> (r: Self)
        ensures
            r == PolygonMode::Fill,
    {
        PolygonMode::Fill
    }
}

/// Primitive assembly and rasterization configuration.
#[derive(Clone, Debug, PartialEq, Eq)]
pub struct PrimitiveState {
    /// The topology used to interpret vertices.
    pub topology: PrimitiveTopology,
    /// Required index format when drawing strip topologies with indices.
    pub strip_index_format: Option<IndexFormat>,
    /// The face considered the front for culling and stencil operations.
    pub front_face: FrontFace,
    /// The face culling mode, if any.
    pub cull_mode: Option<Face>,
    /// How each polygon is rasterized.
    pub polygon_mode: PolygonMode,
    /// Clamp polygon depth to the unit range instead of clipping.
    pub clamp_depth: bool,
    /// Rasterize with conservative overestimation.
    pub conservative: bool,
}

impl Default for PrimitiveState {
    /// Triangle lists, no strip index format, counter-clockwise front faces,
    /// no culling, filled polygons, no depth clamping, no conservative
    /// rasterization.
    fn default() -> (r: Self)
        ensures
            r.topology == PrimitiveTopology::TriangleList,
            r.strip_index_format is None,
            r.front_face == FrontFace::Ccw,
            r.cull_mode is None,
            r.polygon_mode == PolygonMode::Fill,
            !r.clamp_depth,
            !r.conservative,
    {
        PrimitiveState {
            topology: PrimitiveTopology::TriangleList,
            strip_index_format: None,
            front_face: FrontFace::Ccw,
            cull_mode: None,
            polygon_mode: PolygonMode::Fill,
            clamp_depth: false,
            conservative: false,
        }
    }
}

/// Format of a texture or of the presentation surface.
#[derive(Copy, Clone, Debug, PartialEq, Eq, Structural)]
pub enum TextureFormat {
    /// Red only, 8 bit normalized unsigned.
    R8UNorm,
    /// Red only, 8 bit normalized signed.
    R8Norm,
    /// Red only, 8 bit unsigned.
    R8UInt,
    /// Red only, 8 bit signed.
    R8Int,
    /// Red only, 16 bit unsigned.
    R16UInt,
    /// Red only, 16 bit signed.
    R16Int,
    /// Red only, 16 bit float.
    R16Float,
    /// Red and green, 8 bit normalized unsigned per channel.
    Rg8UNorm,
    /// Red and green, 8 bit normalized signed per channel.
    Rg8Norm,
    /// Red and green, 8 bit unsigned per channel.
    Rg8UInt,
    /// Red and green, 8 bit signed per channel.
    Rg8Int,
    /// Red only, 32 bit unsigned.
    R32UInt,
    /// Red only, 32 bit signed.
    R32Int,
    /// Red only, 32 bit float.
    R32Float,
    /// Red and green, 16 bit unsigned per channel.
    Rg16UInt,
    /// Red and green, 16 bit signed per channel.
    Rg16Int,
    /// Red and green, 16 bit float per channel.
    Rg16Float,
    /// Four channels, 8 bit normalized unsigned per channel.
    Rgba8UNorm,
    /// Four channels, 8 bit normalized unsigned per channel, sRGB encoded.
    Rgba8UNormSrgb,
    /// Four channels, 8 bit normalized signed per channel.
    Rgba8Norm,
    /// Four channels, 8 bit unsigned per channel.
    Rgba8UInt,
    /// Four channels, 8 bit signed per channel.
    Rgba8Int,
    /// Four channels ordered BGRA, 8 bit normalized unsigned per channel.
    Bgra8UNorm,
    /// Four channels ordered BGRA, 8 bit normalized unsigned, sRGB encoded.
    Bgra8UNormSrgb,
    /// Three 10 bit color channels and a 2 bit alpha channel, normalized.
    Rgb10a2UNorm,
    /// Two 11 bit float color channels and one 10 bit float channel.
    Rg11b10Float,
    /// Red and green, 32 bit unsigned per channel.
    Rg32UInt,
    /// Red and green, 32 bit signed per channel.
    Rg32Int,
    /// Red and green, 32 bit float per channel.
    Rg32Float,
    /// Four channels, 16 bit unsigned per channel.
    Rgba16UInt,
    /// Four channels, 16 bit signed per channel.
    Rgba16Int,
    /// Four channels, 16 bit float per channel.
    Rgba16Float,
    /// Four channels, 32 bit unsigned per channel.
    Rgba32UInt,
    /// Four channels, 32 bit signed per channel.
    Rgba32Int,
    /// Four channels, 32 bit float per channel.
    Rgba32Float,
    /// Depth only, 32 bit float.
    Depth32Float,
    /// Depth, at least 24 bits.
    Depth24Plus,
    /// Depth of at least 24 bits paired with an 8 bit stencil.
    Depth24PlusStencil8,
    /// Three 9 bit float color channels with a shared 5 bit exponent.
    Rgb9e5Ufloat,
    /// Block compressed, BC1 with four color alpha.
    Bc1RgbaUNorm,
    /// Block compressed, BC1, sRGB encoded.
    Bc1RgbaUNormSrgb,
    /// Block compressed, BC2.
    Bc2RgbaUNorm,
    /// Block compressed, BC2, sRGB encoded.
    Bc2RgbaUNormSrgb,
    /// Block compressed, BC3.
    Bc3RgbaUNorm,
    /// Block compressed, BC3, sRGB encoded.
    Bc3RgbaUNormSrgb,
    /// Block compressed, BC4, one normalized unsigned channel.
    Bc4RUNorm,
    /// Block compressed, BC4, one normalized signed channel.
    Bc4RNorm,
    /// Block compressed, BC5, two normalized unsigned channels.
    Bc5RgUNorm,
    /// Block compressed, BC5, two normalized signed channels.
    Bc5RgNorm,
    /// Block compressed, BC6 with unsigned float channels.
    Bc6hRgbUfloat,
    /// Block compressed, BC6 with signed float channels.
    Bc6hRgbSfloat,
    /// Block compressed, BC7.
    Bc7RgbaUNorm,
    /// Block compressed, BC7, sRGB encoded.
    Bc7RgbaUNormSrgb,
    /// ETC2 compressed, RGB.
    Etc2RgbUNorm,
    /// ETC2 compressed, RGB, sRGB encoded.
    Etc2RgbUNormSrgb,
    /// ETC2 compressed, RGB with single-bit alpha.
    Etc2RgbA1UNorm,
    /// ETC2 compressed, RGB with single-bit alpha, sRGB encoded.
    Etc2RgbA1UNormSrgb,
    /// EAC compressed, one normalized unsigned channel.
    EacRUNorm,
    /// EAC compressed, one normalized signed channel.
    EacRNorm,
    /// EAC compressed, two normalized unsigned channels.
    EacRgUNorm,
    /// EAC compressed, two normalized signed channels.
    EacRgNorm,
    /// ASTC compressed with a 4 by 4 block.
    Astc4x4RgbaUNorm,
    /// ASTC compressed with a 4 by 4 block, sRGB encoded.
    Astc4x4RgbaUNormSrgb,
    /// ASTC compressed with a 5 by 4 block.
    Astc5x4RgbaUNorm,
    /// ASTC compressed with a 5 by 4 block, sRGB encoded.
    Astc5x4RgbaUNormSrgb,
    /// ASTC compressed with a 5 by 5 block.
    Astc5x5RgbaUNorm,
    /// ASTC compressed with a 5 by 5 block, sRGB encoded.
    Astc5x5RgbaUNormSrgb,
    /// ASTC compressed with a 6 by 5 block.
    Astc6x5RgbaUNorm,
    /// ASTC compressed with a 6 by 5 block, sRGB encoded.
    Astc6x5RgbaUNormSrgb,
    /// ASTC compressed with a 6 by 6 block.
    Astc6x6RgbaUNorm,
    /// ASTC compressed with a 6 by 6 block, sRGB encoded.
    Astc6x6RgbaUNormSrgb,
    /// ASTC compressed with an 8 by 5 block.
    Astc8x5RgbaUNorm,
    /// ASTC compressed with an 8 by 5 block, sRGB encoded.
    Astc8x5RgbaUNormSrgb,
    /// ASTC compressed with an 8 by 6 block.
    Astc8x6RgbaUNorm,
    /// ASTC compressed with an 8 by 6 block, sRGB encoded.
    Astc8x6RgbaUNormSrgb,
    /// ASTC compressed with a 10 by 5 block.
    Astc10x5RgbaUNorm,
    /// ASTC compressed with a 10 by 5 block, sRGB encoded.
    Astc10x5RgbaUNormSrgb,
    /// ASTC compressed with a 10 by 6 block.
    Astc10x6RgbaUNorm,
    /// ASTC compressed with a 10 by 6 block, sRGB encoded.
    Astc10x6RgbaUNormSrgb,
    /// ASTC compressed with an 8 by 8 block.
    Astc8x8RgbaUNorm,
    /// ASTC compressed with an 8 by 8 block, sRGB encoded.
    Astc8x8RgbaUNormSrgb,
    /// ASTC compressed with a 10 by 8 block.
    Astc10x8RgbaUNorm,
    /// ASTC compressed with a 10 by 8 block, sRGB encoded.
    Astc10x8RgbaUNormSrgb,
    /// ASTC compressed with a 10 by 10 block.
    Astc10x10RgbaUNorm,
    /// ASTC compressed with a 10 by 10 block, sRGB encoded.
    Astc10x10RgbaUNormSrgb,
    /// ASTC compressed with a 12 by 10 block.
    Astc12x10RgbaUNorm,
    /// ASTC compressed with a 12 by 10 block, sRGB encoded.
    Astc12x10RgbaUNormSrgb,
    /// ASTC compressed with a 12 by 12 block.
    Astc12x12RgbaUNorm,
    /// ASTC compressed with a 12 by 12 block, sRGB encoded.
    Astc12x12RgbaUNormSrgb,
}

/// A named pipeline configuration: which layout it refers to and which
/// shader stages it binds.
#[derive(Clone, Debug, PartialEq, Eq)]
pub struct PipelineDescriptor {
    pub label: String,
    pub layout: Option<String>,
    pub shader_stages: String,
}

/// The vertex-stage fragment of a pipeline: a shader, its entry point, and
/// the layouts of the vertex buffers it consumes.
#[derive(Clone, Debug, PartialEq, Eq)]
pub struct VertexState {
    /// The shader for this stage.
    pub shader: Shader,
    /// The name of the entry point in the shader.
    pub entry_point: String,
    /// The format of the vertex buffers used with this pipeline.
    pub buffers: Vec<VertexBufferLayout>,
}

/// The fragment-stage fragment of a pipeline: a shader and its entry point.
#[derive(Clone, Debug, PartialEq, Eq)]
pub struct FragmentState {
    /// The shader for this stage.
    pub shader: Shader,
    /// The name of the entry point in the shader.
    pub entry_point: String,
}

} // verus!
