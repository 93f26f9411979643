use graphics::CompareFunction;
use graphics::FrontFace;
use graphics::IndexBuffer;
use graphics::IndexFormat;
use graphics::InitError;
use graphics::PolygonMode;
use graphics::PrimitiveState;
use graphics::PrimitiveTopology;
use graphics::Shader;
use graphics::ShaderSource;
use graphics::ShaderStage;
use graphics::StencilFaceState;
use graphics::StencilOperation;
use graphics::StencilState;
use graphics::StepMode;
use graphics::VertexAttribute;
use graphics::VertexBufferLayout;
use graphics::VertexFormat;

#[test]
fn shader_new_keeps_stage_and_source() {
    let shader = Shader::New(
        ShaderStage::Vertex,
        ShaderSource::Glsl(String::from("void main() {}")),
    );
    assert_eq!(shader.label, "");
    assert_eq!(shader.stage, ShaderStage::Vertex);
    assert_eq!(
        shader.source,
        ShaderSource::Glsl(String::from("void main() {}"))
    );
}

#[test]
fn shader_from_glsl() {
    let shader = Shader::FromGlsl(ShaderStage::Fragment, "void main() {}");
    assert_eq!(shader.label, "");
    assert_eq!(shader.stage, ShaderStage::Fragment);
    assert_eq!(
        shader.source,
        ShaderSource::Glsl(String::from("void main() {}"))
    );
}

#[test]
fn shader_from_wgsl_is_multi_stage() {
    let shader = Shader::FromWgsl("fn vs_main() {}");
    assert_eq!(shader.label, "");
    assert_eq!(shader.stage, ShaderStage::Multiple);
    assert_eq!(
        shader.source,
        ShaderSource::Wgsl(String::from("fn vs_main() {}"))
    );
}

#[test]
fn spirv_from_bytes_copies_the_bytes() {
    let bytes = [3u8, 2, 35, 7];
    let source = ShaderSource::SpirvFromBytes(&bytes);
    assert_eq!(source, ShaderSource::Spirv(vec![3, 2, 35, 7]));
}

#[test]
fn wgsl_to_string_only_for_wgsl() {
    let wgsl = ShaderSource::Wgsl(String::from("fn main() {}"));
    assert_eq!(wgsl.WgslToString(), Some(&String::from("fn main() {}")));
    let glsl = ShaderSource::Glsl(String::from("void main() {}"));
    assert_eq!(glsl.WgslToString(), None);
    let spirv = ShaderSource::Spirv(vec![0, 1]);
    assert_eq!(spirv.WgslToString(), None);
}

#[test]
fn vertex_format_sizes() {
    assert_eq!(VertexFormat::Float32x3.GetSize(), 12);
    assert_eq!(VertexFormat::Float32x4.GetSize(), 16);
    assert_eq!(VertexFormat::UInt8x2.GetSize(), 2);
    assert_eq!(VertexFormat::Norm8x4.GetSize(), 4);
    assert_eq!(VertexFormat::UInt16x2.GetSize(), 4);
    assert_eq!(VertexFormat::UInt16x4.GetSize(), 8);
    assert_eq!(VertexFormat::Int16x4.GetSize(), 8);
    assert_eq!(VertexFormat::Float16x4.GetSize(), 8);
    assert_eq!(VertexFormat::Float32.GetSize(), 4);
    assert_eq!(VertexFormat::UInt32x3.GetSize(), 12);
    assert_eq!(VertexFormat::Int32x4.GetSize(), 16);
    assert_eq!(VertexFormat::Float64.GetSize(), 8);
    assert_eq!(VertexFormat::Float64x4.GetSize(), 32);
}

#[test]
fn index_buffer_length_is_byte_count() {
    let buffer = IndexBuffer {
        label: String::from("I"),
        content: vec![0, 1, 2, 3, 4, 5],
    };
    assert_eq!(buffer.GetLength(), 6);
    let empty = IndexBuffer {
        label: String::from("E"),
        content: vec![],
    };
    assert_eq!(empty.GetLength(), 0);
}

#[test]
fn enum_defaults() {
    assert_eq!(StepMode::default(), StepMode::Vertex);
    assert_eq!(IndexFormat::default(), IndexFormat::UInt32);
    assert_eq!(FrontFace::default(), FrontFace::Ccw);
    assert_eq!(PrimitiveTopology::default(), PrimitiveTopology::TriangleList);
    assert_eq!(PolygonMode::default(), PolygonMode::Fill);
    assert_eq!(StencilOperation::default(), StencilOperation::Keep);
}

#[test]
fn stencil_face_default_ignores() {
    let face = StencilFaceState::default();
    assert_eq!(face, StencilFaceState::Ignore());
    assert_eq!(face.compare, CompareFunction::Always);
    assert_eq!(face.fail_op, StencilOperation::Keep);
    assert_eq!(face.depth_fail_op, StencilOperation::Keep);
    assert_eq!(face.pass_op, StencilOperation::Keep);
    assert!(!face.NeedsReferenceValue());
}

#[test]
fn primitive_state_default() {
    let state = PrimitiveState::default();
    assert_eq!(state.topology, PrimitiveTopology::TriangleList);
    assert_eq!(state.strip_index_format, None);
    assert_eq!(state.front_face, FrontFace::Ccw);
    assert_eq!(state.cull_mode, None);
    assert_eq!(state.polygon_mode, PolygonMode::Fill);
    assert!(!state.clamp_depth);
    assert!(!state.conservative);
}

#[test]
fn compare_function_reference_value() {
    assert!(!CompareFunction::Never.NeedsReferenceValue());
    assert!(!CompareFunction::Always.NeedsReferenceValue());
    assert!(CompareFunction::Less.NeedsReferenceValue());
    assert!(CompareFunction::Equal.NeedsReferenceValue());
    assert!(CompareFunction::LessEqual.NeedsReferenceValue());
    assert!(CompareFunction::Greater.NeedsReferenceValue());
    assert!(CompareFunction::NotEqual.NeedsReferenceValue());
    assert!(CompareFunction::GreaterEqual.NeedsReferenceValue());
}

#[test]
fn stencil_face_reference_value() {
    let mut face = StencilFaceState::Ignore();
    face.compare = CompareFunction::Less;
    assert!(face.NeedsReferenceValue());
    let mut replace_on_fail = StencilFaceState::Ignore();
    replace_on_fail.fail_op = StencilOperation::Replace;
    assert!(replace_on_fail.NeedsReferenceValue());
    let mut replace_on_depth_fail = StencilFaceState::Ignore();
    replace_on_depth_fail.depth_fail_op = StencilOperation::Replace;
    assert!(replace_on_depth_fail.NeedsReferenceValue());
    let mut replace_on_pass = StencilFaceState::Ignore();
    replace_on_pass.pass_op = StencilOperation::Replace;
    assert!(replace_on_pass.NeedsReferenceValue());
}

#[test]
fn stencil_state_flags() {
    let ignore = StencilState {
        front: StencilFaceState::Ignore(),
        back: StencilFaceState::Ignore(),
        read_mask: 0xff,
        write_mask: 0xff,
    };
    assert!(!ignore.IsEnabled());
    assert!(!ignore.IsReadOnly());
    assert!(!ignore.NeedsReferenceValue());

    let mut active_face = StencilFaceState::Ignore();
    active_face.compare = CompareFunction::Equal;
    let active = StencilState {
        front: active_face,
        back: StencilFaceState::Ignore(),
        read_mask: 0xff,
        write_mask: 0,
    };
    assert!(active.IsEnabled());
    assert!(active.IsReadOnly());
    assert!(active.NeedsReferenceValue());

    let masked_out = StencilState {
        front: active_face,
        back: active_face,
        read_mask: 0,
        write_mask: 0,
    };
    assert!(!masked_out.IsEnabled());
}

#[test]
fn layout_attribute_past_stride_is_rejected() {
    let layout = VertexBufferLayout {
        label: String::from("L"),
        stride: 24,
        step_mode: StepMode::Vertex,
        attributes: vec![
            VertexAttribute {
                label: String::from("Position"),
                format: VertexFormat::Float32x3,
                offset: 0,
                shader_location: 0,
            },
            VertexAttribute {
                label: String::from("Color"),
                format: VertexFormat::Float32x4,
                offset: 12,
                shader_location: 1,
            },
        ],
    };
    assert!(!layout.Validate());
}

#[test]
fn layout_within_stride_is_valid() {
    let layout = VertexBufferLayout {
        label: String::from("L"),
        stride: 20,
        step_mode: StepMode::Vertex,
        attributes: vec![
            VertexAttribute {
                label: String::from("Position"),
                format: VertexFormat::Float32x3,
                offset: 0,
                shader_location: 0,
            },
            VertexAttribute {
                label: String::from("Uv"),
                format: VertexFormat::Float32x2,
                offset: 12,
                shader_location: 1,
            },
        ],
    };
    assert!(layout.Validate());
}

#[test]
fn layout_duplicate_shader_location_is_rejected() {
    let layout = VertexBufferLayout {
        label: String::from("L"),
        stride: 32,
        step_mode: StepMode::Instance,
        attributes: vec![
            VertexAttribute {
                label: String::from("A"),
                format: VertexFormat::Float32x4,
                offset: 0,
                shader_location: 3,
            },
            VertexAttribute {
                label: String::from("B"),
                format: VertexFormat::Float32x4,
                offset: 16,
                shader_location: 3,
            },
        ],
    };
    assert!(!layout.Validate());
}

#[test]
fn empty_layout_is_valid() {
    let layout = VertexBufferLayout {
        label: String::from("L"),
        stride: 0,
        step_mode: StepMode::Vertex,
        attributes: vec![],
    };
    assert!(layout.Validate());
}

#[test]
fn init_error_descriptions() {
    assert_eq!(InitError::NoAdapter.Describe(), "no compatible GPU adapter");
    assert_eq!(InitError::NoDevice.Describe(), "no GPU device");
    assert_eq!(InitError::NoFormat.Describe(), "no preferred surface format");
}
