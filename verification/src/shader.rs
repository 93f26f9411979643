//! Shader descriptors: a label, a source payload in one of three languages,
//! and the pipeline stage the shader is meant for.

use vstd::prelude::*;

verus! {

/// The pipeline stage a shader is compiled for.
#[derive(Copy, Clone, Debug, PartialEq, Eq, Structural)]
pub enum ShaderStage {
    /// The vertex-processing stage.
    Vertex,
    /// The fragment-processing stage.
    Fragment,
    /// A module holding entry points for more than one stage.
    Multiple,
}

/// The source payload of a shader: GLSL text, WGSL text, or raw SPIR-V bytes.
#[derive(Clone, Debug, PartialEq, Eq)]
pub enum ShaderSource {
    Glsl(String),
    Spirv(Vec<u8>),
    Wgsl(String),
}

impl ShaderSource {
    /// The WGSL text of a WGSL source; the empty sequence for the other
    /// languages.
    pub open spec fn wgsl_spec(self) -> Seq<char> {
        match self {
            ShaderSource::Wgsl(s) => s@,
            _ => Seq::empty(),
        }
    }

    /// Wraps a byte slice as a SPIR-V source payload.
    pub fn SpirvFromBytes(bytes: &[u8]) -> (r: ShaderSource)
        ensures
            r matches ShaderSource::Spirv(b) && b@ == bytes@,
    {
        let mut content: Vec<u8> = Vec::new();
        let mut i: usize = 0;
        while i < bytes.len()
            invariant
                0 <= i <= bytes@.len(),
                content@ == bytes@.subrange(0, i as int),
            decreases bytes@.len() - i,
        {
            content.push(bytes[i]);
            i += 1;
        }
        proof {
            assert(content@ == bytes@.subrange(0, bytes@.len() as int));
            assert(bytes@.subrange(0, bytes@.len() as int) =~= bytes@);
        }
        ShaderSource::Spirv(content)
    }

    /// Returns the WGSL text if this source holds one, and nothing otherwise.
    pub fn WgslToString(&self) -> (r: Option<&String>)
        ensures
            match r {
                Some(s) => self matches ShaderSource::Wgsl(w) && s@ == w@,
                None => !(self is Wgsl),
            },
    {
        if let ShaderSource::Wgsl(s) = &self {
            Some(s)
        } else {
            None
        }
    }
}

/// A shader resource descriptor: a registry label, a source payload, and the
/// stage tag.
#[derive(Clone, Debug, PartialEq, Eq)]
pub struct Shader {
    pub label: String,
    pub source: ShaderSource,
    pub stage: ShaderStage,
}

impl Shader {
    /// Builds a descriptor with an empty label from a stage and a source.
    pub fn New(stage: ShaderStage, source: ShaderSource) -> (r: Self)
        ensures
            r.label@ == Seq::<char>::empty(),
            r.source == source,
            r.stage == stage,
    {
        Self { label: String::new(), source, stage }
    }

    /// Builds a descriptor around GLSL source text for the given stage.
    pub fn FromGlsl(stage: ShaderStage, glsl: &str) -> (r: Self)
        ensures
            r.label@ == Seq::<char>::empty(),
            r.source matches ShaderSource::Glsl(s) && s@ == glsl@,
            r.stage == stage,
    {
        Self { label: String::new(), source: ShaderSource::Glsl(glsl.to_owned()), stage }
    }

    /// Builds a descriptor around WGSL source text; WGSL modules may hold
    /// entry points for several stages.
    pub fn FromWgsl(wgsl: &str) -> (r: Self)
        ensures
            r.label@ == Seq::<char>::empty(),
            r.source matches ShaderSource::Wgsl(s) && s@ == wgsl@,
            r.stage == ShaderStage::Multiple,
    {
        Self {
            label: String::new(),
            source: ShaderSource::Wgsl(wgsl.to_owned()),
            stage: ShaderStage::Multiple,
        }
    }
}

} // verus!
