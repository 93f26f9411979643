//! Vertex data description: attribute formats with fixed byte sizes, buffer
//! layouts with a stride and step mode, and the validation pass that checks a
//! layout's attributes against its stride.

use vstd::prelude::*;

verus! {

/// Whether a vertex attribute advances per vertex or per instance.
#[derive(Copy, Clone, Debug, PartialEq, Eq, Structural)]
pub enum StepMode {
    Vertex,
    Instance,
}

impl Default for StepMode {
    /// Per-vertex stepping is the default.
    fn default() -> (r: Self)
        ensures
            r == StepMode::Vertex,
    {
        StepMode::Vertex
    }
}

/// Format of the indices of an index buffer.
#[derive(Copy, Clone, Debug, PartialEq, Eq, Structural)]
pub enum IndexFormat {
    /// Indices are 16 bit unsigned integers.
    UInt16,
    /// Indices are 32 bit unsigned integers.
    UInt32,
}

impl Default for IndexFormat {
    /// 32 bit indices are the default.
    fn default() -> (r: Self)
        ensures
            r == IndexFormat::UInt32,
    {
        IndexFormat::UInt32
    }
}

/// The scalar/vector encoding of one vertex attribute. Each format occupies a
/// fixed number of bytes, reported by `GetSize`.
#[derive(Copy, Clone, Debug, PartialEq, Eq, Structural)]
pub enum VertexFormat {
    /// Two unsigned bytes. `uvec2` in shaders.
    UInt8x2,
    /// Four unsigned bytes. `uvec4` in shaders.
    UInt8x4,
    /// Two signed bytes. `ivec2` in shaders.
    Int8x2,
    /// Four signed bytes. `ivec4` in shaders.
    Int8x4,
    /// Two unsigned bytes normalized to [0, 1]. `vec2` in shaders.
    UNorm8x2,
    /// Four unsigned bytes normalized to [0, 1]. `vec4` in shaders.
    UNorm8x4,
    /// Two signed bytes normalized to [-1, 1]. `vec2` in shaders.
    Norm8x2,
    /// Four signed bytes normalized to [-1, 1]. `vec4` in shaders.
    Norm8x4,
    /// Two unsigned shorts. `uvec2` in shaders.
    UInt16x2,
    /// Four unsigned shorts. `uvec4` in shaders.
    UInt16x4,
    /// Two signed shorts. `ivec2` in shaders.
    Int16x2,
    /// Four signed shorts. `ivec4` in shaders.
    Int16x4,
    /// Two unsigned shorts normalized to [0, 1]. `vec2` in shaders.
    UNorm16x2,
    /// Four unsigned shorts normalized to [0, 1]. `vec4` in shaders.
    UNorm16x4,
    /// Two signed shorts normalized to [-1, 1]. `vec2` in shaders.
    Norm16x2,
    /// Four signed shorts normalized to [-1, 1]. `vec4` in shaders.
    Norm16x4,
    /// Two half-precision floats. `vec2` in shaders.
    Float16x2,
    /// Four half-precision floats. `vec4` in shaders.
    Float16x4,
    /// One single-precision float. `float` in shaders.
    Float32,
    /// Two single-precision floats. `vec2` in shaders.
    Float32x2,
    /// Three single-precision floats. `vec3` in shaders.
    Float32x3,
    /// Four single-precision floats. `vec4` in shaders.
    Float32x4,
    /// One unsigned int. `uint` in shaders.
    UInt32,
    /// Two unsigned ints. `uvec2` in shaders.
    UInt32x2,
    /// Three unsigned ints. `uvec3` in shaders.
    UInt32x3,
    /// Four unsigned ints. `uvec4` in shaders.
    UInt32x4,
    /// One signed int. `int` in shaders.
    Int32,
    /// Two signed ints. `ivec2` in shaders.
    Int32x2,
    /// Three signed ints. `ivec3` in shaders.
    Int32x3,
    /// Four signed ints. `ivec4` in shaders.
    Int32x4,
    /// One double-precision float. `double` in shaders.
    Float64,
    /// Two double-precision floats. `dvec2` in shaders.
    Float64x2,
    /// Three double-precision floats. `dvec3` in shaders.
    Float64x3,
    /// Four double-precision floats. `dvec4` in shaders.
    Float64x4,
}

impl VertexFormat {
    /// The fixed number of bytes a value of this format occupies.
    pub open spec fn size_spec(self) -> u64 {
        match self {
            VertexFormat::UInt8x2 => 2,
            VertexFormat::UInt8x4 => 4,
            VertexFormat::Int8x2 => 2,
            VertexFormat::Int8x4 => 4,
            VertexFormat::UNorm8x2 => 2,
            VertexFormat::UNorm8x4 => 4,
            VertexFormat::Norm8x2 => 2,
            VertexFormat::Norm8x4 => 4,
            VertexFormat::UInt16x2 => 4,
            VertexFormat::UInt16x4 => 8,
            VertexFormat::Int16x2 => 4,
            VertexFormat::Int16x4 => 8,
            VertexFormat::UNorm16x2 => 4,
            VertexFormat::UNorm16x4 => 8,
            VertexFormat::Norm16x2 => 4,
            VertexFormat::Norm16x4 => 8,
            VertexFormat::Float16x2 => 4,
            VertexFormat::Float16x4 => 8,
            VertexFormat::Float32 => 4,
            VertexFormat::Float32x2 => 8,
            VertexFormat::Float32x3 => 12,
            VertexFormat::Float32x4 => 16,
            VertexFormat::UInt32 => 4,
            VertexFormat::UInt32x2 => 8,
            VertexFormat::UInt32x3 => 12,
            VertexFormat::UInt32x4 => 16,
            VertexFormat::Int32 => 4,
            VertexFormat::Int32x2 => 8,
            VertexFormat::Int32x3 => 12,
            VertexFormat::Int32x4 => 16,
            VertexFormat::Float64 => 8,
            VertexFormat::Float64x2 => 16,
            VertexFormat::Float64x3 => 24,
            VertexFormat::Float64x4 => 32,
        }
    }

    /// Returns the size in bytes of this format.
    pub fn GetSize(&self) -> (r: u64)
        ensures
            r == self.size_spec(),
    {
        match *self {
            VertexFormat::UInt8x2 => 2,
            VertexFormat::UInt8x4 => 4,
            VertexFormat::Int8x2 => 2,
            VertexFormat::Int8x4 => 4,
            VertexFormat::UNorm8x2 => 2,
            VertexFormat::UNorm8x4 => 4,
            VertexFormat::Norm8x2 => 2,
            VertexFormat::Norm8x4 => 4,
            VertexFormat::UInt16x2 => 2 * 2,
            VertexFormat::UInt16x4 => 2 * 4,
            VertexFormat::Int16x2 => 2 * 2,
            VertexFormat::Int16x4 => 2 * 4,
            VertexFormat::UNorm16x2 => 2 * 2,
            VertexFormat::UNorm16x4 => 2 * 4,
            VertexFormat::Norm16x2 => 2 * 2,
            VertexFormat::Norm16x4 => 2 * 4,
            VertexFormat::Float16x2 => 2 * 2,
            VertexFormat::Float16x4 => 2 * 4,
            VertexFormat::Float32 => 4,
            VertexFormat::Float32x2 => 4 * 2,
            VertexFormat::Float32x3 => 4 * 3,
            VertexFormat::Float32x4 => 4 * 4,
            VertexFormat::UInt32 => 4,
            VertexFormat::UInt32x2 => 4 * 2,
            VertexFormat::UInt32x3 => 4 * 3,
            VertexFormat::UInt32x4 => 4 * 4,
            VertexFormat::Int32 => 4,
            VertexFormat::Int32x2 => 4 * 2,
            VertexFormat::Int32x3 => 4 * 3,
            VertexFormat::Int32x4 => 4 * 4,
            VertexFormat::Float64 => 8,
            VertexFormat::Float64x2 => 8 * 2,
            VertexFormat::Float64x3 => 8 * 3,
            VertexFormat::Float64x4 => 8 * 4,
        }
    }
}

/// One attribute of a vertex buffer layout: its format, its byte offset
/// within the stride, and the shader binding slot it feeds.
#[derive(Clone, Debug, PartialEq, Eq)]
pub struct VertexAttribute {
    pub label: String,
    pub format: VertexFormat,
    pub offset: usize,
    pub shader_location: u32,
}

/// The layout of one vertex buffer: a stride in bytes, a step mode, and an
/// ordered list of attributes.
///
/// A layout is well formed when every attribute lies inside the stride
/// (offset plus format size at most the stride) and no two attributes bind
/// the same shader slot; `Validate` checks exactly that.
#[derive(Clone, Debug, PartialEq, Eq)]
pub struct VertexBufferLayout {
    pub label: String,
    pub stride: usize,
    pub step_mode: StepMode,
    pub attributes: Vec<VertexAttribute>,
}

impl Default for VertexBufferLayout {
    /// An empty label, zero stride, per-vertex stepping and no attributes.
    fn default() -> (r: Self)
        ensures
            r.label@ == Seq::<char>::empty(),
            r.stride == 0,
            r.step_mode == StepMode::Vertex,
            r.attributes@ == Seq::<VertexAttribute>::empty(),
    {
        VertexBufferLayout {
            label: String::new(),
            stride: 0,
            step_mode: StepMode::Vertex,
            attributes: Vec::new(),
        }
    }
}

impl VertexBufferLayout {
    /// The attribute at `i` fits: its bytes end at or before the stride.
    pub open spec fn attr_fits(self, i: int) -> bool {
        self.attributes@[i].offset + self.attributes@[i].format.size_spec() <= self.stride
    }

    /// No two attributes bind the same shader slot.
    pub open spec fn locations_unique(self) -> bool {
        forall|i: int, j: int|
            0 <= i < j < self.attributes@.len() ==> self.attributes@[i].shader_location
                != self.attributes@[j].shader_location
    }

    /// A layout is well formed when every attribute fits in the stride and
    /// the shader slots are pairwise distinct.
    pub open spec fn is_valid(self) -> bool {
        &&& forall|i: int| 0 <= i < self.attributes@.len() ==> self.attr_fits(i)
        &&& self.locations_unique()
    }

    /// The validation pass: reports whether every attribute lies inside the
    /// stride and every shader binding slot is used at most once.
    pub fn Validate(&self) -> (r: bool)
        ensures
            r == self.is_valid(),
    {
        let stride64 = self.stride as u64;
        let n = self.attributes.len();
        let mut k: usize = 0;
        while k < n
            invariant
                n == self.attributes@.len(),
                stride64 == self.stride,
                0 <= k <= n,
                forall|i: int| 0 <= i < k ==> self.attr_fits(i),
            decreases n - k,
        {
            let a = &self.attributes[k];
            let size = a.format.GetSize();
            if !(size <= stride64 && a.offset as u64 <= stride64 - size) {
                proof {
                    assert(!self.attr_fits(k as int));
                }
                return false;
            }
            k += 1;
        }
        let mut i: usize = 0;
        while i < n
            invariant
                n == self.attributes@.len(),
                0 <= i <= n,
                forall|p: int| 0 <= p < self.attributes@.len() ==> self.attr_fits(p),
                forall|p: int, q: int|
                    0 <= p < q < self.attributes@.len() && p < i
                        ==> self.attributes@[p].shader_location
                        != self.attributes@[q].shader_location,
            decreases n - i,
        {
            let mut j: usize = i + 1;
            while j < n
                invariant
                    n == self.attributes@.len(),
                    0 <= i < j <= n,
                    forall|p: int, q: int|
                        0 <= p < q < self.attributes@.len() && p < i
                            ==> self.attributes@[p].shader_location
                            != self.attributes@[q].shader_location,
                    forall|q: int|
                        i < q < j ==> self.attributes@[i as int].shader_location
                            != self.attributes@[q].shader_location,
                decreases n - j,
            {
                if self.attributes[i].shader_location == self.attributes[j].shader_location {
                    return false;
                }
                j += 1;
            }
            i += 1;
        }
        true
    }
}

} // verus!
