//! Buffer resource descriptors: a registry label and an opaque byte payload,
//! one type per GPU buffer kind.

use vstd::prelude::*;

verus! {

/// A vertex buffer descriptor: a registry label and the raw vertex bytes.
#[derive(Clone, Debug, PartialEq, Eq)]
pub struct VertexBuffer {
    pub label: String,
    pub content: Vec<u8>,
}

/// An index buffer descriptor: a registry label and the raw index bytes.
#[derive(Clone, Debug, PartialEq, Eq)]
pub struct IndexBuffer {
    pub label: String,
    pub content: Vec<u8>,
}

impl Default for VertexBuffer {
    /// An empty label and no content.
    fn default() -> (r: Self)
        ensures
            r.label@ == Seq::<char>::empty(),
            r.content@ == Seq::<u8>::empty(),
    {
        VertexBuffer { label: String::new(), content: Vec::new() }
    }
}

impl Default for IndexBuffer {
    /// An empty label and no content.
    fn default() -> (r: Self)
        ensures
            r.label@ == Seq::<char>::empty(),
            r.content@ == Seq::<u8>::empty(),
    {
        IndexBuffer { label: String::new(), content: Vec::new() }
    }
}

impl Default for UniformBuffer {
    /// An empty label and no content.
    fn default() -> (r: Self)
        ensures
            r.label@ == Seq::<char>::empty(),
            r.content@ == Seq::<u8>::empty(),
    {
        UniformBuffer { label: String::new(), content: Vec::new() }
    }
}

impl IndexBuffer {
    /// The byte length of the content, truncated to 32 bits.
    pub fn GetLength(&self) -> (r: u32)
        ensures
            r == self.content@.len() as u32,
            self.content@.len() <= u32::MAX ==> r == self.content@.len(),
    {
        #[verifier::truncate]
        (self.content.len() as u32)
    }
}

/// A uniform buffer descriptor: a registry label and the raw uniform bytes.
#[derive(Clone, Debug, PartialEq, Eq)]
pub struct UniformBuffer {
    pub label: String,
    pub content: Vec<u8>,
}

} // verus!
