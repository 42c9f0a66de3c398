//! Vertex-attribute descriptions: formats, attribute-to-binding wiring,
//! and buffer bind points.  Plain value types accumulated by a vertex
//! array descriptor and turned into ordered setup steps.

use vstd::prelude::*;

verus! {

/// A vertex attribute's format.
pub type Attrib = AttribFormat;

/// The component layout of one vertex attribute.
#[derive(PartialEq, Eq, Structural, Hash, Clone, Copy, Debug)]
pub enum AttribKind {
    /// One single-precision component.
    Float1,
    /// Two single-precision components.
    Float2,
    /// Three single-precision components.
    Float3,
    /// Four single-precision components.
    Float4,
}

impl AttribKind {
    /// The number of components of this kind.
    pub open spec fn component_count_spec(self) -> u8 {
        match self {
            AttribKind::Float1 => 1,
            AttribKind::Float2 => 2,
            AttribKind::Float3 => 3,
            AttribKind::Float4 => 4,
        }
    }

    /// Returns how many components an attribute of this kind has.
    pub fn component_count(self) -> (n: u8)
        ensures
            n == self.component_count_spec(),
    {
        match self {
            AttribKind::Float1 => 1,
            AttribKind::Float2 => 2,
            AttribKind::Float3 => 3,
            AttribKind::Float4 => 4,
        }
    }
}

/// Layout of one vertex attribute inside its buffer binding.
#[derive(PartialEq, Eq, Structural, Hash, Clone, Copy, Debug)]
pub struct AttribFormat {
    /// Attribute index.
    pub index: u32,
    /// Component layout.
    pub kind: AttribKind,
    /// Relative offset in bytes between vertex elements.
    pub offset: u32,
}

impl AttribFormat {
    /// An attribute format with relative offset 0.
    pub fn new(index: u32, kind: AttribKind) -> (a: Self)
        ensures
            a == (AttribFormat { index, kind, offset: 0 }),
    {
        Self::with_offset(index, kind, 0)
    }

    /// An attribute format with an explicit relative byte offset.
    pub fn with_offset(index: u32, kind: AttribKind, offset: u32) -> (a: Self)
        ensures
            a == (AttribFormat { index, kind, offset }),
    {
        AttribFormat { index, kind, offset }
    }

    /// An attribute format whose relative offset is the byte size of `T`.
    pub fn typed_offset<T>(index: u32, kind: AttribKind) -> (a: Self)
        requires
            vstd::layout::size_of::<T>() <= u32::MAX,
        ensures
            a == (AttribFormat { index, kind, offset: vstd::layout::size_of::<T>() as u32 }),
    {
        Self::with_offset(index, kind, core::mem::size_of::<T>() as u32)
    }
}

/// Assignment of an attribute index to a buffer-binding index.
#[derive(PartialEq, Eq, Structural, Hash, Clone, Copy, Debug)]
pub struct AttribBinding {
    /// Attribute index.
    pub attrib_index: u32,
    /// Index of the buffer binding the attribute reads from.
    pub buffer_binding_index: u32,
}

impl AttribBinding {
    /// Wires attribute `attrib_index` to buffer binding
    /// `buffer_binding_index`.
    pub fn new(attrib_index: u32, buffer_binding_index: u32) -> (b: Self)
        ensures
            b == (AttribBinding { attrib_index, buffer_binding_index }),
    {
        AttribBinding { attrib_index, buffer_binding_index }
    }
}

/// Where and how a buffer is bound for vertex fetching.
#[derive(PartialEq, Eq, Structural, Hash, Clone, Copy, Debug)]
pub struct AttribBindPoint {
    /// Index of the buffer binding point.
    pub binding_index: u32,
    /// Offset in bytes of the first element.
    pub offset: u32,
    /// Distance in bytes between elements.
    pub stride: u32,
}

impl AttribBindPoint {
    /// A bind point with explicit offset and stride.
    pub fn new(binding_index: u32, offset: u32, stride: u32) -> (p: Self)
        ensures
            p == (AttribBindPoint { binding_index, offset, stride }),
    {
        AttribBindPoint { binding_index, offset, stride }
    }

    /// A bind point whose stride is the byte size of `T`.
    pub fn typed_stride<T>(binding_index: u32, offset: u32) -> (p: Self)
        requires
            vstd::layout::size_of::<T>() <= u32::MAX,
        ensures
            p == (AttribBindPoint {
                binding_index,
                offset,
                stride: vstd::layout::size_of::<T>() as u32,
            }),
    {
        Self::new(binding_index, offset, core::mem::size_of::<T>() as u32)
    }
}

} // verus!
