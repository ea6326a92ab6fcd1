//! Plain-value descriptions of the device API surface this layer drives.
//!
//! The library never touches the device: it produces [`Command`] values that
//! the caller performs, in order, against the live graphics context.

use vstd::prelude::*;

verus! {

/// The kind a buffer object was allocated as.
#[derive(Clone, Copy, Debug, PartialEq, Eq, Structural)]
pub enum BufferKind {
    /// Per-vertex data.
    Array,
    /// Indices into a vertex buffer.
    ElementArray,
}

/// Access-pattern hint handed to the device together with uploaded data.
#[derive(Clone, Copy, Debug, PartialEq, Eq, Structural)]
pub enum Usage {
    /// Written once, drawn many times.
    StaticDraw,
    /// Rewritten often.
    DynamicDraw,
    /// Written and drawn about once.
    StreamDraw,
}

/// Scalar type of one component of a vertex attribute.
#[derive(Clone, Copy, Debug, PartialEq, Eq, Structural)]
pub enum ComponentType {
    Byte,
    UnsignedByte,
    Short,
    UnsignedShort,
    Int,
    UnsignedInt,
    Float,
    Double,
}

impl ComponentType {
    /// Byte size of one component of this type.
    pub open spec fn size_spec(&self) -> int {
        match self {
            ComponentType::Byte => 1,
            ComponentType::UnsignedByte => 1,
            ComponentType::Short => 2,
            ComponentType::UnsignedShort => 2,
            ComponentType::Int => 4,
            ComponentType::UnsignedInt => 4,
            ComponentType::Float => 4,
            ComponentType::Double => 8,
        }
    }

    /// Byte size of one component of this type.
    pub fn size(&self) -> (s: usize)
        ensures
            s == self.size_spec(),
            1 <= s <= 8,
    {
        match self {
            ComponentType::Byte => 1,
            ComponentType::UnsignedByte => 1,
            ComponentType::Short => 2,
            ComponentType::UnsignedShort => 2,
            ComponentType::Int => 4,
            ComponentType::UnsignedInt => 4,
            ComponentType::Float => 4,
            ComponentType::Double => 8,
        }
    }
}

/// One call into the device API, for the caller to perform against the
/// live context. Handles are the device's opaque identifiers; the value 0
/// stands for "no object" and clears a binding.
#[derive(Clone, Debug, PartialEq, Eq)]
pub enum Command {
    /// Make `handle` the currently bound buffer of `kind`.
    BindBuffer { kind: BufferKind, handle: u32 },
    /// Upload `bytes` to the currently bound buffer of `kind`.
    BufferData { kind: BufferKind, bytes: Vec<u8>, usage: Usage },
    /// Release a buffer handle.
    DeleteBuffer { handle: u32 },
    /// Make `handle` the current vertex array.
    BindVertexArray { handle: u32 },
    /// Release a vertex-array handle.
    DeleteVertexArray { handle: u32 },
    /// Register attribute `index` of the bound vertex array against the
    /// bound array buffer.
    VertexAttribPointer {
        index: u32,
        count: u32,
        component_type: ComponentType,
        normalized: bool,
        stride: usize,
        offset: usize,
    },
    /// Enable attribute `index` of the bound vertex array.
    EnableVertexAttribArray { index: u32 },
    /// Attach a compiled shader to a program before linking.
    AttachShader { program: u32, shader: u32 },
    /// Link the program.
    LinkProgram { handle: u32 },
    /// Release a shader handle.
    DeleteShader { handle: u32 },
    /// Release a program handle.
    DeleteProgram { handle: u32 },
    /// Make `handle` the active program.
    UseProgram { handle: u32 },
}

} // verus!
