//! A minimal resource-management layer over a stateful graphics device API.
//!
//! GPU resources (buffers, vertex arrays, shaders, programs) are wrapped in
//! handle-owning objects, and per-vertex attribute geometry (byte offset,
//! component type, component count) is derived from declared field positions
//! and validated against the vertex record's size.
//!
//! The device itself is out of scope: every operation that would touch the
//! device returns the exact sequence of [`Command`] values to perform, and
//! takes any device responses (handles, statuses, logs, locations) as plain
//! arguments. The caller drives the live context and hands results back.

use vstd::prelude::*;

mod buffer;
mod device;
mod layout;
mod program;

pub use buffer::{encode_u32s_le, Buffer, BufferArray, BufferElementArray, VertexArray};
pub use buffer::{u32_le_bytes, u32s_le_bytes};
pub use device::{BufferKind, Command, ComponentType, Usage};
pub use layout::{decl_contained, decl_error, decl_sized, decl_valid, member_of, members_fit};
pub use layout::{lemma_layout_offsets_in_range, AttributeDecl, Layout, LayoutError, LayoutMember, LayoutMemberAccumulator};
pub use program::{cache_lookup, Program, Shader};
pub use program::{lemma_insert_preserves_other_lookups, lemma_lookup_after_insert};

verus! {

/// Objects that can install themselves as (or clear) the device's
/// "currently bound" resource of their kind.
///
/// Binding is global device state; the commands returned here must be
/// performed by the caller against the live context.
pub trait Bindable {
    /// The command that makes this object the currently bound one of its kind.
    spec fn bind_command(&self) -> Command;

    /// The command that clears the binding for this object's kind.
    spec fn unbind_command(&self) -> Command;

    fn bind(&self) -> (c: Command)
        ensures
            c == self.bind_command(),
    ;

    fn unbind(&self) -> (c: Command)
        ensures
            c == self.unbind_command(),
    ;
}

} // verus!
