//! Derivation of per-vertex attribute geometry from declared field positions.
//!
//! A vertex record is described by one [`AttributeDecl`] per attribute, in
//! the order the attributes should be bound (declaration order becomes
//! attribute index 0, 1, 2, ...). Each declaration is validated against the
//! record: the field must lie inside the record, and the declared
//! (component type, component count) pair must account for every byte of
//! the field.

use vstd::prelude::*;

use crate::device::{Command, ComponentType};

verus! {

/// Why an attribute declaration was rejected.
#[derive(Clone, Copy, Debug, PartialEq, Eq, Structural)]
pub enum LayoutError {
    /// The declared field does not lie entirely inside the vertex record.
    FieldOutOfBounds,
    /// `component_type.size() * count` does not account exactly for the
    /// field's byte size (a zero component count is rejected here too: no
    /// attribute describes zero components).
    SizeMismatch,
}

/// One "this field, with this component type and count" statement:
/// a field of `size` bytes at byte `offset` of the vertex record, read as
/// `count` components of `component_type`.
#[derive(Clone, Copy, Debug, PartialEq, Eq, Structural)]
pub struct AttributeDecl {
    pub offset: usize,
    pub size: usize,
    pub component_type: ComponentType,
    pub count: u32,
}

/// A validated attribute of a [`Layout`].
#[derive(Clone, Copy, Debug, PartialEq, Eq, Structural)]
pub struct LayoutMember {
    /// Byte offset of the field inside the vertex record.
    pub offset: usize,
    /// Scalar type of one component.
    pub ty: ComponentType,
    /// Number of components; always at least 1.
    pub count: u32,
}

/// The field lies entirely inside a record of `vertex_size` bytes.
pub open spec fn decl_contained(vertex_size: int, offset: int, size: int) -> bool {
    offset + size <= vertex_size
}

/// The declared (type, count) pair accounts exactly for the field's bytes.
pub open spec fn decl_sized(size: int, ty: ComponentType, count: int) -> bool {
    &&& size == ty.size_spec() * count
    &&& count >= 1
}

/// A declaration is valid against a record of `vertex_size` bytes.
pub open spec fn decl_valid(vertex_size: int, d: AttributeDecl) -> bool {
    &&& decl_contained(vertex_size, d.offset as int, d.size as int)
    &&& decl_sized(d.size as int, d.component_type, d.count as int)
}

/// The error a declaration is rejected with: containment is checked first.
pub open spec fn decl_error(vertex_size: int, d: AttributeDecl) -> LayoutError {
    if !decl_contained(vertex_size, d.offset as int, d.size as int) {
        LayoutError::FieldOutOfBounds
    } else {
        LayoutError::SizeMismatch
    }
}

/// The member a valid declaration yields.
pub open spec fn member_of(d: AttributeDecl) -> LayoutMember {
    LayoutMember { offset: d.offset, ty: d.component_type, count: d.count }
}

impl LayoutMember {
    /// The member's byte size as declared: one component's size times the
    /// component count.
    pub open spec fn byte_size(&self) -> int {
        self.ty.size_spec() * self.count
    }

    /// The member's byte range lies inside a record of `stride` bytes.
    pub open spec fn fits(&self, stride: int) -> bool {
        self.offset + self.byte_size() <= stride
    }

    /// Construct a validated member. The checks are hard preconditions: a
    /// declaration that does not match the record's compiled shape is a
    /// programmer error, not a runtime case. [`LayoutMember::try_new`]
    /// performs the same checks as a recoverable test.
    pub fn new(vertex_size: usize, offset: usize, size: usize, ty: ComponentType, count: u32) -> (m:
        LayoutMember)
        requires
            decl_contained(vertex_size as int, offset as int, size as int),
            decl_sized(size as int, ty, count as int),
        ensures
            m == (LayoutMember { offset, ty, count }),
    {
        LayoutMember { offset, ty, count }
    }

    /// Check a declaration against a record of `vertex_size` bytes and
    /// construct the member, or report exactly why it is rejected:
    /// a field outside the record fails every time, and so does a declared
    /// (type, count) pair whose size differs from the field's.
    pub fn try_new(vertex_size: usize, offset: usize, size: usize, ty: ComponentType, count: u32) -> (r:
        Result<LayoutMember, LayoutError>)
        ensures
            r is Ok <==> decl_valid(
                vertex_size as int,
                (AttributeDecl { offset, size, component_type: ty, count }),
            ),
            r matches Ok(m) ==> m == (LayoutMember { offset, ty, count }),
            r matches Err(e) ==> e == decl_error(
                vertex_size as int,
                (AttributeDecl { offset, size, component_type: ty, count }),
            ),
    {
        if !(offset <= vertex_size && size <= vertex_size - offset) {
            Err(LayoutError::FieldOutOfBounds)
        } else if count == 0 {
            Err(LayoutError::SizeMismatch)
        } else {
            let s: usize = ty.size();
            assert((s as u64) * (count as u64) <= 8u64 * 0xffff_ffffu64) by (nonlinear_arith)
                requires
                    s <= 8,
                    count <= 0xffff_ffffu32,
            ;
            let declared: u64 = (s as u64) * (count as u64);
            if (size as u64) == declared {
                Ok(LayoutMember { offset, ty, count })
            } else {
                Err(LayoutError::SizeMismatch)
            }
        }
    }
}

/// Every member's byte range lies inside a record of `stride` bytes, and
/// every member has at least one component.
pub open spec fn members_fit(stride: int, members: Seq<LayoutMember>) -> bool {
    forall|i: int|
        0 <= i < members.len() ==> (#[trigger] members[i]).fits(stride) && members[i].count >= 1
}

/// In a well-formed layout every member's computed offset `o` satisfies
/// `0 <= o` and `o + ty.size() * count <= stride`, whatever record shape
/// and whichever subset of its fields the layout was built from.
pub proof fn lemma_layout_offsets_in_range(l: Layout)
    requires
        l.wf(),
    ensures
        forall|i: int|
            0 <= i < l.members@.len() ==> 0 <= (#[trigger] l.members@[i]).offset && l.members@[i].offset
                + l.members@[i].ty.size_spec() * l.members@[i].count <= l.stride,
{
}

/// An ordered attribute description of one vertex record: the record's
/// total byte size (`stride`) and one member per attribute, in binding
/// order (a member's position is its attribute index).
#[derive(Clone, Debug, PartialEq, Eq)]
pub struct Layout {
    pub stride: usize,
    pub members: Vec<LayoutMember>,
}

impl Layout {
    /// Every member lies inside the record, and there are few enough
    /// members for each to get a distinct device attribute index.
    pub open spec fn wf(&self) -> bool {
        &&& members_fit(self.stride as int, self.members@)
        &&& self.members@.len() <= 0xffff_ffff
    }

    /// Assemble a layout from already-validated members.
    pub fn new(stride: usize, members: Vec<LayoutMember>) -> (l: Layout)
        requires
            members_fit(stride as int, members@),
            members@.len() <= 0xffff_ffff,
        ensures
            l.stride == stride,
            l.members == members,
            l.wf(),
    {
        Layout { stride, members }
    }

    /// Build a layout for a record of `stride` bytes from attribute
    /// declarations given in binding order. Succeeds exactly when every
    /// declaration is valid against the record; otherwise reports the
    /// first declaration's failure. On success, every computed offset `o`
    /// of a member with component type `t` and count `c` satisfies
    /// `0 <= o` and `o + t.size() * c <= stride`.
    pub fn build(stride: usize, decls: &Vec<AttributeDecl>) -> (r: Result<Layout, LayoutError>)
        requires
            decls@.len() <= 0xffff_ffff,
        ensures
            r is Ok <==> (forall|i: int|
                0 <= i < decls@.len() ==> decl_valid(stride as int, #[trigger] decls@[i])),
            r matches Ok(l) ==> {
                &&& l.stride == stride
                &&& l.wf()
                &&& l.members@.len() == decls@.len()
                &&& forall|i: int|
                    0 <= i < decls@.len() ==> l.members@[i] == member_of(#[trigger] decls@[i])
            },
            r matches Err(e) ==> exists|i: int|
                {
                    &&& 0 <= i < decls@.len()
                    &&& !decl_valid(stride as int, #[trigger] decls@[i])
                    &&& forall|j: int| 0 <= j < i ==> decl_valid(stride as int, #[trigger] decls@[j])
                    &&& e == decl_error(stride as int, decls@[i])
                },
    {
        let mut members: Vec<LayoutMember> = Vec::new();
        let n: usize = decls.len();
        let mut i: usize = 0;
        while i < n
            invariant
                n == decls@.len(),
                decls@.len() <= 0xffff_ffff,
                i <= n,
                members@.len() == i,
                forall|j: int| 0 <= j < i ==> decl_valid(stride as int, #[trigger] decls@[j]),
                forall|j: int| 0 <= j < i ==> members@[j] == member_of(#[trigger] decls@[j]),
            decreases n - i,
        {
            let d = decls[i];
            match LayoutMember::try_new(stride, d.offset, d.size, d.component_type, d.count) {
                Ok(m) => {
                    members.push(m);
                },
                Err(e) => {
                    return Err(e);
                },
            }
            i = i + 1;
        }
        assert forall|j: int| 0 <= j < members@.len() implies (#[trigger] members@[j]).fits(
            stride as int,
        ) && members@[j].count >= 1 by {
            assert(decl_valid(stride as int, decls@[j]));
        }
        Ok(Layout::new(stride, members))
    }

    /// The commands that enable this layout against the currently bound
    /// vertex array and array buffer: for each member, in declaration
    /// order, one attribute-pointer registration (attribute index = the
    /// member's position, normalized always false) immediately followed by
    /// an enable of the same index.
    pub fn enable(&self) -> (cmds: Vec<Command>)
        requires
            self.wf(),
        ensures
            cmds@.len() == 2 * self.members@.len(),
            forall|i: int|
                #![trigger self.members@[i]]
                0 <= i < self.members@.len() ==> {
                    &&& cmds@[2 * i] == (Command::VertexAttribPointer {
                        index: i as u32,
                        count: self.members@[i].count,
                        component_type: self.members@[i].ty,
                        normalized: false,
                        stride: self.stride,
                        offset: self.members@[i].offset,
                    })
                    &&& cmds@[2 * i + 1] == (Command::EnableVertexAttribArray { index: i as u32 })
                },
    {
        let mut cmds: Vec<Command> = Vec::new();
        let n: usize = self.members.len();
        let mut i: usize = 0;
        while i < n
            invariant
                self.wf(),
                n == self.members@.len(),
                i <= n,
                cmds@.len() == 2 * i,
                forall|j: int|
                    #![trigger self.members@[j]]
                    0 <= j < i ==> {
                        &&& cmds@[2 * j] == (Command::VertexAttribPointer {
                            index: j as u32,
                            count: self.members@[j].count,
                            component_type: self.members@[j].ty,
                            normalized: false,
                            stride: self.stride,
                            offset: self.members@[j].offset,
                        })
                        &&& cmds@[2 * j + 1] == (Command::EnableVertexAttribArray { index: j as u32 })
                    },
            decreases n - i,
        {
            let m = self.members[i];
            cmds.push(
                Command::VertexAttribPointer {
                    index: i as u32,
                    count: m.count,
                    component_type: m.ty,
                    normalized: false,
                    stride: self.stride,
                    offset: m.offset,
                },
            );
            cmds.push(Command::EnableVertexAttribArray { index: i as u32 });
            i = i + 1;
        }
        cmds
    }
}

/// Collects validated members for one vertex record, in binding order.
#[derive(Clone, Debug, PartialEq, Eq)]
pub struct LayoutMemberAccumulator {
    /// Total byte size of the vertex record being described.
    pub vertex_size: usize,
    /// The members added so far.
    pub members: Vec<LayoutMember>,
}

impl LayoutMemberAccumulator {
    /// Every member added so far lies inside the record.
    pub open spec fn wf(&self) -> bool {
        &&& members_fit(self.vertex_size as int, self.members@)
        &&& self.members@.len() <= 0xffff_ffff
    }

    /// Start describing a record of `vertex_size` bytes.
    pub fn new(vertex_size: usize) -> (a: LayoutMemberAccumulator)
        ensures
            a.vertex_size == vertex_size,
            a.members@ == Seq::<LayoutMember>::empty(),
            a.wf(),
    {
        LayoutMemberAccumulator { vertex_size, members: Vec::new() }
    }

    /// Declare the next attribute: a field of `size` bytes at `offset`,
    /// read as `count` components of `ty`. The validity checks are hard
    /// preconditions, as in [`LayoutMember::new`].
    pub fn add(&mut self, offset: usize, size: usize, ty: ComponentType, count: u32)
        requires
            old(self).wf(),
            old(self).members@.len() < 0xffff_ffff,
            decl_contained(old(self).vertex_size as int, offset as int, size as int),
            decl_sized(size as int, ty, count as int),
        ensures
            final(self).vertex_size == old(self).vertex_size,
            final(self).members@ == old(self).members@.push(
                (LayoutMember { offset, ty, count }),
            ),
            final(self).wf(),
    {
        let m = LayoutMember::new(self.vertex_size, offset, size, ty, count);
        self.members.push(m);
    }

    /// Finish: the record's size becomes the layout's stride and the
    /// members keep their order.
    pub fn finish(self) -> (l: Layout)
        requires
            self.wf(),
        ensures
            l.stride == self.vertex_size,
            l.members == self.members,
            l.wf(),
    {
        Layout::new(self.vertex_size, self.members)
    }
}

} // verus!
