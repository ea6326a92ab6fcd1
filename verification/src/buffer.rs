//! Handle-owning wrappers for device buffer objects and vertex arrays.
//!
//! Each wrapper exclusively owns one device handle, allocated by the caller
//! against the live context and handed in at construction. Releasing is
//! by value: `release` consumes the owner and yields the one delete
//! command, so a handle can never be released twice through its owner.

use vstd::prelude::*;

use crate::device::{BufferKind, Command, ComponentType, Usage};
use crate::Bindable;

verus! {

/// A buffer object of a given kind, exclusively owning its handle.
#[derive(Debug)]
pub struct Buffer {
    pub kind: BufferKind,
    pub handle: u32,
}

impl Buffer {
    /// Take ownership of a freshly allocated buffer handle of `kind`.
    pub fn new(kind: BufferKind, handle: u32) -> (b: Buffer)
        ensures
            b == (Buffer { kind, handle }),
    {
        Buffer { kind, handle }
    }

    /// The commands that upload `bytes` to this buffer with the given
    /// usage hint: bind this buffer, then transfer the full byte span.
    /// Performing them changes the device's "currently bound buffer of
    /// this kind" state.
    pub fn data(&self, bytes: Vec<u8>, usage: Usage) -> (cmds: Vec<Command>)
        ensures
            cmds@.len() == 2,
            cmds@[0] == self.bind_command(),
            cmds@[1] == (Command::BufferData { kind: self.kind, bytes, usage }),
    {
        let mut cmds: Vec<Command> = Vec::new();
        cmds.push(self.bind());
        cmds.push(Command::BufferData { kind: self.kind, bytes, usage });
        cmds
    }

    /// Give up ownership: the one command that releases this handle.
    pub fn release(self) -> (c: Command)
        ensures
            c == (Command::DeleteBuffer { handle: self.handle }),
    {
        Command::DeleteBuffer { handle: self.handle }
    }
}

impl Bindable for Buffer {
    open spec fn bind_command(&self) -> Command {
        Command::BindBuffer { kind: self.kind, handle: self.handle }
    }

    open spec fn unbind_command(&self) -> Command {
        Command::BindBuffer { kind: self.kind, handle: 0 }
    }

    fn bind(&self) -> (c: Command) {
        Command::BindBuffer { kind: self.kind, handle: self.handle }
    }

    fn unbind(&self) -> (c: Command) {
        Command::BindBuffer { kind: self.kind, handle: 0 }
    }
}

/// A buffer of per-vertex data.
#[derive(Debug)]
pub struct BufferArray {
    pub buffer: Buffer,
}

impl BufferArray {
    /// Take ownership of a freshly allocated array-buffer handle and
    /// produce the commands that fill it with `bytes`.
    pub fn new(handle: u32, bytes: Vec<u8>, usage: Usage) -> (r: (BufferArray, Vec<Command>))
        ensures
            r.0.buffer == (Buffer { kind: BufferKind::Array, handle }),
            r.1@.len() == 2,
            r.1@[0] == (Command::BindBuffer { kind: BufferKind::Array, handle }),
            r.1@[1] == (Command::BufferData { kind: BufferKind::Array, bytes, usage }),
    {
        let buffer = Buffer::new(BufferKind::Array, handle);
        let cmds = buffer.data(bytes, usage);
        (BufferArray { buffer }, cmds)
    }

    /// Give up ownership: the one command that releases the handle.
    pub fn release(self) -> (c: Command)
        ensures
            c == (Command::DeleteBuffer { handle: self.buffer.handle }),
    {
        self.buffer.release()
    }
}

impl Bindable for BufferArray {
    open spec fn bind_command(&self) -> Command {
        self.buffer.bind_command()
    }

    open spec fn unbind_command(&self) -> Command {
        self.buffer.unbind_command()
    }

    fn bind(&self) -> (c: Command) {
        self.buffer.bind()
    }

    fn unbind(&self) -> (c: Command) {
        self.buffer.unbind()
    }
}

/// The four little-endian bytes of one 32-bit word.
pub open spec fn u32_le_bytes(x: u32) -> Seq<u8> {
    seq![
        (x & 0xff) as u8,
        ((x >> 8) & 0xff) as u8,
        ((x >> 16) & 0xff) as u8,
        ((x >> 24) & 0xff) as u8,
    ]
}

/// The little-endian byte span of a sequence of 32-bit words.
pub open spec fn u32s_le_bytes(ws: Seq<u32>) -> Seq<u8>
    decreases ws.len(),
{
    if ws.len() == 0 {
        Seq::empty()
    } else {
        u32s_le_bytes(ws.drop_last()) + u32_le_bytes(ws.last())
    }
}

/// The byte span of `ws` holds four bytes per word.
pub proof fn lemma_u32s_le_bytes_len(ws: Seq<u32>)
    ensures
        u32s_le_bytes(ws).len() == 4 * ws.len(),
    decreases ws.len(),
{
    if ws.len() > 0 {
        lemma_u32s_le_bytes_len(ws.drop_last());
    }
}

/// Serialize 32-bit words as their little-endian byte span.
pub fn encode_u32s_le(data: &Vec<u32>) -> (bytes: Vec<u8>)
    ensures
        bytes@ == u32s_le_bytes(data@),
        bytes@.len() == 4 * data@.len(),
{
    let mut bytes: Vec<u8> = Vec::new();
    let n: usize = data.len();
    let mut i: usize = 0;
    while i < n
        invariant
            n == data@.len(),
            i <= n,
            bytes@ == u32s_le_bytes(data@.take(i as int)),
            bytes@.len() == 4 * i,
        decreases n - i,
    {
        let x: u32 = data[i];
        bytes.push((x & 0xff) as u8);
        bytes.push(((x >> 8) & 0xff) as u8);
        bytes.push(((x >> 16) & 0xff) as u8);
        bytes.push(((x >> 24) & 0xff) as u8);
        proof {
            let taken = data@.take(i + 1);
            assert(taken.drop_last() =~= data@.take(i as int));
            assert(taken.last() == data@[i as int]);
            assert(bytes@ =~= u32s_le_bytes(data@.take(i as int)) + u32_le_bytes(data@[i as int]));
        }
        i = i + 1;
    }
    proof {
        assert(data@.take(n as int) =~= data@);
    }
    bytes
}

/// A buffer of indices into a vertex buffer, remembering the element type
/// and count of the index data it holds, for later indexed draw calls.
#[derive(Debug)]
pub struct BufferElementArray {
    pub buffer: Buffer,
    pub ty: ComponentType,
    pub count: i32,
}

impl BufferElementArray {
    /// Take ownership of a freshly allocated element-array handle and
    /// produce the commands that fill it with the raw byte span of
    /// `data` (four bytes per index). Records the element type and
    /// `count == data.len()`, independent of the buffer's contents.
    pub fn new(handle: u32, data: &Vec<u32>, ty: ComponentType, usage: Usage) -> (r: (
        BufferElementArray,
        Vec<Command>,
    ))
        requires
            data@.len() <= 0x7fff_ffff,
            ty.size_spec() == 4,
        ensures
            r.0.buffer == (Buffer { kind: BufferKind::ElementArray, handle }),
            r.0.ty == ty,
            r.0.count == data@.len() as i32,
            r.1@.len() == 2,
            r.1@[0] == (Command::BindBuffer { kind: BufferKind::ElementArray, handle }),
            r.1@[1] matches Command::BufferData { kind, bytes, usage: u } && kind
                == BufferKind::ElementArray && bytes@ == u32s_le_bytes(data@) && bytes@.len() == 4
                * data@.len() && u == usage,
    {
        proof {
            lemma_u32s_le_bytes_len(data@);
        }
        let buffer = Buffer::new(BufferKind::ElementArray, handle);
        let count: i32 = data.len() as i32;
        let bytes = encode_u32s_le(data);
        let mut cmds: Vec<Command> = Vec::new();
        cmds.push(buffer.bind());
        cmds.push(Command::BufferData { kind: BufferKind::ElementArray, bytes, usage });
        (BufferElementArray { buffer, ty, count }, cmds)
    }

    /// The element type of the index data this buffer holds.
    pub fn ty(&self) -> (t: ComponentType)
        ensures
            t == self.ty,
    {
        self.ty
    }

    /// How many indices this buffer holds.
    pub fn count(&self) -> (c: i32)
        ensures
            c == self.count,
    {
        self.count
    }

    /// Give up ownership: the one command that releases the handle.
    pub fn release(self) -> (c: Command)
        ensures
            c == (Command::DeleteBuffer { handle: self.buffer.handle }),
    {
        self.buffer.release()
    }
}

impl Bindable for BufferElementArray {
    open spec fn bind_command(&self) -> Command {
        self.buffer.bind_command()
    }

    open spec fn unbind_command(&self) -> Command {
        self.buffer.unbind_command()
    }

    fn bind(&self) -> (c: Command) {
        self.buffer.bind()
    }

    fn unbind(&self) -> (c: Command) {
        self.buffer.unbind()
    }
}

/// A vertex-array object, exclusively owning its handle. It carries no
/// data of its own beyond bindings established against it.
#[derive(Debug)]
pub struct VertexArray {
    pub handle: u32,
}

impl VertexArray {
    /// Take ownership of a freshly allocated vertex-array handle.
    pub fn new(handle: u32) -> (v: VertexArray)
        ensures
            v == (VertexArray { handle }),
    {
        VertexArray { handle }
    }

    /// Give up ownership: the one command that releases this handle.
    pub fn release(self) -> (c: Command)
        ensures
            c == (Command::DeleteVertexArray { handle: self.handle }),
    {
        Command::DeleteVertexArray { handle: self.handle }
    }
}

impl Bindable for VertexArray {
    open spec fn bind_command(&self) -> Command {
        Command::BindVertexArray { handle: self.handle }
    }

    open spec fn unbind_command(&self) -> Command {
        Command::BindVertexArray { handle: 0 }
    }

    fn bind(&self) -> (c: Command) {
        Command::BindVertexArray { handle: self.handle }
    }

    fn unbind(&self) -> (c: Command) {
        Command::BindVertexArray { handle: 0 }
    }
}

} // verus!
