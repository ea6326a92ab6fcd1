use glres::{Bindable, Buffer, BufferArray, BufferElementArray, BufferKind, Command,
    ComponentType, Usage, VertexArray, encode_u32s_le};

#[test]
fn buffer_new_keeps_kind_and_handle() {
    let b = Buffer::new(BufferKind::Array, 7);
    assert_eq!(b.kind, BufferKind::Array);
    assert_eq!(b.handle, 7);
}

#[test]
fn buffer_bind_and_unbind_commands() {
    let b = Buffer::new(BufferKind::ElementArray, 9);
    assert_eq!(b.bind(), Command::BindBuffer { kind: BufferKind::ElementArray, handle: 9 });
    assert_eq!(b.unbind(), Command::BindBuffer { kind: BufferKind::ElementArray, handle: 0 });
}

#[test]
fn buffer_data_binds_then_uploads() {
    let b = Buffer::new(BufferKind::Array, 3);
    let cmds = b.data(vec![1, 2, 3, 4], Usage::StaticDraw);
    assert_eq!(cmds.len(), 2);
    assert_eq!(cmds[0], Command::BindBuffer { kind: BufferKind::Array, handle: 3 });
    assert_eq!(
        cmds[1],
        Command::BufferData { kind: BufferKind::Array, bytes: vec![1, 2, 3, 4], usage: Usage::StaticDraw }
    );
}

#[test]
fn buffer_release_yields_one_delete() {
    let b = Buffer::new(BufferKind::Array, 5);
    assert_eq!(b.release(), Command::DeleteBuffer { handle: 5 });
}

#[test]
fn buffer_array_uploads_on_construction() {
    let (ba, cmds) = BufferArray::new(11, vec![9, 8], Usage::DynamicDraw);
    assert_eq!(ba.buffer.kind, BufferKind::Array);
    assert_eq!(ba.buffer.handle, 11);
    assert_eq!(cmds.len(), 2);
    assert_eq!(cmds[0], Command::BindBuffer { kind: BufferKind::Array, handle: 11 });
    assert_eq!(
        cmds[1],
        Command::BufferData { kind: BufferKind::Array, bytes: vec![9, 8], usage: Usage::DynamicDraw }
    );
    assert_eq!(ba.release(), Command::DeleteBuffer { handle: 11 });
}

#[test]
fn encode_u32s_little_endian() {
    let bytes = encode_u32s_le(&vec![1, 0x0102_0304]);
    assert_eq!(bytes, vec![1, 0, 0, 0, 4, 3, 2, 1]);
}

#[test]
fn encode_empty_sequence() {
    let bytes = encode_u32s_le(&Vec::new());
    assert!(bytes.is_empty());
}

#[test]
fn element_array_records_type_and_count() {
    let indices: Vec<u32> = vec![0, 1, 2, 2, 3, 0];
    let (ea, cmds) = BufferElementArray::new(4, &indices, ComponentType::UnsignedInt,
        Usage::StaticDraw);
    assert_eq!(ea.ty(), ComponentType::UnsignedInt);
    assert_eq!(ea.count(), 6);
    assert_eq!(ea.buffer.kind, BufferKind::ElementArray);
    assert_eq!(ea.buffer.handle, 4);
    assert_eq!(cmds.len(), 2);
    assert_eq!(cmds[0], Command::BindBuffer { kind: BufferKind::ElementArray, handle: 4 });
    // Four bytes per index, little endian, independent of the contents.
    let expected: Vec<u8> = vec![
        0, 0, 0, 0, 1, 0, 0, 0, 2, 0, 0, 0, 2, 0, 0, 0, 3, 0, 0, 0, 0, 0, 0, 0,
    ];
    assert_eq!(
        cmds[1],
        Command::BufferData { kind: BufferKind::ElementArray, bytes: expected, usage: Usage::StaticDraw }
    );
}

#[test]
fn element_array_count_tracks_length_not_contents() {
    let (ea1, _) = BufferElementArray::new(1, &vec![7, 7, 7], ComponentType::UnsignedInt,
        Usage::StaticDraw);
    let (ea2, _) = BufferElementArray::new(1, &vec![0, 1, 2], ComponentType::UnsignedInt,
        Usage::StaticDraw);
    assert_eq!(ea1.count(), 3);
    assert_eq!(ea2.count(), 3);
}

#[test]
fn element_array_binds_as_its_buffer() {
    let (ea, _) = BufferElementArray::new(8, &vec![0], ComponentType::UnsignedInt,
        Usage::StreamDraw);
    assert_eq!(ea.bind(), Command::BindBuffer { kind: BufferKind::ElementArray, handle: 8 });
    assert_eq!(ea.unbind(), Command::BindBuffer { kind: BufferKind::ElementArray, handle: 0 });
    assert_eq!(ea.release(), Command::DeleteBuffer { handle: 8 });
}

#[test]
fn vertex_array_bind_unbind_release() {
    let va = VertexArray::new(13);
    assert_eq!(va.handle, 13);
    assert_eq!(va.bind(), Command::BindVertexArray { handle: 13 });
    assert_eq!(va.unbind(), Command::BindVertexArray { handle: 0 });
    assert_eq!(va.release(), Command::DeleteVertexArray { handle: 13 });
}
