use render_resources::arena::{ArenaError, FrameArena};
use render_resources::buffer::{BufferAccess, BufferBindingHint, BufferUsage};

#[test]
fn allocate_buffer_with_matching_initial_bytes_succeeds() {
    let mut arena = FrameArena::new(1);
    let bytes = vec![7u8; 1024];
    let view = arena
        .allocate_buffer(
            1024,
            BufferAccess::WriteOnly,
            BufferBindingHint::VertexBuffer,
            BufferUsage::Static,
            Some(&bytes),
        )
        .expect("allocation succeeds");
    assert_eq!(view.byte_len, 1024);
    assert_eq!(view.offset, 0);
    assert_eq!(arena.buffer_count(), 1);
    assert!(arena.view_is_live(&view));
    assert_eq!(arena.view_slice(&view), &bytes[..]);
}

#[test]
fn allocate_buffer_with_short_initial_bytes_fails_without_side_effects() {
    let mut arena = FrameArena::new(1);
    let bytes = vec![7u8; 512];
    let r = arena.allocate_buffer(
        1024,
        BufferAccess::WriteOnly,
        BufferBindingHint::VertexBuffer,
        BufferUsage::Static,
        Some(&bytes),
    );
    assert_eq!(r, Err(ArenaError::SizeMismatch));
    assert_eq!(arena.buffer_count(), 0);
}

#[test]
fn allocate_buffer_without_initial_bytes_has_the_requested_size() {
    let mut arena = FrameArena::new(1);
    let view = arena
        .allocate_buffer(
            256,
            BufferAccess::ReadWrite,
            BufferBindingHint::IndexBuffer,
            BufferUsage::Dynamic,
            None,
        )
        .expect("allocation succeeds");
    assert_eq!(view.byte_len, 256);
    assert_eq!(arena.view_slice(&view).len(), 256);
}

#[test]
fn allocate_uniform_copies_the_value_bytes() {
    let mut arena = FrameArena::new(1);
    let value = [1u8, 2, 3, 4, 5, 6, 7, 8];
    let view = arena.allocate_uniform(&value);
    assert_eq!(view.byte_len, 8);
    assert_eq!(arena.view_slice(&view), &value[..]);
    assert_eq!(arena.buffers[view.buffer].binding, BufferBindingHint::UniformBuffer);
    assert_eq!(arena.buffers[view.buffer].usage, BufferUsage::Stream);
    assert_eq!(arena.buffers[view.buffer].access, BufferAccess::WriteOnly);
}

#[test]
fn clear_invalidates_every_outstanding_view() {
    let mut arena = FrameArena::new(1);
    let view = arena.allocate_uniform(&[1u8, 2, 3, 4]);
    assert!(arena.view_is_live(&view));
    arena.clear();
    assert_eq!(arena.buffer_count(), 0);
    assert!(!arena.view_is_live(&view));
    // A buffer allocated after the clear does not revive the old view.
    let fresh = arena.allocate_uniform(&[9u8, 9, 9, 9]);
    assert!(arena.view_is_live(&fresh));
    assert!(!arena.view_is_live(&view));
    assert_ne!(fresh, view);
}

#[test]
fn distinct_arenas_produce_buffers_with_distinct_identities() {
    // Tear one arena down, then allocate the same sizes from a new arena
    // with its own identity: nothing is reused.
    let mut first = FrameArena::new(1);
    let va = first.allocate_uniform(&[0u8; 16]);
    let vb = first.allocate_uniform(&[0u8; 64]);
    let ida = (first.buffers[va.buffer].arena, first.buffers[va.buffer].epoch, va.buffer);
    let idb = (first.buffers[vb.buffer].arena, first.buffers[vb.buffer].epoch, vb.buffer);
    drop(first);

    let mut second = FrameArena::new(2);
    let vc = second.allocate_uniform(&[0u8; 16]);
    let vd = second.allocate_uniform(&[0u8; 64]);
    let idc = (second.buffers[vc.buffer].arena, second.buffers[vc.buffer].epoch, vc.buffer);
    let idd = (second.buffers[vd.buffer].arena, second.buffers[vd.buffer].epoch, vd.buffer);

    assert_ne!(ida, idc);
    assert_ne!(ida, idd);
    assert_ne!(idb, idc);
    assert_ne!(idb, idd);
    assert_ne!(va, vc);
    assert_ne!(vb, vd);
}

#[test]
fn write_view_overwrites_exactly_the_viewed_bytes() {
    let mut arena = FrameArena::new(1);
    let view = arena
        .allocate_buffer(
            8,
            BufferAccess::ReadWrite,
            BufferBindingHint::UniformBuffer,
            BufferUsage::Dynamic,
            Some(&[0u8; 8]),
        )
        .expect("allocation succeeds");
    arena.write_view(&view, &[1, 2, 3, 4, 5, 6, 7, 8]);
    assert_eq!(arena.view_slice(&view), &[1, 2, 3, 4, 5, 6, 7, 8]);
}
