//! The frame-scoped buffer arena: a bump allocator owning an append-only
//! collection of GPU-visible buffers that are all freed together, at frame
//! end, by clearing or dropping the arena. Buffers are never recycled, in a
//! frame or across frames, and never freed individually.
//!
//! The library holds each buffer's mapped bytes itself, so the one failure
//! an allocation can report is a size mismatch, rejected before anything is
//! allocated. Exhaustion of the GPU-side storage belongs to the backend
//! that mirrors these buffers, outside the library, and is fatal for the
//! frame there.

use vstd::prelude::*;
use crate::buffer::{BufferAccess, BufferBindingHint, BufferUsage, BufferView, RawGpuBuffer};

verus! {

/// Failure of an arena allocation. A supplied initial byte string whose
/// length disagrees with the requested size is rejected before anything is
/// allocated.
#[derive(Clone, Copy, PartialEq, Eq, Structural, Debug)]
pub enum ArenaError {
    SizeMismatch,
}

/// A frame's transient buffer allocator. Its identity distinguishes its
/// buffers from those of every other arena; its epoch distinguishes buffers
/// across `clear` calls. Callers must give each arena they construct its own
/// identity.
pub struct FrameArena {
    /// Identity of this arena.
    pub id: u64,
    /// Current allocation epoch; advanced by `clear`.
    pub epoch: u64,
    /// Every buffer allocated in the current epoch, in allocation order.
    pub buffers: Vec<RawGpuBuffer>,
}

impl FrameArena {
    /// Every owned buffer is stamped with this arena's identity, the
    /// current epoch and its own position.
    pub open spec fn wf(self) -> bool {
        forall|i: int|
            0 <= i < self.buffers.len() ==> {
                &&& (#[trigger] self.buffers[i]).arena == self.id
                &&& self.buffers[i].epoch == self.epoch
                &&& self.buffers[i].index == i
            }
    }

    /// Whether a view still points into a live buffer of this arena: it was
    /// taken from this arena in the current epoch, and its window lies
    /// within its buffer's bytes.
    pub open spec fn spec_view_live(self, v: BufferView) -> bool {
        &&& v.arena == self.id
        &&& v.epoch == self.epoch
        &&& v.buffer < self.buffers.len()
        &&& v.offset + v.byte_len <= self.buffers[v.buffer as int].contents.len()
    }

    /// A fresh arena with the given identity and no buffers.
    pub fn new(id: u64) -> (r: FrameArena)
        ensures
            r.wf(),
            r.id == id,
            r.epoch == 0,
            r.buffers@.len() == 0,
    {
        FrameArena { id, epoch: 0, buffers: Vec::new() }
    }

    /// How many buffers the arena currently owns.
    pub fn buffer_count(&self) -> (r: usize)
        ensures
            r == self.buffers@.len(),
    {
        self.buffers.len()
    }

    /// Checks whether a view still points into a live buffer of this arena;
    /// the debug-mode guard for the "a view never outlives its arena" rule.
    pub fn view_is_live(&self, v: &BufferView) -> (r: bool)
        ensures
            r == self.spec_view_live(*v),
    {
        if v.arena != self.id || v.epoch != self.epoch || v.buffer >= self.buffers.len() {
            return false;
        }
        let len = self.buffers[v.buffer].contents.len();
        v.offset <= len && v.byte_len <= len - v.offset
    }

    /// Creates one new buffer of exactly `byte_size` bytes and returns a
    /// view spanning all of it. If `initial` is supplied its length must
    /// equal `byte_size`, else the call fails with `SizeMismatch` and the
    /// arena is left exactly as it was; on success the new buffer's bytes
    /// are the supplied ones. Without `initial` the contents are
    /// unspecified until written, as freshly mapped storage is. Ownership
    /// of the buffer stays with the arena; the view is valid until the
    /// arena is cleared or dropped.
    pub fn allocate_buffer(
        &mut self,
        byte_size: usize,
        access: BufferAccess,
        binding: BufferBindingHint,
        usage: BufferUsage,
        initial: Option<&[u8]>,
    ) -> (r: Result<BufferView, ArenaError>)
        requires
            old(self).wf(),
        ensures
            final(self).wf(),
            final(self).id == old(self).id,
            final(self).epoch == old(self).epoch,
            match r {
                Ok(v) => {
                    &&& (initial matches Some(d) ==> d@.len() == byte_size)
                    &&& v == (BufferView {
                        arena: old(self).id,
                        epoch: old(self).epoch,
                        buffer: old(self).buffers@.len() as usize,
                        offset: 0,
                        byte_len: byte_size,
                    })
                    &&& final(self).spec_view_live(v)
                    &&& final(self).buffers@.len() == old(self).buffers@.len() + 1
                    &&& final(self).buffers@.subrange(0, old(self).buffers@.len() as int) == old(
                        self,
                    ).buffers@
                    &&& final(self).buffers@.last().access == access
                    &&& final(self).buffers@.last().binding == binding
                    &&& final(self).buffers@.last().usage == usage
                    &&& final(self).buffers@.last().contents@.len() == byte_size
                    &&& (initial matches Some(d) ==> final(self).buffers@.last().contents@ == d@)
                },
                Err(e) => {
                    &&& e == ArenaError::SizeMismatch
                    &&& initial matches Some(d) && d@.len() != byte_size
                    &&& *final(self) == *old(self)
                },
            },
    {
        let contents: Vec<u8> = match initial {
            Some(d) => {
                if d.len() != byte_size {
                    return Err(ArenaError::SizeMismatch);
                }
                let mut c: Vec<u8> = Vec::new();
                crate::text::push_bytes(&mut c, d);
                proof {
                    assert(c@ =~= d@);
                }
                c
            },
            None => {
                let mut c: Vec<u8> = Vec::new();
                let mut i: usize = 0;
                while i < byte_size
                    invariant
                        i <= byte_size,
                        c@.len() == i,
                    decreases byte_size - i,
                {
                    c.push(0);
                    i = i + 1;
                }
                c
            },
        };
        let index = self.buffers.len();
        let buf = RawGpuBuffer {
            arena: self.id,
            epoch: self.epoch,
            index,
            access,
            binding,
            usage,
            contents,
        };
        self.buffers.push(buf);
        proof {
            assert(self.buffers@.subrange(0, old(self).buffers@.len() as int) =~= old(
                self,
            ).buffers@);
        }
        Ok(
            BufferView {
                arena: self.id,
                epoch: self.epoch,
                buffer: index,
                offset: 0,
                byte_len: byte_size,
            },
        )
    }

    /// Allocates a buffer holding exactly the bytes of one uniform value,
    /// tagged as a uniform-block binding, and returns a view spanning it.
    pub fn allocate_uniform(&mut self, data: &[u8]) -> (v: BufferView)
        requires
            old(self).wf(),
        ensures
            final(self).wf(),
            final(self).id == old(self).id,
            final(self).epoch == old(self).epoch,
            v == (BufferView {
                arena: old(self).id,
                epoch: old(self).epoch,
                buffer: old(self).buffers@.len() as usize,
                offset: 0,
                byte_len: data@.len() as usize,
            }),
            final(self).spec_view_live(v),
            final(self).buffers@.len() == old(self).buffers@.len() + 1,
            final(self).buffers@.subrange(0, old(self).buffers@.len() as int) == old(self).buffers@,
            final(self).buffers@.last().access == BufferAccess::WriteOnly,
            final(self).buffers@.last().binding == BufferBindingHint::UniformBuffer,
            final(self).buffers@.last().usage == BufferUsage::Stream,
            final(self).buffers@.last().contents@ == data@,
    {
        let r = self.allocate_buffer(
            data.len(),
            BufferAccess::WriteOnly,
            BufferBindingHint::UniformBuffer,
            BufferUsage::Stream,
            Some(data),
        );
        match r {
            Ok(v) => v,
            Err(_) => vstd::pervasive::unreached(),
        }
    }

    /// Destroys every buffer allocated so far and advances the epoch, so
    /// that no outstanding view is live any more. The arena itself can be
    /// reused for the next frame.
    pub fn clear(&mut self)
        requires
            old(self).epoch < u64::MAX,
        ensures
            final(self).wf(),
            final(self).id == old(self).id,
            final(self).epoch == old(self).epoch + 1,
            final(self).buffers@.len() == 0,
            forall|v: BufferView|
                #[trigger] old(self).spec_view_live(v) ==> !final(self).spec_view_live(v),
    {
        self.buffers = Vec::new();
        self.epoch = self.epoch + 1;
    }

    /// Borrows the bytes a live view points at.
    pub fn view_slice<'a>(&'a self, v: &BufferView) -> (r: &'a [u8])
        requires
            self.spec_view_live(*v),
        ensures
            r@ == self.buffers@[v.buffer as int].contents@.subrange(
                v.offset as int,
                v.offset + v.byte_len,
            ),
    {
        let buf = &self.buffers[v.buffer];
        let s: &[u8] = buf.contents.as_slice();
        &s[v.offset..v.offset + v.byte_len]
    }

    /// Overwrites the bytes a live view points at with `data`, which must
    /// fill the view exactly; nothing else in the arena changes.
    pub fn write_view(&mut self, v: &BufferView, data: &[u8])
        requires
            old(self).wf(),
            old(self).spec_view_live(*v),
            data@.len() == v.byte_len,
        ensures
            final(self).wf(),
            final(self).id == old(self).id,
            final(self).epoch == old(self).epoch,
            final(self).buffers@.len() == old(self).buffers@.len(),
            forall|i: int|
                0 <= i < old(self).buffers@.len() && i != v.buffer ==> final(self).buffers@[i]
                    == old(self).buffers@[i],
            final(self).spec_view_live(*v),
            final(self).buffers@[v.buffer as int].contents@.len() == old(self).buffers@[v.buffer
                as int].contents@.len(),
            forall|j: int|
                v.offset <= j < v.offset + v.byte_len ==> final(self).buffers@[v.buffer
                    as int].contents@[j] == data@[j - v.offset],
            forall|j: int|
                0 <= j < old(self).buffers@[v.buffer as int].contents@.len() && !(v.offset <= j
                    < v.offset + v.byte_len) ==> final(self).buffers@[v.buffer as int].contents@[j]
                    == old(self).buffers@[v.buffer as int].contents@[j],
    {
        let buf = &mut self.buffers[v.buffer];
        buf.write_at(v.offset, data);
    }
}

/// Buffers owned by arenas with distinct identities are never the same
/// buffer: a new arena never reuses a previous arena's allocations.
pub proof fn lemma_distinct_arenas_distinct_buffers(a: FrameArena, b: FrameArena, i: int, j: int)
    requires
        a.wf(),
        b.wf(),
        a.id != b.id,
        0 <= i < a.buffers@.len(),
        0 <= j < b.buffers@.len(),
    ensures
        a.buffers@[i] != b.buffers@[j],
{
}

/// Views live in arenas with distinct identities never denote the same
/// window.
pub proof fn lemma_distinct_arenas_distinct_views(
    a: FrameArena,
    b: FrameArena,
    va: BufferView,
    vb: BufferView,
)
    requires
        a.id != b.id,
        a.spec_view_live(va),
        b.spec_view_live(vb),
    ensures
        va != vb,
{
}

} // verus!
