//! GPU-visible buffers as the library models them: an owned allocation with
//! its CPU-mapped bytes, and non-owning typed windows into it. A buffer's
//! identity is the arena that created it, the arena's allocation epoch and
//! its position in that epoch; the GPU object behind it lives outside the
//! library.

use vstd::prelude::*;

verus! {

/// How the CPU may access the mapped bytes of a buffer.
#[derive(Clone, Copy, PartialEq, Eq, Structural, Debug)]
pub enum BufferAccess {
    ReadOnly,
    WriteOnly,
    ReadWrite,
}

/// What the buffer will be bound as.
#[derive(Clone, Copy, PartialEq, Eq, Structural, Debug)]
pub enum BufferBindingHint {
    VertexBuffer,
    IndexBuffer,
    UniformBuffer,
}

/// How often the buffer's contents are expected to change.
#[derive(Clone, Copy, PartialEq, Eq, Structural, Debug)]
pub enum BufferUsage {
    Static,
    Dynamic,
    Stream,
}

/// One owned GPU memory allocation with its CPU-visible mapped bytes. The
/// mapped region is valid exactly while the buffer is alive, that is while
/// the arena that owns it is alive and has not been cleared.
#[derive(Clone, PartialEq, Eq, Debug)]
pub struct RawGpuBuffer {
    /// Identity of the arena that owns this buffer.
    pub arena: u64,
    /// The arena's allocation epoch when this buffer was created.
    pub epoch: u64,
    /// Position of this buffer within that epoch.
    pub index: usize,
    pub access: BufferAccess,
    pub binding: BufferBindingHint,
    pub usage: BufferUsage,
    /// The CPU-visible mapped bytes; the buffer's byte size is their count.
    pub contents: Vec<u8>,
}

impl RawGpuBuffer {
    /// The byte size of the allocation.
    pub fn byte_size(&self) -> (r: usize)
        ensures
            r == self.contents@.len(),
    {
        self.contents.len()
    }

    /// Overwrites `data.len()` mapped bytes starting at `offset`; everything
    /// else about the buffer is unchanged.
    pub fn write_at(&mut self, offset: usize, data: &[u8])
        requires
            offset + data@.len() <= old(self).contents@.len(),
        ensures
            final(self).arena == old(self).arena,
            final(self).epoch == old(self).epoch,
            final(self).index == old(self).index,
            final(self).access == old(self).access,
            final(self).binding == old(self).binding,
            final(self).usage == old(self).usage,
            final(self).contents@.len() == old(self).contents@.len(),
            forall|j: int|
                offset <= j < offset + data@.len() ==> final(self).contents@[j] == data@[j
                    - offset],
            forall|j: int|
                0 <= j < old(self).contents@.len() && !(offset <= j < offset + data@.len())
                    ==> final(self).contents@[j] == old(self).contents@[j],
    {
        let n = self.contents.len();
        let mut i: usize = 0;
        while i < data.len()
            invariant
                i <= data@.len(),
                offset + data@.len() <= n,
                offset + data@.len() <= self.contents@.len(),
                self.arena == old(self).arena,
                self.epoch == old(self).epoch,
                self.index == old(self).index,
                self.access == old(self).access,
                self.binding == old(self).binding,
                self.usage == old(self).usage,
                self.contents@.len() == old(self).contents@.len(),
                forall|j: int|
                    offset <= j < offset + i ==> self.contents@[j] == data@[j - offset],
                forall|j: int|
                    0 <= j < old(self).contents@.len() && !(offset <= j < offset + i)
                        ==> self.contents@[j] == old(self).contents@[j],
            decreases data@.len() - i,
        {
            self.contents[offset + i] = data[i];
            i = i + 1;
        }
    }
}

/// A non-owning window of `byte_len` mapped bytes starting at `offset`
/// within one buffer. It carries the buffer's full identity so liveness can
/// be checked: a view must never be used after its arena is cleared or
/// dropped.
#[derive(Clone, Copy, PartialEq, Eq, Structural, Debug)]
pub struct BufferView {
    /// Identity of the arena the viewed buffer belongs to.
    pub arena: u64,
    /// Allocation epoch the viewed buffer belongs to.
    pub epoch: u64,
    /// Position of the viewed buffer within that epoch.
    pub buffer: usize,
    /// First viewed byte within the buffer.
    pub offset: usize,
    /// Number of viewed bytes.
    pub byte_len: usize,
}

} // verus!
