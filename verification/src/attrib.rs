//! Vertex input attributes: the closed set of attribute formats, their byte
//! sizes, and the per-buffer strides of an input layout.

use vstd::prelude::*;

verus! {

/// The format of one vertex attribute.
#[derive(Clone, Copy, PartialEq, Eq, Structural, Debug)]
pub enum AttributeType {
    Uint32x4,
    Sint32x4,
    Float4,
    Uint32x3,
    Sint32x3,
    Float3,
    Float2,
    Uint16x4,
    Sint16x4,
    Unorm16x4,
    Snorm16x4,
    Float16x4,
    Uint16x2,
    Sint16x2,
    Unorm16x2,
    Snorm16x2,
    Float16x2,
    Uint8x4,
    Sint8x4,
    Unorm8x4,
    Snorm8x4,
    Uint8x3,
    Sint8x3,
    Unorm8x3,
    Snorm8x3,
    Uint8x2,
    Sint8x2,
    Unorm8x2,
    Snorm8x2,
    Unorm10x3_1x2,
    Snorm10x3_1x2,
    Uint32,
    Sint32,
    Uint16,
    Sint16,
    Unorm16,
    Snorm16,
    Uint8,
    Sint8,
    Unorm8,
    Snorm8,
    Float16,
    Float,
}

/// The size in bytes of one attribute of the given format.
pub open spec fn spec_byte_size(ty: AttributeType) -> int {
    match ty {
        AttributeType::Uint32x4 => 16,
        AttributeType::Sint32x4 => 16,
        AttributeType::Float4 => 16,
        AttributeType::Uint32x3 => 12,
        AttributeType::Sint32x3 => 12,
        AttributeType::Float3 => 12,
        AttributeType::Float2 => 8,
        AttributeType::Uint16x4 => 8,
        AttributeType::Sint16x4 => 8,
        AttributeType::Unorm16x4 => 8,
        AttributeType::Snorm16x4 => 8,
        AttributeType::Float16x4 => 8,
        AttributeType::Uint16x2 => 4,
        AttributeType::Sint16x2 => 4,
        AttributeType::Unorm16x2 => 4,
        AttributeType::Snorm16x2 => 4,
        AttributeType::Float16x2 => 4,
        AttributeType::Uint8x4 => 4,
        AttributeType::Sint8x4 => 4,
        AttributeType::Unorm8x4 => 4,
        AttributeType::Snorm8x4 => 4,
        AttributeType::Uint8x3 => 3,
        AttributeType::Sint8x3 => 3,
        AttributeType::Unorm8x3 => 3,
        AttributeType::Snorm8x3 => 3,
        AttributeType::Uint8x2 => 2,
        AttributeType::Sint8x2 => 2,
        AttributeType::Unorm8x2 => 2,
        AttributeType::Snorm8x2 => 2,
        AttributeType::Unorm10x3_1x2 => 4,
        AttributeType::Snorm10x3_1x2 => 4,
        AttributeType::Uint32 => 4,
        AttributeType::Sint32 => 4,
        AttributeType::Uint16 => 2,
        AttributeType::Sint16 => 2,
        AttributeType::Unorm16 => 2,
        AttributeType::Snorm16 => 2,
        AttributeType::Uint8 => 1,
        AttributeType::Sint8 => 1,
        AttributeType::Unorm8 => 1,
        AttributeType::Snorm8 => 1,
        AttributeType::Float16 => 2,
        AttributeType::Float => 4,
    }
}

/// Every attribute format occupies between 1 and 16 bytes.
pub proof fn lemma_byte_size_range(ty: AttributeType)
    ensures
        1 <= spec_byte_size(ty) <= 16,
{
}

impl AttributeType {
    /// The size in bytes of one attribute of this format.
    pub fn byte_size(self) -> (r: usize)
        ensures
            r == spec_byte_size(self),
    {
        match self {
            AttributeType::Uint32x4 => 16,
            AttributeType::Sint32x4 => 16,
            AttributeType::Float4 => 16,
            AttributeType::Uint32x3 => 12,
            AttributeType::Sint32x3 => 12,
            AttributeType::Float3 => 12,
            AttributeType::Float2 => 8,
            AttributeType::Uint16x4 => 8,
            AttributeType::Sint16x4 => 8,
            AttributeType::Unorm16x4 => 8,
            AttributeType::Snorm16x4 => 8,
            AttributeType::Float16x4 => 8,
            AttributeType::Uint16x2 => 4,
            AttributeType::Sint16x2 => 4,
            AttributeType::Unorm16x2 => 4,
            AttributeType::Snorm16x2 => 4,
            AttributeType::Float16x2 => 4,
            AttributeType::Uint8x4 => 4,
            AttributeType::Sint8x4 => 4,
            AttributeType::Unorm8x4 => 4,
            AttributeType::Snorm8x4 => 4,
            AttributeType::Uint8x3 => 3,
            AttributeType::Sint8x3 => 3,
            AttributeType::Unorm8x3 => 3,
            AttributeType::Snorm8x3 => 3,
            AttributeType::Uint8x2 => 2,
            AttributeType::Sint8x2 => 2,
            AttributeType::Unorm8x2 => 2,
            AttributeType::Snorm8x2 => 2,
            AttributeType::Unorm10x3_1x2 => 4,
            AttributeType::Snorm10x3_1x2 => 4,
            AttributeType::Uint32 => 4,
            AttributeType::Sint32 => 4,
            AttributeType::Uint16 => 2,
            AttributeType::Sint16 => 2,
            AttributeType::Unorm16 => 2,
            AttributeType::Snorm16 => 2,
            AttributeType::Uint8 => 1,
            AttributeType::Sint8 => 1,
            AttributeType::Unorm8 => 1,
            AttributeType::Snorm8 => 1,
            AttributeType::Float16 => 2,
            AttributeType::Float => 4,
        }
    }
}

/// One vertex attribute: the buffer slot it is fetched from and its format.
#[derive(Clone, Copy, PartialEq, Eq, Structural, Debug)]
pub struct Attribute {
    pub slot: u32,
    pub ty: AttributeType,
}

/// The stride contributed to buffer `slot` by the attributes: the sum of the
/// byte sizes of the attributes fetched from that slot.
pub open spec fn spec_stride(attribs: Seq<Attribute>, slot: int) -> int
    decreases attribs.len(),
{
    if attribs.len() == 0 {
        0
    } else {
        spec_stride(attribs.drop_last(), slot) + if attribs.last().slot == slot {
            spec_byte_size(attribs.last().ty)
        } else {
            0
        }
    }
}

/// A stride is non-negative and at most 16 bytes per attribute.
pub proof fn lemma_stride_bound(attribs: Seq<Attribute>, slot: int)
    ensures
        0 <= spec_stride(attribs, slot) <= 16 * attribs.len(),
    decreases attribs.len(),
{
    if attribs.len() > 0 {
        lemma_stride_bound(attribs.drop_last(), slot);
    }
}

/// A slot that at least one attribute names has a positive stride.
pub proof fn lemma_stride_positive(attribs: Seq<Attribute>, slot: int, i: int)
    requires
        0 <= i < attribs.len(),
        attribs[i].slot == slot,
    ensures
        spec_stride(attribs, slot) > 0,
    decreases attribs.len(),
{
    lemma_byte_size_range(attribs.last().ty);
    if i == attribs.len() - 1 {
        lemma_stride_bound(attribs.drop_last(), slot);
    } else {
        lemma_stride_positive(attribs.drop_last(), slot, i);
    }
}

/// A prefix never contributes more stride than the whole sequence.
proof fn lemma_stride_prefix(attribs: Seq<Attribute>, i: int, slot: int)
    requires
        0 <= i <= attribs.len(),
    ensures
        spec_stride(attribs.subrange(0, i), slot) <= spec_stride(attribs, slot),
    decreases attribs.len() - i,
{
    if i == attribs.len() {
        assert(attribs.subrange(0, i) =~= attribs);
    } else {
        lemma_stride_prefix(attribs, i + 1, slot);
        assert(attribs.subrange(0, i + 1).drop_last() =~= attribs.subrange(0, i));
        lemma_byte_size_range(attribs.subrange(0, i + 1).last().ty);
    }
}

/// The per-buffer layout of the vertex input stage: one stride per buffer
/// slot. The GPU-side vertex array object built from it lives outside the
/// library.
#[derive(Clone, PartialEq, Eq, Debug)]
pub struct InputLayout {
    pub strides: Vec<i32>,
}

impl InputLayout {
    /// Computes the stride of each of the `num_buffers` buffer slots from
    /// the attribute list. As in the GPU submission path, an attribute
    /// naming a slot out of range and a buffer slot left without any
    /// attribute are caller errors, excluded here by precondition.
    pub fn new(num_buffers: u32, attribs: &[Attribute]) -> (r: InputLayout)
        requires
            num_buffers >= 1,
            forall|i: int| 0 <= i < attribs@.len() ==> (#[trigger] attribs@[i]).slot < num_buffers,
            forall|s: int|
                0 <= s < num_buffers ==> #[trigger] spec_stride(attribs@, s) > 0,
            forall|s: int|
                0 <= s < num_buffers ==> #[trigger] spec_stride(attribs@, s) <= i32::MAX,
        ensures
            r.strides@.len() == num_buffers,
            forall|s: int| 0 <= s < num_buffers ==> r.strides@[s] == spec_stride(attribs@, s),
    {
        let mut strides: Vec<i32> = Vec::new();
        let mut k: usize = 0;
        while k < num_buffers as usize
            invariant
                k <= num_buffers,
                strides@.len() == k,
                forall|s: int| 0 <= s < k ==> strides@[s] == 0,
            decreases num_buffers - k,
        {
            strides.push(0);
            k = k + 1;
        }
        let mut i: usize = 0;
        while i < attribs.len()
            invariant
                i <= attribs@.len(),
                strides@.len() == num_buffers,
                num_buffers >= 1,
                forall|j: int|
                    0 <= j < attribs@.len() ==> (#[trigger] attribs@[j]).slot < num_buffers,
                forall|s: int|
                    0 <= s < num_buffers ==> #[trigger] spec_stride(attribs@, s) <= i32::MAX,
                forall|s: int|
                    0 <= s < num_buffers ==> strides@[s] == spec_stride(
                        attribs@.subrange(0, i as int),
                        s,
                    ),
            decreases attribs@.len() - i,
        {
            let a = attribs[i];
            let slot = a.slot as usize;
            proof {
                lemma_stride_bound(attribs@.subrange(0, i as int), a.slot as int);
                lemma_stride_prefix(attribs@, i + 1, a.slot as int);
                assert(attribs@.subrange(0, i + 1).drop_last() =~= attribs@.subrange(0, i as int));
                assert forall|s: int| 0 <= s < num_buffers && s != a.slot implies spec_stride(
                    attribs@.subrange(0, i + 1),
                    s,
                ) == spec_stride(attribs@.subrange(0, i as int), s) by {
                    assert(attribs@.subrange(0, i + 1).last() == attribs@[i as int]);
                }
            }
            let size = a.ty.byte_size();
            strides[slot] = strides[slot] + size as i32;
            i = i + 1;
        }
        proof {
            assert(attribs@.subrange(0, attribs@.len() as int) =~= attribs@);
        }
        InputLayout { strides }
    }
}

} // verus!
