//! The descriptor pool and the one descriptor set that binds the top-level
//! structure, the output image and the uniform buffers to the pipeline.
use crate::pipeline::{DescriptorKind, UNIFORM_BUFFER_COUNT, layout_bindings_spec};
use crate::instance::{encode_words, words_le};
use crate::memory::MEMORY_HOST_VISIBLE;
use crate::resource::{BUFFER_USAGE_UNIFORM, BufferDesc};
use vstd::prelude::*;

verus! {

/// The pool holds one set.
pub const DESCRIPTOR_POOL_MAX_SETS: u32 = 1;

/// Room in the pool for descriptors of one kind.
#[derive(Clone, Copy, Debug, PartialEq, Eq)]
pub struct PoolSize {
    pub kind: DescriptorKind,
    pub count: u32,
}

/// The pool's sizes: one acceleration structure, one storage image, three
/// uniform buffers.
pub open spec fn pool_sizes_spec() -> Seq<PoolSize> {
    seq![
        PoolSize { kind: DescriptorKind::AccelerationStructure, count: 1 },
        PoolSize { kind: DescriptorKind::StorageImage, count: 1 },
        PoolSize { kind: DescriptorKind::UniformBuffer, count: 3 },
    ]
}

/// The sizes of the descriptor pool, exactly what the one set needs.
pub fn descriptor_pool_sizes() -> (r: Vec<PoolSize>)
    ensures
        r@ == pool_sizes_spec(),
{
    let mut r: Vec<PoolSize> = Vec::new();
    r.push(PoolSize { kind: DescriptorKind::AccelerationStructure, count: 1 });
    r.push(PoolSize { kind: DescriptorKind::StorageImage, count: 1 });
    r.push(PoolSize { kind: DescriptorKind::UniformBuffer, count: UNIFORM_BUFFER_COUNT });
    assert(r@ =~= pool_sizes_spec());
    r
}

/// The pool holds exactly what the one set of the layout needs: for each
/// binding, room for its descriptors under its kind, and no other room.
pub proof fn lemma_pool_matches_layout()
    ensures
        pool_sizes_spec().len() == layout_bindings_spec().len(),
        forall|i: int|
            0 <= i < pool_sizes_spec().len() ==> (#[trigger] pool_sizes_spec()[i]).kind
                == layout_bindings_spec()[i].kind && pool_sizes_spec()[i].count
                == layout_bindings_spec()[i].count,
        forall|i: int, j: int|
            0 <= i < j < pool_sizes_spec().len() ==> (#[trigger] pool_sizes_spec()[i]).kind
                != (#[trigger] pool_sizes_spec()[j]).kind,
{
}

/// One write into the descriptor set: `handles` fill consecutive array
/// elements of `binding` from element 0. A storage image is written in the
/// general layout; a uniform buffer is bound whole.
pub struct DescriptorWrite {
    pub set: u64,
    pub binding: u32,
    pub kind: DescriptorKind,
    pub handles: Vec<u64>,
}

/// Why the descriptor writes could not be made.
#[derive(Clone, Copy, Debug, PartialEq, Eq)]
pub enum DescriptorError {
    /// A handle is null: the stage that makes it has not run.
    NullHandle,
}

/// Every handle the writes refer to is live.
pub open spec fn writes_ready(set: u64, top_level: u64, image_view: u64, uniform_buffers: Seq<u64>) -> bool {
    &&& set != 0
    &&& top_level != 0
    &&& image_view != 0
    &&& forall|i: int| 0 <= i < uniform_buffers.len() ==> #[trigger] uniform_buffers[i] != 0
}

/// The three writes, sent to the device in one update: the top-level
/// structure at binding 0, the output image's view at binding 1, the
/// uniform buffers at binding 2. Fails where any handle is null.
pub fn descriptor_writes(
    set: u64,
    top_level: u64,
    image_view: u64,
    uniform_buffers: [u64; 3],
) -> (r: Result<Vec<DescriptorWrite>, DescriptorError>)
    ensures
        r is Err <==> !writes_ready(set, top_level, image_view, uniform_buffers@),
        r is Err ==> r == Err::<Vec<DescriptorWrite>, DescriptorError>(DescriptorError::NullHandle),
        r matches Ok(w) ==> {
            &&& w@.len() == 3
            &&& w@[0].set == set && w@[0].binding == 0 && w@[0].kind
                == DescriptorKind::AccelerationStructure && w@[0].handles@ == seq![top_level]
            &&& w@[1].set == set && w@[1].binding == 1 && w@[1].kind == DescriptorKind::StorageImage
                && w@[1].handles@ == seq![image_view]
            &&& w@[2].set == set && w@[2].binding == 2 && w@[2].kind == DescriptorKind::UniformBuffer
                && w@[2].handles@ == uniform_buffers@
        },
{
    if set == 0 || top_level == 0 || image_view == 0 || uniform_buffers[0] == 0
        || uniform_buffers[1] == 0 || uniform_buffers[2] == 0 {
        proof {
            if set != 0 && top_level != 0 && image_view != 0 {
                assert(uniform_buffers@[0] == 0 || uniform_buffers@[1] == 0 || uniform_buffers@[2] == 0);
            }
        }
        return Err(DescriptorError::NullHandle);
    }
    assert(writes_ready(set, top_level, image_view, uniform_buffers@));
    let mut r: Vec<DescriptorWrite> = Vec::new();
    let mut h0: Vec<u64> = Vec::new();
    h0.push(top_level);
    r.push(
        DescriptorWrite {
            set,
            binding: 0,
            kind: DescriptorKind::AccelerationStructure,
            handles: h0,
        },
    );
    let mut h1: Vec<u64> = Vec::new();
    h1.push(image_view);
    r.push(DescriptorWrite { set, binding: 1, kind: DescriptorKind::StorageImage, handles: h1 });
    let mut h2: Vec<u64> = Vec::new();
    h2.push(uniform_buffers[0]);
    h2.push(uniform_buffers[1]);
    h2.push(uniform_buffers[2]);
    assert(h2@ =~= uniform_buffers@);
    r.push(DescriptorWrite { set, binding: 2, kind: DescriptorKind::UniformBuffer, handles: h2 });
    proof {
        assert(r@[0].handles@ =~= seq![top_level]);
        assert(r@[1].handles@ =~= seq![image_view]);
    }
    Ok(r)
}

/// A uniform buffer: one colour of three 32-bit floats, host-visible.
pub fn uniform_buffer_desc() -> (r: BufferDesc)
    ensures
        r == (BufferDesc { size: 12, usage: BUFFER_USAGE_UNIFORM, memory_flags: MEMORY_HOST_VISIBLE }),
{
    BufferDesc { size: 12, usage: BUFFER_USAGE_UNIFORM, memory_flags: MEMORY_HOST_VISIBLE }
}

/// The colours held by the three uniform buffers, as the bit patterns of
/// three 32-bit floats each: red, green, blue.
pub open spec fn uniform_color_spec(i: int) -> Seq<u32> {
    if i == 0 {
        seq![0x3f80_0000u32, 0u32, 0u32]
    } else if i == 1 {
        seq![0u32, 0x3f80_0000u32, 0u32]
    } else {
        seq![0u32, 0u32, 0x3f80_0000u32]
    }
}

/// The colour of uniform buffer `i`, for `i` below three.
pub fn uniform_color(i: u32) -> (r: [u32; 3])
    requires
        i < UNIFORM_BUFFER_COUNT,
    ensures
        r@ == uniform_color_spec(i as int),
{
    let r: [u32; 3] = if i == 0 {
        [0x3f80_0000u32, 0u32, 0u32]
    } else if i == 1 {
        [0u32, 0x3f80_0000u32, 0u32]
    } else {
        [0u32, 0u32, 0x3f80_0000u32]
    };
    assert(r@ =~= uniform_color_spec(i as int));
    r
}

/// The bytes stored in uniform buffer `i`, for `i` below three.
pub fn uniform_color_bytes(i: u32) -> (r: Vec<u8>)
    requires
        i < UNIFORM_BUFFER_COUNT,
    ensures
        r@ == words_le(uniform_color_spec(i as int)),
        r@.len() == 12,
{
    let c = uniform_color(i);
    encode_words(&c)
}

} // verus!
