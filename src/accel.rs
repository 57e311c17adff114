//! The two-level acceleration structure over the triangle scene: its
//! geometry, its instances, the scratch memory its builds share, and the
//! commands that build it on the device.
use crate::instance::{
    GeometryInstance, INSTANCE_RECORD_SIZE, INSTANCE_TRIANGLE_CULL_DISABLE, encode_words,
    lemma_records_bytes_index, lemma_records_bytes_len, lemma_words_le_injective,
    lemma_words_le_len, pack_spec, record_bytes, records_bytes, u64_le, words_le,
};
use crate::memory::{MEMORY_DEVICE_LOCAL, MEMORY_HOST_COHERENT, MEMORY_HOST_VISIBLE};
use crate::resource::{
    BUFFER_USAGE_INDEX, BUFFER_USAGE_RAY_TRACING, BUFFER_USAGE_VERTEX, BufferDesc,
};
use vstd::prelude::*;

verus! {

/// Bytes of one vertex: three 32-bit float coordinates.
pub const VERTEX_STRIDE: u64 = 12;

/// Raw value of the three-float vertex position format.
pub const FORMAT_R32G32B32_SFLOAT: i32 = 106;

/// Raw value of the 16-bit index type.
pub const INDEX_TYPE_UINT16: i32 = 0;

/// Build flag that asks the device to favour trace speed over build speed.
pub const BUILD_PREFER_FAST_TRACE: u32 = 0x4;

/// Number of instances in the scene.
pub const SCENE_INSTANCE_COUNT: u32 = 3;

/// Visibility mask that every ray sees.
pub const FULL_VISIBILITY_MASK: u8 = 0xff;

/// The scene's triangle: three vertices, each the bit patterns of three
/// 32-bit floats, (-0.5, -0.5, 0), (0, 0.5, 0), (0.5, -0.5, 0).
pub open spec fn triangle_vertex_words() -> Seq<u32> {
    seq![
        0xbf00_0000u32, 0xbf00_0000u32, 0u32,
        0u32, 0x3f00_0000u32, 0u32,
        0x3f00_0000u32, 0xbf00_0000u32, 0u32,
    ]
}

/// The triangle's indices as 16-bit little-endian values: 0, 1, 2.
pub open spec fn triangle_index_bytes() -> Seq<u8> {
    seq![0u8, 0u8, 1u8, 0u8, 2u8, 0u8]
}

/// The contents of the vertex buffer.
pub fn triangle_vertex_data() -> (r: Vec<u8>)
    ensures
        r@ == words_le(triangle_vertex_words()),
        r@.len() == 36,
{
    let words: [u32; 9] = [
        0xbf00_0000u32, 0xbf00_0000u32, 0u32,
        0u32, 0x3f00_0000u32, 0u32,
        0x3f00_0000u32, 0xbf00_0000u32, 0u32,
    ];
    assert(words@ =~= triangle_vertex_words());
    encode_words(&words)
}

/// The contents of the index buffer.
pub fn triangle_index_data() -> (r: Vec<u8>)
    ensures
        r@ == triangle_index_bytes(),
{
    let r: Vec<u8> = vec![0u8, 0u8, 1u8, 0u8, 2u8, 0u8];
    assert(r@ =~= triangle_index_bytes());
    r
}

/// Memory the host writes once and the device reads during the build.
pub const UPLOAD_MEMORY: u32 = MEMORY_HOST_VISIBLE | MEMORY_HOST_COHERENT;

/// Memory that backs both acceleration structures.
pub const STRUCTURE_MEMORY: u32 = MEMORY_DEVICE_LOCAL;

/// The vertex buffer: the triangle's 36 bytes, host-visible and coherent.
pub fn vertex_buffer_desc() -> (r: BufferDesc)
    ensures
        r == (BufferDesc { size: 36, usage: BUFFER_USAGE_VERTEX, memory_flags: UPLOAD_MEMORY }),
{
    BufferDesc { size: 36, usage: BUFFER_USAGE_VERTEX, memory_flags: UPLOAD_MEMORY }
}

/// The index buffer: three 16-bit indices, host-visible and coherent.
pub fn index_buffer_desc() -> (r: BufferDesc)
    ensures
        r == (BufferDesc { size: 6, usage: BUFFER_USAGE_INDEX, memory_flags: UPLOAD_MEMORY }),
{
    BufferDesc { size: 6, usage: BUFFER_USAGE_INDEX, memory_flags: UPLOAD_MEMORY }
}

/// The instance buffer for `count` records, host-visible and coherent.
pub fn instance_buffer_desc(count: u32) -> (r: BufferDesc)
    ensures
        r == (BufferDesc {
            size: (count * INSTANCE_RECORD_SIZE) as u64,
            usage: BUFFER_USAGE_RAY_TRACING,
            memory_flags: UPLOAD_MEMORY,
        }),
{
    BufferDesc {
        size: instance_buffer_size(count),
        usage: BUFFER_USAGE_RAY_TRACING,
        memory_flags: UPLOAD_MEMORY,
    }
}

/// The scratch buffer both builds share, in device-local memory.
pub fn scratch_buffer_desc(bottom_scratch: u64, top_scratch: u64) -> (r: BufferDesc)
    ensures
        r.size >= bottom_scratch && r.size >= top_scratch,
        r.size == bottom_scratch || r.size == top_scratch,
        r.usage == BUFFER_USAGE_RAY_TRACING,
        r.memory_flags == MEMORY_DEVICE_LOCAL,
{
    BufferDesc {
        size: scratch_size(bottom_scratch, top_scratch),
        usage: BUFFER_USAGE_RAY_TRACING,
        memory_flags: MEMORY_DEVICE_LOCAL,
    }
}

/// One triangle geometry of a bottom-level structure.
#[derive(Clone, Copy, Debug, PartialEq, Eq)]
pub struct TriangleGeometry {
    pub vertex_buffer: u64,
    pub vertex_offset: u64,
    pub vertex_count: u32,
    pub vertex_stride: u64,
    pub vertex_format: i32,
    pub index_buffer: u64,
    pub index_offset: u64,
    pub index_count: u32,
    pub index_type: i32,
    /// No any-hit shader needs to run on this geometry.
    pub opaque: bool,
}

/// Describes the scene's triangle in the given vertex and index buffers.
pub fn triangle_geometry(vertex_buffer: u64, index_buffer: u64) -> (r: TriangleGeometry)
    ensures
        r == (TriangleGeometry {
            vertex_buffer,
            vertex_offset: 0,
            vertex_count: 3,
            vertex_stride: VERTEX_STRIDE,
            vertex_format: FORMAT_R32G32B32_SFLOAT,
            index_buffer,
            index_offset: 0,
            index_count: 3,
            index_type: INDEX_TYPE_UINT16,
            opaque: true,
        }),
{
    TriangleGeometry {
        vertex_buffer,
        vertex_offset: 0,
        vertex_count: 3,
        vertex_stride: VERTEX_STRIDE,
        vertex_format: FORMAT_R32G32B32_SFLOAT,
        index_buffer,
        index_offset: 0,
        index_count: 3,
        index_type: INDEX_TYPE_UINT16,
        opaque: true,
    }
}

/// Level of an acceleration structure.
#[derive(Clone, Copy, Debug, PartialEq, Eq)]
pub enum StructureLevel {
    /// Over triangle geometry.
    Bottom,
    /// Over instances of bottom-level structures.
    Top,
}

/// What a structure is made over, as given when it is created and built.
#[derive(Clone, Copy, Debug, PartialEq, Eq)]
pub struct StructureInfo {
    pub level: StructureLevel,
    pub geometry_count: u32,
    pub instance_count: u32,
    pub build_flags: u32,
}

/// The bottom-level structure: one geometry, built for fast tracing.
pub fn bottom_level_info() -> (r: StructureInfo)
    ensures
        r == (StructureInfo {
            level: StructureLevel::Bottom,
            geometry_count: 1,
            instance_count: 0,
            build_flags: BUILD_PREFER_FAST_TRACE,
        }),
{
    StructureInfo {
        level: StructureLevel::Bottom,
        geometry_count: 1,
        instance_count: 0,
        build_flags: BUILD_PREFER_FAST_TRACE,
    }
}

/// The top-level structure over `instance_count` instances.
pub fn top_level_info(instance_count: u32) -> (r: StructureInfo)
    ensures
        r == (StructureInfo {
            level: StructureLevel::Top,
            geometry_count: 0,
            instance_count,
            build_flags: 0,
        }),
{
    StructureInfo { level: StructureLevel::Top, geometry_count: 0, instance_count, build_flags: 0 }
}

/// Size of the scratch buffer that both builds share, one after the other:
/// the larger of their two needs.
pub fn scratch_size(bottom_scratch: u64, top_scratch: u64) -> (r: u64)
    ensures
        r >= bottom_scratch,
        r >= top_scratch,
        r == bottom_scratch || r == top_scratch,
{
    if bottom_scratch >= top_scratch {
        bottom_scratch
    } else {
        top_scratch
    }
}

/// Size in bytes of an instance buffer that holds `count` records.
pub fn instance_buffer_size(count: u32) -> (r: u64)
    ensures
        r == count * INSTANCE_RECORD_SIZE,
{
    let c = count as u64;
    assert(c * 64 <= u64::MAX) by (nonlinear_arith)
        requires
            c <= u32::MAX,
    ;
    c * 64
}

/// One command recorded into the build command buffer.
#[derive(Clone, Copy, Debug, PartialEq, Eq)]
pub enum BuildCommand {
    /// Builds the bottom-level structure from its geometry.
    BuildBottomLevel { structure: u64, scratch_buffer: u64 },
    /// A memory barrier on acceleration-structure reads and writes, from
    /// the build stage to the build stage.
    BuildBarrier,
    /// Builds the top-level structure from the instance buffer.
    BuildTopLevel {
        structure: u64,
        instance_buffer: u64,
        instance_count: u32,
        scratch_buffer: u64,
    },
}

/// The commands that build both structures: the bottom level, a barrier,
/// the top level, a barrier.
pub open spec fn build_sequence(
    bottom: u64,
    top: u64,
    instance_buffer: u64,
    instance_count: u32,
    scratch_buffer: u64,
) -> Seq<BuildCommand> {
    seq![
        BuildCommand::BuildBottomLevel { structure: bottom, scratch_buffer },
        BuildCommand::BuildBarrier,
        BuildCommand::BuildTopLevel { structure: top, instance_buffer, instance_count, scratch_buffer },
        BuildCommand::BuildBarrier,
    ]
}

/// The commands to record, in order, to build both structures with one
/// scratch buffer.
pub fn build_commands(
    bottom: u64,
    top: u64,
    instance_buffer: u64,
    instance_count: u32,
    scratch_buffer: u64,
) -> (r: Vec<BuildCommand>)
    ensures
        r@ == build_sequence(bottom, top, instance_buffer, instance_count, scratch_buffer),
{
    let mut r: Vec<BuildCommand> = Vec::new();
    r.push(BuildCommand::BuildBottomLevel { structure: bottom, scratch_buffer });
    r.push(BuildCommand::BuildBarrier);
    r.push(
        BuildCommand::BuildTopLevel { structure: top, instance_buffer, instance_count, scratch_buffer },
    );
    r.push(BuildCommand::BuildBarrier);
    assert(r@ =~= build_sequence(bottom, top, instance_buffer, instance_count, scratch_buffer));
    r
}

/// The top-level build is recorded after the bottom-level build, with a
/// barrier strictly between them, and each build is recorded once.
pub proof fn lemma_barrier_between_builds(
    bottom: u64,
    top: u64,
    instance_buffer: u64,
    instance_count: u32,
    scratch_buffer: u64,
)
    ensures
        ({
            let s = build_sequence(bottom, top, instance_buffer, instance_count, scratch_buffer);
            exists|i: int, j: int, k: int|
                0 <= i < j < k < s.len() && (#[trigger] s[i]) is BuildBottomLevel && (
                #[trigger] s[j]) is BuildBarrier && (#[trigger] s[k]) is BuildTopLevel && (forall|
                    m: int,
                | 0 <= m < s.len() && (#[trigger] s[m]) is BuildBottomLevel ==> m == i) && (forall|
                    m: int,
                | 0 <= m < s.len() && (#[trigger] s[m]) is BuildTopLevel ==> m == k)
        }),
{
    let s = build_sequence(bottom, top, instance_buffer, instance_count, scratch_buffer);
    assert(s[0] is BuildBottomLevel && s[1] is BuildBarrier && s[2] is BuildTopLevel);
}

/// Transform of scene instance `i`, as the bit patterns of twelve 32-bit
/// floats, row by row: translations (-1.5, 1.1), (0, -1.1), (1.5, 1.1).
pub open spec fn scene_transform(i: int) -> Seq<u32> {
    if i == 0 {
        seq![
            0x3f80_0000u32, 0u32, 0u32, 0xbfc0_0000u32,
            0u32, 0x3f80_0000u32, 0u32, 0x3f8c_cccdu32,
            0u32, 0u32, 0x3f80_0000u32, 0u32,
        ]
    } else if i == 1 {
        seq![
            0x3f80_0000u32, 0u32, 0u32, 0u32,
            0u32, 0x3f80_0000u32, 0u32, 0xbf8c_cccdu32,
            0u32, 0u32, 0x3f80_0000u32, 0u32,
        ]
    } else {
        seq![
            0x3f80_0000u32, 0u32, 0u32, 0x3fc0_0000u32,
            0u32, 0x3f80_0000u32, 0u32, 0x3f8c_cccdu32,
            0u32, 0u32, 0x3f80_0000u32, 0u32,
        ]
    }
}

/// `s` holds the scene's instances over the bottom-level handle `handle`:
/// three records with the scene's transforms in order, ids 0, 1, 2, full
/// visibility, offset 0, culling disabled.
pub open spec fn is_scene_instances(s: Seq<GeometryInstance>, handle: u64) -> bool {
    &&& s.len() == SCENE_INSTANCE_COUNT
    &&& forall|i: int|
        0 <= i < 3 ==> {
            &&& (#[trigger] s[i]).transform@ == scene_transform(i)
            &&& s[i].instance_id_and_mask == pack_spec(i as u32, FULL_VISIBILITY_MASK)
            &&& s[i].instance_offset_and_flags == pack_spec(0, INSTANCE_TRIANGLE_CULL_DISABLE)
            &&& s[i].acceleration_handle == handle
        }
}

/// The scene's instances, each referring to the bottom-level structure
/// with handle `handle`.
pub fn scene_instances(handle: u64) -> (r: Vec<GeometryInstance>)
    ensures
        is_scene_instances(r@, handle),
{
    let t0: [u32; 12] = [
        0x3f80_0000u32, 0u32, 0u32, 0xbfc0_0000u32,
        0u32, 0x3f80_0000u32, 0u32, 0x3f8c_cccdu32,
        0u32, 0u32, 0x3f80_0000u32, 0u32,
    ];
    let t1: [u32; 12] = [
        0x3f80_0000u32, 0u32, 0u32, 0u32,
        0u32, 0x3f80_0000u32, 0u32, 0xbf8c_cccdu32,
        0u32, 0u32, 0x3f80_0000u32, 0u32,
    ];
    let t2: [u32; 12] = [
        0x3f80_0000u32, 0u32, 0u32, 0x3fc0_0000u32,
        0u32, 0x3f80_0000u32, 0u32, 0x3f8c_cccdu32,
        0u32, 0u32, 0x3f80_0000u32, 0u32,
    ];
    assert(t0@ =~= scene_transform(0));
    assert(t1@ =~= scene_transform(1));
    assert(t2@ =~= scene_transform(2));
    let mut r: Vec<GeometryInstance> = Vec::new();
    r.push(
        GeometryInstance::new(t0, 0, FULL_VISIBILITY_MASK, 0, INSTANCE_TRIANGLE_CULL_DISABLE, handle),
    );
    r.push(
        GeometryInstance::new(t1, 1, FULL_VISIBILITY_MASK, 0, INSTANCE_TRIANGLE_CULL_DISABLE, handle),
    );
    r.push(
        GeometryInstance::new(t2, 2, FULL_VISIBILITY_MASK, 0, INSTANCE_TRIANGLE_CULL_DISABLE, handle),
    );
    r
}

/// A record's bytes begin with its transform and end with its structure
/// handle.
proof fn lemma_record_parts(inst: GeometryInstance)
    requires
        inst.transform@.len() == 12,
    ensures
        record_bytes(inst).subrange(0, 48) == words_le(inst.transform@),
        record_bytes(inst).subrange(56, 64) == u64_le(inst.acceleration_handle),
{
    lemma_words_le_len(inst.transform@);
    assert(record_bytes(inst).subrange(0, 48) =~= words_le(inst.transform@));
    assert(record_bytes(inst).subrange(56, 64) =~= u64_le(inst.acceleration_handle));
}

/// Record `i` of the scene's instance buffer: its transform and handle.
proof fn lemma_scene_record(s: Seq<GeometryInstance>, handle: u64, i: int)
    requires
        is_scene_instances(s, handle),
        0 <= i < 3,
    ensures
        records_bytes(s).subrange(64 * i + 56, 64 * i + 64) == u64_le(handle),
        records_bytes(s).subrange(64 * i, 64 * i + 48) == words_le(scene_transform(i)),
{
    let b = records_bytes(s);
    lemma_records_bytes_len(s);
    lemma_records_bytes_index(s, i);
    assert(s[i].transform@ == scene_transform(i));
    lemma_record_parts(s[i]);
    let rec = b.subrange(64 * i, 64 * i + 64);
    assert(b.subrange(64 * i + 56, 64 * i + 64) =~= rec.subrange(56, 64));
    assert(b.subrange(64 * i, 64 * i + 48) =~= rec.subrange(0, 48));
}

/// The scene's instance buffer holds exactly three 64-byte records; each
/// ends with the shared bottom-level handle and begins with its own
/// transform, in order, and no two transforms have the same bytes.
pub proof fn lemma_scene_instance_buffer(s: Seq<GeometryInstance>, handle: u64)
    requires
        is_scene_instances(s, handle),
    ensures
        records_bytes(s).len() == 3 * INSTANCE_RECORD_SIZE,
        forall|i: int|
            0 <= i < 3 ==> #[trigger] records_bytes(s).subrange(64 * i + 56, 64 * i + 64) == u64_le(
                handle,
            ),
        forall|i: int|
            0 <= i < 3 ==> #[trigger] records_bytes(s).subrange(64 * i, 64 * i + 48) == words_le(
                scene_transform(i),
            ),
        forall|i: int, j: int|
            0 <= i < 3 && 0 <= j < 3 && i != j ==> words_le(#[trigger] scene_transform(i))
                != words_le(#[trigger] scene_transform(j)),
{
    lemma_records_bytes_len(s);
    let b = records_bytes(s);
    assert forall|i: int| 0 <= i < 3 implies #[trigger] b.subrange(64 * i + 56, 64 * i + 64)
        == u64_le(handle) by {
        lemma_scene_record(s, handle, i);
    }
    assert forall|i: int| 0 <= i < 3 implies #[trigger] b.subrange(64 * i, 64 * i + 48)
        == words_le(scene_transform(i)) by {
        lemma_scene_record(s, handle, i);
    }
    assert forall|i: int, j: int|
        0 <= i < 3 && 0 <= j < 3 && i != j implies words_le(#[trigger] scene_transform(i))
        != words_le(#[trigger] scene_transform(j)) by {
        if words_le(scene_transform(i)) == words_le(scene_transform(j)) {
            lemma_words_le_injective(scene_transform(i), scene_transform(j));
            assert(scene_transform(i)[3] != scene_transform(j)[3] || scene_transform(i)[7]
                != scene_transform(j)[7]);
        }
    }
}

} // verus!
