use ash_rt::accel::{
    bottom_level_info, build_commands, index_buffer_desc, instance_buffer_desc, instance_buffer_size,
    scene_instances, scratch_buffer_desc, scratch_size, top_level_info, triangle_geometry,
    triangle_index_data, triangle_vertex_data, vertex_buffer_desc, BuildCommand, StructureLevel,
    BUILD_PREFER_FAST_TRACE, FORMAT_R32G32B32_SFLOAT, INDEX_TYPE_UINT16, UPLOAD_MEMORY,
};
use ash_rt::instance::encode_instances;
use ash_rt::memory::MEMORY_DEVICE_LOCAL;

fn bits(t: [f32; 12]) -> Vec<u8> {
    t.iter().flat_map(|x| x.to_le_bytes()).collect()
}

#[test]
fn scene_instance_buffer_holds_three_records() {
    let h: u64 = 0xDEAD_BEEF_0000_0042;
    let instances = scene_instances(h);
    assert_eq!(instances.len(), 3);
    let bytes = encode_instances(&instances);
    assert_eq!(bytes.len(), 3 * 64);
    let t0 = [1.0f32, 0.0, 0.0, -1.5, 0.0, 1.0, 0.0, 1.1, 0.0, 0.0, 1.0, 0.0];
    let t1 = [1.0f32, 0.0, 0.0, 0.0, 0.0, 1.0, 0.0, -1.1, 0.0, 0.0, 1.0, 0.0];
    let t2 = [1.0f32, 0.0, 0.0, 1.5, 0.0, 1.0, 0.0, 1.1, 0.0, 0.0, 1.0, 0.0];
    let expected = [bits(t0), bits(t1), bits(t2)];
    for i in 0..3 {
        let rec = &bytes[64 * i..64 * i + 64];
        assert_eq!(&rec[0..48], expected[i].as_slice());
        assert_eq!(&rec[56..64], &h.to_le_bytes());
        assert_eq!(instances[i].acceleration_handle, h);
        assert_eq!(instances[i].instance_id(), i as u32);
        assert_eq!(instances[i].mask(), 0xff);
        assert_eq!(instances[i].flags(), 1);
        assert_eq!(instances[i].instance_offset(), 0);
    }
    assert_ne!(expected[0], expected[1]);
    assert_ne!(expected[1], expected[2]);
    assert_ne!(expected[0], expected[2]);
}

#[test]
fn barrier_lies_between_the_two_builds() {
    let cmds = build_commands(1, 2, 3, 3, 4);
    let bottom = cmds.iter().position(|c| matches!(c, BuildCommand::BuildBottomLevel { .. })).unwrap();
    let top = cmds.iter().position(|c| matches!(c, BuildCommand::BuildTopLevel { .. })).unwrap();
    assert!(bottom < top);
    assert!(cmds[bottom + 1..top].iter().any(|c| *c == BuildCommand::BuildBarrier));
    assert_eq!(
        cmds,
        vec![
            BuildCommand::BuildBottomLevel { structure: 1, scratch_buffer: 4 },
            BuildCommand::BuildBarrier,
            BuildCommand::BuildTopLevel { structure: 2, instance_buffer: 3, instance_count: 3, scratch_buffer: 4 },
            BuildCommand::BuildBarrier,
        ]
    );
}

#[test]
fn scratch_is_the_larger_need() {
    assert_eq!(scratch_size(100, 300), 300);
    assert_eq!(scratch_size(500, 300), 500);
    assert_eq!(scratch_size(0, 0), 0);
    let d = scratch_buffer_desc(7, 9);
    assert_eq!(d.size, 9);
    assert_eq!(d.memory_flags, MEMORY_DEVICE_LOCAL);
}

#[test]
fn instance_buffer_is_sized_by_count() {
    assert_eq!(instance_buffer_size(3), 192);
    assert_eq!(instance_buffer_size(0), 0);
    assert_eq!(instance_buffer_size(u32::MAX), (u32::MAX as u64) * 64);
    assert_eq!(instance_buffer_desc(3).size, 192);
    assert_eq!(instance_buffer_desc(3).memory_flags, UPLOAD_MEMORY);
}

#[test]
fn triangle_buffers_hold_the_vertices_and_indices() {
    let v = triangle_vertex_data();
    let expected: Vec<u8> = [-0.5f32, -0.5, 0.0, 0.0, 0.5, 0.0, 0.5, -0.5, 0.0]
        .iter()
        .flat_map(|x| x.to_le_bytes())
        .collect();
    assert_eq!(v, expected);
    assert_eq!(triangle_index_data(), vec![0, 0, 1, 0, 2, 0]);
    assert_eq!(vertex_buffer_desc().size, v.len() as u64);
    assert_eq!(index_buffer_desc().size, 6);
}

#[test]
fn geometry_and_structure_descriptions() {
    let g = triangle_geometry(10, 20);
    assert_eq!((g.vertex_buffer, g.index_buffer), (10, 20));
    assert_eq!((g.vertex_count, g.index_count, g.vertex_stride), (3, 3, 12));
    assert_eq!(g.vertex_format, FORMAT_R32G32B32_SFLOAT);
    assert_eq!(g.index_type, INDEX_TYPE_UINT16);
    assert!(g.opaque);
    let b = bottom_level_info();
    assert_eq!(b.level, StructureLevel::Bottom);
    assert_eq!(b.build_flags, BUILD_PREFER_FAST_TRACE);
    assert_eq!(b.geometry_count, 1);
    let t = top_level_info(3);
    assert_eq!(t.level, StructureLevel::Top);
    assert_eq!(t.instance_count, 3);
}
