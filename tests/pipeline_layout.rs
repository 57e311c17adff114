use ash_rt::descriptor::{
    DescriptorError, descriptor_pool_sizes, descriptor_writes, uniform_buffer_desc, uniform_color_bytes, PoolSize,
};
use ash_rt::pipeline::{
    descriptor_set_layout_bindings, entry_point, shader_binding_table_desc,
    shader_binding_table_size, shader_files, shader_groups, shader_path, shader_stages,
    DescriptorKind, GroupKind, ShaderConfig, ShaderLanguage, ShaderStage, SHADER_UNUSED,
};

#[test]
fn table_size_is_handle_size_times_groups() {
    assert_eq!(shader_binding_table_size(32, 3), 96);
    assert_eq!(shader_binding_table_size(32, 5), 160);
    assert_eq!(shader_binding_table_size(16, 0), 0);
    assert_eq!(shader_binding_table_size(u32::MAX, u32::MAX), (u32::MAX as u64) * (u32::MAX as u64));
    assert_eq!(shader_binding_table_desc(32).size, 96);
}

#[test]
fn groups_are_raygen_hit_miss() {
    let g = shader_groups();
    assert_eq!(g.len(), 3);
    assert_eq!(g[0].kind, GroupKind::General);
    assert_eq!(g[0].general_shader, 0);
    assert_eq!(g[0].closest_hit_shader, SHADER_UNUSED);
    assert_eq!(g[1].kind, GroupKind::TrianglesHitGroup);
    assert_eq!(g[1].general_shader, SHADER_UNUSED);
    assert_eq!(g[1].closest_hit_shader, 1);
    assert_eq!(g[1].any_hit_shader, SHADER_UNUSED);
    assert_eq!(g[2].kind, GroupKind::General);
    assert_eq!(g[2].general_shader, 2);
    assert_eq!(g[2].intersection_shader, SHADER_UNUSED);
}

#[test]
fn layout_has_three_bindings_last_variable() {
    let b = descriptor_set_layout_bindings();
    assert_eq!(b.len(), 3);
    assert_eq!((b[0].binding, b[0].kind, b[0].stage), (0, DescriptorKind::AccelerationStructure, ShaderStage::RayGeneration));
    assert_eq!((b[1].binding, b[1].kind, b[1].stage), (1, DescriptorKind::StorageImage, ShaderStage::RayGeneration));
    assert_eq!((b[2].binding, b[2].kind, b[2].stage), (2, DescriptorKind::UniformBuffer, ShaderStage::ClosestHit));
    assert_eq!(b[2].count, 3);
    assert!(!b[0].variable_count && !b[1].variable_count && b[2].variable_count);
}

#[test]
fn shader_paths_follow_the_naming_convention() {
    let sep = ShaderConfig { language: ShaderLanguage::Hlsl, combined_library: false, bindless: true };
    assert_eq!(shader_path(sep, ShaderStage::RayGeneration), "shaders/compiled/triangle.hlsl_rgen.spv");
    assert_eq!(shader_path(sep, ShaderStage::ClosestHit), "shaders/compiled/triangle.hlsl_bindless_rchit.spv");
    assert_eq!(shader_path(sep, ShaderStage::Miss), "shaders/compiled/triangle.hlsl_rmiss.spv");
    let glsl = ShaderConfig { language: ShaderLanguage::Glsl, combined_library: true, bindless: false };
    assert_eq!(shader_path(glsl, ShaderStage::ClosestHit), "shaders/compiled/triangle.glsl_rchit.spv");
    assert_eq!(shader_files(glsl).len(), 3);
    let lib = ShaderConfig { language: ShaderLanguage::Hlsl, combined_library: true, bindless: true };
    assert_eq!(shader_files(lib), vec!["shaders/compiled/triangle.hlsl_lib.spv".to_string()]);
    assert_eq!(
        shader_files(sep),
        vec![
            "shaders/compiled/triangle.hlsl_rgen.spv".to_string(),
            "shaders/compiled/triangle.hlsl_bindless_rchit.spv".to_string(),
            "shaders/compiled/triangle.hlsl_rmiss.spv".to_string(),
        ]
    );
}

#[test]
fn entry_points_and_modules_per_configuration() {
    let lib = ShaderConfig { language: ShaderLanguage::Hlsl, combined_library: true, bindless: true };
    let sep = ShaderConfig { language: ShaderLanguage::Glsl, combined_library: false, bindless: false };
    assert_eq!(entry_point(lib, ShaderStage::Miss), "main");
    assert_eq!(entry_point(sep, ShaderStage::RayGeneration), "rgen_main");
    let s = shader_stages(lib);
    assert_eq!(s.iter().map(|x| x.module_index).collect::<Vec<_>>(), vec![0, 0, 0]);
    let s = shader_stages(sep);
    assert_eq!(s.iter().map(|x| x.module_index).collect::<Vec<_>>(), vec![0, 1, 2]);
    assert_eq!(s[1].stage, ShaderStage::ClosestHit);
    assert_eq!(s[1].entry_point, "rchit_main");
    assert_eq!(s[2].entry_point, "rmiss_main");
}

#[test]
fn pool_and_writes_cover_the_three_bindings() {
    assert_eq!(
        descriptor_pool_sizes(),
        vec![
            PoolSize { kind: DescriptorKind::AccelerationStructure, count: 1 },
            PoolSize { kind: DescriptorKind::StorageImage, count: 1 },
            PoolSize { kind: DescriptorKind::UniformBuffer, count: 3 },
        ]
    );
    let w = descriptor_writes(9, 100, 200, [301, 302, 303]).unwrap();
    assert_eq!(w.len(), 3);
    assert_eq!((w[0].set, w[0].binding, w[0].kind), (9, 0, DescriptorKind::AccelerationStructure));
    assert_eq!(w[0].handles, vec![100]);
    assert_eq!((w[1].binding, w[1].kind), (1, DescriptorKind::StorageImage));
    assert_eq!(w[1].handles, vec![200]);
    assert_eq!((w[2].binding, w[2].kind), (2, DescriptorKind::UniformBuffer));
    assert_eq!(w[2].handles, vec![301, 302, 303]);
}

#[test]
fn uniform_buffers_hold_red_green_blue() {
    let red: Vec<u8> = [1.0f32, 0.0, 0.0].iter().flat_map(|x| x.to_le_bytes()).collect();
    let blue: Vec<u8> = [0.0f32, 0.0, 1.0].iter().flat_map(|x| x.to_le_bytes()).collect();
    assert_eq!(uniform_color_bytes(0), red);
    assert_eq!(uniform_color_bytes(2), blue);
    assert_eq!(uniform_buffer_desc().size, 12);
}

#[test]
fn writes_refuse_null_handles() {
    assert_eq!(descriptor_writes(9, 0, 200, [1, 2, 3]).err(), Some(DescriptorError::NullHandle));
    assert_eq!(descriptor_writes(9, 100, 0, [1, 2, 3]).err(), Some(DescriptorError::NullHandle));
    assert_eq!(descriptor_writes(9, 100, 200, [1, 0, 3]).err(), Some(DescriptorError::NullHandle));
    assert_eq!(descriptor_writes(0, 100, 200, [1, 2, 3]).err(), Some(DescriptorError::NullHandle));
}
