//! The ray-tracing pipeline: its descriptor-set layout, its shader stages
//! and groups, and the size of its shader binding table.
use crate::memory::MEMORY_HOST_VISIBLE;
use crate::resource::{BUFFER_USAGE_TRANSFER_SRC, BufferDesc};
use vstd::prelude::*;
use vstd::string::*;

verus! {

/// Marks a shader role that a group does not use.
pub const SHADER_UNUSED: u32 = 0xffff_ffff;

/// Number of shader groups: ray generation, closest hit, miss.
pub const SHADER_GROUP_COUNT: u32 = 3;

/// Rays do not spawn secondary rays.
pub const MAX_RECURSION_DEPTH: u32 = 1;

/// Number of uniform buffers bound to the closest-hit stage.
pub const UNIFORM_BUFFER_COUNT: u32 = 3;

/// A programmable stage of the pipeline.
#[derive(Clone, Copy, Debug, PartialEq, Eq)]
pub enum ShaderStage {
    RayGeneration,
    ClosestHit,
    Miss,
}

/// The kind of resource a descriptor refers to.
#[derive(Clone, Copy, Debug, PartialEq, Eq)]
pub enum DescriptorKind {
    AccelerationStructure,
    StorageImage,
    UniformBuffer,
}

/// One binding of the descriptor-set layout.
#[derive(Clone, Copy, Debug, PartialEq, Eq)]
pub struct LayoutBinding {
    pub binding: u32,
    pub kind: DescriptorKind,
    pub count: u32,
    pub stage: ShaderStage,
    /// The number of descriptors may be chosen when the set is allocated,
    /// up to `count`.
    pub variable_count: bool,
}

/// The layout's bindings: the top-level structure and the output image
/// for ray generation, and the array of uniform buffers for closest hit,
/// the last of variable count.
pub open spec fn layout_bindings_spec() -> Seq<LayoutBinding> {
    seq![
        LayoutBinding {
            binding: 0,
            kind: DescriptorKind::AccelerationStructure,
            count: 1,
            stage: ShaderStage::RayGeneration,
            variable_count: false,
        },
        LayoutBinding {
            binding: 1,
            kind: DescriptorKind::StorageImage,
            count: 1,
            stage: ShaderStage::RayGeneration,
            variable_count: false,
        },
        LayoutBinding {
            binding: 2,
            kind: DescriptorKind::UniformBuffer,
            count: 3,
            stage: ShaderStage::ClosestHit,
            variable_count: true,
        },
    ]
}

/// The bindings of the pipeline's descriptor-set layout.
pub fn descriptor_set_layout_bindings() -> (r: Vec<LayoutBinding>)
    ensures
        r@ == layout_bindings_spec(),
{
    let mut r: Vec<LayoutBinding> = Vec::new();
    r.push(
        LayoutBinding {
            binding: 0,
            kind: DescriptorKind::AccelerationStructure,
            count: 1,
            stage: ShaderStage::RayGeneration,
            variable_count: false,
        },
    );
    r.push(
        LayoutBinding {
            binding: 1,
            kind: DescriptorKind::StorageImage,
            count: 1,
            stage: ShaderStage::RayGeneration,
            variable_count: false,
        },
    );
    r.push(
        LayoutBinding {
            binding: 2,
            kind: DescriptorKind::UniformBuffer,
            count: UNIFORM_BUFFER_COUNT,
            stage: ShaderStage::ClosestHit,
            variable_count: true,
        },
    );
    assert(r@ =~= layout_bindings_spec());
    r
}

/// The role of a shader group.
#[derive(Clone, Copy, Debug, PartialEq, Eq)]
pub enum GroupKind {
    /// Ray generation or miss: one general shader.
    General,
    /// Hits on triangles: closest-hit and any-hit shaders.
    TrianglesHitGroup,
}

/// One shader group: indices into the pipeline's stages, or
/// `SHADER_UNUSED`.
#[derive(Clone, Copy, Debug, PartialEq, Eq)]
pub struct ShaderGroup {
    pub kind: GroupKind,
    pub general_shader: u32,
    pub closest_hit_shader: u32,
    pub any_hit_shader: u32,
    pub intersection_shader: u32,
}

/// The groups in their fixed order: ray generation (stage 0), closest hit
/// (stage 1), miss (stage 2). The shader binding table holds their handles
/// in this order.
pub open spec fn shader_groups_spec() -> Seq<ShaderGroup> {
    seq![
        ShaderGroup {
            kind: GroupKind::General,
            general_shader: 0,
            closest_hit_shader: SHADER_UNUSED,
            any_hit_shader: SHADER_UNUSED,
            intersection_shader: SHADER_UNUSED,
        },
        ShaderGroup {
            kind: GroupKind::TrianglesHitGroup,
            general_shader: SHADER_UNUSED,
            closest_hit_shader: 1,
            any_hit_shader: SHADER_UNUSED,
            intersection_shader: SHADER_UNUSED,
        },
        ShaderGroup {
            kind: GroupKind::General,
            general_shader: 2,
            closest_hit_shader: SHADER_UNUSED,
            any_hit_shader: SHADER_UNUSED,
            intersection_shader: SHADER_UNUSED,
        },
    ]
}

/// A group with one general shader.
fn general_group(stage: u32) -> (r: ShaderGroup)
    ensures
        r == (ShaderGroup {
            kind: GroupKind::General,
            general_shader: stage,
            closest_hit_shader: SHADER_UNUSED,
            any_hit_shader: SHADER_UNUSED,
            intersection_shader: SHADER_UNUSED,
        }),
{
    ShaderGroup {
        kind: GroupKind::General,
        general_shader: stage,
        closest_hit_shader: SHADER_UNUSED,
        any_hit_shader: SHADER_UNUSED,
        intersection_shader: SHADER_UNUSED,
    }
}

/// The pipeline's shader groups.
pub fn shader_groups() -> (r: Vec<ShaderGroup>)
    ensures
        r@ == shader_groups_spec(),
        r@.len() == SHADER_GROUP_COUNT,
{
    let mut r: Vec<ShaderGroup> = Vec::new();
    r.push(general_group(0));
    r.push(
        ShaderGroup {
            kind: GroupKind::TrianglesHitGroup,
            general_shader: SHADER_UNUSED,
            closest_hit_shader: 1,
            any_hit_shader: SHADER_UNUSED,
            intersection_shader: SHADER_UNUSED,
        },
    );
    r.push(general_group(2));
    assert(r@ =~= shader_groups_spec());
    r
}

/// The language the shaders were written in before compilation.
#[derive(Clone, Copy, Debug, PartialEq, Eq)]
pub enum ShaderLanguage {
    Hlsl,
    Glsl,
}

/// Which compiled shader files the pipeline is made from.
#[derive(Clone, Copy, Debug, PartialEq, Eq)]
pub struct ShaderConfig {
    pub language: ShaderLanguage,
    /// One library file holds every stage. Only HLSL shaders come so.
    pub combined_library: bool,
    /// The closest-hit shader indexes the uniform-buffer array.
    pub bindless: bool,
}

/// Every stage comes from the one library file.
pub open spec fn uses_library(config: ShaderConfig) -> bool {
    config.combined_library && config.language == ShaderLanguage::Hlsl
}

/// The language part of a file name.
pub open spec fn language_tag(l: ShaderLanguage) -> Seq<char> {
    match l {
        ShaderLanguage::Hlsl => "hlsl_"@,
        ShaderLanguage::Glsl => "glsl_"@,
    }
}

/// The stage part of a file name, with the variant where the stage has
/// one.
pub open spec fn stage_tag(config: ShaderConfig, stage: ShaderStage) -> Seq<char> {
    match stage {
        ShaderStage::RayGeneration => "rgen"@,
        ShaderStage::ClosestHit => if config.bindless {
            "bindless_rchit"@
        } else {
            "rchit"@
        },
        ShaderStage::Miss => "rmiss"@,
    }
}

/// Path of the file that holds a stage:
/// `shaders/compiled/triangle.<lang>_<variant><stage>.spv`, or the library
/// file `shaders/compiled/triangle.hlsl_lib.spv`.
pub open spec fn shader_path_spec(config: ShaderConfig, stage: ShaderStage) -> Seq<char> {
    if uses_library(config) {
        "shaders/compiled/triangle.hlsl_lib.spv"@
    } else {
        "shaders/compiled/triangle."@ + language_tag(config.language) + stage_tag(config, stage)
            + ".spv"@
    }
}

/// Entry-point name of a stage: `main` in the library file, a name per
/// stage in separate files.
pub open spec fn entry_point_spec(config: ShaderConfig, stage: ShaderStage) -> Seq<char> {
    if uses_library(config) {
        "main"@
    } else {
        match stage {
            ShaderStage::RayGeneration => "rgen_main"@,
            ShaderStage::ClosestHit => "rchit_main"@,
            ShaderStage::Miss => "rmiss_main"@,
        }
    }
}

/// Path of the compiled file that holds `stage`.
pub fn shader_path(config: ShaderConfig, stage: ShaderStage) -> (r: String)
    ensures
        r@ == shader_path_spec(config, stage),
{
    if config.combined_library && matches!(config.language, ShaderLanguage::Hlsl) {
        return String::from_str("shaders/compiled/triangle.hlsl_lib.spv");
    }
    let mut r = String::from_str("shaders/compiled/triangle.");
    match config.language {
        ShaderLanguage::Hlsl => r.append("hlsl_"),
        ShaderLanguage::Glsl => r.append("glsl_"),
    }
    match stage {
        ShaderStage::RayGeneration => r.append("rgen"),
        ShaderStage::ClosestHit => {
            if config.bindless {
                r.append("bindless_rchit");
            } else {
                r.append("rchit");
            }
        },
        ShaderStage::Miss => r.append("rmiss"),
    }
    r.append(".spv");
    r
}

/// Entry-point name of `stage`.
pub fn entry_point(config: ShaderConfig, stage: ShaderStage) -> (r: String)
    ensures
        r@ == entry_point_spec(config, stage),
{
    if config.combined_library && matches!(config.language, ShaderLanguage::Hlsl) {
        String::from_str("main")
    } else {
        match stage {
            ShaderStage::RayGeneration => String::from_str("rgen_main"),
            ShaderStage::ClosestHit => String::from_str("rchit_main"),
            ShaderStage::Miss => String::from_str("rmiss_main"),
        }
    }
}

/// The files to load, in order: the library file alone, or one file per
/// stage in the order ray generation, closest hit, miss.
pub fn shader_files(config: ShaderConfig) -> (r: Vec<String>)
    ensures
        uses_library(config) ==> r@.len() == 1 && r@[0]@ == shader_path_spec(
            config,
            ShaderStage::RayGeneration,
        ),
        !uses_library(config) ==> r@.len() == 3 && r@[0]@ == shader_path_spec(
            config,
            ShaderStage::RayGeneration,
        ) && r@[1]@ == shader_path_spec(config, ShaderStage::ClosestHit) && r@[2]@
            == shader_path_spec(config, ShaderStage::Miss),
{
    let mut r: Vec<String> = Vec::new();
    r.push(shader_path(config, ShaderStage::RayGeneration));
    if !(config.combined_library && matches!(config.language, ShaderLanguage::Hlsl)) {
        r.push(shader_path(config, ShaderStage::ClosestHit));
        r.push(shader_path(config, ShaderStage::Miss));
    }
    r
}

/// The stages in the order the pipeline lists them.
pub open spec fn stage_order() -> Seq<ShaderStage> {
    seq![ShaderStage::RayGeneration, ShaderStage::ClosestHit, ShaderStage::Miss]
}

/// Each group names, by position, the stage of its own role: the
/// ray-generation group stage 0, the hit group's closest-hit shader stage
/// 1, the miss group stage 2; the roles a group does not use are unused.
pub proof fn lemma_groups_index_their_stages()
    ensures
        stage_order()[shader_groups_spec()[0].general_shader as int] == ShaderStage::RayGeneration,
        stage_order()[shader_groups_spec()[1].closest_hit_shader as int] == ShaderStage::ClosestHit,
        stage_order()[shader_groups_spec()[2].general_shader as int] == ShaderStage::Miss,
        shader_groups_spec()[1].general_shader == SHADER_UNUSED,
        forall|i: int|
            0 <= i < 3 ==> (#[trigger] shader_groups_spec()[i]).any_hit_shader == SHADER_UNUSED
                && shader_groups_spec()[i].intersection_shader == SHADER_UNUSED,
{
}

/// One stage of the pipeline: which loaded file's module holds it, and the
/// name of its entry point.
pub struct StageInfo {
    pub stage: ShaderStage,
    pub module_index: u32,
    pub entry_point: String,
}

/// The pipeline's stages in the order the groups index them: ray
/// generation, closest hit, miss. `module_index` is an index into the
/// files of `shader_files`.
pub fn shader_stages(config: ShaderConfig) -> (r: Vec<StageInfo>)
    ensures
        r@.len() == 3,
        forall|i: int| 0 <= i < 3 ==> (#[trigger] r@[i]).stage == stage_order()[i],
        forall|i: int|
            0 <= i < 3 ==> (#[trigger] r@[i]).entry_point@ == entry_point_spec(config, r@[i].stage)
                && r@[i].module_index == (if uses_library(config) {
                0
            } else {
                i
            }),
{
    let lib = config.combined_library && matches!(config.language, ShaderLanguage::Hlsl);
    let mut r: Vec<StageInfo> = Vec::new();
    r.push(
        StageInfo {
            stage: ShaderStage::RayGeneration,
            module_index: 0,
            entry_point: entry_point(config, ShaderStage::RayGeneration),
        },
    );
    r.push(
        StageInfo {
            stage: ShaderStage::ClosestHit,
            module_index: if lib {
                0
            } else {
                1
            },
            entry_point: entry_point(config, ShaderStage::ClosestHit),
        },
    );
    r.push(
        StageInfo {
            stage: ShaderStage::Miss,
            module_index: if lib {
                0
            } else {
                2
            },
            entry_point: entry_point(config, ShaderStage::Miss),
        },
    );
    r
}

/// Size of a shader binding table for `group_count` groups whose handles
/// are `handle_size` bytes each.
pub open spec fn table_size_spec(handle_size: u32, group_count: u32) -> int {
    handle_size * group_count
}

/// Size in bytes of the shader binding table: one handle per group.
pub fn shader_binding_table_size(handle_size: u32, group_count: u32) -> (r: u64)
    ensures
        r == table_size_spec(handle_size, group_count),
{
    let h = handle_size as u64;
    let g = group_count as u64;
    assert(h * g <= u64::MAX) by (nonlinear_arith)
        requires
            h <= u32::MAX,
            g <= u32::MAX,
    ;
    h * g
}

/// The buffer that holds the shader binding table of the fixed pipeline,
/// host-visible.
pub fn shader_binding_table_desc(handle_size: u32) -> (r: BufferDesc)
    ensures
        r == (BufferDesc {
            size: table_size_spec(handle_size, SHADER_GROUP_COUNT) as u64,
            usage: BUFFER_USAGE_TRANSFER_SRC,
            memory_flags: MEMORY_HOST_VISIBLE,
        }),
{
    BufferDesc {
        size: shader_binding_table_size(handle_size, SHADER_GROUP_COUNT),
        usage: BUFFER_USAGE_TRANSFER_SRC,
        memory_flags: MEMORY_HOST_VISIBLE,
    }
}

/// The table of the fixed pipeline holds three handles, and its size
/// follows the group count in proportion: each further group adds one
/// handle.
pub proof fn lemma_table_size_proportional(handle_size: u32, g1: u32, g2: u32)
    ensures
        table_size_spec(handle_size, SHADER_GROUP_COUNT) == 3 * handle_size,
        table_size_spec(handle_size, g1) * g2 == table_size_spec(handle_size, g2) * g1,
        g1 < g2 ==> table_size_spec(handle_size, g2) - table_size_spec(handle_size, g1) == (g2
            - g1) * handle_size,
{
    let h = handle_size as int;
    assert((h * g1) * g2 == (h * g2) * g1) by (nonlinear_arith);
    assert(h * g2 - h * g1 == (g2 - g1) * h) by (nonlinear_arith);
}

} // verus!
