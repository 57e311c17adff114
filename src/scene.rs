//! The objects of the ray-traced scene, the order in which they are made,
//! and the order in which they are released.
use crate::resource::{
    BufferResource, ImageResource, ReleaseStep, buffer_release_steps, image_release_steps,
    live_step, push_live, step_handle,
};
use vstd::prelude::*;

verus! {

/// A stage of setting up the scene. Each stage uses what the stages before
/// it made.
#[derive(Clone, Copy, Debug, PartialEq, Eq)]
pub enum InitStage {
    OffscreenTarget,
    AccelerationStructures,
    UniformBuffers,
    Pipeline,
    ShaderBindingTable,
    DescriptorSet,
    /// Every stage has run.
    Ready,
}

/// Position of a stage in the set-up order.
pub open spec fn stage_rank(s: InitStage) -> int {
    match s {
        InitStage::OffscreenTarget => 0,
        InitStage::AccelerationStructures => 1,
        InitStage::UniformBuffers => 2,
        InitStage::Pipeline => 3,
        InitStage::ShaderBindingTable => 4,
        InitStage::DescriptorSet => 5,
        InitStage::Ready => 6,
    }
}

/// The stage that runs after `s`; `Ready` stays.
pub fn next_stage(s: InitStage) -> (r: InitStage)
    ensures
        s == InitStage::Ready ==> r == InitStage::Ready,
        s != InitStage::Ready ==> stage_rank(r) == stage_rank(s) + 1,
{
    match s {
        InitStage::OffscreenTarget => InitStage::AccelerationStructures,
        InitStage::AccelerationStructures => InitStage::UniformBuffers,
        InitStage::UniformBuffers => InitStage::Pipeline,
        InitStage::Pipeline => InitStage::ShaderBindingTable,
        InitStage::ShaderBindingTable => InitStage::DescriptorSet,
        InitStage::DescriptorSet => InitStage::Ready,
        InitStage::Ready => InitStage::Ready,
    }
}

/// Every object of the scene, by raw handle; zero is the null handle. One
/// value owns the handles, so it is not `Copy` or `Clone`.
#[derive(Debug, PartialEq, Eq)]
pub struct SceneResources {
    pub offscreen_target: ImageResource,
    pub top_as: u64,
    pub top_as_memory: u64,
    pub bottom_as: u64,
    pub bottom_as_memory: u64,
    pub color0_buffer: BufferResource,
    pub color1_buffer: BufferResource,
    pub color2_buffer: BufferResource,
    pub descriptor_set_layout: u64,
    pub pipeline_layout: u64,
    pub pipeline: u64,
    pub rgen_shader_module: u64,
    pub chit_shader_module: u64,
    pub miss_shader_module: u64,
    pub lib_shader_module: u64,
    pub shader_binding_table: BufferResource,
    pub descriptor_pool: u64,
    pub descriptor_set: u64,
}

/// The steps that release a scene, the reverse of the set-up order: the
/// descriptor pool (with its set), the shader binding table, the pipeline
/// with its layouts and shader modules, the uniform buffers, the top-level
/// and then the bottom-level structure, each with its memory, and last the
/// offscreen target. Null handles give no step.
pub open spec fn teardown_spec(s: SceneResources) -> Seq<ReleaseStep> {
    live_step(ReleaseStep::DestroyDescriptorPool(s.descriptor_pool)) + buffer_release_steps(
        s.shader_binding_table,
    ) + live_step(ReleaseStep::DestroyPipeline(s.pipeline)) + live_step(
        ReleaseStep::DestroyPipelineLayout(s.pipeline_layout),
    ) + live_step(ReleaseStep::DestroyDescriptorSetLayout(s.descriptor_set_layout)) + live_step(
        ReleaseStep::DestroyShaderModule(s.rgen_shader_module),
    ) + live_step(ReleaseStep::DestroyShaderModule(s.chit_shader_module)) + live_step(
        ReleaseStep::DestroyShaderModule(s.miss_shader_module),
    ) + live_step(ReleaseStep::DestroyShaderModule(s.lib_shader_module)) + buffer_release_steps(
        s.color0_buffer,
    ) + buffer_release_steps(s.color1_buffer) + buffer_release_steps(s.color2_buffer) + live_step(
        ReleaseStep::DestroyAccelerationStructure(s.top_as),
    ) + live_step(ReleaseStep::FreeMemory(s.top_as_memory)) + live_step(
        ReleaseStep::DestroyAccelerationStructure(s.bottom_as),
    ) + live_step(ReleaseStep::FreeMemory(s.bottom_as_memory)) + image_release_steps(
        s.offscreen_target,
    )
}

impl SceneResources {
    /// A scene that owns nothing yet.
    pub fn new() -> (r: SceneResources)
        ensures
            r.is_released(),
    {
        SceneResources {
            offscreen_target: ImageResource::null(),
            top_as: 0,
            top_as_memory: 0,
            bottom_as: 0,
            bottom_as_memory: 0,
            color0_buffer: BufferResource::null(),
            color1_buffer: BufferResource::null(),
            color2_buffer: BufferResource::null(),
            descriptor_set_layout: 0,
            pipeline_layout: 0,
            pipeline: 0,
            rgen_shader_module: 0,
            chit_shader_module: 0,
            miss_shader_module: 0,
            lib_shader_module: 0,
            shader_binding_table: BufferResource::null(),
            descriptor_pool: 0,
            descriptor_set: 0,
        }
    }

    /// Every handle of the scene is null.
    pub open spec fn is_released(self) -> bool {
        &&& self.offscreen_target.is_released()
        &&& self.top_as == 0
        &&& self.top_as_memory == 0
        &&& self.bottom_as == 0
        &&& self.bottom_as_memory == 0
        &&& self.color0_buffer.is_released()
        &&& self.color1_buffer.is_released()
        &&& self.color2_buffer.is_released()
        &&& self.descriptor_set_layout == 0
        &&& self.pipeline_layout == 0
        &&& self.pipeline == 0
        &&& self.rgen_shader_module == 0
        &&& self.chit_shader_module == 0
        &&& self.miss_shader_module == 0
        &&& self.lib_shader_module == 0
        &&& self.shader_binding_table.is_released()
        &&& self.descriptor_pool == 0
        &&& self.descriptor_set == 0
    }

    /// Returns the steps that release every live object of the scene, in
    /// teardown order, and nulls every handle. The caller runs the steps
    /// once the device is idle.
    pub fn release(&mut self) -> (r: Vec<ReleaseStep>)
        ensures
            r@ == teardown_spec(*old(self)),
            final(self).is_released(),
    {
        let ghost s = *self;
        let mut out: Vec<ReleaseStep> = Vec::new();
        push_live(&mut out, ReleaseStep::DestroyDescriptorPool(self.descriptor_pool));
        self.descriptor_pool = 0;
        self.descriptor_set = 0;
        self.shader_binding_table.release_into(&mut out);
        push_live(&mut out, ReleaseStep::DestroyPipeline(self.pipeline));
        push_live(&mut out, ReleaseStep::DestroyPipelineLayout(self.pipeline_layout));
        push_live(&mut out, ReleaseStep::DestroyDescriptorSetLayout(self.descriptor_set_layout));
        push_live(&mut out, ReleaseStep::DestroyShaderModule(self.rgen_shader_module));
        push_live(&mut out, ReleaseStep::DestroyShaderModule(self.chit_shader_module));
        push_live(&mut out, ReleaseStep::DestroyShaderModule(self.miss_shader_module));
        push_live(&mut out, ReleaseStep::DestroyShaderModule(self.lib_shader_module));
        self.pipeline = 0;
        self.pipeline_layout = 0;
        self.descriptor_set_layout = 0;
        self.rgen_shader_module = 0;
        self.chit_shader_module = 0;
        self.miss_shader_module = 0;
        self.lib_shader_module = 0;
        self.color0_buffer.release_into(&mut out);
        self.color1_buffer.release_into(&mut out);
        self.color2_buffer.release_into(&mut out);
        push_live(&mut out, ReleaseStep::DestroyAccelerationStructure(self.top_as));
        push_live(&mut out, ReleaseStep::FreeMemory(self.top_as_memory));
        push_live(&mut out, ReleaseStep::DestroyAccelerationStructure(self.bottom_as));
        push_live(&mut out, ReleaseStep::FreeMemory(self.bottom_as_memory));
        self.top_as = 0;
        self.top_as_memory = 0;
        self.bottom_as = 0;
        self.bottom_as_memory = 0;
        self.offscreen_target.release_into(&mut out);
        assert(out@ =~= teardown_spec(s));
        out
    }
}

/// A released scene has nothing left to release.
pub proof fn lemma_released_scene_has_no_steps(s: SceneResources)
    requires
        s.is_released(),
    ensures
        teardown_spec(s) == Seq::<ReleaseStep>::empty(),
{
    assert(teardown_spec(s) =~= Seq::<ReleaseStep>::empty());
}

/// Every step of `steps` releases a live (non-null) handle.
pub open spec fn all_live(steps: Seq<ReleaseStep>) -> bool {
    forall|k: int| 0 <= k < steps.len() ==> step_handle(#[trigger] steps[k]) != 0
}

proof fn lemma_all_live_concat(a: Seq<ReleaseStep>, b: Seq<ReleaseStep>)
    requires
        all_live(a),
        all_live(b),
    ensures
        all_live(a + b),
{
    assert forall|k: int| 0 <= k < (a + b).len() implies step_handle(#[trigger] (a + b)[k]) != 0 by {
        if k < a.len() {
            assert((a + b)[k] == a[k]);
        } else {
            assert((a + b)[k] == b[k - a.len()]);
        }
    }
}

proof fn lemma_buffer_steps_live(b: BufferResource)
    ensures
        all_live(buffer_release_steps(b)),
{
    lemma_all_live_concat(
        live_step(ReleaseStep::DestroyBuffer(b.buffer)),
        live_step(ReleaseStep::FreeMemory(b.memory)),
    );
}

proof fn lemma_image_steps_live(i: ImageResource)
    ensures
        all_live(image_release_steps(i)),
{
    let a = live_step(ReleaseStep::DestroyImageView(i.view));
    let b = live_step(ReleaseStep::DestroySampler(i.sampler));
    let c = live_step(ReleaseStep::FreeMemory(i.memory));
    let d = live_step(ReleaseStep::DestroyImage(i.image));
    lemma_all_live_concat(a, b);
    lemma_all_live_concat(a + b, c);
    lemma_all_live_concat(a + b + c, d);
}

/// Every step of a teardown releases a live (non-null) handle.
pub proof fn lemma_teardown_steps_live(s: SceneResources)
    ensures
        all_live(teardown_spec(s)),
{
    let p = live_step(ReleaseStep::DestroyDescriptorPool(s.descriptor_pool));
    lemma_buffer_steps_live(s.shader_binding_table);
    lemma_all_live_concat(p, buffer_release_steps(s.shader_binding_table));
    let p = p + buffer_release_steps(s.shader_binding_table);
    lemma_all_live_concat(p, live_step(ReleaseStep::DestroyPipeline(s.pipeline)));
    let p = p + live_step(ReleaseStep::DestroyPipeline(s.pipeline));
    lemma_all_live_concat(p, live_step(ReleaseStep::DestroyPipelineLayout(s.pipeline_layout)));
    let p = p + live_step(ReleaseStep::DestroyPipelineLayout(s.pipeline_layout));
    let q = live_step(ReleaseStep::DestroyDescriptorSetLayout(s.descriptor_set_layout));
    lemma_all_live_concat(p, q);
    let p = p + q;
    let q = live_step(ReleaseStep::DestroyShaderModule(s.rgen_shader_module));
    lemma_all_live_concat(p, q);
    let p = p + q;
    let q = live_step(ReleaseStep::DestroyShaderModule(s.chit_shader_module));
    lemma_all_live_concat(p, q);
    let p = p + q;
    let q = live_step(ReleaseStep::DestroyShaderModule(s.miss_shader_module));
    lemma_all_live_concat(p, q);
    let p = p + q;
    let q = live_step(ReleaseStep::DestroyShaderModule(s.lib_shader_module));
    lemma_all_live_concat(p, q);
    let p = p + q;
    lemma_buffer_steps_live(s.color0_buffer);
    lemma_all_live_concat(p, buffer_release_steps(s.color0_buffer));
    let p = p + buffer_release_steps(s.color0_buffer);
    lemma_buffer_steps_live(s.color1_buffer);
    lemma_all_live_concat(p, buffer_release_steps(s.color1_buffer));
    let p = p + buffer_release_steps(s.color1_buffer);
    lemma_buffer_steps_live(s.color2_buffer);
    lemma_all_live_concat(p, buffer_release_steps(s.color2_buffer));
    let p = p + buffer_release_steps(s.color2_buffer);
    let q = live_step(ReleaseStep::DestroyAccelerationStructure(s.top_as));
    lemma_all_live_concat(p, q);
    let p = p + q;
    let q = live_step(ReleaseStep::FreeMemory(s.top_as_memory));
    lemma_all_live_concat(p, q);
    let p = p + q;
    let q = live_step(ReleaseStep::DestroyAccelerationStructure(s.bottom_as));
    lemma_all_live_concat(p, q);
    let p = p + q;
    let q = live_step(ReleaseStep::FreeMemory(s.bottom_as_memory));
    lemma_all_live_concat(p, q);
    let p = p + q;
    lemma_image_steps_live(s.offscreen_target);
    lemma_all_live_concat(p, image_release_steps(s.offscreen_target));
}

/// Releasing a scene twice releases each object once: the second release
/// finds every handle null and returns no step, and each step of the first
/// releases a live handle.
pub proof fn lemma_release_twice(s: SceneResources, after_first: SceneResources)
    requires
        after_first.is_released(),
    ensures
        teardown_spec(after_first) == Seq::<ReleaseStep>::empty(),
        teardown_spec(s) + teardown_spec(after_first) == teardown_spec(s),
        all_live(teardown_spec(s)),
{
    lemma_released_scene_has_no_steps(after_first);
    assert(teardown_spec(s) + teardown_spec(after_first) =~= teardown_spec(s));
    lemma_teardown_steps_live(s);
}

} // verus!
