use ash_rt::frame::{
    next_frame, AcquireAction, AcquireResult, FrameState, PresentAction, PresentResult,
};
use ash_rt::resource::{BufferResource, ImageResource, ReleaseStep};
use ash_rt::scene::{next_stage, InitStage, SceneResources};

fn buffer(b: u64) -> BufferResource {
    BufferResource { buffer: b, memory: b + 1, size: 12, memory_flags: 2 }
}

fn full_scene() -> SceneResources {
    SceneResources {
        offscreen_target: ImageResource { image: 1, memory: 2, view: 3, sampler: 0 },
        top_as: 10,
        top_as_memory: 11,
        bottom_as: 12,
        bottom_as_memory: 13,
        color0_buffer: buffer(20),
        color1_buffer: buffer(22),
        color2_buffer: buffer(24),
        descriptor_set_layout: 30,
        pipeline_layout: 31,
        pipeline: 32,
        rgen_shader_module: 33,
        chit_shader_module: 34,
        miss_shader_module: 35,
        lib_shader_module: 0,
        shader_binding_table: buffer(40),
        descriptor_pool: 50,
        descriptor_set: 51,
    }
}

#[test]
fn release_twice_destroys_each_object_once() {
    let mut s = full_scene();
    let first = s.release();
    let second = s.release();
    assert!(second.is_empty());
    let mut all = first.clone();
    all.extend(second);
    for (i, a) in all.iter().enumerate() {
        for b in &all[i + 1..] {
            assert_ne!(a, b);
        }
    }
    assert_eq!(first.len(), 22);
}

#[test]
fn release_runs_in_reverse_set_up_order() {
    let mut s = full_scene();
    let steps = s.release();
    assert_eq!(
        steps,
        vec![
            ReleaseStep::DestroyDescriptorPool(50),
            ReleaseStep::FreeMemory(41),
            ReleaseStep::DestroyBuffer(40),
            ReleaseStep::DestroyPipeline(32),
            ReleaseStep::DestroyPipelineLayout(31),
            ReleaseStep::DestroyDescriptorSetLayout(30),
            ReleaseStep::DestroyShaderModule(33),
            ReleaseStep::DestroyShaderModule(34),
            ReleaseStep::DestroyShaderModule(35),
            ReleaseStep::FreeMemory(21),
            ReleaseStep::DestroyBuffer(20),
            ReleaseStep::FreeMemory(23),
            ReleaseStep::DestroyBuffer(22),
            ReleaseStep::FreeMemory(25),
            ReleaseStep::DestroyBuffer(24),
            ReleaseStep::DestroyAccelerationStructure(10),
            ReleaseStep::FreeMemory(11),
            ReleaseStep::DestroyAccelerationStructure(12),
            ReleaseStep::FreeMemory(13),
            ReleaseStep::DestroyImageView(3),
            ReleaseStep::FreeMemory(2),
            ReleaseStep::DestroyImage(1),
        ]
    );
    assert_eq!(s.descriptor_set, 0);
    assert_eq!(s.offscreen_target, ImageResource::null());
    assert_eq!(s.color1_buffer.buffer, 0);
}

#[test]
fn empty_scene_releases_nothing() {
    assert!(SceneResources::new().release().is_empty());
}

#[test]
fn set_up_stages_run_in_dependency_order() {
    let mut s = InitStage::OffscreenTarget;
    let mut order = vec![s];
    while s != InitStage::Ready {
        s = next_stage(s);
        order.push(s);
    }
    assert_eq!(
        order,
        vec![
            InitStage::OffscreenTarget,
            InitStage::AccelerationStructures,
            InitStage::UniformBuffers,
            InitStage::Pipeline,
            InitStage::ShaderBindingTable,
            InitStage::DescriptorSet,
            InitStage::Ready,
        ]
    );
    assert_eq!(next_stage(InitStage::Ready), InitStage::Ready);
}

#[test]
fn frame_slots_wrap_after_two() {
    assert_eq!(next_frame(0), 1);
    assert_eq!(next_frame(1), 0);
}

#[test]
fn acquire_decisions() {
    let f = FrameState::new();
    assert_eq!(f.on_acquire(AcquireResult::Acquired(2)), AcquireAction::Render(2));
    assert_eq!(f.on_acquire(AcquireResult::OutOfDate), AcquireAction::RecreateSwapchain);
    assert_eq!(f.on_acquire(AcquireResult::Failed), AcquireAction::Fatal);
}

#[test]
fn present_decisions() {
    let mut f = FrameState::new();
    assert_eq!(f.on_present(PresentResult::Presented), PresentAction::Continue);
    assert_eq!(f.current_frame, 1);
    f.resize_framebuffer();
    assert_eq!(f.on_present(PresentResult::Presented), PresentAction::RecreateSwapchain);
    assert!(!f.framebuffer_resized);
    assert_eq!(f.current_frame, 0);
    assert_eq!(f.on_present(PresentResult::Suboptimal), PresentAction::RecreateSwapchain);
    assert_eq!(f.on_present(PresentResult::OutOfDate), PresentAction::RecreateSwapchain);
    let before = f;
    assert_eq!(f.on_present(PresentResult::Failed), PresentAction::Fatal);
    assert_eq!(f, before);
}
