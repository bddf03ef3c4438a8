use tempest_engine::lifecycle::{
    cleanup_swapchain, recreate_swapchain, teardown, BufferMem, EngineHandles, GpuObject,
    LifecycleStep, ObjectKind, SwapchainHandles,
};
use tempest_engine::sync::SyncObjects;

fn d(kind: ObjectKind, handle: u64) -> LifecycleStep {
    LifecycleStep::Destroy(GpuObject { kind, handle })
}

fn chain() -> SwapchainHandles {
    SwapchainHandles { swapchain: 9, image_views: vec![21, 22], framebuffers: vec![31, 32] }
}

#[test]
fn cleanup_order() {
    assert_eq!(
        cleanup_swapchain(&chain()),
        vec![
            d(ObjectKind::Framebuffer, 31),
            d(ObjectKind::Framebuffer, 32),
            d(ObjectKind::ImageView, 21),
            d(ObjectKind::ImageView, 22),
            d(ObjectKind::Swapchain, 9),
        ]
    );
}

#[test]
fn recreate_destroys_old_chain_once_then_builds() {
    let steps = recreate_swapchain(&chain());
    assert_eq!(steps[0], LifecycleStep::WaitIdle);
    assert_eq!(steps.len(), 9);
    for h in [31u64, 32] {
        assert_eq!(steps.iter().filter(|s| **s == d(ObjectKind::Framebuffer, h)).count(), 1);
    }
    for h in [21u64, 22] {
        assert_eq!(steps.iter().filter(|s| **s == d(ObjectKind::ImageView, h)).count(), 1);
    }
    assert_eq!(
        steps[6..],
        [
            LifecycleStep::CreateSwapchain,
            LifecycleStep::CreateImageViews,
            LifecycleStep::CreateFramebuffers,
        ]
    );
}

fn engine(debug: Option<u64>) -> EngineHandles {
    EngineHandles {
        device: 1,
        instance: 2,
        swapchain: SwapchainHandles { swapchain: 9, image_views: vec![21], framebuffers: vec![31] },
        descriptor_pool: 40,
        uniform_buffers: vec![BufferMem { buffer: 50, memory: 51 }, BufferMem { buffer: 52, memory: 53 }],
        index_buffer: BufferMem { buffer: 60, memory: 61 },
        vertex_buffer: BufferMem { buffer: 62, memory: 63 },
        descriptor_set_layout: 70,
        pipeline: 71,
        pipeline_layout: 72,
        render_pass: 73,
        sync_objects: vec![SyncObjects { image_available_semaphores: 80, render_finished_semaphore: 81, fence: 82 }],
        command_pool: 90,
        debug_messenger: debug,
        surface: 95,
    }
}

#[test]
fn teardown_in_reverse_dependency_order() {
    assert_eq!(
        teardown(&engine(Some(93))),
        vec![
            LifecycleStep::WaitIdle,
            d(ObjectKind::Framebuffer, 31),
            d(ObjectKind::ImageView, 21),
            d(ObjectKind::Swapchain, 9),
            d(ObjectKind::DescriptorPool, 40),
            d(ObjectKind::Buffer, 50),
            d(ObjectKind::Memory, 51),
            d(ObjectKind::Buffer, 52),
            d(ObjectKind::Memory, 53),
            d(ObjectKind::Buffer, 60),
            d(ObjectKind::Memory, 61),
            d(ObjectKind::Buffer, 62),
            d(ObjectKind::Memory, 63),
            d(ObjectKind::Pipeline, 71),
            d(ObjectKind::PipelineLayout, 72),
            d(ObjectKind::DescriptorSetLayout, 70),
            d(ObjectKind::RenderPass, 73),
            d(ObjectKind::Fence, 82),
            d(ObjectKind::Semaphore, 80),
            d(ObjectKind::Semaphore, 81),
            d(ObjectKind::CommandPool, 90),
            d(ObjectKind::Device, 1),
            d(ObjectKind::DebugMessenger, 93),
            d(ObjectKind::Surface, 95),
            d(ObjectKind::Instance, 2),
        ]
    );
}

#[test]
fn teardown_without_debug_messenger() {
    let steps = teardown(&engine(None));
    assert_eq!(steps.len(), 24);
    assert_eq!(steps[21], d(ObjectKind::Device, 1));
    assert_eq!(steps[22], d(ObjectKind::Surface, 95));
    assert_eq!(steps[23], d(ObjectKind::Instance, 2));
}
