use renderer_core::commands::Action;
use renderer_core::commands::BarrierImage;
use renderer_core::commands::ColorBits;
use renderer_core::commands::ImageLayout;
use renderer_core::commands::PipelineStage;
use renderer_core::context::CommandBufferState;
use renderer_core::context::Context;
use renderer_core::format::FORMAT_B8G8R8A8_SRGB;
use renderer_core::format::FORMAT_R8G8B8A8_SRGB;
use renderer_core::pipeline::DrawObject;
use renderer_core::pipeline::Pipeline;
use renderer_core::renderer::FenceState;
use renderer_core::renderer::FrameStage;
use renderer_core::renderer::Renderer;
use renderer_core::swapchain::Swapchain;
use renderer_core::Extent2D;
use renderer_core::RenderError;

const EXTENT: Extent2D = Extent2D { width: 1920, height: 1080 };
const ACQUIRE_SEMAPHORE: u64 = 7;
const RENDER_SEMAPHORE: u64 = 8;

fn new_renderer() -> Renderer {
    let context = Context::new(1, 1).unwrap();
    let supported = vec![FORMAT_B8G8R8A8_SRGB, FORMAT_R8G8B8A8_SRGB];
    let swapchain = Swapchain::new(&supported, 2, 1, EXTENT, ACQUIRE_SEMAPHORE, None).unwrap();
    Renderer::new(context, swapchain, RENDER_SEMAPHORE)
}

fn one_cube() -> DrawObject {
    DrawObject {
        ndc_from_faces: [[0u32; 16]; 6],
        colour: ColorBits { r: 0, g: 0, b: 0, a: 0 },
    }
}

#[test]
fn context_requires_a_physical_device() {
    assert_eq!(Context::new(0, 1).unwrap_err(), RenderError::NoPhysicalDevice);
    assert_eq!(Context::new(1, 0).unwrap_err(), RenderError::NoPhysicalDevice);
    let c = Context::new(2, 3).unwrap();
    assert_eq!(c.physical_device_index, 0);
    assert_eq!(c.queue_family_index, 0);
    assert_eq!(c.queue_index, 0);
    assert!(c.swapchain_extension_enabled);
    assert!(c.dynamic_rendering_enabled);
    assert!(c.synchronization2_enabled);
    assert!(c.command_pool_allows_reset);
    assert_eq!(c.command_buffer_count, 1);
    assert_eq!(c.command_buffer, CommandBufferState::Ready);
}

#[test]
fn fence_starts_signaled_so_first_wait_cannot_block() {
    let r = new_renderer();
    assert_eq!(r.fence, FenceState::Signaled);
    assert!(!r.in_flight);
    assert_eq!(r.frame_index, 0);
    assert_eq!(r.stage, FrameStage::Idle);
}

#[test]
fn depth_buffer_is_sized_to_the_swapchain() {
    let r = new_renderer();
    assert_eq!(r.depth_buffer.extent, r.swapchain.extent);
    assert_eq!(r.pipeline.color_format, r.swapchain.format);
}

#[test]
fn renderer_builds_the_one_fixed_pipeline() {
    let r = new_renderer();
    assert_eq!(r.pipeline, Pipeline::new(r.swapchain.format));
}

#[test]
fn begin_rendering_waits_resets_then_begins() {
    let mut r = new_renderer();
    let trace = r.begin_rendering();
    assert_eq!(trace.len(), 5);
    assert!(matches!(trace[0], Action::WaitFence));
    assert!(matches!(trace[1], Action::ResetFence));
    assert!(matches!(trace[2], Action::BeginCommandBuffer));
    match trace[3] {
        Action::PipelineBarrier { barrier } => {
            assert_eq!(barrier.image, BarrierImage::Depth);
            assert_eq!(barrier.old_layout, ImageLayout::Undefined);
            assert_eq!(barrier.new_layout, ImageLayout::DepthAttachmentOptimal);
            assert_eq!(barrier.dst_stage, PipelineStage::EarlyFragmentTests);
        }
        _ => panic!("expected the depth transition before acquisition"),
    }
    assert_eq!(trace[4], Action::AcquireImage { signal: ACQUIRE_SEMAPHORE });
    assert_eq!(r.fence, FenceState::Unsignaled);
    assert_eq!(r.context.command_buffer, CommandBufferState::Recording);
}

#[test]
fn acquire_validates_the_driver_index() {
    let mut r = new_renderer();
    r.begin_rendering();
    let err = r.acquire_drawable(3).unwrap_err();
    assert_eq!(err, RenderError::ImageIndexOutOfRange);

    let (d, barrier) = r.acquire_drawable(2).unwrap();
    assert_eq!(d.index, 2);
    assert_eq!(d.extent, EXTENT);
    assert_eq!(d.ready, ACQUIRE_SEMAPHORE);
    match barrier {
        Action::PipelineBarrier { barrier } => {
            assert_eq!(barrier.image, BarrierImage::Swapchain { index: 2 });
            assert_eq!(barrier.old_layout, ImageLayout::Undefined);
            assert_eq!(barrier.new_layout, ImageLayout::ColorAttachmentOptimal);
            assert_eq!(barrier.dst_stage, PipelineStage::ColorAttachmentOutput);
        }
        _ => panic!("expected the colour transition after acquisition"),
    }
}

#[test]
fn full_tick_ends_with_submit_then_present() {
    let mut r = new_renderer();
    let begin = r.begin_rendering();
    let (d, color_barrier) = r.acquire_drawable(0).unwrap();
    let draws = r.record_draws(&d, &vec![one_cube()]);
    let end = r.end_rendering(&d);
    let present = r.present(&d);

    let mut whole: Vec<Action> = Vec::new();
    whole.extend(begin);
    whole.push(color_barrier);
    whole.extend(draws);
    whole.extend(end);
    whole.push(present);

    let n = whole.len();
    assert!(matches!(whole[0], Action::WaitFence));
    assert!(matches!(whole[n - 2], Action::SubmitCommandBuffer { .. }));
    assert!(matches!(whole[n - 1], Action::PresentImage { .. }));
    assert_eq!(whole.iter().filter(|a| matches!(a, Action::WaitFence)).count(), 1);
    assert_eq!(
        whole.iter().filter(|a| matches!(a, Action::SubmitCommandBuffer { .. })).count(),
        1
    );

    match whole[n - 2] {
        Action::SubmitCommandBuffer { wait, wait_stage, signal, signal_stage } => {
            assert_eq!(wait, ACQUIRE_SEMAPHORE);
            assert_eq!(wait_stage, PipelineStage::ColorAttachmentOutput);
            assert_eq!(signal, RENDER_SEMAPHORE);
            assert_eq!(signal_stage, PipelineStage::AllCommands);
        }
        _ => unreachable!(),
    }
    assert_eq!(whole[n - 1], Action::PresentImage { index: 0, wait: RENDER_SEMAPHORE });

    assert_eq!(r.stage, FrameStage::Idle);
    assert_eq!(r.frame_index, 1);
    assert!(r.in_flight);
    assert_eq!(r.fence, FenceState::Unsignaled);
}

#[test]
fn next_frame_waits_before_reusing_the_buffer() {
    let mut r = new_renderer();
    let first = r.begin_rendering();
    let (d, _) = r.acquire_drawable(1).unwrap();
    r.record_draws(&d, &vec![one_cube()]);
    r.end_rendering(&d);
    r.present(&d);
    assert_eq!(r.context.command_buffer, CommandBufferState::Submitted);

    let second = r.begin_rendering();
    assert_eq!(first, second);
    assert!(matches!(second[0], Action::WaitFence));
    assert!(matches!(second[1], Action::ResetFence));
    assert!(matches!(second[2], Action::BeginCommandBuffer));
    assert_eq!(r.context.command_buffer, CommandBufferState::Recording);
    assert!(!r.in_flight);
}

#[test]
fn whole_tick_equals_the_stepwise_composition() {
    let mut stepped = new_renderer();
    let mut whole: Vec<Action> = stepped.begin_rendering();
    let (d, color_barrier) = stepped.acquire_drawable(2).unwrap();
    whole.push(color_barrier);
    whole.extend(stepped.record_draws(&d, &vec![one_cube()]));
    whole.extend(stepped.end_rendering(&d));
    whole.push(stepped.present(&d));

    let mut composed = new_renderer();
    let trace = composed.draw(2, &vec![one_cube()]).unwrap();
    assert_eq!(trace, whole);
    // begin (5) + colour barrier (1) + draw scope (4 + 12 + 1) + end (3)
    // + present (1)
    assert_eq!(trace.len(), 27);
    assert_eq!(composed.frame_index, 1);
    assert_eq!(composed.stage, FrameStage::Idle);

    let err = new_renderer().draw(9, &vec![one_cube()]).unwrap_err();
    assert_eq!(err, RenderError::ImageIndexOutOfRange);
}

#[test]
fn present_transition_precedes_submission() {
    let mut r = new_renderer();
    r.begin_rendering();
    let (d, _) = r.acquire_drawable(1).unwrap();
    r.record_draws(&d, &vec![]);
    let end = r.end_rendering(&d);
    assert_eq!(end.len(), 3);
    match end[0] {
        Action::PipelineBarrier { barrier } => {
            assert_eq!(barrier.image, BarrierImage::Swapchain { index: 1 });
            assert_eq!(barrier.old_layout, ImageLayout::ColorAttachmentOptimal);
            assert_eq!(barrier.new_layout, ImageLayout::PresentSrc);
            assert_eq!(barrier.src_stage, PipelineStage::ColorAttachmentOutput);
        }
        _ => panic!("expected the present transition first"),
    }
    assert!(matches!(end[1], Action::EndCommandBuffer));
    assert!(matches!(end[2], Action::SubmitCommandBuffer { .. }));
}
