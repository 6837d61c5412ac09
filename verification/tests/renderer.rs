use potato::constants::UNBOUNDED_TIMEOUT;
use potato::frame::{AcquireOutcome, FrameError, FrameEvent, FramePhase, PresentOutcome};
use potato::lifecycle::{LifecycleOp, ResourceKind};
use potato::queue_family::QueueFamily;
use potato::surface::{PotatoSurface, SurfacePlatform};
use potato::swapchain::{Extent2D, PotatoSwapChain};
use potato::sync_objects::SyncObjects;
use potato::vulk_init::{
    DeviceObjects, DrawCommand, RendererError, SwapchainObjects, VulkanApiObjects,
};
use potato::window::{ControlFlow, EventResponse, Key, VulkanWindow, WindowAction, WindowEvent};

fn device_objects(debug_messenger: Option<u64>) -> DeviceObjects {
    DeviceObjects {
        instance: 1,
        debug_messenger,
        surface: PotatoSurface { surface: 3, platform: SurfacePlatform::Wayland },
        physical_device: 4,
        device: 5,
        graphics_queue: 6,
        queue_family: QueueFamily { graphics_family: Some(0), present_family: Some(0) },
        command_pool: 7,
        vertex_buffer: 8,
        vertex_buffer_memory: 9,
    }
}

fn swapchain_objects(base: u64, images: u64) -> SwapchainObjects {
    SwapchainObjects {
        swapchain: PotatoSwapChain {
            swapchain: base,
            swapchain_images: (0..images).map(|i| base + 10 + i).collect(),
            swapchain_format: 50,
            swapchain_extent: Extent2D { width: 800, height: 600 },
            swapchain_image_views: (0..images).map(|i| base + 20 + i).collect(),
        },
        render_pass: base + 1,
        pipeline_layout: base + 2,
        graphics_pipeline: base + 3,
        swapchain_framebuffers: (0..images).map(|i| base + 30 + i).collect(),
        command_buffers: (0..images).map(|i| base + 40 + i).collect(),
    }
}

fn sync_objects() -> SyncObjects {
    SyncObjects {
        image_available_semaphores: vec![201, 202],
        render_finished_semaphores: vec![211, 212],
        inflight_fences: vec![221, 222],
    }
}

fn renderer() -> VulkanApiObjects {
    VulkanApiObjects::init(77, device_objects(Some(2)), swapchain_objects(100, 3), sync_objects())
        .ok()
        .unwrap()
}

fn wait() -> ControlFlow {
    ControlFlow::Wait
}

#[test]
fn renderer_starts_idle_on_the_first_slot() {
    let renderer = renderer();
    assert_eq!(renderer.current_frame(), 0);
    assert_eq!(renderer.phase(), FramePhase::Idle);
    assert_eq!(renderer.image_count(), 3);
    assert_eq!(renderer.swapchain_format(), 50);
    assert!(renderer.contains_window(77));
    assert_eq!(renderer.window_count(), 1);
    assert_eq!(renderer.device_objects(), device_objects(Some(2)));
}

#[test]
fn renderer_refuses_parts_that_do_not_fit() {
    let mut uneven = swapchain_objects(100, 3);
    uneven.command_buffers.pop();
    assert!(matches!(
        VulkanApiObjects::init(77, device_objects(None), uneven, sync_objects()),
        Err(RendererError::SwapchainMismatch)
    ));
    let mut uneven = swapchain_objects(100, 3);
    uneven.swapchain.swapchain_image_views.push(1);
    assert!(matches!(
        VulkanApiObjects::init(77, device_objects(None), uneven, sync_objects()),
        Err(RendererError::SwapchainMismatch)
    ));
    let mut short = sync_objects();
    short.render_finished_semaphores.pop();
    assert!(matches!(
        VulkanApiObjects::init(77, device_objects(None), swapchain_objects(100, 3), short),
        Err(RendererError::SyncMismatch)
    ));
    let none = SyncObjects {
        image_available_semaphores: vec![],
        render_finished_semaphores: vec![],
        inflight_fences: vec![],
    };
    assert!(matches!(
        VulkanApiObjects::init(77, device_objects(None), swapchain_objects(100, 3), none),
        Err(RendererError::SyncMismatch)
    ));
}

#[test]
fn a_frame_runs_on_the_handles_of_its_slot_and_image() {
    let mut renderer = renderer();
    assert_eq!(
        renderer.draw(FrameEvent::RedrawRequested),
        DrawCommand::Acquire { fence: 221, swapchain: 100, semaphore: 201, timeout: u64::MAX }
    );
    assert_eq!(UNBOUNDED_TIMEOUT, u64::MAX);
    assert_eq!(
        renderer.draw(FrameEvent::Acquired(AcquireOutcome::Image(2))),
        DrawCommand::Submit {
            fence: 221,
            queue: 6,
            command_buffer: 142,
            wait_semaphore: 201,
            wait_stage: ash::vk::PipelineStageFlags::COLOR_ATTACHMENT_OUTPUT.as_raw(),
            signal_semaphore: 211,
        }
    );
    assert_eq!(
        renderer.draw(FrameEvent::Submitted(true)),
        DrawCommand::Present { queue: 6, swapchain: 100, image_index: 2, wait_semaphore: 211 }
    );
    assert_eq!(
        renderer.draw(FrameEvent::Presented(PresentOutcome::Presented)),
        DrawCommand::FrameDone
    );
    assert_eq!(renderer.current_frame(), 1);
    assert_eq!(
        renderer.draw(FrameEvent::RedrawRequested),
        DrawCommand::Acquire { fence: 222, swapchain: 100, semaphore: 202, timeout: u64::MAX }
    );
    assert_eq!(
        renderer.draw(FrameEvent::Acquired(AcquireOutcome::Image(0))),
        DrawCommand::Submit {
            fence: 222,
            queue: 6,
            command_buffer: 140,
            wait_semaphore: 202,
            wait_stage: 0x400,
            signal_semaphore: 212,
        }
    );
}

#[test]
fn a_stale_surface_is_answered_with_a_rebuild() {
    let mut renderer = renderer();
    renderer.draw(FrameEvent::RedrawRequested);
    assert_eq!(renderer.draw(FrameEvent::Acquired(AcquireOutcome::OutOfDate)), DrawCommand::Rebuild);
    assert_eq!(renderer.phase(), FramePhase::Rebuilding);
    assert_eq!(renderer.draw(FrameEvent::Rebuilt(9)), DrawCommand::Ignored);
    assert_eq!(renderer.draw(FrameEvent::RedrawRequested), DrawCommand::Ignored);

    let cleanup = renderer.cleanup_swapchain();
    let kinds: Vec<LifecycleOp> = cleanup.iter().map(|command| command.op).collect();
    assert_eq!(
        kinds,
        vec![
            LifecycleOp::Destroy(ResourceKind::CommandBuffers),
            LifecycleOp::Destroy(ResourceKind::Framebuffers),
            LifecycleOp::Destroy(ResourceKind::Pipeline),
            LifecycleOp::Destroy(ResourceKind::PipelineLayout),
            LifecycleOp::Destroy(ResourceKind::RenderPass),
            LifecycleOp::Destroy(ResourceKind::ImageViews),
            LifecycleOp::Destroy(ResourceKind::Swapchain),
        ]
    );
    assert_eq!(cleanup[0].handles, vec![140, 141, 142]);
    assert_eq!(cleanup[1].handles, vec![130, 131, 132]);
    assert_eq!(cleanup[2].handles, vec![103]);
    assert_eq!(cleanup[3].handles, vec![102]);
    assert_eq!(cleanup[4].handles, vec![101]);
    assert_eq!(cleanup[5].handles, vec![120, 121, 122]);
    assert_eq!(cleanup[6].handles, vec![100]);

    assert_eq!(renderer.recreate_swapchain(swapchain_objects(300, 2)), Ok(()));
    assert_eq!(renderer.phase(), FramePhase::Idle);
    assert_eq!(renderer.current_frame(), 0);
    assert_eq!(renderer.image_count(), 2);
    assert_eq!(
        renderer.draw(FrameEvent::RedrawRequested),
        DrawCommand::Acquire { fence: 221, swapchain: 300, semaphore: 201, timeout: u64::MAX }
    );
    assert_eq!(
        renderer.draw(FrameEvent::Acquired(AcquireOutcome::Image(2))),
        DrawCommand::Abort(FrameError::ImageIndexOutOfRange)
    );
}

#[test]
fn a_rebuilt_swapchain_is_taken_only_when_asked_for() {
    let mut renderer = renderer();
    assert_eq!(
        renderer.recreate_swapchain(swapchain_objects(300, 2)),
        Err(RendererError::NotRebuilding)
    );
    assert_eq!(renderer.image_count(), 3);
    renderer.draw(FrameEvent::RedrawRequested);
    renderer.draw(FrameEvent::Acquired(AcquireOutcome::Image(1)));
    renderer.draw(FrameEvent::Submitted(true));
    assert_eq!(
        renderer.draw(FrameEvent::Presented(PresentOutcome::Suboptimal)),
        DrawCommand::Rebuild
    );
    let mut uneven = swapchain_objects(300, 2);
    uneven.swapchain_framebuffers.pop();
    assert_eq!(renderer.recreate_swapchain(uneven), Err(RendererError::SwapchainMismatch));
    assert_eq!(renderer.phase(), FramePhase::Rebuilding);
    assert_eq!(renderer.recreate_swapchain(swapchain_objects(300, 3)), Ok(()));
    assert_eq!(renderer.current_frame(), 1);
    assert_eq!(renderer.image_count(), 3);
    assert_eq!(renderer.swapchain_format(), 50);
}

#[test]
fn shutdown_waits_and_destroys_in_reverse_order_of_creation() {
    let mut renderer = renderer();
    renderer.draw(FrameEvent::RedrawRequested);
    renderer.draw(FrameEvent::Acquired(AcquireOutcome::Image(1)));
    let commands = renderer.shutdown();
    let ops: Vec<LifecycleOp> = commands.iter().map(|command| command.op).collect();
    let destroy = LifecycleOp::Destroy;
    assert_eq!(
        ops,
        vec![
            LifecycleOp::WaitIdle,
            destroy(ResourceKind::InFlightFences),
            destroy(ResourceKind::RenderFinishedSemaphores),
            destroy(ResourceKind::ImageAvailableSemaphores),
            destroy(ResourceKind::CommandBuffers),
            destroy(ResourceKind::VertexBufferMemory),
            destroy(ResourceKind::VertexBuffer),
            destroy(ResourceKind::CommandPool),
            destroy(ResourceKind::Framebuffers),
            destroy(ResourceKind::Pipeline),
            destroy(ResourceKind::PipelineLayout),
            destroy(ResourceKind::RenderPass),
            destroy(ResourceKind::ImageViews),
            destroy(ResourceKind::Swapchain),
            destroy(ResourceKind::Device),
            destroy(ResourceKind::Surface),
            destroy(ResourceKind::DebugMessenger),
            destroy(ResourceKind::Instance),
        ]
    );
    assert!(commands[0].handles.is_empty());
    assert_eq!(commands[1].handles, vec![221, 222]);
    assert_eq!(commands[2].handles, vec![211, 212]);
    assert_eq!(commands[3].handles, vec![201, 202]);
    assert_eq!(commands[4].handles, vec![140, 141, 142]);
    assert_eq!(commands[5].handles, vec![9]);
    assert_eq!(commands[6].handles, vec![8]);
    assert_eq!(commands[7].handles, vec![7]);
    assert_eq!(commands[14].handles, vec![5]);
    assert_eq!(commands[15].handles, vec![3]);
    assert_eq!(commands[16].handles, vec![2]);
    assert_eq!(commands[17].handles, vec![1]);
}

#[test]
fn shutdown_after_a_rebuild_takes_the_rebuilt_objects_first() {
    let mut renderer =
        VulkanApiObjects::init(77, device_objects(None), swapchain_objects(100, 3), sync_objects())
            .ok()
            .unwrap();
    renderer.draw(FrameEvent::RedrawRequested);
    renderer.draw(FrameEvent::Acquired(AcquireOutcome::OutOfDate));
    renderer.recreate_swapchain(swapchain_objects(300, 2)).unwrap();
    let commands = renderer.shutdown();
    assert_eq!(commands.len(), 17);
    assert_eq!(commands[0].op, LifecycleOp::WaitIdle);
    assert_eq!(commands[1].op, LifecycleOp::Destroy(ResourceKind::CommandBuffers));
    assert_eq!(commands[1].handles, vec![340, 341]);
    assert_eq!(commands[7].op, LifecycleOp::Destroy(ResourceKind::Swapchain));
    assert_eq!(commands[7].handles, vec![300]);
    assert_eq!(commands[8].op, LifecycleOp::Destroy(ResourceKind::InFlightFences));
    assert_eq!(commands[16].op, LifecycleOp::Destroy(ResourceKind::Instance));
    assert!(commands
        .iter()
        .all(|command| command.op != LifecycleOp::Destroy(ResourceKind::DebugMessenger)));
}

#[test]
fn handles_are_listed_by_kind() {
    let renderer = renderer();
    assert_eq!(renderer.handles(ResourceKind::Instance), vec![1]);
    assert_eq!(renderer.handles(ResourceKind::DebugMessenger), vec![2]);
    assert_eq!(renderer.handles(ResourceKind::ImageViews), vec![120, 121, 122]);
    assert_eq!(renderer.handles(ResourceKind::Framebuffers), vec![130, 131, 132]);
    let bare =
        VulkanApiObjects::init(77, device_objects(None), swapchain_objects(100, 1), sync_objects())
            .ok()
            .unwrap();
    assert!(bare.handles(ResourceKind::DebugMessenger).is_empty());
}

#[test]
fn closing_the_last_window_ends_the_loop() {
    let mut windows = VulkanWindow::init(1);
    assert!(windows.insert(2));
    assert!(!windows.insert(2));
    assert!(windows.contains(1) && windows.contains(2));
    assert_eq!(windows.len(), 2);
    assert_eq!(
        windows.init_event_loop(WindowEvent::CloseRequested(3)),
        EventResponse { control_flow: wait(), action: WindowAction::Nothing }
    );
    assert_eq!(windows.len(), 2);
    assert_eq!(
        windows.init_event_loop(WindowEvent::CloseRequested(1)),
        EventResponse { control_flow: wait(), action: WindowAction::Nothing }
    );
    assert_eq!(windows.len(), 1);
    assert!(!windows.contains(1));
    assert!(windows.contains(2));
    assert_eq!(
        windows.init_event_loop(WindowEvent::CloseRequested(2)),
        EventResponse { control_flow: ControlFlow::Exit, action: WindowAction::Nothing }
    );
    assert_eq!(windows.len(), 0);
}

#[test]
fn releasing_n_spawns_a_window() {
    let mut windows = VulkanWindow::init(1);
    let key = |released, key, is_synthetic| WindowEvent::KeyboardInput { released, key, is_synthetic };
    assert_eq!(
        windows.init_event_loop(key(true, Some(Key::N), false)).action,
        WindowAction::SpawnWindow
    );
    assert_eq!(windows.init_event_loop(key(false, Some(Key::N), false)).action, WindowAction::Nothing);
    assert_eq!(windows.init_event_loop(key(true, Some(Key::N), true)).action, WindowAction::Nothing);
    assert_eq!(windows.init_event_loop(key(true, Some(Key::Other), false)).action, WindowAction::Nothing);
    assert_eq!(windows.init_event_loop(key(true, None, false)).action, WindowAction::Nothing);
    assert!(windows.contains(1));
    assert_eq!(windows.len(), 1);
}

#[test]
fn other_events_map_to_their_actions() {
    let mut renderer = renderer();
    assert_eq!(
        renderer.init_event_loop(WindowEvent::MainEventsCleared),
        EventResponse { control_flow: wait(), action: WindowAction::RequestRedraw }
    );
    assert_eq!(
        renderer.init_event_loop(WindowEvent::RedrawRequested(77)),
        EventResponse { control_flow: wait(), action: WindowAction::Draw }
    );
    assert_eq!(
        renderer.init_event_loop(WindowEvent::LoopDestroyed),
        EventResponse { control_flow: wait(), action: WindowAction::WaitIdle }
    );
    assert_eq!(
        renderer.init_event_loop(WindowEvent::Other),
        EventResponse { control_flow: wait(), action: WindowAction::Nothing }
    );
    assert!(renderer.insert_window(78));
    assert!(!renderer.insert_window(78));
    assert!(renderer.contains_window(77) && renderer.contains_window(78));
    assert_eq!(renderer.window_count(), 2);
    assert_eq!(renderer.init_event_loop(WindowEvent::CloseRequested(77)).control_flow, wait());
    assert_eq!(
        renderer.init_event_loop(WindowEvent::CloseRequested(78)).control_flow,
        ControlFlow::Exit
    );
    assert_eq!(renderer.window_count(), 0);
    assert!(!renderer.contains_window(77));
}

#[test]
fn a_window_opens_at_the_initial_size() {
    let attributes = VulkanWindow::init_window("origin");
    assert_eq!(attributes.title, "origin");
    assert_eq!((attributes.width, attributes.height), (800, 600));
}

#[test]
fn a_rebuild_tears_down_with_handles_and_builds_up_again() {
    let renderer = renderer();
    let commands = renderer.recreate_commands();
    assert_eq!(commands.len(), 15);
    assert_eq!(commands[0].op, LifecycleOp::WaitIdle);
    assert!(commands[0].handles.is_empty());
    let cleanup = renderer.cleanup_swapchain();
    for at in 0..7 {
        assert_eq!(commands[at + 1].op, cleanup[at].op);
        assert_eq!(commands[at + 1].handles, cleanup[at].handles);
    }
    assert_eq!(commands[8].op, LifecycleOp::Create(ResourceKind::Swapchain));
    assert_eq!(commands[9].op, LifecycleOp::Create(ResourceKind::ImageViews));
    assert_eq!(commands[10].op, LifecycleOp::Create(ResourceKind::RenderPass));
    assert_eq!(commands[11].op, LifecycleOp::Create(ResourceKind::PipelineLayout));
    assert_eq!(commands[12].op, LifecycleOp::Create(ResourceKind::Pipeline));
    assert_eq!(commands[13].op, LifecycleOp::Create(ResourceKind::Framebuffers));
    assert_eq!(commands[14].op, LifecycleOp::Create(ResourceKind::CommandBuffers));
    assert!(commands[8..].iter().all(|command| command.handles.is_empty()));
}
