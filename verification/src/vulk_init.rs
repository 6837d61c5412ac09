//! The renderer as a whole: the handles of everything it owns, the frame it
//! is drawing, and what to create, submit and destroy next.

use vstd::prelude::*;
use crate::constants::{PIPELINE_STAGE_COLOR_ATTACHMENT_OUTPUT, UNBOUNDED_TIMEOUT};
use crate::frame::{
    step_spec, FrameError, FrameEvent, FrameLoop, FramePhase, FrameState, FrameStep,
};
use crate::lifecycle::{
    depends_on, init_order, rebuild_ops, rebuild_sequence, swapchain_scoped, Ledger,
    LedgerError, LedgerState, LifecycleOp, ResourceKind,
};
use crate::lifecycle_laws::{lemma_init_accepted, lemma_rebuild_accepted};
use crate::queue_family::QueueFamily;
use crate::surface::PotatoSurface;
use crate::swapchain::{
    create_swapchain_spec, lemma_rebuild_repeats_choice, Extent2D, PotatoSwapChain,
    SurfaceCapabilities, SurfaceFormat, SwapchainCreateInfo, SwapchainError,
};
use crate::sync_objects::SyncObjects;
use crate::window::{
    attributes_spec, response_spec, windows_after, EventResponse, VulkanWindow, WindowAttributes,
    WindowEvent,
};

verus! {

/// The handles of what is created once and lives until shutdown.
#[derive(Clone, Copy, Debug, PartialEq, Eq, Structural)]
pub struct DeviceObjects {
    pub instance: u64,
    /// The debug messenger; there is none without validation.
    pub debug_messenger: Option<u64>,
    pub surface: PotatoSurface,
    pub physical_device: u64,
    pub device: u64,
    pub graphics_queue: u64,
    pub queue_family: QueueFamily,
    pub command_pool: u64,
    pub vertex_buffer: u64,
    pub vertex_buffer_memory: u64,
}

/// The handles of what is scoped to one swapchain and rebuilt with it.
pub struct SwapchainObjects {
    pub swapchain: PotatoSwapChain,
    pub render_pass: u64,
    pub pipeline_layout: u64,
    pub graphics_pipeline: u64,
    pub swapchain_framebuffers: Vec<u64>,
    pub command_buffers: Vec<u64>,
}

/// Why the renderer refuses what it is handed.
#[derive(Clone, Copy, Debug, PartialEq, Eq, Structural)]
pub enum RendererError {
    /// Images, views, framebuffers and command buffers do not come one to one.
    SwapchainMismatch,
    /// There is no frame slot, or the synchronization objects do not come
    /// once per slot.
    SyncMismatch,
    /// A rebuilt swapchain is handed over although no rebuild was asked for.
    NotRebuilding,
}

/// The next GPU operation of a frame, with the handles it is performed on.
#[derive(Clone, Copy, Debug, PartialEq, Eq, Structural)]
pub enum DrawCommand {
    /// Wait on `fence` for at most `timeout`, then acquire the next image of
    /// `swapchain` with the same timeout, signalling `semaphore`.
    Acquire { fence: u64, swapchain: u64, semaphore: u64, timeout: u64 },
    /// Reset `fence`, then submit `command_buffer` to `queue`: it waits on
    /// `wait_semaphore` at `wait_stage` and signals `signal_semaphore` and `fence`.
    Submit {
        fence: u64,
        queue: u64,
        command_buffer: u64,
        wait_semaphore: u64,
        wait_stage: u32,
        signal_semaphore: u64,
    },
    /// Present image `image_index` of `swapchain` on `queue` once
    /// `wait_semaphore` is signaled.
    Present { queue: u64, swapchain: u64, image_index: u32, wait_semaphore: u64 },
    /// Drain the device, tear down what is scoped to the swapchain, build it
    /// anew and hand it over.
    Rebuild,
    /// Nothing is left to do until the next redraw request.
    FrameDone,
    /// Stop rendering for good.
    Abort(FrameError),
    /// The event does not belong to the current phase and changed nothing.
    Ignored,
}

/// One step in the life of the GPU objects, with the handles it works on: the
/// handles of the objects to destroy, and none for a creation, a submission or
/// a wait for the device.
pub struct LifecycleCommand {
    pub op: LifecycleOp,
    pub handles: Vec<u64>,
}

/// The mathematical state of the renderer.
pub struct RendererState {
    pub windows: Map<u64, WindowAttributes>,
    pub device: DeviceObjects,
    pub swapchain: SwapchainObjects,
    pub sync: SyncObjects,
    pub frame: FrameState,
    pub ledger: LedgerState,
}

impl SwapchainObjects {
    /// Every image has one view, one framebuffer and one command buffer.
    pub open spec fn well_formed(&self) -> bool {
        &&& self.swapchain.well_formed()
        &&& self.swapchain_framebuffers@.len() == self.swapchain.swapchain_image_views@.len()
        &&& self.command_buffers@.len() == self.swapchain_framebuffers@.len()
    }

    /// Whether every image has one view, one framebuffer and one command buffer.
    pub fn is_well_formed(&self) -> (well_formed: bool)
        ensures
            well_formed == self.well_formed(),
    {
        self.swapchain.swapchain_images.len() == self.swapchain.swapchain_image_views.len()
            && self.swapchain_framebuffers.len() == self.swapchain.swapchain_image_views.len()
            && self.command_buffers.len() == self.swapchain_framebuffers.len()
    }
}

impl RendererState {
    /// The parts of the renderer fit together: one set of per-image objects,
    /// one set of synchronization objects per frame slot, the frame loop
    /// counts the command buffers, and the ledger holds everything scoped to
    /// the swapchain, and a debug messenger exactly where there is one.
    pub open spec fn well_formed(self) -> bool {
        &&& self.swapchain.well_formed()
        &&& self.sync.well_formed(self.frame.max_frames_in_flight)
        &&& self.frame.well_formed()
        &&& self.frame.image_count == self.swapchain.command_buffers@.len()
        &&& self.ledger.ordered()
        &&& forall|kind: ResourceKind| swapchain_scoped(kind) ==> self.ledger.live(kind)
        &&& self.ledger.live(ResourceKind::DebugMessenger) <==> self.device.debug_messenger is Some
    }

    /// The handles of the objects of `kind`.
    pub open spec fn handles_of(self, kind: ResourceKind) -> Seq<u64> {
        match kind {
            ResourceKind::Instance => seq![self.device.instance],
            ResourceKind::DebugMessenger => match self.device.debug_messenger {
                Some(messenger) => seq![messenger],
                None => Seq::empty(),
            },
            ResourceKind::Surface => seq![self.device.surface.surface],
            ResourceKind::Device => seq![self.device.device],
            ResourceKind::Swapchain => seq![self.swapchain.swapchain.swapchain],
            ResourceKind::ImageViews => self.swapchain.swapchain.swapchain_image_views@,
            ResourceKind::RenderPass => seq![self.swapchain.render_pass],
            ResourceKind::PipelineLayout => seq![self.swapchain.pipeline_layout],
            ResourceKind::Pipeline => seq![self.swapchain.graphics_pipeline],
            ResourceKind::Framebuffers => self.swapchain.swapchain_framebuffers@,
            ResourceKind::CommandPool => seq![self.device.command_pool],
            ResourceKind::VertexBuffer => seq![self.device.vertex_buffer],
            ResourceKind::VertexBufferMemory => seq![self.device.vertex_buffer_memory],
            ResourceKind::CommandBuffers => self.swapchain.command_buffers@,
            ResourceKind::ImageAvailableSemaphores => self.sync.image_available_semaphores@,
            ResourceKind::RenderFinishedSemaphores => self.sync.render_finished_semaphores@,
            ResourceKind::InFlightFences => self.sync.inflight_fences@,
        }
    }

    /// The handles an operation works on: those of the kind it destroys.
    pub open spec fn handles_for(self, op: LifecycleOp) -> Seq<u64> {
        match op {
            LifecycleOp::Destroy(kind) => self.handles_of(kind),
            _ => Seq::empty(),
        }
    }

    /// The operation `step` with the handles of the frame slot and the image
    /// it names.
    pub open spec fn resolve(self, step: FrameStep) -> DrawCommand {
        match step {
            FrameStep::Acquire { slot } => DrawCommand::Acquire {
                fence: self.sync.inflight_fences@[slot as int],
                swapchain: self.swapchain.swapchain.swapchain,
                semaphore: self.sync.image_available_semaphores@[slot as int],
                timeout: UNBOUNDED_TIMEOUT,
            },
            FrameStep::Submit { slot, image_index } => DrawCommand::Submit {
                fence: self.sync.inflight_fences@[slot as int],
                queue: self.device.graphics_queue,
                command_buffer: self.swapchain.command_buffers@[image_index as int],
                wait_semaphore: self.sync.image_available_semaphores@[slot as int],
                wait_stage: PIPELINE_STAGE_COLOR_ATTACHMENT_OUTPUT,
                signal_semaphore: self.sync.render_finished_semaphores@[slot as int],
            },
            FrameStep::Present { slot, image_index } => DrawCommand::Present {
                queue: self.device.graphics_queue,
                swapchain: self.swapchain.swapchain.swapchain,
                image_index,
                wait_semaphore: self.sync.render_finished_semaphores@[slot as int],
            },
            FrameStep::Rebuild => DrawCommand::Rebuild,
            FrameStep::FrameDone => DrawCommand::FrameDone,
            FrameStep::Abort(error) => DrawCommand::Abort(error),
            FrameStep::Ignored => DrawCommand::Ignored,
        }
    }

    /// The operation asked for when `event` is taken in. That a rebuild is
    /// over is not an event of a frame: it is told by handing over what was
    /// rebuilt.
    pub open spec fn draw_command(self, event: FrameEvent) -> DrawCommand {
        if event is Rebuilt {
            DrawCommand::Ignored
        } else {
            self.resolve(step_spec(self.frame, event).1)
        }
    }

    /// The state after `event` is taken in: the frame loop moves on, and a
    /// submission leaves the device busy.
    pub open spec fn after_draw(self, event: FrameEvent) -> RendererState {
        if event is Rebuilt {
            self
        } else {
            RendererState {
                frame: step_spec(self.frame, event).0,
                ledger: if step_spec(self.frame, event).1 is Submit {
                    LedgerState { busy: true, ..self.ledger }
                } else {
                    self.ledger
                },
                ..self
            }
        }
    }

    /// The state after a rebuild is over and `rebuilt` has taken the place of
    /// what was torn down: the frame loop goes on, the ledger has recorded the
    /// rebuild, and everything else is as before.
    pub open spec fn after_rebuild(self, rebuilt: SwapchainObjects) -> RendererState {
        RendererState {
            swapchain: rebuilt,
            frame: step_spec(
                self.frame,
                FrameEvent::Rebuilt(rebuilt.command_buffers@.len() as usize),
            ).0,
            ledger: self.ledger.run(rebuild_ops())->Ok_0,
            ..self
        }
    }

    /// The commands that tear down what is scoped to the swapchain, from the
    /// command buffers to the swapchain itself.
    pub open spec fn cleanup_ops() -> Seq<LifecycleOp> {
        rebuild_ops().subrange(1, 8)
    }
}

fn copy_handles(handles: &Vec<u64>) -> (copy: Vec<u64>)
    ensures
        copy@ == handles@,
{
    let mut copy: Vec<u64> = Vec::new();
    let mut i: usize = 0;
    while i < handles.len()
        invariant
            i <= handles@.len(),
            copy@ == handles@.take(i as int),
        decreases handles@.len() - i,
    {
        copy.push(handles[i]);
        assert(handles@.take(i as int).push(handles@[i as int]) =~= handles@.take(i + 1));
        i += 1;
    }
    assert(handles@.take(handles@.len() as int) =~= handles@);
    copy
}

fn single_handle(handle: u64) -> (handles: Vec<u64>)
    ensures
        handles@ == seq![handle],
{
    let mut handles: Vec<u64> = Vec::new();
    handles.push(handle);
    assert(handles@ =~= seq![handle]);
    handles
}

/// The renderer: its windows, the handles of its GPU objects, the frame loop
/// and the ledger of what is live.
pub struct VulkanApiObjects {
    windows: VulkanWindow,
    device_objects: DeviceObjects,
    swapchain_objects: SwapchainObjects,
    sync_objects: SyncObjects,
    frame_loop: FrameLoop,
    ledger: Ledger,
}

impl View for VulkanApiObjects {
    type V = RendererState;

    closed spec fn view(&self) -> RendererState {
        RendererState {
            windows: self.windows@,
            device: self.device_objects,
            swapchain: self.swapchain_objects,
            sync: self.sync_objects,
            frame: self.frame_loop@,
            ledger: self.ledger@,
        }
    }
}

impl VulkanApiObjects {
    /// Puts the renderer together from what start-up created. Refused when
    /// the per-image objects do not come one to one, when there is no frame
    /// slot, or when the synchronization objects do not come once per slot.
    pub fn init(
        first_window: u64,
        device_objects: DeviceObjects,
        swapchain_objects: SwapchainObjects,
        sync_objects: SyncObjects,
    ) -> (renderer: Result<VulkanApiObjects, RendererError>)
        ensures
            !swapchain_objects.well_formed() ==> renderer is Err && renderer->Err_0
                == RendererError::SwapchainMismatch,
            swapchain_objects.well_formed() && !sync_objects.well_formed(
                sync_objects.inflight_fences@.len(),
            ) ==> renderer is Err && renderer->Err_0 == RendererError::SyncMismatch,
            swapchain_objects.well_formed() && sync_objects.well_formed(
                sync_objects.inflight_fences@.len(),
            ) ==> renderer is Ok && renderer->Ok_0@ == (RendererState {
                windows: Map::<u64, WindowAttributes>::empty().insert(
                    first_window,
                    attributes_spec("origin"),
                ),
                device: device_objects,
                swapchain: swapchain_objects,
                sync: sync_objects,
                frame: FrameState::initial(
                    sync_objects.inflight_fences@.len(),
                    swapchain_objects.command_buffers@.len(),
                ),
                ledger: LedgerState {
                    created: init_order(device_objects.debug_messenger is Some),
                    busy: false,
                },
            }) && renderer->Ok_0@.well_formed(),
    {
        if !swapchain_objects.is_well_formed() {
            return Err(RendererError::SwapchainMismatch);
        }
        let slots = sync_objects.inflight_fences.len();
        if slots == 0 || sync_objects.image_available_semaphores.len() != slots
            || sync_objects.render_finished_semaphores.len() != slots {
            return Err(RendererError::SyncMismatch);
        }
        let frame_loop = match FrameLoop::new(slots, swapchain_objects.command_buffers.len()) {
            Some(frame_loop) => frame_loop,
            None => {
                return Err(RendererError::SyncMismatch);
            },
        };
        let ledger = Ledger::initialized(device_objects.debug_messenger.is_some());
        proof {
            lemma_init_accepted(device_objects.debug_messenger is Some);
        }
        Ok(
            VulkanApiObjects {
                windows: VulkanWindow::init(first_window),
                device_objects,
                swapchain_objects,
                sync_objects,
                frame_loop,
                ledger,
            },
        )
    }

    /// The handles of what lives until shutdown.
    pub fn device_objects(&self) -> (objects: DeviceObjects)
        ensures
            objects == self@.device,
    {
        self.device_objects
    }

    /// The slot the current or next frame uses.
    pub fn current_frame(&self) -> (slot: usize)
        ensures
            slot == self@.frame.current_frame,
    {
        self.frame_loop.current_frame()
    }

    /// The phase of the frame protocol.
    pub fn phase(&self) -> (phase: FramePhase)
        ensures
            phase == self@.frame.phase,
    {
        self.frame_loop.phase()
    }

    /// The number of swapchain images.
    pub fn image_count(&self) -> (count: usize)
        ensures
            count == self@.swapchain.swapchain.swapchain_images@.len(),
    {
        self.swapchain_objects.swapchain.swapchain_images.len()
    }

    /// The format of the swapchain images.
    pub fn swapchain_format(&self) -> (format: i32)
        ensures
            format == self@.swapchain.swapchain.swapchain_format,
    {
        self.swapchain_objects.swapchain.swapchain_format
    }

    /// Whether the window with this id is open.
    pub fn contains_window(&self, id: u64) -> (open: bool)
        ensures
            open == self@.windows.contains_key(id),
    {
        self.windows.contains(id)
    }

    /// The number of open windows.
    pub fn window_count(&self) -> (count: usize)
        ensures
            count == self@.windows.len(),
    {
        self.windows.len()
    }

    /// Records the window that was spawned under this id and says whether the
    /// id is new.
    pub fn insert_window(&mut self, id: u64) -> (inserted: bool)
        ensures
            inserted == !old(self)@.windows.contains_key(id),
            final(self)@ == (RendererState {
                windows: old(self)@.windows.insert(id, attributes_spec("spawn")),
                ..old(self)@
            }),
    {
        self.windows.insert(id)
    }

    /// The handles of the objects of `kind`.
    pub fn handles(&self, kind: ResourceKind) -> (handles: Vec<u64>)
        ensures
            handles@ == self@.handles_of(kind),
    {
        match kind {
            ResourceKind::Instance => single_handle(self.device_objects.instance),
            ResourceKind::DebugMessenger => match self.device_objects.debug_messenger {
                Some(messenger) => single_handle(messenger),
                None => Vec::new(),
            },
            ResourceKind::Surface => single_handle(self.device_objects.surface.surface),
            ResourceKind::Device => single_handle(self.device_objects.device),
            ResourceKind::Swapchain => single_handle(self.swapchain_objects.swapchain.swapchain),
            ResourceKind::ImageViews => copy_handles(
                &self.swapchain_objects.swapchain.swapchain_image_views,
            ),
            ResourceKind::RenderPass => single_handle(self.swapchain_objects.render_pass),
            ResourceKind::PipelineLayout => single_handle(self.swapchain_objects.pipeline_layout),
            ResourceKind::Pipeline => single_handle(self.swapchain_objects.graphics_pipeline),
            ResourceKind::Framebuffers => copy_handles(
                &self.swapchain_objects.swapchain_framebuffers,
            ),
            ResourceKind::CommandPool => single_handle(self.device_objects.command_pool),
            ResourceKind::VertexBuffer => single_handle(self.device_objects.vertex_buffer),
            ResourceKind::VertexBufferMemory => single_handle(
                self.device_objects.vertex_buffer_memory,
            ),
            ResourceKind::CommandBuffers => copy_handles(&self.swapchain_objects.command_buffers),
            ResourceKind::ImageAvailableSemaphores => copy_handles(
                &self.sync_objects.image_available_semaphores,
            ),
            ResourceKind::RenderFinishedSemaphores => copy_handles(
                &self.sync_objects.render_finished_semaphores,
            ),
            ResourceKind::InFlightFences => copy_handles(&self.sync_objects.inflight_fences),
        }
    }

    fn commands_for(&self, ops: &Vec<LifecycleOp>) -> (commands: Vec<LifecycleCommand>)
        ensures
            commands@.len() == ops@.len(),
            forall|i: int|
                0 <= i < ops@.len() ==> (#[trigger] commands@[i]).op == ops@[i]
                    && commands@[i].handles@ == self@.handles_for(ops@[i]),
    {
        let mut commands: Vec<LifecycleCommand> = Vec::new();
        let mut i: usize = 0;
        while i < ops.len()
            invariant
                i <= ops@.len(),
                commands@.len() == i,
                forall|j: int|
                    0 <= j < i ==> (#[trigger] commands@[j]).op == ops@[j] && commands@[j].handles@
                        == self@.handles_for(ops@[j]),
            decreases ops@.len() - i,
        {
            let op = ops[i];
            let handles = match op {
                LifecycleOp::Destroy(kind) => self.handles(kind),
                _ => Vec::new(),
            };
            commands.push(LifecycleCommand { op, handles });
            i += 1;
        }
        commands
    }

    /// Takes in what the last GPU operation of the frame returned and answers
    /// with the next one.
    pub fn draw(&mut self, event: FrameEvent) -> (command: DrawCommand)
        requires
            old(self)@.well_formed(),
        ensures
            command == old(self)@.draw_command(event),
            final(self)@ == old(self)@.after_draw(event),
            final(self)@.well_formed(),
    {
        if let FrameEvent::Rebuilt(_) = event {
            return DrawCommand::Ignored;
        }
        let step = self.frame_loop.step(event);
        match step {
            FrameStep::Acquire { slot } => DrawCommand::Acquire {
                fence: self.sync_objects.inflight_fences[slot],
                swapchain: self.swapchain_objects.swapchain.swapchain,
                semaphore: self.sync_objects.image_available_semaphores[slot],
                timeout: UNBOUNDED_TIMEOUT,
            },
            FrameStep::Submit { slot, image_index } => {
                proof {
                    assert(swapchain_scoped(ResourceKind::Swapchain));
                    assert(self.ledger@.dependencies_live(ResourceKind::Swapchain));
                    assert(depends_on(ResourceKind::Swapchain, ResourceKind::Device));
                }
                let _ = self.ledger.apply(LifecycleOp::Submit);
                DrawCommand::Submit {
                    fence: self.sync_objects.inflight_fences[slot],
                    queue: self.device_objects.graphics_queue,
                    command_buffer: self.swapchain_objects.command_buffers[image_index as usize],
                    wait_semaphore: self.sync_objects.image_available_semaphores[slot],
                    wait_stage: PIPELINE_STAGE_COLOR_ATTACHMENT_OUTPUT,
                    signal_semaphore: self.sync_objects.render_finished_semaphores[slot],
                }
            },
            FrameStep::Present { slot, image_index } => DrawCommand::Present {
                queue: self.device_objects.graphics_queue,
                swapchain: self.swapchain_objects.swapchain.swapchain,
                image_index,
                wait_semaphore: self.sync_objects.render_finished_semaphores[slot],
            },
            FrameStep::Rebuild => DrawCommand::Rebuild,
            FrameStep::FrameDone => DrawCommand::FrameDone,
            FrameStep::Abort(error) => DrawCommand::Abort(error),
            FrameStep::Ignored => DrawCommand::Ignored,
        }
    }

    /// The commands that tear down what is scoped to the swapchain: command
    /// buffers, framebuffers, pipeline, pipeline layout, render pass, image
    /// views and the swapchain, in this order, each with its handles. The
    /// device has to be idle before the first of them.
    pub fn cleanup_swapchain(&self) -> (commands: Vec<LifecycleCommand>)
        ensures
            commands@.len() == 7,
            forall|i: int|
                0 <= i < 7 ==> (#[trigger] commands@[i]).op == RendererState::cleanup_ops()[i]
                    && commands@[i].handles@ == self@.handles_for(RendererState::cleanup_ops()[i]),
    {
        let all = rebuild_sequence();
        let mut ops: Vec<LifecycleOp> = Vec::new();
        let mut i: usize = 1;
        while i < 8
            invariant
                all@ == rebuild_ops(),
                1 <= i <= 8,
                ops@ == rebuild_ops().subrange(1, i as int),
            decreases 8 - i,
        {
            ops.push(all[i]);
            assert(rebuild_ops().subrange(1, i as int).push(rebuild_ops()[i as int])
                =~= rebuild_ops().subrange(1, i + 1));
            i += 1;
        }
        self.commands_for(&ops)
    }

    /// The commands of a rebuild: a wait for the device, the teardown of what
    /// is scoped to the swapchain, each kind with its handles, and the
    /// creation of the same kinds in the opposite order.
    pub fn recreate_commands(&self) -> (commands: Vec<LifecycleCommand>)
        ensures
            commands@.len() == rebuild_ops().len(),
            forall|i: int|
                0 <= i < commands@.len() ==> (#[trigger] commands@[i]).op == rebuild_ops()[i]
                    && commands@[i].handles@ == self@.handles_for(rebuild_ops()[i]),
    {
        let ops = rebuild_sequence();
        self.commands_for(&ops)
    }

    /// Takes over what a rebuild created, in place of what was torn down, and
    /// lets the frame loop go on. Refused, with nothing changed, when no
    /// rebuild was asked for or the per-image objects do not come one to one.
    pub fn recreate_swapchain(&mut self, rebuilt: SwapchainObjects) -> (outcome: Result<
        (),
        RendererError,
    >)
        requires
            old(self)@.well_formed(),
        ensures
            old(self)@.frame.phase != FramePhase::Rebuilding ==> outcome == Err::<
                (),
                RendererError,
            >(RendererError::NotRebuilding) && final(self)@ == old(self)@,
            old(self)@.frame.phase == FramePhase::Rebuilding && !rebuilt.well_formed() ==> outcome
                == Err::<(), RendererError>(RendererError::SwapchainMismatch) && final(self)@
                == old(self)@,
            old(self)@.frame.phase == FramePhase::Rebuilding && rebuilt.well_formed() ==> {
                &&& outcome is Ok
                &&& old(self)@.ledger.run(rebuild_ops()) is Ok
                &&& final(self)@ == old(self)@.after_rebuild(rebuilt)
            },
            final(self)@.well_formed(),
    {
        match self.frame_loop.phase() {
            FramePhase::Rebuilding => {},
            _ => {
                return Err(RendererError::NotRebuilding);
            },
        }
        if !rebuilt.is_well_formed() {
            return Err(RendererError::SwapchainMismatch);
        }
        proof {
            lemma_rebuild_accepted(self.ledger@);
        }
        let ops = rebuild_sequence();
        let _ = self.ledger.run(ops.as_slice());
        let _ = self.frame_loop.step(FrameEvent::Rebuilt(rebuilt.command_buffers.len()));
        self.swapchain_objects = rebuilt;
        Ok(())
    }

    /// The commands of shutdown: a wait for the device, then the destruction
    /// of every live kind in reverse order of creation, each with its handles.
    /// The ledger accepts them all and nothing is live afterwards.
    pub fn shutdown(&self) -> (commands: Vec<LifecycleCommand>)
        requires
            self@.well_formed(),
        ensures
            commands@.len() == self@.ledger.teardown_ops().len(),
            forall|i: int|
                0 <= i < commands@.len() ==> (#[trigger] commands@[i]).op
                    == self@.ledger.teardown_ops()[i] && commands@[i].handles@
                    == self@.handles_for(self@.ledger.teardown_ops()[i]),
            self@.ledger.run(self@.ledger.teardown_ops()) == Ok::<LedgerState, LedgerError>(
                LedgerState::empty(),
            ),
    {
        let ops = self.ledger.teardown();
        self.commands_for(&ops)
    }

    /// Takes in one window event: forgets a window that is closed and answers
    /// with what to do and whether to go on.
    pub fn init_event_loop(&mut self, event: WindowEvent) -> (response: EventResponse)
        ensures
            final(self)@ == (RendererState {
                windows: windows_after(old(self)@.windows, event),
                ..old(self)@
            }),
            response == response_spec(old(self)@.windows, event),
    {
        self.windows.init_event_loop(event)
    }
}

/// A rebuild without a resize gives an equivalent set of objects and leaks
/// nothing. Where the surface reports what it reported before and the window
/// has kept its size, the swapchain is asked for with the same parameters;
/// and where the driver then hands out as many images as before, the rebuilt
/// renderer has the same format, extent and number of images, views,
/// framebuffers and command buffers, the same kinds of objects live, the same
/// synchronization objects, and the frame cursor where it was.
pub proof fn lemma_rebuild_without_resize(
    state: RendererState,
    rebuilt: SwapchainObjects,
    capabilities: SurfaceCapabilities,
    formats: Seq<SurfaceFormat>,
    present_modes: Seq<i32>,
    surface: u64,
    window: Extent2D,
    before: SwapchainCreateInfo,
    after: SwapchainCreateInfo,
)
    requires
        state.well_formed(),
        state.frame.phase == FramePhase::Rebuilding,
        rebuilt.well_formed(),
        create_swapchain_spec(capabilities, formats, present_modes, surface, window) == Ok::<
            SwapchainCreateInfo,
            SwapchainError,
        >(before),
        create_swapchain_spec(capabilities, formats, present_modes, surface, window) == Ok::<
            SwapchainCreateInfo,
            SwapchainError,
        >(after),
        state.swapchain.swapchain.built_from(before),
        rebuilt.swapchain.built_from(after),
        rebuilt.swapchain.swapchain_images@.len()
            == state.swapchain.swapchain.swapchain_images@.len(),
    ensures
        after == before,
        state.after_rebuild(rebuilt).well_formed(),
        state.after_rebuild(rebuilt).frame.phase == FramePhase::Idle,
        state.after_rebuild(rebuilt).frame.current_frame == state.frame.current_frame,
        state.after_rebuild(rebuilt).frame.image_count == state.frame.image_count,
        state.after_rebuild(rebuilt).sync == state.sync,
        state.after_rebuild(rebuilt).device == state.device,
        state.after_rebuild(rebuilt).swapchain.swapchain.swapchain_format
            == state.swapchain.swapchain.swapchain_format,
        state.after_rebuild(rebuilt).swapchain.swapchain.swapchain_extent
            == state.swapchain.swapchain.swapchain_extent,
        state.after_rebuild(rebuilt).swapchain.swapchain.swapchain_images@.len()
            == state.swapchain.swapchain.swapchain_images@.len(),
        state.after_rebuild(rebuilt).swapchain.swapchain.swapchain_image_views@.len()
            == state.swapchain.swapchain.swapchain_image_views@.len(),
        state.after_rebuild(rebuilt).swapchain.swapchain_framebuffers@.len()
            == state.swapchain.swapchain_framebuffers@.len(),
        state.after_rebuild(rebuilt).swapchain.command_buffers@.len()
            == state.swapchain.command_buffers@.len(),
        forall|kind: ResourceKind|
            #[trigger] state.after_rebuild(rebuilt).ledger.live(kind) <==> state.ledger.live(kind),
        !state.after_rebuild(rebuilt).ledger.busy,
{
    lemma_rebuild_repeats_choice(capabilities, formats, present_modes, surface, window, window);
    lemma_rebuild_accepted(state.ledger);
    assert(rebuilt.command_buffers.len() == rebuilt.command_buffers@.len());
}

} // verus!
