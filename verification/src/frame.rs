//! The per-frame protocol: which GPU operation comes next, on which frame
//! slot, and when the swapchain has to be rebuilt.
//!
//! The loop itself performs no GPU call. It is told what the last operation
//! returned and answers with the next operation to perform.

use vstd::prelude::*;
use crate::constants::{RESULT_ERROR_OUT_OF_DATE, RESULT_SUBOPTIMAL, RESULT_SUCCESS};

verus! {

/// What waiting on the slot's fence and acquiring the next image returned.
#[derive(Clone, Copy, Debug, PartialEq, Eq, Structural)]
pub enum AcquireOutcome {
    /// The image with this index is ready to be rendered to.
    Image(u32),
    /// The surface no longer matches the swapchain.
    OutOfDate,
    /// The wait or the acquire failed or timed out.
    Failed,
}

/// What presenting the rendered image returned.
#[derive(Clone, Copy, Debug, PartialEq, Eq, Structural)]
pub enum PresentOutcome {
    /// The image was queued for display.
    Presented,
    /// The image was queued, but the swapchain no longer matches the surface exactly.
    Suboptimal,
    /// The surface no longer matches the swapchain.
    OutOfDate,
    /// Presentation failed.
    Failed,
}

/// What the frame loop is told.
#[derive(Clone, Copy, Debug, PartialEq, Eq, Structural)]
pub enum FrameEvent {
    /// A new frame is wanted.
    RedrawRequested,
    /// The fence wait and image acquisition finished.
    Acquired(AcquireOutcome),
    /// The queue submission returned; `true` on success.
    Submitted(bool),
    /// The presentation returned.
    Presented(PresentOutcome),
    /// The swapchain and what hangs off it were rebuilt, with this many images.
    Rebuilt(usize),
}

/// A condition the frame loop does not recover from.
#[derive(Clone, Copy, Debug, PartialEq, Eq, Structural)]
pub enum FrameError {
    /// Waiting for the fence or acquiring an image failed or timed out.
    AcquireFailed,
    /// The acquired image index names no swapchain image.
    ImageIndexOutOfRange,
    /// The queue refused the submission.
    SubmitFailed,
    /// Presentation failed for a reason other than a stale swapchain.
    PresentFailed,
}

/// What the frame loop asks for next.
#[derive(Clone, Copy, Debug, PartialEq, Eq, Structural)]
pub enum FrameStep {
    /// Wait without timeout on the in-flight fence of `slot`, then acquire the
    /// next image, signalling the image-available semaphore of `slot`.
    Acquire { slot: usize },
    /// Reset the fence of `slot`, then submit the command buffer of
    /// `image_index`: it waits on the image-available semaphore of `slot` at the
    /// color attachment output stage and signals the render-finished semaphore
    /// and the fence of `slot`.
    Submit { slot: usize, image_index: u32 },
    /// Present `image_index`, waiting on the render-finished semaphore of `slot`.
    Present { slot: usize, image_index: u32 },
    /// Drain the device and rebuild the swapchain and everything scoped to it.
    Rebuild,
    /// Nothing is left to do until the next redraw request.
    FrameDone,
    /// Stop rendering for good.
    Abort(FrameError),
    /// The event does not belong to the current phase and changed nothing.
    Ignored,
}

/// Where in the frame protocol the loop stands.
#[derive(Clone, Copy, Debug, PartialEq, Eq, Structural)]
pub enum FramePhase {
    /// Between frames.
    Idle,
    /// Waiting for the slot's fence and the next image.
    Acquiring,
    /// Submitting the commands for the acquired image.
    Submitting(u32),
    /// Presenting the rendered image.
    Presenting(u32),
    /// Waiting for the swapchain to be rebuilt.
    Rebuilding,
    /// A fatal error was reported; the loop stays here.
    Failed,
}

/// The mathematical state of a frame loop.
pub struct FrameState {
    /// The slot whose semaphores and fence the next frame uses.
    pub current_frame: nat,
    /// The number of slots.
    pub max_frames_in_flight: nat,
    /// The number of swapchain images.
    pub image_count: nat,
    pub phase: FramePhase,
}

impl FrameState {
    /// There is at least one slot and the cursor names one of them.
    pub open spec fn well_formed(self) -> bool {
        self.current_frame < self.max_frames_in_flight
    }

    /// The state a frame loop starts in.
    pub open spec fn initial(max_frames_in_flight: nat, image_count: nat) -> FrameState {
        FrameState { current_frame: 0, max_frames_in_flight, image_count, phase: FramePhase::Idle }
    }

    /// The slot after the current one, wrapping around.
    pub open spec fn next_frame(self) -> nat {
        (((self.current_frame + 1) as int) % (self.max_frames_in_flight as int)) as nat
    }

    pub open spec fn with_phase(self, phase: FramePhase) -> FrameState {
        FrameState { phase, ..self }
    }

    /// The frame is over: the cursor moves on and the loop enters `phase`.
    pub open spec fn advanced(self, phase: FramePhase) -> FrameState {
        FrameState { current_frame: self.next_frame(), phase, ..self }
    }
}

/// One transition of the frame protocol: the state after `event` and the
/// operation asked for.
pub open spec fn step_spec(state: FrameState, event: FrameEvent) -> (FrameState, FrameStep) {
    match (state.phase, event) {
        (FramePhase::Idle, FrameEvent::RedrawRequested) => (
            state.with_phase(FramePhase::Acquiring),
            FrameStep::Acquire { slot: state.current_frame as usize },
        ),
        (FramePhase::Acquiring, FrameEvent::Acquired(AcquireOutcome::Image(image_index))) => {
            if image_index < state.image_count {
                (
                    state.with_phase(FramePhase::Submitting(image_index)),
                    FrameStep::Submit { slot: state.current_frame as usize, image_index },
                )
            } else {
                (
                    state.with_phase(FramePhase::Failed),
                    FrameStep::Abort(FrameError::ImageIndexOutOfRange),
                )
            }
        },
        (FramePhase::Acquiring, FrameEvent::Acquired(AcquireOutcome::OutOfDate)) => (
            state.with_phase(FramePhase::Rebuilding),
            FrameStep::Rebuild,
        ),
        (FramePhase::Acquiring, FrameEvent::Acquired(AcquireOutcome::Failed)) => (
            state.with_phase(FramePhase::Failed),
            FrameStep::Abort(FrameError::AcquireFailed),
        ),
        (FramePhase::Submitting(image_index), FrameEvent::Submitted(true)) => (
            state.with_phase(FramePhase::Presenting(image_index)),
            FrameStep::Present { slot: state.current_frame as usize, image_index },
        ),
        (FramePhase::Submitting(_), FrameEvent::Submitted(false)) => (
            state.with_phase(FramePhase::Failed),
            FrameStep::Abort(FrameError::SubmitFailed),
        ),
        (FramePhase::Presenting(_), FrameEvent::Presented(PresentOutcome::Presented)) => (
            state.advanced(FramePhase::Idle),
            FrameStep::FrameDone,
        ),
        (FramePhase::Presenting(_), FrameEvent::Presented(PresentOutcome::Suboptimal)) => (
            state.advanced(FramePhase::Rebuilding),
            FrameStep::Rebuild,
        ),
        (FramePhase::Presenting(_), FrameEvent::Presented(PresentOutcome::OutOfDate)) => (
            state.advanced(FramePhase::Rebuilding),
            FrameStep::Rebuild,
        ),
        (FramePhase::Presenting(_), FrameEvent::Presented(PresentOutcome::Failed)) => (
            state.with_phase(FramePhase::Failed),
            FrameStep::Abort(FrameError::PresentFailed),
        ),
        (FramePhase::Rebuilding, FrameEvent::Rebuilt(image_count)) => (
            FrameState { image_count: image_count as nat, phase: FramePhase::Idle, ..state },
            FrameStep::FrameDone,
        ),
        _ => (state, FrameStep::Ignored),
    }
}

/// How the result code of an image acquisition is read.
pub open spec fn acquire_outcome_spec(result: i32, image_index: u32) -> AcquireOutcome {
    if result == RESULT_SUCCESS || result == RESULT_SUBOPTIMAL {
        AcquireOutcome::Image(image_index)
    } else if result == RESULT_ERROR_OUT_OF_DATE {
        AcquireOutcome::OutOfDate
    } else {
        AcquireOutcome::Failed
    }
}

/// How the result code of a presentation is read.
pub open spec fn present_outcome_spec(result: i32) -> PresentOutcome {
    if result == RESULT_SUCCESS {
        PresentOutcome::Presented
    } else if result == RESULT_SUBOPTIMAL {
        PresentOutcome::Suboptimal
    } else if result == RESULT_ERROR_OUT_OF_DATE {
        PresentOutcome::OutOfDate
    } else {
        PresentOutcome::Failed
    }
}

/// How the result code of the wait on the slot's fence is read: `None` where
/// the fence was signaled and the image can be acquired.
pub open spec fn wait_outcome_spec(result: i32) -> Option<AcquireOutcome> {
    if result == RESULT_SUCCESS {
        None
    } else {
        Some(AcquireOutcome::Failed)
    }
}

impl AcquireOutcome {
    /// Reads the result code of the wait on the slot's fence. Anything but
    /// success, a timeout included, ends the frame loop; after success the
    /// image is acquired.
    pub fn from_wait_result(result: i32) -> (outcome: Option<AcquireOutcome>)
        ensures
            outcome == wait_outcome_spec(result),
    {
        if result == RESULT_SUCCESS {
            None
        } else {
            Some(AcquireOutcome::Failed)
        }
    }

    /// Reads the result code of an image acquisition. Success and a suboptimal
    /// swapchain both deliver the image; only a stale surface asks for a rebuild.
    pub fn from_result(result: i32, image_index: u32) -> (outcome: AcquireOutcome)
        ensures
            outcome == acquire_outcome_spec(result, image_index),
    {
        if result == RESULT_SUCCESS || result == RESULT_SUBOPTIMAL {
            AcquireOutcome::Image(image_index)
        } else if result == RESULT_ERROR_OUT_OF_DATE {
            AcquireOutcome::OutOfDate
        } else {
            AcquireOutcome::Failed
        }
    }
}

impl PresentOutcome {
    /// Reads the result code of a presentation.
    pub fn from_result(result: i32) -> (outcome: PresentOutcome)
        ensures
            outcome == present_outcome_spec(result),
    {
        if result == RESULT_SUCCESS {
            PresentOutcome::Presented
        } else if result == RESULT_SUBOPTIMAL {
            PresentOutcome::Suboptimal
        } else if result == RESULT_ERROR_OUT_OF_DATE {
            PresentOutcome::OutOfDate
        } else {
            PresentOutcome::Failed
        }
    }
}

/// The frame cursor and the phase of the frame being drawn.
pub struct FrameLoop {
    current_frame: usize,
    max_frames_in_flight: usize,
    image_count: usize,
    phase: FramePhase,
}

impl View for FrameLoop {
    type V = FrameState;

    closed spec fn view(&self) -> FrameState {
        FrameState {
            current_frame: self.current_frame as nat,
            max_frames_in_flight: self.max_frames_in_flight as nat,
            image_count: self.image_count as nat,
            phase: self.phase,
        }
    }
}

impl FrameLoop {
    #[verifier::type_invariant]
    spec fn cursor_in_range(self) -> bool {
        self.current_frame < self.max_frames_in_flight
    }

    /// A loop over `max_frames_in_flight` slots and `image_count` swapchain
    /// images, idle with the cursor on the first slot. There is no loop
    /// without a slot.
    pub fn new(max_frames_in_flight: usize, image_count: usize) -> (created: Option<FrameLoop>)
        ensures
            max_frames_in_flight == 0 ==> created is None,
            max_frames_in_flight > 0 ==> created is Some && created->Some_0@ == FrameState::initial(
                max_frames_in_flight as nat,
                image_count as nat,
            ),
    {
        if max_frames_in_flight == 0 {
            None
        } else {
            Some(
                FrameLoop {
                    current_frame: 0,
                    max_frames_in_flight,
                    image_count,
                    phase: FramePhase::Idle,
                },
            )
        }
    }

    /// The slot the current or next frame uses.
    pub fn current_frame(&self) -> (slot: usize)
        ensures
            slot == self@.current_frame,
            self@.well_formed(),
    {
        proof {
            use_type_invariant(self);
        }
        self.current_frame
    }

    /// The number of slots.
    pub fn max_frames_in_flight(&self) -> (slots: usize)
        ensures
            slots == self@.max_frames_in_flight,
    {
        self.max_frames_in_flight
    }

    /// The number of swapchain images the loop accepts indices for.
    pub fn image_count(&self) -> (count: usize)
        ensures
            count == self@.image_count,
    {
        self.image_count
    }

    /// The phase of the frame protocol.
    pub fn phase(&self) -> (phase: FramePhase)
        ensures
            phase == self@.phase,
    {
        self.phase
    }

    /// Takes in what the last operation returned and answers with the next one.
    pub fn step(&mut self, event: FrameEvent) -> (step: FrameStep)
        ensures
            (final(self)@, step) == step_spec(old(self)@, event),
            final(self)@.well_formed(),
    {
        proof {
            use_type_invariant(&*self);
        }
        let slot = self.current_frame;
        match (self.phase, event) {
            (FramePhase::Idle, FrameEvent::RedrawRequested) => {
                self.phase = FramePhase::Acquiring;
                FrameStep::Acquire { slot }
            },
            (FramePhase::Acquiring, FrameEvent::Acquired(AcquireOutcome::Image(image_index))) => {
                if (image_index as u64) < (self.image_count as u64) {
                    self.phase = FramePhase::Submitting(image_index);
                    FrameStep::Submit { slot, image_index }
                } else {
                    self.phase = FramePhase::Failed;
                    FrameStep::Abort(FrameError::ImageIndexOutOfRange)
                }
            },
            (FramePhase::Acquiring, FrameEvent::Acquired(AcquireOutcome::OutOfDate)) => {
                self.phase = FramePhase::Rebuilding;
                FrameStep::Rebuild
            },
            (FramePhase::Acquiring, FrameEvent::Acquired(AcquireOutcome::Failed)) => {
                self.phase = FramePhase::Failed;
                FrameStep::Abort(FrameError::AcquireFailed)
            },
            (FramePhase::Submitting(image_index), FrameEvent::Submitted(true)) => {
                self.phase = FramePhase::Presenting(image_index);
                FrameStep::Present { slot, image_index }
            },
            (FramePhase::Submitting(_), FrameEvent::Submitted(false)) => {
                self.phase = FramePhase::Failed;
                FrameStep::Abort(FrameError::SubmitFailed)
            },
            (FramePhase::Presenting(_), FrameEvent::Presented(PresentOutcome::Presented)) => {
                self.current_frame = (self.current_frame + 1) % self.max_frames_in_flight;
                self.phase = FramePhase::Idle;
                FrameStep::FrameDone
            },
            (FramePhase::Presenting(_), FrameEvent::Presented(PresentOutcome::Suboptimal)) => {
                self.current_frame = (self.current_frame + 1) % self.max_frames_in_flight;
                self.phase = FramePhase::Rebuilding;
                FrameStep::Rebuild
            },
            (FramePhase::Presenting(_), FrameEvent::Presented(PresentOutcome::OutOfDate)) => {
                self.current_frame = (self.current_frame + 1) % self.max_frames_in_flight;
                self.phase = FramePhase::Rebuilding;
                FrameStep::Rebuild
            },
            (FramePhase::Presenting(_), FrameEvent::Presented(PresentOutcome::Failed)) => {
                self.phase = FramePhase::Failed;
                FrameStep::Abort(FrameError::PresentFailed)
            },
            (FramePhase::Rebuilding, FrameEvent::Rebuilt(image_count)) => {
                self.image_count = image_count;
                self.phase = FramePhase::Idle;
                FrameStep::FrameDone
            },
            _ => FrameStep::Ignored,
        }
    }
}

} // verus!
