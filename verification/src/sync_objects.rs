//! The per-frame synchronization objects: two semaphores and a fence for each
//! frame that may be in flight.

use vstd::prelude::*;
use crate::constants::FENCE_CREATE_SIGNALED;

verus! {

/// The parameters a semaphore is created with.
#[derive(Clone, Copy, Debug, PartialEq, Eq, Structural)]
pub struct SemaphoreCreateInfo {
    pub flags: u32,
}

/// The parameters a fence is created with.
#[derive(Clone, Copy, Debug, PartialEq, Eq, Structural)]
pub struct FenceCreateInfo {
    pub flags: u32,
}

/// The parameters of the three objects of one frame slot.
#[derive(Clone, Copy, Debug, PartialEq, Eq, Structural)]
pub struct FrameSyncCreateInfo {
    pub image_available: SemaphoreCreateInfo,
    pub render_finished: SemaphoreCreateInfo,
    pub in_flight: FenceCreateInfo,
}

/// The synchronization objects of all frame slots, slot by slot.
pub struct SyncObjects {
    pub image_available_semaphores: Vec<u64>,
    pub render_finished_semaphores: Vec<u64>,
    pub inflight_fences: Vec<u64>,
}

/// Why the synchronization objects do not fit the frame loop.
#[derive(Clone, Copy, Debug, PartialEq, Eq, Structural)]
pub enum SyncError {
    /// There is no frame slot.
    NoFrameSlot,
    /// A kind of object does not come once per frame slot.
    SlotCountMismatch,
}

/// Plain semaphores, and a fence that starts out signaled so that the first
/// wait on it returns at once.
pub open spec fn frame_sync_spec() -> FrameSyncCreateInfo {
    FrameSyncCreateInfo {
        image_available: SemaphoreCreateInfo { flags: 0 },
        render_finished: SemaphoreCreateInfo { flags: 0 },
        in_flight: FenceCreateInfo { flags: FENCE_CREATE_SIGNALED },
    }
}

impl SyncObjects {
    /// Each kind of object comes once per frame slot.
    pub open spec fn well_formed(&self, max_frames_in_flight: nat) -> bool {
        &&& max_frames_in_flight > 0
        &&& self.image_available_semaphores@.len() == max_frames_in_flight
        &&& self.render_finished_semaphores@.len() == max_frames_in_flight
        &&& self.inflight_fences@.len() == max_frames_in_flight
    }

    /// Binds the created objects together. Refused where there is no frame
    /// slot or a kind of object does not come once per slot.
    pub fn assemble(
        max_frames_in_flight: usize,
        image_available_semaphores: Vec<u64>,
        render_finished_semaphores: Vec<u64>,
        inflight_fences: Vec<u64>,
    ) -> (assembled: Result<SyncObjects, SyncError>)
        ensures
            max_frames_in_flight == 0 ==> assembled is Err && assembled->Err_0
                == SyncError::NoFrameSlot,
            max_frames_in_flight > 0 && !(image_available_semaphores@.len() == max_frames_in_flight
                && render_finished_semaphores@.len() == max_frames_in_flight
                && inflight_fences@.len() == max_frames_in_flight) ==> assembled is Err
                && assembled->Err_0 == SyncError::SlotCountMismatch,
            max_frames_in_flight > 0 && image_available_semaphores@.len() == max_frames_in_flight
                && render_finished_semaphores@.len() == max_frames_in_flight
                && inflight_fences@.len() == max_frames_in_flight ==> assembled == Ok::<
                SyncObjects,
                SyncError,
            >(
                SyncObjects {
                    image_available_semaphores,
                    render_finished_semaphores,
                    inflight_fences,
                },
            ),
            assembled is Ok ==> assembled->Ok_0.well_formed(max_frames_in_flight as nat),
    {
        if max_frames_in_flight == 0 {
            Err(SyncError::NoFrameSlot)
        } else if image_available_semaphores.len() != max_frames_in_flight
            || render_finished_semaphores.len() != max_frames_in_flight || inflight_fences.len()
            != max_frames_in_flight {
            Err(SyncError::SlotCountMismatch)
        } else {
            Ok(
                SyncObjects {
                    image_available_semaphores,
                    render_finished_semaphores,
                    inflight_fences,
                },
            )
        }
    }
}

/// Describes the synchronization objects to create: for each of the
/// `max_frames_in_flight` slots two semaphores and one signaled fence.
pub fn create_sync_objects(max_frames_in_flight: usize) -> (infos: Vec<FrameSyncCreateInfo>)
    ensures
        infos@.len() == max_frames_in_flight,
        forall|slot: int| 0 <= slot < max_frames_in_flight ==> #[trigger] infos@[slot]
            == frame_sync_spec(),
{
    let mut infos: Vec<FrameSyncCreateInfo> = Vec::new();
    let mut slot: usize = 0;
    while slot < max_frames_in_flight
        invariant
            slot <= max_frames_in_flight,
            infos@.len() == slot,
            forall|k: int| 0 <= k < slot ==> #[trigger] infos@[k] == frame_sync_spec(),
        decreases max_frames_in_flight - slot,
    {
        infos.push(
            FrameSyncCreateInfo {
                image_available: SemaphoreCreateInfo { flags: 0 },
                render_finished: SemaphoreCreateInfo { flags: 0 },
                in_flight: FenceCreateInfo { flags: FENCE_CREATE_SIGNALED },
            },
        );
        slot += 1;
    }
    infos
}

} // verus!
