//! What holds of the frame protocol over whole runs of events: how the cursor
//! moves, when the fence of a slot is waited on, and what a rebuild and a
//! failure do to the loop.

use vstd::prelude::*;
use vstd::arithmetic::div_mod::{lemma_add_mod_noop, lemma_mod_twice, lemma_small_mod};
use crate::frame::{
    step_spec, AcquireOutcome, FrameEvent, FramePhase, FrameState, FrameStep, PresentOutcome,
};

verus! {

/// The state after `events` have been taken in one after the other.
pub open spec fn run_spec(state: FrameState, events: Seq<FrameEvent>) -> FrameState
    decreases events.len(),
{
    if events.len() == 0 {
        state
    } else {
        step_spec(run_spec(state, events.drop_last()), events.last()).0
    }
}

/// The operations asked for while `events` are taken in, in order.
pub open spec fn trace_spec(state: FrameState, events: Seq<FrameEvent>) -> Seq<FrameStep>
    decreases events.len(),
{
    if events.len() == 0 {
        Seq::empty()
    } else {
        trace_spec(state, events.drop_last()).push(
            step_spec(run_spec(state, events.drop_last()), events.last()).1,
        )
    }
}

/// The events of one frame in which every operation succeeds and the image
/// `image_index` is drawn.
pub open spec fn successful_frame(image_index: u32) -> Seq<FrameEvent> {
    seq![
        FrameEvent::RedrawRequested,
        FrameEvent::Acquired(AcquireOutcome::Image(image_index)),
        FrameEvent::Submitted(true),
        FrameEvent::Presented(PresentOutcome::Presented),
    ]
}

/// The events of consecutive successful frames that draw `images` in turn.
pub open spec fn successful_frames(images: Seq<u32>) -> Seq<FrameEvent>
    decreases images.len(),
{
    if images.len() == 0 {
        Seq::empty()
    } else {
        successful_frames(images.drop_last()) + successful_frame(images.last())
    }
}

/// The operations of the `frame`-th of a run of successful frames.
pub open spec fn successful_frame_steps(max_frames_in_flight: nat, frame: nat, image_index: u32) -> Seq<
    FrameStep,
> {
    let slot = (frame % max_frames_in_flight) as usize;
    seq![
        FrameStep::Acquire { slot },
        FrameStep::Submit { slot, image_index },
        FrameStep::Present { slot, image_index },
        FrameStep::FrameDone,
    ]
}

/// Taking in two event sequences in a row is taking in their concatenation.
pub proof fn lemma_run_concat(state: FrameState, first: Seq<FrameEvent>, second: Seq<FrameEvent>)
    ensures
        run_spec(state, first + second) == run_spec(run_spec(state, first), second),
        trace_spec(state, first + second) == trace_spec(state, first) + trace_spec(
            run_spec(state, first),
            second,
        ),
    decreases second.len(),
{
    if second.len() == 0 {
        assert(first + second =~= first);
        assert(trace_spec(state, first) + Seq::<FrameStep>::empty() =~= trace_spec(state, first));
    } else {
        lemma_run_concat(state, first, second.drop_last());
        assert((first + second).drop_last() =~= first + second.drop_last());
        assert((first + second).last() == second.last());
        assert(trace_spec(state, first + second) =~= trace_spec(state, first) + trace_spec(
            run_spec(state, first),
            second,
        ));
    }
}

/// A successful frame that starts idle asks for acquire, submit and present on
/// the current slot, in this order, and ends idle on the next slot.
pub proof fn lemma_successful_frame(state: FrameState, image_index: u32)
    requires
        state.phase == FramePhase::Idle,
        image_index < state.image_count,
    ensures
        run_spec(state, successful_frame(image_index)) == state.advanced(FramePhase::Idle),
        trace_spec(state, successful_frame(image_index)) == seq![
            FrameStep::Acquire { slot: state.current_frame as usize },
            FrameStep::Submit { slot: state.current_frame as usize, image_index },
            FrameStep::Present { slot: state.current_frame as usize, image_index },
            FrameStep::FrameDone,
        ],
{
    let e0 = Seq::<FrameEvent>::empty();
    let e1 = e0.push(FrameEvent::RedrawRequested);
    let e2 = e1.push(FrameEvent::Acquired(AcquireOutcome::Image(image_index)));
    let e3 = e2.push(FrameEvent::Submitted(true));
    let e4 = e3.push(FrameEvent::Presented(PresentOutcome::Presented));
    assert(e1.drop_last() =~= e0);
    assert(e2.drop_last() =~= e1);
    assert(e3.drop_last() =~= e2);
    assert(e4.drop_last() =~= e3);
    assert(e4 =~= successful_frame(image_index));
    let s1 = state.with_phase(FramePhase::Acquiring);
    let s2 = state.with_phase(FramePhase::Submitting(image_index));
    let s3 = state.with_phase(FramePhase::Presenting(image_index));
    assert(run_spec(state, e0) == state);
    assert(run_spec(state, e1) == s1);
    assert(run_spec(state, e2) == s2);
    assert(run_spec(state, e3) == s3);
    assert(run_spec(state, e4) == state.advanced(FramePhase::Idle));
    assert(trace_spec(state, e0) =~= Seq::<FrameStep>::empty());
    assert(trace_spec(state, e1) =~= seq![FrameStep::Acquire { slot: state.current_frame as usize }]);
    assert(trace_spec(state, e2) =~= seq![
        FrameStep::Acquire { slot: state.current_frame as usize },
        FrameStep::Submit { slot: state.current_frame as usize, image_index },
    ]);
    assert(trace_spec(state, e3) =~= seq![
        FrameStep::Acquire { slot: state.current_frame as usize },
        FrameStep::Submit { slot: state.current_frame as usize, image_index },
        FrameStep::Present { slot: state.current_frame as usize, image_index },
    ]);
    assert(trace_spec(state, e4) =~= seq![
        FrameStep::Acquire { slot: state.current_frame as usize },
        FrameStep::Submit { slot: state.current_frame as usize, image_index },
        FrameStep::Present { slot: state.current_frame as usize, image_index },
        FrameStep::FrameDone,
    ]);
}

/// Across any run of successful frames from the initial state the cursor
/// counts the frames modulo the number of slots: after `images.len()` frames it
/// stands on slot `images.len() % max_frames_in_flight`, the loop is idle, and
/// the operations asked for are those of the frames in turn.
pub proof fn lemma_cursor_counts_frames(
    max_frames_in_flight: nat,
    image_count: nat,
    images: Seq<u32>,
)
    requires
        max_frames_in_flight > 0,
        forall|i: int| 0 <= i < images.len() ==> images[i] < image_count,
    ensures
        run_spec(
            FrameState::initial(max_frames_in_flight, image_count),
            successful_frames(images),
        ) == (FrameState {
            current_frame: images.len() % max_frames_in_flight,
            ..FrameState::initial(max_frames_in_flight, image_count)
        }),
        trace_spec(
            FrameState::initial(max_frames_in_flight, image_count),
            successful_frames(images),
        ).len() == 4 * images.len(),
        forall|frame: int|
            #![trigger images[frame]]
            0 <= frame < images.len() ==> trace_spec(
                FrameState::initial(max_frames_in_flight, image_count),
                successful_frames(images),
            ).subrange(4 * frame, 4 * frame + 4) == successful_frame_steps(
                max_frames_in_flight,
                frame as nat,
                images[frame],
            ),
    decreases images.len(),
{
    let initial = FrameState::initial(max_frames_in_flight, image_count);
    if images.len() == 0 {
        lemma_small_mod(0, max_frames_in_flight);
    } else {
        let earlier = images.drop_last();
        let count = earlier.len();
        lemma_cursor_counts_frames(max_frames_in_flight, image_count, earlier);
        let before = run_spec(initial, successful_frames(earlier));
        lemma_run_concat(initial, successful_frames(earlier), successful_frame(images.last()));
        lemma_successful_frame(before, images.last());
        assert(before.next_frame() == images.len() % max_frames_in_flight) by {
            lemma_add_mod_noop(count as int, 1, max_frames_in_flight as int);
            lemma_mod_twice(count as int, max_frames_in_flight as int);
            if max_frames_in_flight == 1 {
                assert(1int % 1 == 0);
            } else {
                lemma_small_mod(1, max_frames_in_flight);
            }
            lemma_add_mod_noop((count % max_frames_in_flight) as int, 1, max_frames_in_flight as int);
        }
        let earlier_trace = trace_spec(initial, successful_frames(earlier));
        let last_trace = trace_spec(before, successful_frame(images.last()));
        let trace = trace_spec(initial, successful_frames(images));
        assert(trace == earlier_trace + last_trace);
        assert forall|frame: int| 0 <= frame < images.len() implies trace.subrange(
            4 * frame,
            4 * frame + 4,
        ) == successful_frame_steps(max_frames_in_flight, frame as nat, #[trigger] images[frame]) by {
            if frame < count {
                assert(earlier[frame] == images[frame]);
                assert(trace.subrange(4 * frame, 4 * frame + 4) =~= earlier_trace.subrange(
                    4 * frame,
                    4 * frame + 4,
                ));
            } else {
                assert(trace.subrange(4 * frame, 4 * frame + 4) =~= last_trace);
            }
        }
    }
}

/// In a run of successful frames the cursor before frame `frame` is
/// `frame % max_frames_in_flight`.
pub proof fn lemma_cursor_before_frame(
    max_frames_in_flight: nat,
    image_count: nat,
    images: Seq<u32>,
    frame: nat,
)
    requires
        max_frames_in_flight > 0,
        frame <= images.len(),
        forall|i: int| 0 <= i < images.len() ==> images[i] < image_count,
    ensures
        run_spec(
            FrameState::initial(max_frames_in_flight, image_count),
            successful_frames(images.take(frame as int)),
        ).current_frame == frame % max_frames_in_flight,
        run_spec(
            FrameState::initial(max_frames_in_flight, image_count),
            successful_frames(images.take(frame as int)),
        ).phase == FramePhase::Idle,
{
    lemma_cursor_counts_frames(max_frames_in_flight, image_count, images.take(frame as int));
}

/// In a run of successful frames no fence is waited on twice without a reset
/// and a submission of the same slot in between: between any two operations
/// that wait on the fence of one slot lies one that resets and re-arms it.
pub proof fn lemma_fence_rearmed_between_waits(
    max_frames_in_flight: nat,
    image_count: nat,
    images: Seq<u32>,
    earlier: int,
    later: int,
    slot: usize,
)
    requires
        max_frames_in_flight > 0,
        forall|i: int| 0 <= i < images.len() ==> images[i] < image_count,
        0 <= earlier < later < 4 * images.len(),
        trace_spec(
            FrameState::initial(max_frames_in_flight, image_count),
            successful_frames(images),
        )[earlier] == (FrameStep::Acquire { slot }),
        trace_spec(
            FrameState::initial(max_frames_in_flight, image_count),
            successful_frames(images),
        )[later] == (FrameStep::Acquire { slot }),
    ensures
        earlier + 1 < later,
        trace_spec(
            FrameState::initial(max_frames_in_flight, image_count),
            successful_frames(images),
        )[earlier + 1] == (FrameStep::Submit { slot, image_index: images[earlier / 4] }),
{
    let trace = trace_spec(
        FrameState::initial(max_frames_in_flight, image_count),
        successful_frames(images),
    );
    lemma_cursor_counts_frames(max_frames_in_flight, image_count, images);
    let first_frame = earlier / 4;
    let second_frame = later / 4;
    let first_steps = successful_frame_steps(
        max_frames_in_flight,
        first_frame as nat,
        images[first_frame],
    );
    let second_steps = successful_frame_steps(
        max_frames_in_flight,
        second_frame as nat,
        images[second_frame],
    );
    assert(trace.subrange(4 * first_frame, 4 * first_frame + 4) == first_steps);
    assert(trace.subrange(4 * second_frame, 4 * second_frame + 4) == second_steps);
    assert(trace[earlier] == trace.subrange(4 * first_frame, 4 * first_frame + 4)[earlier - 4
        * first_frame]);
    assert(trace[later] == trace.subrange(4 * second_frame, 4 * second_frame + 4)[later - 4
        * second_frame]);
    assert(earlier == 4 * first_frame);
    assert(later == 4 * second_frame);
    assert(trace[earlier + 1] == trace.subrange(4 * first_frame, 4 * first_frame + 4)[1]);
}

/// The number of frames that `events` bring to their end: the presentations
/// that are taken in while a frame is being presented and that did not fail.
pub open spec fn frames_presented(state: FrameState, events: Seq<FrameEvent>) -> nat
    decreases events.len(),
{
    if events.len() == 0 {
        0
    } else {
        let before = run_spec(state, events.drop_last());
        let earlier = frames_presented(state, events.drop_last());
        match (before.phase, events.last()) {
            (FramePhase::Presenting(_), FrameEvent::Presented(outcome)) => {
                if outcome == PresentOutcome::Failed {
                    earlier
                } else {
                    earlier + 1
                }
            },
            _ => earlier,
        }
    }
}

/// Whatever happens, the cursor names a slot and moves on by exactly one slot,
/// wrapping around, for each frame that is presented: an aborted frame, a
/// rebuild and an event out of turn leave it where it is.
pub proof fn lemma_cursor_counts_presented_frames(state: FrameState, events: Seq<FrameEvent>)
    requires
        state.well_formed(),
    ensures
        run_spec(state, events).well_formed(),
        run_spec(state, events).max_frames_in_flight == state.max_frames_in_flight,
        run_spec(state, events).current_frame as int == (state.current_frame + frames_presented(
            state,
            events,
        )) as int % (state.max_frames_in_flight as int),
    decreases events.len(),
{
    let slots = state.max_frames_in_flight as int;
    if events.len() == 0 {
        lemma_small_mod(state.current_frame, state.max_frames_in_flight);
    } else {
        lemma_cursor_counts_presented_frames(state, events.drop_last());
        let before = run_spec(state, events.drop_last());
        let earlier = (state.current_frame + frames_presented(state, events.drop_last())) as int;
        let after = step_spec(before, events.last()).0;
        if frames_presented(state, events) == frames_presented(state, events.drop_last()) + 1 {
            assert(after.current_frame == before.next_frame());
            assert((earlier + 1) % slots == (before.current_frame as int + 1) % slots) by {
                lemma_add_mod_noop(earlier, 1, slots);
                lemma_add_mod_noop(before.current_frame as int, 1, slots);
                lemma_mod_twice(earlier, slots);
            }
        } else {
            assert(after.current_frame == before.current_frame);
        }
    }
}

/// A stale swapchain is never used again: once a rebuild is asked for,
/// nothing is acquired, submitted or presented until the rebuild is over.
pub proof fn lemma_rebuilding_waits_for_the_rebuild(state: FrameState, event: FrameEvent)
    requires
        state.phase == FramePhase::Rebuilding,
    ensures
        !(event is Rebuilt) ==> step_spec(state, event) == (state, FrameStep::Ignored),
        event is Rebuilt ==> step_spec(state, event).0.phase == FramePhase::Idle && step_spec(
            state,
            event,
        ).0.current_frame == state.current_frame && step_spec(state, event).1
            == FrameStep::FrameDone,
{
}

/// A fatal error ends the frame loop: no event gets it going again.
pub proof fn lemma_failure_is_final(state: FrameState, events: Seq<FrameEvent>)
    requires
        state.phase == FramePhase::Failed,
    ensures
        run_spec(state, events) == state,
        forall|k: int| 0 <= k < events.len() ==> trace_spec(state, events)[k] == FrameStep::Ignored,
        trace_spec(state, events).len() == events.len(),
    decreases events.len(),
{
    if events.len() > 0 {
        lemma_failure_is_final(state, events.drop_last());
    }
}

/// The position of the last operation in `trace` that is not `Ignored`.
pub open spec fn last_operation(trace: Seq<FrameStep>) -> Option<int>
    decreases trace.len(),
{
    if trace.len() == 0 {
        None
    } else if trace.last() != FrameStep::Ignored {
        Some(trace.len() - 1)
    } else {
        last_operation(trace.drop_last())
    }
}

/// The last operation is an operation, and only ignored events follow it.
pub proof fn lemma_last_operation(trace: Seq<FrameStep>)
    ensures
        match last_operation(trace) {
            Some(at) => {
                &&& 0 <= at < trace.len()
                &&& trace[at] != FrameStep::Ignored
                &&& forall|k: int| at < k < trace.len() ==> trace[k] == FrameStep::Ignored
            },
            None => forall|k: int| 0 <= k < trace.len() ==> trace[k] == FrameStep::Ignored,
        },
    decreases trace.len(),
{
    if trace.len() > 0 && trace.last() == FrameStep::Ignored {
        lemma_last_operation(trace.drop_last());
        assert forall|k: int| 0 <= k < trace.len() - 1 implies trace[k] == trace.drop_last()[k] by {}
    }
}

/// The prefix of a run is the run of the prefix.
pub proof fn lemma_run_prefix(state: FrameState, events: Seq<FrameEvent>, count: int)
    requires
        0 <= count <= events.len(),
    ensures
        trace_spec(state, events).len() == events.len(),
        trace_spec(state, events).take(count) == trace_spec(state, events.take(count)),
        count < events.len() ==> trace_spec(state, events)[count] == step_spec(
            run_spec(state, events.take(count)),
            events[count],
        ).1,
    decreases events.len(),
{
    if events.len() > 0 {
        let shorter = events.drop_last();
        if count == events.len() {
            lemma_run_prefix(state, shorter, count - 1);
            assert(events.take(count) =~= events);
            assert(trace_spec(state, events).take(count) =~= trace_spec(state, events));
        } else {
            lemma_run_prefix(state, shorter, count);
            assert(events.take(count) =~= shorter.take(count));
            assert(trace_spec(state, events).take(count) =~= trace_spec(state, shorter).take(count));
            if count == events.len() - 1 {
                assert(shorter.take(count) =~= shorter);
            }
        }
    } else {
        assert(trace_spec(state, events).take(count) =~= trace_spec(state, events.take(count)));
    }
}

/// While an image is being acquired, the last operation asked for is the
/// wait and acquire on the current slot.
pub proof fn lemma_acquiring_follows_acquire(state: FrameState, events: Seq<FrameEvent>)
    requires
        state.phase != FramePhase::Acquiring,
    ensures
        run_spec(state, events).phase == FramePhase::Acquiring ==> (last_operation(
            trace_spec(state, events),
        ) matches Some(at) && trace_spec(state, events)[at] == (FrameStep::Acquire {
            slot: run_spec(state, events).current_frame as usize,
        })),
    decreases events.len(),
{
    if events.len() > 0 {
        lemma_acquiring_follows_acquire(state, events.drop_last());
        let before = run_spec(state, events.drop_last());
        let earlier = trace_spec(state, events.drop_last());
        let step = step_spec(before, events.last()).1;
        let trace = trace_spec(state, events);
        assert(trace == earlier.push(step));
        assert(trace.drop_last() =~= earlier);
        if run_spec(state, events).phase == FramePhase::Acquiring {
            if step == FrameStep::Ignored {
                lemma_last_operation(earlier);
                let at = last_operation(earlier)->Some_0;
                assert(trace[at] == earlier[at]);
            }
        }
    }
}

/// A command buffer is never submitted on a slot before the fence of that
/// slot has been waited on: whatever the events, each submission directly
/// follows the wait and acquire on its own slot, with nothing but ignored
/// events between the two.
pub proof fn lemma_submit_follows_wait(
    state: FrameState,
    events: Seq<FrameEvent>,
    at: int,
    slot: usize,
    image_index: u32,
)
    requires
        state.phase != FramePhase::Acquiring,
        0 <= at < events.len(),
        trace_spec(state, events)[at] == (FrameStep::Submit { slot, image_index }),
    ensures
        last_operation(trace_spec(state, events).take(at)) is Some,
        ({
            let waited = last_operation(trace_spec(state, events).take(at))->Some_0;
            &&& 0 <= waited < at
            &&& trace_spec(state, events)[waited] == (FrameStep::Acquire { slot })
            &&& forall|k: int|
                waited < k < at ==> trace_spec(state, events)[k] == FrameStep::Ignored
        }),
{
    let trace = trace_spec(state, events);
    let prefix = events.take(at);
    lemma_run_prefix(state, events, at);
    lemma_acquiring_follows_acquire(state, prefix);
    let before = run_spec(state, prefix);
    assert(step_spec(before, events[at]).1 == (FrameStep::Submit { slot, image_index }));
    assert(before.phase == FramePhase::Acquiring);
    lemma_last_operation(trace.take(at));
    let waited = last_operation(trace.take(at))->Some_0;
    assert(trace.take(at)[waited] == trace[waited]);
    assert forall|k: int| waited < k < at implies trace[k] == FrameStep::Ignored by {
        assert(trace.take(at)[k] == trace[k]);
    }
}

} // verus!
