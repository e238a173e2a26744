//! What holds of every run of the frame engine, whatever the device answers.

use vstd::prelude::*;
use crate::chain::{AcquireOutcome, RecreateOutcome};
use crate::config::Extent;
use crate::engine::{EngineModel, LoopAction, LoopEvent, LoopPhase};
use crate::frame::{
    FrameAction, FrameEnd, FrameEvent, FrameFuture, FrameModel, FramePhase, PresentOutcome,
};

verus! {

/// The state after `events`, taken in order from `start`.
pub open spec fn run<C>(start: FrameModel<C>, events: Seq<FrameEvent<C>>) -> FrameModel<C>
    decreases events.len(),
{
    if events.len() == 0 {
        start
    } else {
        run(start, events.drop_last()).step(events.last()).0
    }
}

/// The action that answers the last of `events`.
pub open spec fn last_answer<C>(start: FrameModel<C>, events: Seq<FrameEvent<C>>) -> FrameAction
    recommends
        events.len() > 0,
{
    run(start, events.drop_last()).step(events.last()).1
}

/// The surface size most recently observed: that of the last `Begin` the
/// engine took between frames, or the starting one where there was none.
pub open spec fn observed_surface<C>(start: FrameModel<C>, events: Seq<FrameEvent<C>>) -> Extent
    decreases events.len(),
{
    if events.len() == 0 {
        start.surface
    } else {
        let before = run(start, events.drop_last());
        match events.last() {
            FrameEvent::Begin { surface, .. } => if before.phase is Idle {
                surface
            } else {
                observed_surface(start, events.drop_last())
            },
            _ => observed_surface(start, events.drop_last()),
        }
    }
}

/// An event that tells the engine the chain no longer fits the surface.
pub open spec fn signals_staleness<C>(event: FrameEvent<C>) -> bool {
    match event {
        FrameEvent::Begin { resized, .. } => resized,
        FrameEvent::Acquired(AcquireOutcome::Acquired { suboptimal, .. }) => suboptimal,
        FrameEvent::Acquired(AcquireOutcome::OutOfDate) => true,
        FrameEvent::Presented(PresentOutcome::OutOfDate) => true,
        _ => false,
    }
}

/// A step keeps the engine in the states it can be in.
pub proof fn step_preserves_wf<C>(state: FrameModel<C>, event: FrameEvent<C>)
    requires
        state.wf(),
    ensures
        state.step(event).0.wf(),
{
}

/// Every run keeps the engine well formed. In particular the viewport has
/// the size of the chain's images after every event, so also right after any
/// successful recreation.
pub proof fn run_preserves_wf<C>(start: FrameModel<C>, events: Seq<FrameEvent<C>>)
    requires
        start.wf(),
    ensures
        run(start, events).wf(),
        run(start, events).chain.viewport == run(start, events).chain.extent,
    decreases events.len(),
{
    if events.len() > 0 {
        run_preserves_wf(start, events.drop_last());
        step_preserves_wf(run(start, events.drop_last()), events.last());
    }
}

/// Between frames there is always a completion future to wait on, whatever
/// happened in the frames before: presented, abandoned or failed.
pub proof fn future_live_between_frames<C>(start: FrameModel<C>, events: Seq<FrameEvent<C>>)
    requires
        start.wf(),
    ensures
        !run(start, events).phase.holds_future() ==> run(start, events).previous_frame_end is Some,
        run(start, events).phase is Idle ==> run(start, events).previous_frame_end is Some,
{
    run_preserves_wf(start, events);
}

/// A frame that ends, however it ends, leaves a completion future behind.
pub proof fn finished_frame_leaves_future<C>(state: FrameModel<C>, event: FrameEvent<C>)
    requires
        state.wf(),
    ensures
        state.step(event).1 is Finish || state.step(event).1 is Abort ==> state.step(
            event,
        ).0.phase is Idle && state.step(event).0.previous_frame_end is Some,
{
}

/// The engine keeps the surface size of the last `Begin` it took.
pub proof fn surface_is_observed<C>(start: FrameModel<C>, events: Seq<FrameEvent<C>>)
    ensures
        run(start, events).surface == observed_surface(start, events),
    decreases events.len(),
{
    if events.len() > 0 {
        surface_is_observed(start, events.drop_last());
    }
}

/// Last resize wins: when a run ends in a recreation that the engine takes,
/// the size read from the new images is the surface size most recently
/// observed, and the chain and its viewport have that size.
pub proof fn last_resize_wins<C>(start: FrameModel<C>, events: Seq<FrameEvent<C>>)
    requires
        start.wf(),
        events.len() > 0,
        run(start, events.drop_last()).phase is Recreating,
        events.last() is Recreated,
        last_answer(start, events) == FrameAction::Acquire,
    ensures
        events.last()->Recreated_0 matches RecreateOutcome::Rebuilt { resources, extent, .. }
            && extent == observed_surface(start, events) && run(start, events).chain.resources
            == resources,
        run(start, events).chain.extent == observed_surface(start, events),
        run(start, events).chain.viewport == observed_surface(start, events),
        !run(start, events).chain.stale,
{
    run_preserves_wf(start, events.drop_last());
    surface_is_observed(start, events.drop_last());
}

/// Without a resize or a staleness signal nothing is ever recreated: no
/// answer asks for it, and the chain stays the one the run began with.
pub proof fn quiet_run_never_recreates<C>(start: FrameModel<C>, events: Seq<FrameEvent<C>>)
    requires
        start.wf(),
        !start.chain.stale,
        forall|i: int| 0 <= i < events.len() ==> !signals_staleness(#[trigger] events[i]),
    ensures
        run(start, events).chain == start.chain,
        forall|n: int|
            0 < n <= events.len() ==> !(#[trigger] last_answer(start, events.take(n)) is Recreate),
    decreases events.len(),
{
    if events.len() > 0 {
        let shorter = events.drop_last();
        quiet_run_never_recreates(start, shorter);
        run_preserves_wf(start, shorter);
        assert(!signals_staleness(events[events.len() - 1]));
        assert forall|n: int| 0 < n <= events.len() implies !(#[trigger] last_answer(
            start,
            events.take(n),
        ) is Recreate) by {
            if n < events.len() {
                assert(events.take(n) == shorter.take(n));
            } else {
                assert(events.take(n) == events);
            }
        }
    }
}

/// An out-of-date acquisition ends the frame on the spot: the answer is the
/// end of the frame, not a draw or a presentation, and the chain is flagged.
pub proof fn out_of_date_acquire_abandons<C>(state: FrameModel<C>)
    requires
        state.phase is Acquiring,
    ensures
        ({
            let (after, action) = state.step(FrameEvent::Acquired(AcquireOutcome::OutOfDate));
            &&& action == FrameAction::Finish(FrameEnd::AcquireOutOfDate)
            &&& after.phase is Idle
            &&& after.chain.stale
            &&& after.chain.resources == state.chain.resources
            &&& after.previous_frame_end == state.previous_frame_end
        }),
{
}

/// A refused size leaves the chain as it was: same resources, same size, same
/// viewport, still flagged. The frame is abandoned and the next one asks for
/// the recreation again.
pub proof fn unsupported_dimensions_keeps_chain<C>(
    state: FrameModel<C>,
    resized: bool,
    surface: Extent,
)
    requires
        state.wf(),
        state.phase is Recreating,
    ensures
        ({
            let (after, action) = state.step(
                FrameEvent::Recreated(RecreateOutcome::UnsupportedDimensions),
            );
            &&& action == FrameAction::Finish(FrameEnd::UnsupportedDimensions)
            &&& after.chain == state.chain
            &&& after.chain.stale
            &&& after.phase is Idle
            &&& after.step(FrameEvent::Begin { resized, surface }).1 == (FrameAction::Recreate {
                dimensions: surface,
            })
        }),
{
}

/// The flag is sticky: a step clears it only by a successful recreation.
pub proof fn stale_is_sticky<C>(state: FrameModel<C>, event: FrameEvent<C>)
    requires
        state.chain.stale,
    ensures
        state.step(event).0.chain.stale || (state.phase is Recreating && (
        event matches FrameEvent::Recreated(outcome) && state.chain.replaced_by(
            state.surface,
            outcome,
        ))),
{
}

/// A resize always wins: a frame that begins after one asks for a recreation
/// at the surface's size, flagged before or not.
pub proof fn resize_forces_recreation<C>(state: FrameModel<C>, surface: Extent)
    requires
        state.phase is Idle,
    ensures
        state.step(FrameEvent::Begin { resized: true, surface }).1 == (FrameAction::Recreate {
            dimensions: surface,
        }),
        state.step(FrameEvent::Begin { resized: true, surface }).0.chain.stale,
{
}

/// Work is queued only behind both the previous frame's future and the
/// acquire signal of the image it writes.
pub proof fn submission_waits_on_both<C>(state: FrameModel<C>, event: FrameEvent<C>)
    requires
        state.wf(),
        state.step(event).1 is Submit,
    ensures
        state.previous_frame_end == Some(state.step(event).1->wait.previous_frame),
        state.step(event).1->wait.image_acquired == state.step(event).1->Submit_image_index,
        state.phase == (FramePhase::Recording {
            image_index: state.step(event).1->Submit_image_index,
        }),
        state.step(event).0.previous_frame_end is None,
{
}

/// The live future changes hands only at a submission: until then every step
/// keeps it, and the submission waits on exactly the one that was kept. So
/// the work of a frame is queued behind the frame presented before it.
pub proof fn future_kept_until_submission<C>(state: FrameModel<C>, event: FrameEvent<C>)
    requires
        state.wf(),
        !state.phase.holds_future(),
    ensures
        ({
            let (after, action) = state.step(event);
            if action is Submit {
                Some(action->wait.previous_frame) == state.previous_frame_end
            } else {
                after.previous_frame_end == state.previous_frame_end
            }
        }),
{
}

/// A presented frame leaves its own completion as the live future.
pub proof fn presented_frame_becomes_previous<C>(state: FrameModel<C>, image_index: usize)
    requires
        state.phase == (FramePhase::Presenting { image_index }),
    ensures
        ({
            let (after, action) = state.step(FrameEvent::Presented(PresentOutcome::Presented));
            &&& action == FrameAction::Finish(FrameEnd::Presented)
            &&& after.previous_frame_end == Some(FrameFuture::Fence { image_index })
            &&& after.chain == state.chain
        }),
{
}

/// The event the loop hands on to the frame engine, where it hands one on.
pub open spec fn forwarded<C>(state: EngineModel<C>, event: LoopEvent<C>) -> Option<FrameEvent<C>> {
    match (state.phase, event) {
        (LoopPhase::Polling, LoopEvent::Polled { quit, resized, surface }) => if quit {
            None
        } else {
            Some(FrameEvent::Begin { resized, surface })
        },
        (LoopPhase::Drawing, LoopEvent::Gpu(outcome)) => Some(outcome),
        _ => None,
    }
}

/// The loop changes the frame engine only by stepping it, so everything
/// above holds of the frame engine inside a running loop.
pub proof fn loop_only_steps_frame_engine<C>(state: EngineModel<C>, event: LoopEvent<C>)
    ensures
        state.step(event).0.graphics == (match forwarded(state, event) {
            Some(frame_event) => state.graphics.step(frame_event).0,
            None => state.graphics,
        }),
        state.step(event).0.config == state.config,
{
}

/// A quit is taken between frames: no frame is under way, the live future is
/// in place, and the answer is to wait for the device. Only the idle device
/// is answered with the exit.
pub proof fn quit_drains_before_exit<C>(state: EngineModel<C>, resized: bool, surface: Extent)
    requires
        state.wf(),
        state.phase is Polling,
    ensures
        ({
            let (draining, answer) = state.step(LoopEvent::Polled { quit: true, resized, surface });
            &&& answer == LoopAction::WaitIdle
            &&& draining.graphics == state.graphics
            &&& draining.graphics.phase is Idle
            &&& draining.graphics.previous_frame_end is Some
            &&& draining.step(LoopEvent::Idled).1 == LoopAction::Exit(None)
            &&& forall|event: LoopEvent<C>|
                !(event is Idled) ==> #[trigger] draining.step(event).1 == LoopAction::Rejected
        }),
{
}

/// A fatal device error ends the loop the same way: first the wait for the
/// device, then the exit that carries the error.
pub proof fn fatal_error_drains_before_exit<C>(state: EngineModel<C>, event: LoopEvent<C>)
    requires
        state.wf(),
        forwarded(state, event) matches Some(frame_event) && state.graphics.step(
            frame_event,
        ).1 is Abort,
    ensures
        ({
            let (draining, answer) = state.step(event);
            let error = state.graphics.step(forwarded(state, event)->0).1->Abort_0;
            &&& answer == LoopAction::WaitIdle
            &&& draining.phase is Draining
            &&& draining.failure == Some(error)
            &&& draining.step(LoopEvent::Idled).1 == LoopAction::Exit(Some(error))
        }),
{
}

} // verus!
