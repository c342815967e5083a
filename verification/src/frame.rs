//! The per-frame synchronization state machine.
//!
//! One control thread drives the GPU. The orchestrator decides, from
//! its current phase and the event the outside world reports, which
//! operation to perform next: wait on the current slot's fence, acquire
//! a swapchain image, reset and re-record the slot's command buffer,
//! submit, present, and advance to the next slot. The caller performs
//! each ordered action against the driver and feeds the outcome back as
//! the next event. The fence wait is the sole backpressure mechanism:
//! the laws below prove that a slot's command buffer is never reset
//! before that same slot's fence was waited on, and that the slot index
//! cycles through the slots one finished frame at a time.

use vstd::prelude::*;

verus! {

/// Number of frame slots rotated through: the bound on frames in flight.
pub const FRAMES_IN_FLIGHT: usize = 2;

/// Where the orchestrator stands inside the current frame.
#[derive(Clone, Copy, PartialEq, Eq, Structural, Debug)]
pub enum FramePhase {
    /// Between frames.
    Idle,
    /// Waiting for the current slot's in-flight fence.
    WaitingFence,
    /// Acquiring the next swapchain image.
    Acquiring,
    /// Fence and command buffer reset, commands being recorded for the
    /// acquired image.
    Recording { image: u32 },
    /// The command buffer was handed to the queue.
    Submitting { image: u32 },
    /// The image was handed to presentation.
    Presenting { image: u32 },
}

/// What the outside world reports back to the orchestrator.
#[derive(Clone, Copy, PartialEq, Eq, Structural, Debug)]
pub enum FrameEvent {
    /// A new frame should start.
    BeginFrame,
    /// The slot's fence signaled: the GPU retired the slot's previous use.
    FenceSignaled,
    /// Image acquisition succeeded.
    ImageAcquired { image: u32 },
    /// The surface is out of date; the frame must be abandoned.
    AcquireOutOfDate,
    /// The command buffer was recorded.
    CommandsRecorded,
    /// The queue accepted the submission.
    WorkSubmitted,
    /// Presentation succeeded.
    PresentSucceeded,
    /// Presentation reported an out-of-date surface (treated as a
    /// finished frame; the caller should recreate the swapchain).
    PresentOutOfDate,
}

/// The operation the caller must perform next.
#[derive(Clone, Copy, PartialEq, Eq, Structural, Debug)]
pub enum FrameAction {
    /// Block on the slot's in-flight fence.
    WaitFence { slot: usize },
    /// Acquire the next swapchain image, signaling the slot's
    /// image-available semaphore.
    AcquireImage { slot: usize },
    /// Reset the slot's fence and command buffer, update the uniform,
    /// and record the trace/blit commands targeting `image`.
    ResetAndRecord { slot: usize, image: u32 },
    /// Submit the slot's command buffer, waiting on image-available and
    /// signaling render-finished and the slot's fence.
    Submit { slot: usize, image: u32 },
    /// Present `image`, waiting on the render-finished semaphore.
    Present { slot: usize, image: u32 },
    /// The frame is complete; continue with `next_slot`.
    FinishFrame { next_slot: usize },
    /// The frame was abandoned without touching the slot; the caller
    /// should recreate the swapchain.
    SkipFrame,
}

/// The orchestrator's whole state: the current slot and phase.
#[derive(Clone, Copy, PartialEq, Eq, Structural, Debug)]
pub struct FrameCycle {
    pub slot: usize,
    pub phase: FramePhase,
}

/// The slot after a finished frame.
pub open spec fn spec_next_slot(slot: usize) -> usize {
    if slot + 1 < FRAMES_IN_FLIGHT {
        (slot + 1) as usize
    } else {
        0
    }
}

/// The transition function: next state and ordered action for a state
/// and an event. Events that do not fit the phase change nothing and
/// order nothing.
pub open spec fn spec_step(s: FrameCycle, e: FrameEvent) -> (FrameCycle, Option<FrameAction>) {
    match (s.phase, e) {
        (FramePhase::Idle, FrameEvent::BeginFrame) => (
            FrameCycle { phase: FramePhase::WaitingFence, ..s },
            Some(FrameAction::WaitFence { slot: s.slot }),
        ),
        (FramePhase::WaitingFence, FrameEvent::FenceSignaled) => (
            FrameCycle { phase: FramePhase::Acquiring, ..s },
            Some(FrameAction::AcquireImage { slot: s.slot }),
        ),
        (FramePhase::Acquiring, FrameEvent::ImageAcquired { image }) => (
            FrameCycle { phase: FramePhase::Recording { image }, ..s },
            Some(FrameAction::ResetAndRecord { slot: s.slot, image }),
        ),
        (FramePhase::Acquiring, FrameEvent::AcquireOutOfDate) => (
            FrameCycle { phase: FramePhase::Idle, ..s },
            Some(FrameAction::SkipFrame),
        ),
        (FramePhase::Recording { image }, FrameEvent::CommandsRecorded) => (
            FrameCycle { phase: FramePhase::Submitting { image }, ..s },
            Some(FrameAction::Submit { slot: s.slot, image }),
        ),
        (FramePhase::Submitting { image }, FrameEvent::WorkSubmitted) => (
            FrameCycle { phase: FramePhase::Presenting { image }, ..s },
            Some(FrameAction::Present { slot: s.slot, image }),
        ),
        (FramePhase::Presenting { .. }, FrameEvent::PresentSucceeded) => (
            FrameCycle { slot: spec_next_slot(s.slot), phase: FramePhase::Idle },
            Some(FrameAction::FinishFrame { next_slot: spec_next_slot(s.slot) }),
        ),
        (FramePhase::Presenting { .. }, FrameEvent::PresentOutOfDate) => (
            FrameCycle { slot: spec_next_slot(s.slot), phase: FramePhase::Idle },
            Some(FrameAction::FinishFrame { next_slot: spec_next_slot(s.slot) }),
        ),
        _ => (s, None),
    }
}

impl FrameCycle {
    /// The slot index is in range.
    pub open spec fn spec_wf(self) -> bool {
        self.slot < FRAMES_IN_FLIGHT
    }

    /// Start of the system: slot 0, between frames.
    pub fn new() -> (c: FrameCycle)
        ensures
            c.slot == 0,
            c.phase == FramePhase::Idle,
            c.spec_wf(),
    {
        FrameCycle { slot: 0, phase: FramePhase::Idle }
    }

    /// Feed one event in; the state advances by the transition function
    /// and the ordered action (if any) is returned.
    pub fn step(&mut self, e: FrameEvent) -> (a: Option<FrameAction>)
        requires
            old(self).spec_wf(),
        ensures
            final(self).spec_wf(),
            (*final(self), a) == spec_step(*old(self), e),
    {
        let s = *self;
        match (s.phase, e) {
            (FramePhase::Idle, FrameEvent::BeginFrame) => {
                self.phase = FramePhase::WaitingFence;
                Some(FrameAction::WaitFence { slot: s.slot })
            },
            (FramePhase::WaitingFence, FrameEvent::FenceSignaled) => {
                self.phase = FramePhase::Acquiring;
                Some(FrameAction::AcquireImage { slot: s.slot })
            },
            (FramePhase::Acquiring, FrameEvent::ImageAcquired { image }) => {
                self.phase = FramePhase::Recording { image };
                Some(FrameAction::ResetAndRecord { slot: s.slot, image })
            },
            (FramePhase::Acquiring, FrameEvent::AcquireOutOfDate) => {
                self.phase = FramePhase::Idle;
                Some(FrameAction::SkipFrame)
            },
            (FramePhase::Recording { image }, FrameEvent::CommandsRecorded) => {
                self.phase = FramePhase::Submitting { image };
                Some(FrameAction::Submit { slot: s.slot, image })
            },
            (FramePhase::Submitting { image }, FrameEvent::WorkSubmitted) => {
                self.phase = FramePhase::Presenting { image };
                Some(FrameAction::Present { slot: s.slot, image })
            },
            (FramePhase::Presenting { .. }, FrameEvent::PresentSucceeded) => {
                let next = next_slot(s.slot);
                self.slot = next;
                self.phase = FramePhase::Idle;
                Some(FrameAction::FinishFrame { next_slot: next })
            },
            (FramePhase::Presenting { .. }, FrameEvent::PresentOutOfDate) => {
                let next = next_slot(s.slot);
                self.slot = next;
                self.phase = FramePhase::Idle;
                Some(FrameAction::FinishFrame { next_slot: next })
            },
            _ => None,
        }
    }
}

/// The slot that follows `slot`, wrapping at the slot count.
pub fn next_slot(slot: usize) -> (n: usize)
    requires
        slot < FRAMES_IN_FLIGHT,
    ensures
        n == spec_next_slot(slot),
        n < FRAMES_IN_FLIGHT,
{
    if slot + 1 < FRAMES_IN_FLIGHT {
        slot + 1
    } else {
        0
    }
}

/// The state after feeding every event of `events`, oldest first.
pub open spec fn spec_run(s: FrameCycle, events: Seq<FrameEvent>) -> FrameCycle
    decreases events.len(),
{
    if events.len() == 0 {
        s
    } else {
        spec_step(spec_run(s, events.drop_last()), events.last()).0
    }
}

/// The actions ordered while feeding every event of `events`, in order.
pub open spec fn spec_actions(s: FrameCycle, events: Seq<FrameEvent>) -> Seq<FrameAction>
    decreases events.len(),
{
    if events.len() == 0 {
        Seq::empty()
    } else {
        let prev = spec_actions(s, events.drop_last());
        match spec_step(spec_run(s, events.drop_last()), events.last()).1 {
            Some(a) => prev.push(a),
            None => prev,
        }
    }
}

/// `a` waits on `slot`'s fence.
pub open spec fn is_wait_on(a: FrameAction, slot: usize) -> bool {
    a matches FrameAction::WaitFence { slot: w } && w == slot
}

/// `a` waits on some fence.
pub open spec fn is_wait(a: FrameAction) -> bool {
    a is WaitFence
}

/// In `acts`, some wait on `slot`'s fence happens before position
/// `upto` and no other fence wait follows it before `upto`.
pub open spec fn last_wait_is(acts: Seq<FrameAction>, upto: int, slot: usize) -> bool {
    exists|j: int|
        0 <= j < upto && is_wait_on(#[trigger] acts[j], slot) && (forall|l: int|
            j < l < upto ==> !is_wait(#[trigger] acts[l]))
}

/// Every reset/re-record of a slot's command buffer is preceded by a
/// wait on that same slot's fence, with no other fence wait in between.
pub open spec fn resets_follow_waits(acts: Seq<FrameAction>) -> bool {
    forall|k: int|
        0 <= k < acts.len() ==> ((#[trigger] acts[k]) matches FrameAction::ResetAndRecord {
            slot,
            image,
        } ==> last_wait_is(acts, k, slot))
}

/// A recent fence wait survives appending one more action.
proof fn lemma_last_wait_push(acts: Seq<FrameAction>, a: FrameAction, upto: int, slot: usize)
    requires
        0 <= upto <= acts.len(),
        last_wait_is(acts, upto, slot),
    ensures
        last_wait_is(acts.push(a), upto, slot),
{
    let j = choose|j: int|
        0 <= j < upto && is_wait_on(#[trigger] acts[j], slot) && (forall|l: int|
            j < l < upto ==> !is_wait(#[trigger] acts[l]));
    assert(is_wait_on(acts.push(a)[j], slot));
    assert forall|l: int| j < l < upto implies !is_wait(#[trigger] acts.push(a)[l]) by {
        assert(acts.push(a)[l] == acts[l]);
    }
}

/// Appending a non-wait action keeps the last wait the last wait, now
/// up to the new end.
proof fn lemma_last_wait_extend(acts: Seq<FrameAction>, a: FrameAction, slot: usize)
    requires
        last_wait_is(acts, acts.len() as int, slot),
        !is_wait(a),
    ensures
        last_wait_is(acts.push(a), acts.len() as int + 1, slot),
{
    let n = acts.len() as int;
    let j = choose|j: int|
        0 <= j < n && is_wait_on(#[trigger] acts[j], slot) && (forall|l: int|
            j < l < n ==> !is_wait(#[trigger] acts[l]));
    assert(is_wait_on(acts.push(a)[j], slot));
    assert forall|l: int| j < l < n + 1 implies !is_wait(#[trigger] acts.push(a)[l]) by {
        if l < n {
            assert(acts.push(a)[l] == acts[l]);
        } else {
            assert(acts.push(a)[l] == a);
        }
    }
}

/// The reset-follows-wait property survives appending an action that is
/// either no reset or a reset whose slot's fence was the last one
/// waited on.
proof fn lemma_resets_push(acts: Seq<FrameAction>, a: FrameAction)
    requires
        resets_follow_waits(acts),
        a matches FrameAction::ResetAndRecord { slot, image } ==> last_wait_is(
            acts,
            acts.len() as int,
            slot,
        ),
    ensures
        resets_follow_waits(acts.push(a)),
{
    let acts2 = acts.push(a);
    let n = acts.len() as int;
    assert forall|k: int|
        0 <= k < acts2.len() implies ((#[trigger] acts2[k]) matches FrameAction::ResetAndRecord {
        slot,
        image,
    } ==> last_wait_is(acts2, k, slot)) by {
        match acts2[k] {
            FrameAction::ResetAndRecord { slot, image } => {
                if k < n {
                    assert(acts2[k] == acts[k]);
                    assert(last_wait_is(acts, k, slot));
                    lemma_last_wait_push(acts, a, k, slot);
                } else {
                    assert(acts2[k] == a);
                    lemma_last_wait_push(acts, a, n, slot);
                }
            },
            _ => {},
        }
    }
}

/// Trace invariant: starting between frames, the emitted actions obey
/// the reset-follows-wait property, and while a frame is underway the
/// last fence wait so far is on the current slot's fence.
proof fn lemma_trace_invariant(s: FrameCycle, events: Seq<FrameEvent>)
    requires
        s.phase == FramePhase::Idle,
    ensures
        resets_follow_waits(spec_actions(s, events)),
        !(spec_run(s, events).phase is Idle) ==> last_wait_is(
            spec_actions(s, events),
            spec_actions(s, events).len() as int,
            spec_run(s, events).slot,
        ),
    decreases events.len(),
{
    if events.len() > 0 {
        let prefix = events.drop_last();
        let e = events.last();
        lemma_trace_invariant(s, prefix);
        let st = spec_run(s, prefix);
        let acts = spec_actions(s, prefix);
        let stepped = spec_step(st, e);
        match stepped.1 {
            None => {
                assert(spec_actions(s, events) == acts);
                assert(spec_run(s, events) == st);
            },
            Some(a) => {
                let acts2 = acts.push(a);
                assert(spec_actions(s, events) == acts2);
                if a is WaitFence {
                    // Only ordered from Idle, entering WaitingFence on the same slot.
                    assert(st.phase is Idle && stepped.0.slot == st.slot);
                    assert(is_wait_on(acts2[acts.len() as int], stepped.0.slot));
                    lemma_resets_push(acts, a);
                } else {
                    // Every other action leaves a frame underway or ends it;
                    // none is a fence wait.
                    match a {
                        FrameAction::ResetAndRecord { slot, image } => {
                            assert(slot == st.slot);
                            assert(last_wait_is(acts, acts.len() as int, slot));
                        },
                        _ => {},
                    }
                    lemma_resets_push(acts, a);
                    if !(stepped.0.phase is Idle) {
                        assert(stepped.0.slot == st.slot);
                        lemma_last_wait_extend(acts, a, st.slot);
                    }
                }
            },
        }
    }
}

/// Backpressure law: starting between frames, in the whole emitted
/// action history every reset/re-record of a slot's command buffer is
/// preceded by a wait on that same slot's fence, with no other fence
/// wait between the two — the CPU never touches a slot's buffer before
/// the GPU retired it.
pub proof fn lemma_fence_waited_before_reset(s: FrameCycle, events: Seq<FrameEvent>)
    requires
        s.phase == FramePhase::Idle,
    ensures
        resets_follow_waits(spec_actions(s, events)),
{
    lemma_trace_invariant(s, events);
}

/// Count of finished frames in an action history.
pub open spec fn spec_count_finished(acts: Seq<FrameAction>) -> int
    decreases acts.len(),
{
    if acts.len() == 0 {
        0
    } else {
        spec_count_finished(acts.drop_last()) + if acts.last() is FinishFrame {
            1int
        } else {
            0int
        }
    }
}

/// Well-formedness survives any event trace.
pub proof fn lemma_run_wf(s: FrameCycle, events: Seq<FrameEvent>)
    requires
        s.spec_wf(),
    ensures
        spec_run(s, events).spec_wf(),
    decreases events.len(),
{
    if events.len() > 0 {
        lemma_run_wf(s, events.drop_last());
    }
}

/// Slot-cycling law: the slot index always equals the starting slot
/// plus the number of finished frames, modulo the slot count — the
/// slots are used in strict rotation, one finished frame at a time.
pub proof fn lemma_slot_cycles(s: FrameCycle, events: Seq<FrameEvent>)
    requires
        s.spec_wf(),
    ensures
        spec_run(s, events).slot as int == (s.slot + spec_count_finished(
            spec_actions(s, events),
        )) % (FRAMES_IN_FLIGHT as int),
    decreases events.len(),
{
    if events.len() == 0 {
        assert(s.slot as int % (FRAMES_IN_FLIGHT as int) == s.slot as int);
    } else {
        let prefix = events.drop_last();
        let e = events.last();
        lemma_slot_cycles(s, prefix);
        lemma_run_wf(s, prefix);
        let st = spec_run(s, prefix);
        let acts = spec_actions(s, prefix);
        let stepped = spec_step(st, e);
        match stepped.1 {
            None => {
                assert(spec_count_finished(spec_actions(s, events)) == spec_count_finished(acts));
            },
            Some(a) => {
                assert(spec_actions(s, events) == acts.push(a));
                assert(acts.push(a).drop_last() == acts);
                if a is FinishFrame {
                    assert(spec_count_finished(acts.push(a)) == spec_count_finished(acts) + 1);
                } else {
                    assert(spec_count_finished(acts.push(a)) == spec_count_finished(acts));
                    assert(stepped.0.slot == st.slot);
                }
            },
        }
    }
}

} // verus!
