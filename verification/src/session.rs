//! One scanning session: the tracker and the orchestrator wired together,
//! with the laws that hold across a whole gesture.

use vstd::prelude::*;

use crate::capture::CaptureError;
use crate::capture::CaptureRequest;
use crate::decode::DecodeOutcome;
use crate::decode::PixelBuffer;
use crate::geometry::PointerEvent;
use crate::orchestrator::Orchestrator;
use crate::orchestrator::spec_outcome_of_result;
use crate::tracker::InteractionState;
use crate::tracker::RegionTracker;
use crate::tracker::lemma_awaiting_result_gates;
use crate::tracker::lemma_valid_release_emits;
use crate::tracker::spec_emit;
use crate::tracker::spec_track;

verus! {

/// A whole scanning session. The presentation layer feeds pointer events
/// in and polls outcomes out; the capture worker sits between the request
/// this type hands out and the result it takes back.
pub struct Session {
    pub tracker: RegionTracker,
    pub orchestrator: Orchestrator,
}

impl Session {
    /// A fresh session: idle tracker, nothing pending.
    pub fn new() -> (s: Session)
        ensures
            s.tracker == (RegionTracker {
                state: InteractionState::Idle,
                pointer_x: 0,
                pointer_y: 0,
            }),
            s.orchestrator == (Orchestrator { next_request_id: 1u64, pending: None }),
    {
        Session { tracker: RegionTracker::new(), orchestrator: Orchestrator::new() }
    }

    /// Feed one pointer event. A release that completes a valid drag hands
    /// back the one capture request of this gesture; every other event
    /// hands back nothing and leaves the orchestrator untouched.
    pub fn on_pointer_event(&mut self, ev: PointerEvent) -> (req: Option<CaptureRequest>)
        requires
            old(self).orchestrator.next_request_id < u64::MAX,
        ensures
            final(self).tracker == spec_track(old(self).tracker, ev),
            spec_emit(old(self).tracker, ev) matches Some(rect) ==> {
                &&& req matches Some(r)
                &&& r.rect == rect
                &&& r.request_id == old(self).orchestrator.next_request_id
                &&& final(self).orchestrator.pending == Some(r.request_id)
                &&& final(self).orchestrator.next_request_id == old(
                    self,
                ).orchestrator.next_request_id + 1
            },
            spec_emit(old(self).tracker, ev) is None ==> req is None && final(self).orchestrator
                == old(self).orchestrator,
    {
        match self.tracker.handle_event(ev) {
            Some(rect) => Some(self.orchestrator.on_rectangle(rect)),
            None => None,
        }
    }

    /// Take one capture result back from the worker. A stale answer is
    /// discarded and changes nothing; the answer to the pending request
    /// publishes its one outcome and re-arms the tracker for the next
    /// gesture.
    pub fn on_capture_result(
        &mut self,
        request_id: u64,
        result: Result<PixelBuffer, CaptureError>,
    ) -> (out: Option<DecodeOutcome>)
        ensures
            old(self).orchestrator.pending != Some(request_id) ==> {
                &&& out is None
                &&& final(self).tracker == old(self).tracker
                &&& final(self).orchestrator == old(self).orchestrator
            },
            old(self).orchestrator.pending == Some(request_id) ==> {
                &&& out matches Some(o) && o@ == spec_outcome_of_result(result)
                &&& final(self).tracker == (RegionTracker {
                    state: InteractionState::Idle,
                    ..old(self).tracker
                })
                &&& final(self).orchestrator.pending is None
                &&& final(self).orchestrator.next_request_id == old(
                    self,
                ).orchestrator.next_request_id
            },
    {
        match self.orchestrator.on_capture_result(request_id, result) {
            Some(outcome) => {
                self.tracker.rearm();
                Some(outcome)
            },
            None => None,
        }
    }
}

/// Whether the decoded outcome calls for opening the payload externally:
/// only a decoded payload does.
pub fn open_target(outcome: &DecodeOutcome) -> (target: Option<&String>)
    ensures
        outcome matches DecodeOutcome::Payload(p) ==> target matches Some(t) && t == p,
        outcome !is Payload ==> target is None,
{
    match outcome {
        DecodeOutcome::Payload(p) => Some(p),
        _ => None,
    }
}

/// The tracker after a whole sequence of pointer events.
pub open spec fn spec_track_all(t: RegionTracker, evs: Seq<PointerEvent>) -> RegionTracker
    decreases evs.len(),
{
    if evs.len() == 0 {
        t
    } else {
        spec_track_all(spec_track(t, evs[0]), evs.subrange(1, evs.len() as int))
    }
}

/// How many capture rectangles a sequence of pointer events makes the
/// tracker emit.
pub open spec fn spec_emit_count(t: RegionTracker, evs: Seq<PointerEvent>) -> nat
    decreases evs.len(),
{
    if evs.len() == 0 {
        0
    } else {
        (if spec_emit(t, evs[0]) is Some {
            1nat
        } else {
            0nat
        }) + spec_emit_count(spec_track(t, evs[0]), evs.subrange(1, evs.len() as int))
    }
}

/// Law: while a gesture's outcome is owed, no sequence of pointer events
/// emits a rectangle, and the tracker stays in `AwaitingResult`; only a
/// re-arm lets the next gesture in.
pub proof fn lemma_no_request_before_rearm(t: RegionTracker, evs: Seq<PointerEvent>)
    requires
        t.state is AwaitingResult,
    ensures
        spec_emit_count(t, evs) == 0,
        spec_track_all(t, evs).state is AwaitingResult,
    decreases evs.len(),
{
    if evs.len() > 0 {
        lemma_awaiting_result_gates(t, evs[0]);
        lemma_no_request_before_rearm(spec_track(t, evs[0]), evs.subrange(1, evs.len() as int));
    }
}

/// Law: releasing a drag that has span on both axes emits exactly one
/// rectangle, counting the release and everything that follows it, until
/// the tracker is re-armed.
pub proof fn lemma_exactly_one_request_per_gesture(t: RegionTracker, evs: Seq<PointerEvent>)
    requires
        t.state matches InteractionState::Selecting { start_x, start_y } && start_x != t.pointer_x
            && start_y != t.pointer_y,
    ensures
        spec_emit_count(t, seq![PointerEvent::Release].add(evs)) == 1,
{
    let all = seq![PointerEvent::Release].add(evs);
    lemma_valid_release_emits(t);
    assert(all.subrange(1, all.len() as int) =~= evs);
    lemma_no_request_before_rearm(spec_track(t, PointerEvent::Release), evs);
}

} // verus!
