//! The gesture tracker: a press-drag-release state machine over pointer
//! events that emits at most one validated capture rectangle per gesture.

use vstd::prelude::*;

use crate::geometry::PointerEvent;
use crate::geometry::SelectionRect;
use crate::geometry::rect_of_drag;
use crate::geometry::spec_rect_of_drag;

verus! {

/// The interaction state of the tracker.
#[derive(Clone, Copy, PartialEq, Eq, Structural, Debug)]
pub enum InteractionState {
    /// No gesture in progress; the pointer position is kept as an anchor.
    Idle,
    /// A press was seen at (start_x, start_y); the drag is in progress.
    Selecting { start_x: i32, start_y: i32 },
    /// A rectangle was emitted; no new gesture is accepted until the
    /// outcome of this one has been delivered and the tracker re-armed.
    AwaitingResult,
}

/// Tracks drag gestures. The pointer fields hold the last observed pointer
/// position: the anchor while idle, the current drag corner while selecting.
#[derive(Clone, Copy, PartialEq, Eq, Structural, Debug)]
pub struct RegionTracker {
    pub state: InteractionState,
    pub pointer_x: i32,
    pub pointer_y: i32,
}

/// The tracker after one pointer event.
pub open spec fn spec_track(t: RegionTracker, ev: PointerEvent) -> RegionTracker {
    match ev {
        PointerEvent::Move { x, y } => RegionTracker { pointer_x: x, pointer_y: y, ..t },
        PointerEvent::Press => match t.state {
            InteractionState::Idle => RegionTracker {
                state: InteractionState::Selecting { start_x: t.pointer_x, start_y: t.pointer_y },
                ..t
            },
            _ => t,
        },
        PointerEvent::Release => match t.state {
            InteractionState::Selecting { start_x, start_y } => {
                match spec_rect_of_drag(
                    start_x as int,
                    start_y as int,
                    t.pointer_x as int,
                    t.pointer_y as int,
                ) {
                    Some(_) => RegionTracker { state: InteractionState::AwaitingResult, ..t },
                    None => RegionTracker { state: InteractionState::Idle, ..t },
                }
            },
            _ => t,
        },
    }
}

/// The rectangle one pointer event emits: some only for a release that ends
/// a non-degenerate drag.
pub open spec fn spec_emit(t: RegionTracker, ev: PointerEvent) -> Option<SelectionRect> {
    match ev {
        PointerEvent::Release => match t.state {
            InteractionState::Selecting { start_x, start_y } => spec_rect_of_drag(
                start_x as int,
                start_y as int,
                t.pointer_x as int,
                t.pointer_y as int,
            ),
            _ => None,
        },
        _ => None,
    }
}

impl RegionTracker {
    /// A fresh tracker: idle, with the pointer anchored at the origin.
    pub fn new() -> (t: RegionTracker)
        ensures
            t == (RegionTracker { state: InteractionState::Idle, pointer_x: 0, pointer_y: 0 }),
    {
        RegionTracker { state: InteractionState::Idle, pointer_x: 0, pointer_y: 0 }
    }

    /// Consume one pointer event; emit the capture rectangle when a
    /// non-degenerate drag is released, and nothing otherwise.
    pub fn handle_event(&mut self, ev: PointerEvent) -> (emitted: Option<SelectionRect>)
        ensures
            *final(self) == spec_track(*old(self), ev),
            emitted == spec_emit(*old(self), ev),
            emitted matches Some(rect) ==> rect.wf() && final(self).state is AwaitingResult,
    {
        match ev {
            PointerEvent::Move { x, y } => {
                self.pointer_x = x;
                self.pointer_y = y;
                None
            },
            PointerEvent::Press => {
                if let InteractionState::Idle = self.state {
                    self.state = InteractionState::Selecting {
                        start_x: self.pointer_x,
                        start_y: self.pointer_y,
                    };
                }
                None
            },
            PointerEvent::Release => {
                if let InteractionState::Selecting { start_x, start_y } = self.state {
                    let emitted = rect_of_drag(start_x, start_y, self.pointer_x, self.pointer_y);
                    if emitted.is_some() {
                        self.state = InteractionState::AwaitingResult;
                    } else {
                        self.state = InteractionState::Idle;
                    }
                    emitted
                } else {
                    None
                }
            },
        }
    }

    /// Re-arm after the outcome of the emitted rectangle has been
    /// delivered: back to idle, ready for the next gesture.
    pub fn rearm(&mut self)
        ensures
            *final(self) == (RegionTracker { state: InteractionState::Idle, ..*old(self) }),
    {
        self.state = InteractionState::Idle;
    }
}

/// Law: a drag released at its press point, or with zero span on either
/// axis, emits no rectangle and returns the tracker to idle.
pub proof fn lemma_degenerate_drag_cancels(t: RegionTracker)
    requires
        t.state matches InteractionState::Selecting { start_x, start_y } && (start_x == t.pointer_x
            || start_y == t.pointer_y),
    ensures
        spec_emit(t, PointerEvent::Release) is None,
        spec_track(t, PointerEvent::Release).state is Idle,
{
}

/// Law: releasing a drag with span on both axes emits exactly one
/// well-formed rectangle and gates the tracker behind `AwaitingResult`.
pub proof fn lemma_valid_release_emits(t: RegionTracker)
    requires
        t.state matches InteractionState::Selecting { start_x, start_y } && start_x != t.pointer_x
            && start_y != t.pointer_y,
    ensures
        spec_emit(t, PointerEvent::Release) matches Some(rect) && rect.wf(),
        spec_track(t, PointerEvent::Release).state is AwaitingResult,
{
}

/// Law: while a gesture's outcome is still owed, no pointer event emits a
/// rectangle and none starts a new gesture; only `rearm` leaves the state.
pub proof fn lemma_awaiting_result_gates(t: RegionTracker, ev: PointerEvent)
    requires
        t.state is AwaitingResult,
    ensures
        spec_emit(t, ev) is None,
        spec_track(t, ev).state is AwaitingResult,
{
}

} // verus!
