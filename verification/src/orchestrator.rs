//! The orchestrator: assigns request ids to emitted rectangles, matches
//! capture results against the pending id, discards stale answers, and
//! publishes exactly one outcome per completed gesture.

use vstd::prelude::*;

use crate::capture::CaptureError;
use crate::capture::CaptureRequest;
use crate::capture::capture_reason;
use crate::capture::spec_capture_reason;
use crate::decode::DecodeOutcome;
use crate::decode::PixelBuffer;
use crate::decode::SpecOutcome;
use crate::decode::decode;
use crate::decode::spec_decode;
use crate::geometry::SelectionRect;

verus! {

/// Sequences rectangles into capture requests and capture results into
/// published outcomes. At most one request is pending at a time.
#[derive(Clone, Copy, PartialEq, Eq, Structural, Debug)]
pub struct Orchestrator {
    /// The id the next request will get; ids only ever grow.
    pub next_request_id: u64,
    /// The id of the request whose result is still owed, if any.
    pub pending: Option<u64>,
}

/// The outcome the orchestrator publishes for one capture result.
pub open spec fn spec_outcome_of_result(
    result: Result<PixelBuffer, CaptureError>,
) -> SpecOutcome {
    match result {
        Ok(buffer) => spec_decode(buffer.data@, buffer.width as int, buffer.height as int),
        Err(e) => SpecOutcome::CaptureFailed(spec_capture_reason(e)),
    }
}

impl Orchestrator {
    /// A fresh orchestrator: nothing pending, ids starting at one.
    pub fn new() -> (o: Orchestrator)
        ensures
            o == (Orchestrator { next_request_id: 1u64, pending: None }),
    {
        Orchestrator { next_request_id: 1, pending: None }
    }

    /// Take a completed gesture's rectangle: assign it the next id, mark
    /// that id pending, and hand back the request for the capture worker.
    pub fn on_rectangle(&mut self, rect: SelectionRect) -> (req: CaptureRequest)
        requires
            old(self).next_request_id < u64::MAX,
        ensures
            req.rect == rect,
            req.request_id == old(self).next_request_id,
            final(self).next_request_id == old(self).next_request_id + 1,
            final(self).pending == Some(req.request_id),
    {
        let id = self.next_request_id;
        self.next_request_id = id + 1;
        self.pending = Some(id);
        CaptureRequest { rect, request_id: id }
    }

    /// Take one capture result. An answer whose id is not the pending one
    /// is discarded silently and changes nothing; the answer to the
    /// pending request is decoded (or its failure surfaced) and published
    /// as exactly one outcome, clearing the pending id.
    pub fn on_capture_result(
        &mut self,
        request_id: u64,
        result: Result<PixelBuffer, CaptureError>,
    ) -> (out: Option<DecodeOutcome>)
        ensures
            old(self).pending != Some(request_id) ==> out is None && *final(self) == *old(self),
            old(self).pending == Some(request_id) ==> {
                &&& final(self).pending is None
                &&& final(self).next_request_id == old(self).next_request_id
                &&& out matches Some(o) && o@ == spec_outcome_of_result(result)
            },
    {
        let matches_pending = match self.pending {
            Some(p) => p == request_id,
            None => false,
        };
        if !matches_pending {
            return None;
        }
        self.pending = None;
        match result {
            Ok(buffer) => Some(decode(buffer)),
            Err(e) => Some(DecodeOutcome::CaptureFailed(capture_reason(&e))),
        }
    }
}

} // verus!
