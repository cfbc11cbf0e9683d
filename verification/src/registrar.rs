//! The observation registrar: a FIFO queue of [`ObserveRequest`] values,
//! filled by the inbound command processor and drained by the event
//! translator immediately before each blocking wait for the next engine
//! event.
//!
//! The registrar deduplicates nothing: requesting the same property twice
//! yields two registration calls to the engine.

use vstd::prelude::*;
use vstd::string::StringExecFns;

use crate::messages::{ObserveRequest, PropertyFormat};

verus! {

/// The engine's name for the playback-position property.
pub open spec fn position_name() -> Seq<char> {
    "time-pos"@
}

/// The engine's name for the total-duration property.
pub open spec fn duration_name() -> Seq<char> {
    "duration"@
}

/// Whether a request asks to observe the playback position as a double.
pub open spec fn is_position_request(r: ObserveRequest) -> bool {
    r.name@ == position_name() && r.format == PropertyFormat::Double
}

/// Whether a request asks to observe the total duration as a double.
pub open spec fn is_duration_request(r: ObserveRequest) -> bool {
    r.name@ == duration_name() && r.format == PropertyFormat::Double
}

/// A queue of observation requests, in enqueue order.
#[derive(PartialEq, Debug)]
pub struct ObservationRegistrar {
    queue: Vec<ObserveRequest>,
}

impl ObservationRegistrar {
    /// The pending requests, oldest first.
    pub closed spec fn view(&self) -> Seq<ObserveRequest> {
        self.queue@
    }

    /// A fresh registrar already holding the bridge's two unconditional
    /// requests: playback position first, total duration second, both
    /// observed as doubles. They are present before any host message is
    /// processed and before the first event-wait begins.
    pub fn new() -> (r: ObservationRegistrar)
        ensures
            r@.len() == 2,
            is_position_request(r@[0]),
            is_duration_request(r@[1]),
    {
        let mut queue: Vec<ObserveRequest> = Vec::new();
        queue.push(
            ObserveRequest {
                name: String::from_str("time-pos"),
                format: PropertyFormat::Double,
            },
        );
        queue.push(
            ObserveRequest {
                name: String::from_str("duration"),
                format: PropertyFormat::Double,
            },
        );
        ObservationRegistrar { queue }
    }

    /// Appends a request. Never blocks, never drops, never deduplicates:
    /// the queue grows by exactly this request.
    pub fn enqueue(&mut self, r: ObserveRequest)
        ensures
            final(self)@ == old(self)@.push(r),
    {
        self.queue.push(r);
    }

    /// Hands out every pending request, oldest first, leaving the queue
    /// empty. The event translator registers each with the engine before
    /// blocking for the next event.
    pub fn drain(&mut self) -> (out: Vec<ObserveRequest>)
        ensures
            out@ == old(self)@,
            final(self)@.len() == 0,
    {
        let mut queue: Vec<ObserveRequest> = Vec::new();
        core::mem::swap(&mut self.queue, &mut queue);
        queue
    }

    /// The number of pending requests.
    pub fn len(&self) -> (n: usize)
        ensures
            n == self@.len(),
    {
        self.queue.len()
    }
}

/// Enqueuing never disturbs what is already queued: the two unconditional
/// startup requests stay at the front of the registrar, whatever requests
/// host messages add after them. In particular the position and duration
/// observations are registered before any host-requested one.
pub proof fn lemma_startup_requests_stay_first(initial: Seq<ObserveRequest>, added: Seq<
    ObserveRequest,
>)
    requires
        initial.len() == 2,
        is_position_request(initial[0]),
        is_duration_request(initial[1]),
    ensures
        is_position_request((initial + added)[0]),
        is_duration_request((initial + added)[1]),
        (initial + added).len() == 2 + added.len(),
{
}

/// No deduplication: enqueuing the same request twice leaves two entries in
/// the queue, so a later drain hands the engine two registration calls.
pub proof fn lemma_no_deduplication(q: Seq<ObserveRequest>, r: ObserveRequest)
    ensures
        q.push(r).push(r).len() == q.len() + 2,
        q.push(r).push(r)[q.len() as int] == r,
        q.push(r).push(r)[q.len() as int + 1] == r,
{
}

} // verus!
