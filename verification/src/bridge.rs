//! The bridge itself: the sequential core shared by the two execution
//! units. A [`Player`] owns the observation registrar and the playback
//! cache; the unverified shell runs one unit that feeds it parsed host
//! messages and one unit that feeds it engine events, performing the engine
//! calls and channel sends each step asks for.

use vstd::prelude::*;

use crate::inbound::{
    dispatch, dispatch_rel, key_format, key_name, reg_view, req_view, supported, DispatchOutcome,
    EngineCall,
};
use crate::messages::{
    ArgsPayload, EngineEvent, FunctionId, InboundMessage, ObserveRequest, PropertyFormat,
};
use crate::playback::PlaybackState;
use crate::registrar::{
    is_duration_request, is_position_request, ObservationRegistrar,
};
use crate::translator::{
    next_playback, translate_event, translate_outcome, TranslateOutcome,
};

verus! {

/// The result of parsing one inbound message: `None` stands for a malformed
/// payload, which is logged and discarded.
pub open spec fn parsed_wf(p: Option<InboundMessage>) -> bool {
    p matches Some(m) ==> m.wf()
}

/// What the inbound command processor reports for one received message.
#[derive(Clone, PartialEq, Debug)]
pub enum InboundOutcome {
    /// An observation request was queued; the shell must wake the engine's
    /// blocked event wait so the request is registered promptly.
    Registered,
    /// The shell must issue this engine call; a failure is logged and
    /// non-fatal.
    Invoke(EngineCall),
    /// The message was malformed: logged, discarded, processing continues.
    Discarded,
    /// A valid message with an unknown identifier/payload combination:
    /// logged, discarded, processing continues.
    Unsupported,
}

/// What one iteration of the inbound loop does.
#[derive(Clone, PartialEq, Debug)]
pub enum LoopControl {
    /// Keep consuming; act on this outcome first.
    Proceed(InboundOutcome),
    /// The inbound channel is closed: stop consuming, without error.
    Stop,
}

/// The processor's outcome for one parse result, as a relation. A malformed
/// message is always discarded — never a stop — and a well-formed one is
/// dispatched exactly as [`dispatch_rel`] says.
pub open spec fn outcome_rel(parsed: Option<InboundMessage>, out: InboundOutcome) -> bool {
    match parsed {
        None => out == InboundOutcome::Discarded,
        Some(m) => {
            &&& (m.func == FunctionId::ObserveProperty ==> (m.args matches ArgsPayload::Observe(k)
                ==> out == InboundOutcome::Registered))
            &&& (m.func == FunctionId::SetProperty ==> (m.args matches ArgsPayload::Assign(n, v)
                ==> out == InboundOutcome::Invoke(EngineCall::SetProperty(n, v))))
            &&& (m.func == FunctionId::InvokeCommand ==> (m.args matches ArgsPayload::Command(c)
                ==> (out matches InboundOutcome::Invoke(call) && dispatch_rel(
                m,
                DispatchOutcome::Invoke(call),
            ))))
            &&& (!supported(m) ==> out == InboundOutcome::Unsupported)
        },
    }
}

/// The observation requests one parse result adds to the registrar, as
/// plain (name, format) pairs: one for a supported observe-property
/// message, none otherwise.
pub open spec fn observe_delta(parsed: Option<InboundMessage>) -> Seq<(Seq<char>, PropertyFormat)> {
    match parsed {
        Some(m) => match (m.func, m.args) {
            (FunctionId::ObserveProperty, ArgsPayload::Observe(k)) => seq![
                (key_name(k), key_format(k)),
            ],
            _ => Seq::empty(),
        },
        None => Seq::empty(),
    }
}

/// The observation requests a whole batch of parse results adds, in batch
/// order.
pub open spec fn batch_observe_stream(msgs: Seq<Option<InboundMessage>>) -> Seq<
    (Seq<char>, PropertyFormat),
>
    decreases msgs.len(),
{
    if msgs.len() == 0 {
        Seq::empty()
    } else {
        batch_observe_stream(msgs.drop_last()) + observe_delta(msgs.last())
    }
}

/// The bridge's sequential core: the observation registrar handed between
/// the two execution units and the shared playback cache.
#[derive(PartialEq, Debug)]
pub struct Player {
    pub registrar: ObservationRegistrar,
    pub playback: PlaybackState,
}

impl Player {
    /// A fresh bridge: the playback cache at zero and the registrar already
    /// holding the two unconditional observation requests — position first,
    /// duration second — before any host message is processed.
    pub fn new() -> (p: Player)
        ensures
            p.playback.position.bits == 0,
            p.playback.duration.bits == 0,
            p.registrar@.len() == 2,
            is_position_request(p.registrar@[0]),
            is_duration_request(p.registrar@[1]),
    {
        Player { registrar: ObservationRegistrar::new(), playback: PlaybackState::new() }
    }

    /// Processes one parse result from the inbound channel: a malformed
    /// message is discarded, a supported observe-property message is queued
    /// in the registrar, and the two direct engine calls are handed back to
    /// the shell. The playback cache is never touched from this side, and
    /// the registrar grows by exactly the message's observation request, if
    /// any.
    pub fn process_inbound(&mut self, parsed: Option<InboundMessage>) -> (out: InboundOutcome)
        requires
            parsed_wf(parsed),
        ensures
            outcome_rel(parsed, out),
            final(self).playback == old(self).playback,
            reg_view(final(self).registrar@) == reg_view(old(self).registrar@)
                + observe_delta(parsed),
    {
        let ghost pre = self.registrar@;
        let out = match parsed {
            None => InboundOutcome::Discarded,
            Some(msg) => match dispatch(msg) {
                DispatchOutcome::Observe(req) => {
                    self.registrar.enqueue(req);
                    InboundOutcome::Registered
                },
                DispatchOutcome::Invoke(call) => InboundOutcome::Invoke(call),
                DispatchOutcome::Unsupported => InboundOutcome::Unsupported,
            },
        };
        proof {
            if self.registrar@ == pre {
                assert(reg_view(pre) + Seq::<(Seq<char>, PropertyFormat)>::empty()
                    =~= reg_view(pre));
            } else {
                let r = self.registrar@.last();
                assert(reg_view(pre.push(r)) =~= reg_view(pre) + seq![
                    req_view(r),
                ]);
            }
        }
        out
    }

    /// One iteration of the inbound loop: a received message is processed
    /// as [`Self::process_inbound`] says and the loop proceeds; a closed
    /// channel stops the loop without error and without touching any state.
    /// Closing the channel is the only way this loop stops.
    pub fn inbound_step(&mut self, received: Option<Option<InboundMessage>>) -> (control:
        LoopControl)
        requires
            received matches Some(p) ==> parsed_wf(p),
        ensures
            control is Stop <==> received is None,
            received is None ==> *final(self) == *old(self),
            received matches Some(p) ==> {
                &&& control matches LoopControl::Proceed(out)
                &&& outcome_rel(p, out)
                &&& final(self).playback == old(self).playback
                &&& reg_view(final(self).registrar@) == reg_view(old(self).registrar@) + observe_delta(p)
            },
    {
        match received {
            None => LoopControl::Stop,
            Some(parsed) => LoopControl::Proceed(self.process_inbound(parsed)),
        }
    }

    /// Processes a whole batch of parse results strictly in order: the
    /// `i`-th outcome answers the `i`-th message, no message is skipped or
    /// reordered, a malformed message never stops the batch, and the
    /// registrar ends with exactly the batch's observation requests
    /// appended in batch order.
    pub fn process_batch(&mut self, msgs: Vec<Option<InboundMessage>>) -> (outs: Vec<
        InboundOutcome,
    >)
        requires
            forall|i: int| 0 <= i < msgs@.len() ==> parsed_wf(#[trigger] msgs@[i]),
        ensures
            outs@.len() == msgs@.len(),
            forall|i: int| 0 <= i < msgs@.len() ==> outcome_rel(msgs@[i], #[trigger] outs@[i]),
            final(self).playback == old(self).playback,
            reg_view(final(self).registrar@) == reg_view(old(self).registrar@)
                + batch_observe_stream(msgs@),
    {
        let ghost orig = msgs@;
        let mut msgs = msgs;
        let mut outs: Vec<InboundOutcome> = Vec::new();
        proof {
            assert(reg_view(old(self).registrar@) + batch_observe_stream(orig.take(0))
                =~= reg_view(old(self).registrar@));
        }
        while msgs.len() > 0
            invariant
                orig.len() == outs@.len() + msgs@.len(),
                msgs@ == orig.subrange(outs@.len() as int, orig.len() as int),
                forall|i: int| 0 <= i < orig.len() ==> parsed_wf(#[trigger] orig[i]),
                forall|i: int| 0 <= i < outs@.len() ==> outcome_rel(orig[i], #[trigger] outs@[i]),
                self.playback == old(self).playback,
                reg_view(self.registrar@) == reg_view(old(self).registrar@)
                    + batch_observe_stream(orig.take(outs@.len() as int)),
            decreases msgs@.len(),
        {
            let ghost k = outs@.len() as int;
            
            assert(msgs@[0] == orig[k]);
            let m = msgs.remove(0);
            let out = self.process_inbound(m);
            outs.push(out);
            proof {
                assert(msgs@ =~= orig.subrange(k + 1, orig.len() as int));
                assert(orig.take(k + 1).drop_last() =~= orig.take(k));
                assert(orig.take(k + 1).last() == orig[k]);
                assert((reg_view(old(self).registrar@) + batch_observe_stream(
                    orig.take(k),
                )) + observe_delta(orig[k]) =~= reg_view(old(self).registrar@) + (
                batch_observe_stream(orig.take(k)) + observe_delta(orig[k])));
            }
        }
        proof {
            assert(orig.take(orig.len() as int) =~= orig);
        }
        outs
    }

    /// Hands the event translator every pending observation request, oldest
    /// first, emptying the registrar; the translator registers each with
    /// the engine before blocking for the next event.
    pub fn take_pending_registrations(&mut self) -> (reqs: Vec<ObserveRequest>)
        ensures
            reqs@ == old(self).registrar@,
            final(self).registrar@.len() == 0,
            final(self).playback == old(self).playback,
    {
        self.registrar.drain()
    }

    /// One full iteration of the event translator's loop, as the shell
    /// runs it: every pending observation request is handed out for
    /// registration first — so registration always precedes consumption of
    /// the next event — and only then is the event translated. With a
    /// wake-up signal issued on every enqueue, a request therefore waits at
    /// most one event-wait cycle before it reaches the engine.
    pub fn translator_iteration(&mut self, ev: EngineEvent) -> (step: (
        Vec<ObserveRequest>,
        TranslateOutcome,
    ))
        ensures
            step.0@ == old(self).registrar@,
            final(self).registrar@.len() == 0,
            final(self).playback == next_playback(old(self).playback, ev),
            step.1 == translate_outcome(ev),
    {
        let requests = self.registrar.drain();
        let outcome = translate_event(&mut self.playback, ev);
        (requests, outcome)
    }

    /// Takes one event-translation step: the playback cache is written as
    /// [`next_playback`] says, the outcome is exactly
    /// [`translate_outcome`], and the registrar is untouched.
    pub fn on_engine_event(&mut self, ev: EngineEvent) -> (out: TranslateOutcome)
        ensures
            final(self).playback == next_playback(old(self).playback, ev),
            out == translate_outcome(ev),
            final(self).registrar == old(self).registrar,
    {
        translate_event(&mut self.playback, ev)
    }
}

} // verus!
