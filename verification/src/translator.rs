//! The event translator's per-event step: classify one engine event, update
//! the playback-state cache where the event carries the position or the
//! duration, and produce the outbound message to emit, if any.
//!
//! The translator's loop — drain the registrar, register each request,
//! block for the next event, then take this step — is run by the unverified
//! shell; only a shutdown event, or a dead outbound channel, ends it.

use vstd::prelude::*;
use vstd::string::StringExecFns;

use crate::messages::{EngineEvent, EventValue, F64Bits, OutboundMessage};
use crate::playback::PlaybackState;
use crate::registrar::{duration_name, position_name};

verus! {

/// What the translator does after one engine event.
#[derive(Clone, PartialEq, Debug)]
pub enum TranslateOutcome {
    /// Push exactly this message to the outbound channel.
    Emit(OutboundMessage),
    /// An ignored event kind: nothing is emitted, the loop continues.
    Silent,
    /// A shutdown event: nothing is emitted, the loop terminates.
    Stop,
}

/// The playback cache after one event: a double-valued change of the
/// position or duration property writes the matching field; every other
/// event leaves the cache unchanged.
pub open spec fn next_playback(s: PlaybackState, ev: EngineEvent) -> PlaybackState {
    match ev {
        EngineEvent::PropertyChange(name, EventValue::Double(b)) => if name@ == position_name() {
            PlaybackState { position: b, duration: s.duration }
        } else if name@ == duration_name() {
            PlaybackState { position: s.position, duration: b }
        } else {
            s
        },
        _ => s,
    }
}

/// The translator's outcome for one event: every property change is
/// forwarded with its raw name and value, end-of-stream becomes a
/// playback-ended message, shutdown stops the loop, and anything else is
/// silent.
pub open spec fn translate_outcome(ev: EngineEvent) -> TranslateOutcome {
    match ev {
        EngineEvent::PropertyChange(name, value) => TranslateOutcome::Emit(
            OutboundMessage::PropertyChanged(name, value),
        ),
        EngineEvent::EndOfStream(reason) => TranslateOutcome::Emit(
            OutboundMessage::PlaybackEnded(reason),
        ),
        EngineEvent::Shutdown => TranslateOutcome::Stop,
        EngineEvent::Other => TranslateOutcome::Silent,
    }
}

/// Takes one translation step: writes the cache as [`next_playback`] says
/// and returns the outcome [`translate_outcome`] says.
pub fn translate_event(state: &mut PlaybackState, ev: EngineEvent) -> (out: TranslateOutcome)
    ensures
        *final(state) == next_playback(*old(state), ev),
        out == translate_outcome(ev),
{
    match ev {
        EngineEvent::PropertyChange(name, value) => {
            if let EventValue::Double(b) = value {
                if name == String::from_str("time-pos") {
                    state.position = b;
                } else if name == String::from_str("duration") {
                    state.duration = b;
                }
            }
            TranslateOutcome::Emit(OutboundMessage::PropertyChanged(name, value))
        }
        EngineEvent::EndOfStream(reason) => TranslateOutcome::Emit(
            OutboundMessage::PlaybackEnded(reason),
        ),
        EngineEvent::Shutdown => TranslateOutcome::Stop,
        EngineEvent::Other => TranslateOutcome::Silent,
    }
}

/// The messages a stream of engine events makes the translator emit, in
/// event order, cut off at the first shutdown event: nothing is emitted
/// from the shutdown on.
pub open spec fn emissions(evs: Seq<EngineEvent>) -> Seq<OutboundMessage>
    decreases evs.len(),
{
    if evs.len() == 0 {
        Seq::empty()
    } else {
        match evs[0] {
            EngineEvent::Shutdown => Seq::empty(),
            _ => (match translate_outcome(evs[0]) {
                TranslateOutcome::Emit(m) => seq![m],
                _ => Seq::empty(),
            }) + emissions(evs.drop_first()),
        }
    }
}

/// The playback cache after a stream of engine events, cut off at the first
/// shutdown event.
pub open spec fn playback_after(s: PlaybackState, evs: Seq<EngineEvent>) -> PlaybackState
    decreases evs.len(),
{
    if evs.len() == 0 {
        s
    } else {
        match evs[0] {
            EngineEvent::Shutdown => s,
            _ => playback_after(next_playback(s, evs[0]), evs.drop_first()),
        }
    }
}

/// Runs the translator over a finite stream of engine events, stopping at
/// the first shutdown event: the emitted messages are exactly
/// [`emissions`] of the stream — one per property change or end-of-stream
/// before the shutdown, none after it — and the cache ends as
/// [`playback_after`] says. The run always terminates, and a shutdown stops
/// it without an error.
#[verifier::loop_isolation(false)]
pub fn run_events(state: &mut PlaybackState, events: Vec<EngineEvent>) -> (emitted: Vec<
    OutboundMessage,
>)
    ensures
        emitted@ == emissions(events@),
        *final(state) == playback_after(*old(state), events@),
{
    let ghost orig = events@;
    let mut events = events;
    let mut emitted: Vec<OutboundMessage> = Vec::new();
    while events.len() > 0
        invariant
            emissions(orig) == emitted@ + emissions(events@),
            playback_after(*old(state), orig) == playback_after(*state, events@),
        decreases events@.len(),
    {
        let ghost pre = events@;
        let ev = events.remove(0);
        proof {
            assert(events@ =~= pre.drop_first());
        }
        let out = translate_event(state, ev);
        match out {
            TranslateOutcome::Stop => {
                proof {
                    assert(emitted@ + Seq::<OutboundMessage>::empty() =~= emitted@);
                }
                return emitted;
            },
            TranslateOutcome::Emit(m) => {
                emitted.push(m);
                proof {
                    assert((emitted@.drop_last() + seq![m]) + emissions(events@) =~= emitted@
                        + emissions(events@));
                }
            },
            TranslateOutcome::Silent => {
                proof {
                    assert(emitted@ + (Seq::<OutboundMessage>::empty() + emissions(events@))
                        =~= emitted@ + emissions(events@));
                }
            },
        }
    }
    proof {
        assert(emitted@ + Seq::<OutboundMessage>::empty() =~= emitted@);
    }
    emitted
}

/// A double-valued change of the position property writes exactly the
/// event's value into the cached position, leaves the duration alone, and
/// also emits exactly one outbound property-changed message carrying the
/// same raw name and value.
pub proof fn lemma_position_change_updates_cache(s: PlaybackState, name: String, b: F64Bits)
    requires
        name@ == position_name(),
    ensures
        next_playback(s, EngineEvent::PropertyChange(name, EventValue::Double(b))).position == b,
        next_playback(s, EngineEvent::PropertyChange(name, EventValue::Double(b))).duration
            == s.duration,
        translate_outcome(EngineEvent::PropertyChange(name, EventValue::Double(b)))
            == TranslateOutcome::Emit(OutboundMessage::PropertyChanged(name, EventValue::Double(b))),
{
}

/// A shutdown event is terminal and silent: the cache is untouched and no
/// message is emitted.
pub proof fn lemma_shutdown_is_terminal(s: PlaybackState)
    ensures
        next_playback(s, EngineEvent::Shutdown) == s,
        translate_outcome(EngineEvent::Shutdown) == TranslateOutcome::Stop,
{
}

} // verus!
