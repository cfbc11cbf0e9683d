use player_bridge::bridge::{InboundOutcome, LoopControl, Player};
use player_bridge::inbound::{dispatch, DispatchOutcome, EngineCall};
use player_bridge::messages::{
    ArgsPayload, CommandInvocation, EndReason, EngineEvent, EventValue, F64Bits, FunctionId,
    InboundMessage, OutboundMessage, PropertyFormat, PropertyKey, PropertyValue,
};
use player_bridge::playback::PlaybackState;
use player_bridge::translator::{run_events, translate_event, TranslateOutcome};

fn observe_msg(key: PropertyKey) -> InboundMessage {
    InboundMessage { func: FunctionId::ObserveProperty, args: ArgsPayload::Observe(key) }
}

fn set_msg(name: &str, value: PropertyValue) -> InboundMessage {
    InboundMessage {
        func: FunctionId::SetProperty,
        args: ArgsPayload::Assign(name.to_string(), value),
    }
}

fn command_msg(name: &str, args: &[&str]) -> InboundMessage {
    InboundMessage {
        func: FunctionId::InvokeCommand,
        args: ArgsPayload::Command(CommandInvocation {
            name: name.to_string(),
            args: args.iter().map(|a| a.to_string()).collect(),
        }),
    }
}

#[test]
fn fresh_bridge_has_position_and_duration_queued() {
    let mut p = Player::new();
    assert_eq!(p.playback.position.bits, 0);
    assert_eq!(p.playback.duration.bits, 0);
    let reqs = p.take_pending_registrations();
    assert_eq!(reqs.len(), 2);
    assert_eq!(reqs[0].name, "time-pos");
    assert_eq!(reqs[0].format, PropertyFormat::Double);
    assert_eq!(reqs[1].name, "duration");
    assert_eq!(reqs[1].format, PropertyFormat::Double);
}

#[test]
fn startup_requests_precede_host_requests() {
    let mut p = Player::new();
    let out = p.process_inbound(Some(observe_msg(PropertyKey::Bool("pause".to_string()))));
    assert_eq!(out, InboundOutcome::Registered);
    let reqs = p.take_pending_registrations();
    assert_eq!(reqs.len(), 3);
    assert_eq!(reqs[0].name, "time-pos");
    assert_eq!(reqs[1].name, "duration");
    assert_eq!(reqs[2].name, "pause");
    assert_eq!(reqs[2].format, PropertyFormat::Flag);
}

#[test]
fn observe_formats_follow_key_kind() {
    for (key, format) in [
        (PropertyKey::Bool("a".to_string()), PropertyFormat::Flag),
        (PropertyKey::Int("b".to_string()), PropertyFormat::Int64),
        (PropertyKey::Float("c".to_string()), PropertyFormat::Double),
        (PropertyKey::Str("d".to_string()), PropertyFormat::Text),
    ] {
        match dispatch(observe_msg(key)) {
            DispatchOutcome::Observe(r) => assert_eq!(r.format, format),
            other => panic!("expected an observation, got {other:?}"),
        }
    }
}

#[test]
fn duplicate_observations_register_twice() {
    // A mock registration pass: count the engine calls the drain hands out.
    let mut p = Player::new();
    p.process_inbound(Some(observe_msg(PropertyKey::Str("track".to_string()))));
    p.process_inbound(Some(observe_msg(PropertyKey::Str("track".to_string()))));
    let reqs = p.take_pending_registrations();
    let mut registration_calls = 0;
    for r in &reqs {
        if r.name == "track" {
            registration_calls += 1;
        }
    }
    assert_eq!(registration_calls, 2);
}

#[test]
fn batch_is_processed_in_send_order() {
    let mut p = Player::new();
    p.take_pending_registrations();
    let msgs = vec![
        Some(observe_msg(PropertyKey::Float("speed".to_string()))),
        None,
        Some(set_msg("volume", PropertyValue::Num(F64Bits { bits: 50f64.to_bits() }))),
        Some(command_msg("seek", &["10"])),
        Some(observe_msg(PropertyKey::Bool("pause".to_string()))),
    ];
    let outs = p.process_batch(msgs);
    assert_eq!(outs.len(), 5);
    assert_eq!(outs[0], InboundOutcome::Registered);
    assert_eq!(outs[1], InboundOutcome::Discarded);
    assert_eq!(
        outs[2],
        InboundOutcome::Invoke(EngineCall::SetProperty(
            "volume".to_string(),
            PropertyValue::Num(F64Bits { bits: 50f64.to_bits() }),
        ))
    );
    assert_eq!(
        outs[3],
        InboundOutcome::Invoke(EngineCall::Command(
            "seek".to_string(),
            vec!["\"10\"".to_string()],
        ))
    );
    assert_eq!(outs[4], InboundOutcome::Registered);
    // The registrar holds the two observation requests in send order.
    let reqs = p.take_pending_registrations();
    assert_eq!(reqs.len(), 2);
    assert_eq!(reqs[0].name, "speed");
    assert_eq!(reqs[1].name, "pause");
}

#[test]
fn malformed_message_is_discarded_and_next_one_processed() {
    let mut p = Player::new();
    let first = p.process_inbound(None);
    assert_eq!(first, InboundOutcome::Discarded);
    let second = p.process_inbound(Some(set_msg("mute", PropertyValue::Bool(true))));
    assert_eq!(
        second,
        InboundOutcome::Invoke(EngineCall::SetProperty(
            "mute".to_string(),
            PropertyValue::Bool(true),
        ))
    );
}

#[test]
fn mismatched_identifier_and_payload_is_unsupported() {
    let mut p = Player::new();
    let msg = InboundMessage {
        func: FunctionId::ObserveProperty,
        args: ArgsPayload::Assign("pause".to_string(), PropertyValue::Bool(true)),
    };
    assert_eq!(p.process_inbound(Some(msg)), InboundOutcome::Unsupported);
    let msg = InboundMessage {
        func: FunctionId::InvokeCommand,
        args: ArgsPayload::Observe(PropertyKey::Bool("pause".to_string())),
    };
    assert_eq!(p.process_inbound(Some(msg)), InboundOutcome::Unsupported);
}

#[test]
fn closed_channel_stops_the_processor() {
    let mut p = Player::new();
    let control = p.inbound_step(None);
    assert_eq!(control, LoopControl::Stop);
    // A received message, malformed or not, never stops the loop.
    assert_ne!(p.inbound_step(Some(None)), LoopControl::Stop);
}

#[test]
fn position_change_updates_cache_and_emits_once() {
    let mut state = PlaybackState::new();
    let ev = EngineEvent::PropertyChange(
        "time-pos".to_string(),
        EventValue::Double(F64Bits { bits: 12.5f64.to_bits() }),
    );
    let out = translate_event(&mut state, ev);
    assert_eq!(f64::from_bits(state.position.bits), 12.5);
    assert_eq!(f64::from_bits(state.duration.bits), 0.0);
    assert_eq!(
        out,
        TranslateOutcome::Emit(OutboundMessage::PropertyChanged(
            "time-pos".to_string(),
            EventValue::Double(F64Bits { bits: 12.5f64.to_bits() }),
        ))
    );
}

#[test]
fn duration_change_updates_duration_only() {
    let mut state = PlaybackState::new();
    translate_event(
        &mut state,
        EngineEvent::PropertyChange(
            "duration".to_string(),
            EventValue::Double(F64Bits { bits: 3600.0f64.to_bits() }),
        ),
    );
    assert_eq!(f64::from_bits(state.duration.bits), 3600.0);
    assert_eq!(f64::from_bits(state.position.bits), 0.0);
}

#[test]
fn other_property_change_leaves_cache_alone() {
    let mut state = PlaybackState::new();
    let out = translate_event(
        &mut state,
        EngineEvent::PropertyChange("pause".to_string(), EventValue::Flag(true)),
    );
    assert_eq!(state, PlaybackState::new());
    assert_eq!(
        out,
        TranslateOutcome::Emit(OutboundMessage::PropertyChanged(
            "pause".to_string(),
            EventValue::Flag(true),
        ))
    );
}

#[test]
fn end_of_stream_becomes_playback_ended() {
    let mut state = PlaybackState::new();
    let out = translate_event(&mut state, EngineEvent::EndOfStream(EndReason::Eof));
    assert_eq!(
        out,
        TranslateOutcome::Emit(OutboundMessage::PlaybackEnded(EndReason::Eof))
    );
}

#[test]
fn shutdown_stops_translation_without_further_messages() {
    let mut state = PlaybackState::new();
    let events = vec![
        EngineEvent::PropertyChange(
            "time-pos".to_string(),
            EventValue::Double(F64Bits { bits: 1.0f64.to_bits() }),
        ),
        EngineEvent::Other,
        EngineEvent::Shutdown,
        EngineEvent::PropertyChange(
            "time-pos".to_string(),
            EventValue::Double(F64Bits { bits: 2.0f64.to_bits() }),
        ),
        EngineEvent::EndOfStream(EndReason::Error),
    ];
    let emitted = run_events(&mut state, events);
    assert_eq!(emitted.len(), 1);
    assert_eq!(
        emitted[0],
        OutboundMessage::PropertyChanged(
            "time-pos".to_string(),
            EventValue::Double(F64Bits { bits: 1.0f64.to_bits() }),
        )
    );
    // Nothing after the shutdown reached the cache either.
    assert_eq!(f64::from_bits(state.position.bits), 1.0);
}

#[test]
fn registrations_are_handed_out_before_the_event_is_consumed() {
    let mut p = Player::new();
    p.process_inbound(Some(observe_msg(PropertyKey::Int("chapter".to_string()))));
    assert_eq!(p.registrar.len(), 3);
    let (requests, outcome) = p.translator_iteration(EngineEvent::PropertyChange(
        "chapter".to_string(),
        EventValue::Int64(2),
    ));
    // Everything queued — startup requests and the host's — leaves the
    // registrar before the event's translation is reported.
    assert_eq!(requests.len(), 3);
    assert_eq!(requests[2].name, "chapter");
    assert_eq!(p.registrar.len(), 0);
    assert_eq!(
        outcome,
        TranslateOutcome::Emit(OutboundMessage::PropertyChanged(
            "chapter".to_string(),
            EventValue::Int64(2),
        ))
    );
}

#[test]
fn ignored_events_emit_nothing() {
    let mut state = PlaybackState::new();
    let out = translate_event(&mut state, EngineEvent::Other);
    assert_eq!(out, TranslateOutcome::Silent);
    assert_eq!(state, PlaybackState::new());
}
