//! The inbound command processor's dispatch step: classify one parsed host
//! message and produce the engine-facing action it calls for.
//!
//! The processor consumes host messages strictly in arrival order; the loop
//! itself is run by the unverified shell, one [`dispatch`] per message.

use vstd::prelude::*;

use crate::encoder::{encode_arguments, encoded_args};
use crate::messages::{
    ArgsPayload, FunctionId, InboundMessage, ObserveRequest, PropertyFormat, PropertyKey,
    PropertyValue,
};

verus! {

/// The property name a key carries, whatever its kind tag.
pub open spec fn key_name(k: PropertyKey) -> Seq<char> {
    match k {
        PropertyKey::Bool(n) => n@,
        PropertyKey::Int(n) => n@,
        PropertyKey::Float(n) => n@,
        PropertyKey::Str(n) => n@,
    }
}

/// The engine-native format matching a key's declared kind.
pub open spec fn key_format(k: PropertyKey) -> PropertyFormat {
    match k {
        PropertyKey::Bool(_) => PropertyFormat::Flag,
        PropertyKey::Int(_) => PropertyFormat::Int64,
        PropertyKey::Float(_) => PropertyFormat::Double,
        PropertyKey::Str(_) => PropertyFormat::Text,
    }
}

/// An observation request seen as plain values: its name and its format.
pub open spec fn req_view(r: ObserveRequest) -> (Seq<char>, PropertyFormat) {
    (r.name@, r.format)
}

/// A whole registrar queue seen as plain (name, format) pairs, in order.
pub open spec fn reg_view(q: Seq<ObserveRequest>) -> Seq<(Seq<char>, PropertyFormat)> {
    q.map_values(|r: ObserveRequest| req_view(r))
}

/// Whether a message pairs its function identifier with the matching payload
/// variant. Any other combination is dispatched as unsupported.
pub open spec fn supported(m: InboundMessage) -> bool {
    match (m.func, m.args) {
        (FunctionId::ObserveProperty, ArgsPayload::Observe(_)) => true,
        (FunctionId::SetProperty, ArgsPayload::Assign(_, _)) => true,
        (FunctionId::InvokeCommand, ArgsPayload::Command(_)) => true,
        _ => false,
    }
}

/// A call the shell must issue to the engine. A failure of either call is
/// logged and non-fatal: the processor continues with the next message.
#[derive(Clone, PartialEq, Debug)]
pub enum EngineCall {
    /// Assign a value to a named property.
    SetProperty(String, PropertyValue),
    /// Invoke a named command with its already-encoded argument list.
    Command(String, Vec<String>),
}

/// What one inbound message calls for.
#[derive(Clone, PartialEq, Debug)]
pub enum DispatchOutcome {
    /// Register this observation: queue it and wake the engine's event wait.
    Observe(ObserveRequest),
    /// Issue this engine call directly.
    Invoke(EngineCall),
    /// A valid message with an unknown identifier/payload combination:
    /// logged and discarded.
    Unsupported,
}

/// The full dispatch relation: what [`dispatch`] returns for each message.
pub open spec fn dispatch_rel(m: InboundMessage, out: DispatchOutcome) -> bool {
    &&& (m.func == FunctionId::ObserveProperty ==> (m.args matches ArgsPayload::Observe(k) ==> {
        &&& out matches DispatchOutcome::Observe(r)
        &&& req_view(r) == (key_name(k), key_format(k))
    }))
    &&& (m.func == FunctionId::SetProperty ==> (m.args matches ArgsPayload::Assign(n, v) ==> out
        == DispatchOutcome::Invoke(EngineCall::SetProperty(n, v))))
    &&& (m.func == FunctionId::InvokeCommand ==> (m.args matches ArgsPayload::Command(c) ==> {
        &&& out matches DispatchOutcome::Invoke(EngineCall::Command(name, args))
        &&& name == c.name
        &&& args@.map_values(|a: String| a@) == encoded_args(c.args@.map_values(|a: String| a@))
    }))
    &&& (!supported(m) ==> out == DispatchOutcome::Unsupported)
}

/// Classifies one parsed message:
/// - observe-property with a typed key becomes an [`ObserveRequest`] under
///   the format matching the key's kind;
/// - set-property with a value becomes a direct property-assignment call;
/// - invoke-command becomes a command call with every argument quoted by the
///   command encoder;
/// - any other identifier/payload combination is unsupported.
pub fn dispatch(msg: InboundMessage) -> (out: DispatchOutcome)
    requires
        msg.wf(),
    ensures
        dispatch_rel(msg, out),
{
    match (msg.func, msg.args) {
        (FunctionId::ObserveProperty, ArgsPayload::Observe(key)) => {
            let req = match key {
                PropertyKey::Bool(name) => ObserveRequest { name, format: PropertyFormat::Flag },
                PropertyKey::Int(name) => ObserveRequest { name, format: PropertyFormat::Int64 },
                PropertyKey::Float(name) => ObserveRequest {
                    name,
                    format: PropertyFormat::Double,
                },
                PropertyKey::Str(name) => ObserveRequest { name, format: PropertyFormat::Text },
            };
            DispatchOutcome::Observe(req)
        }
        (FunctionId::SetProperty, ArgsPayload::Assign(name, value)) => DispatchOutcome::Invoke(
            EngineCall::SetProperty(name, value),
        ),
        (FunctionId::InvokeCommand, ArgsPayload::Command(cmd)) => {
            let args = encode_arguments(&cmd);
            DispatchOutcome::Invoke(EngineCall::Command(cmd.name, args))
        }
        _ => DispatchOutcome::Unsupported,
    }
}

} // verus!
