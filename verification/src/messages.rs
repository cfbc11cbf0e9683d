//! The data model of the bridge: inbound host messages, engine events and
//! outbound notifications.
//!
//! The engine exchanges double-precision values with the bridge, but the
//! bridge itself never computes on them: it only stores and forwards them.
//! They are therefore carried as their IEEE-754 bit patterns in [`F64Bits`];
//! the unverified shell converts at the boundary.

use vstd::prelude::*;

verus! {

/// The bit pattern of a double-precision value, carried opaquely.
#[derive(Clone, Copy, PartialEq, Eq, Structural, Debug)]
pub struct F64Bits {
    pub bits: u64,
}

impl F64Bits {
    /// The bit pattern of positive zero, the initial value of both
    /// playback-state fields.
    pub fn zero() -> (r: F64Bits)
        ensures
            r.bits == 0,
    {
        F64Bits { bits: 0 }
    }
}

/// The engine-native format under which a property is observed.
#[derive(Clone, Copy, PartialEq, Eq, Structural, Debug)]
pub enum PropertyFormat {
    Flag,
    Int64,
    Double,
    Text,
}

/// A property name tagged with its declared value kind, as sent by the host
/// in an observe-property message.
#[derive(Clone, PartialEq, Debug)]
pub enum PropertyKey {
    Bool(String),
    Int(String),
    Float(String),
    Str(String),
}

/// A value for a property assignment, tagged by kind. A numeric value is the
/// bit pattern of a double.
#[derive(Clone, PartialEq, Debug)]
pub enum PropertyValue {
    Bool(bool),
    Num(F64Bits),
    Str(String),
}

/// A command name plus 0 to 4 positional arguments. Arity beyond four is a
/// caller construction error, excluded by [`CommandInvocation::wf`].
#[derive(Clone, PartialEq, Debug)]
pub struct CommandInvocation {
    pub name: String,
    pub args: Vec<String>,
}

impl CommandInvocation {
    /// The closed arity range of the engine's command convention.
    pub open spec fn wf(self) -> bool {
        self.args@.len() <= 4
    }
}

/// The function identifier of an inbound message.
#[derive(Clone, Copy, PartialEq, Eq, Structural, Debug)]
pub enum FunctionId {
    ObserveProperty,
    SetProperty,
    InvokeCommand,
}

/// The argument payload of an inbound message.
#[derive(Clone, PartialEq, Debug)]
pub enum ArgsPayload {
    Observe(PropertyKey),
    Assign(String, PropertyValue),
    Command(CommandInvocation),
}

/// A parsed host message: a function identifier and an argument payload.
/// The two are carried separately because a syntactically valid message may
/// still pair an identifier with the wrong payload variant; such a message is
/// dispatched as unsupported.
#[derive(Clone, PartialEq, Debug)]
pub struct InboundMessage {
    pub func: FunctionId,
    pub args: ArgsPayload,
}

impl InboundMessage {
    pub open spec fn wf(self) -> bool {
        self.args matches ArgsPayload::Command(c) ==> c.wf()
    }
}

/// A (property name, declared format) pair queued for registration with the
/// engine.
#[derive(Clone, PartialEq, Debug)]
pub struct ObserveRequest {
    pub name: String,
    pub format: PropertyFormat,
}

/// A typed property value carried by an engine property-change event.
#[derive(Clone, PartialEq, Debug)]
pub enum EventValue {
    Flag(bool),
    Int64(i64),
    Double(F64Bits),
    Text(String),
}

/// The engine's reason code for an end-of-stream notification.
#[derive(Clone, Copy, PartialEq, Eq, Structural, Debug)]
pub enum EndReason {
    Eof,
    Stop,
    Quit,
    Error,
    Redirect,
    Unknown,
}

/// An event emitted by the engine, as seen by the event translator.
/// `Other` stands for every event kind the bridge ignores.
#[derive(Clone, PartialEq, Debug)]
pub enum EngineEvent {
    PropertyChange(String, EventValue),
    EndOfStream(EndReason),
    Shutdown,
    Other,
}

/// A structured notification pushed to the host on the outbound channel.
#[derive(Clone, PartialEq, Debug)]
pub enum OutboundMessage {
    PropertyChanged(String, EventValue),
    PlaybackEnded(EndReason),
}

} // verus!
