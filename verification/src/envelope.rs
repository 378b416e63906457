//! The message envelope exchanged over the loopback relay channel: a
//! string tag (`kind`) and a payload.  The only kind defined today is
//! `"args"`, whose payload is an ordered sequence of strings; envelopes
//! with any other tag decode fine and are ignored by the dispatcher, so
//! new kinds can be added without breaking old peers.

use vstd::prelude::*;
use vstd::string::StringExecFns;

verus! {

/// A tagged message on the relay channel.
#[derive(Clone, Debug, PartialEq, Eq)]
pub struct Envelope {
    pub kind: String,
    pub payload: Vec<String>,
}

/// Mathematical model of an [`Envelope`].
pub struct EnvelopeModel {
    pub kind: Seq<char>,
    pub payload: Seq<Seq<char>>,
}

impl View for Envelope {
    type V = EnvelopeModel;

    open spec fn view(&self) -> EnvelopeModel {
        EnvelopeModel { kind: self.kind@, payload: self.payload.deep_view() }
    }
}

/// The tag of the one message kind defined today.
pub open spec fn args_kind() -> Seq<char> {
    "args"@
}

/// The envelope a relay client builds for the argument sequence `args`.
pub open spec fn args_envelope_model(args: Seq<Seq<char>>) -> EnvelopeModel {
    EnvelopeModel { kind: args_kind(), payload: args }
}

/// Builds the `"args"` envelope carrying the given argument sequence.
pub fn args_envelope(args: Vec<String>) -> (e: Envelope)
    ensures
        e@ == args_envelope_model(args.deep_view()),
{
    Envelope { kind: String::from_str("args"), payload: args }
}

/// What the relay server does with one accepted connection.
#[derive(Clone, Debug, PartialEq, Eq)]
pub enum ConnOutcome {
    /// A well-formed `"args"` envelope arrived: hand its argument
    /// sequence to the argument-handling collaborator.
    Deliver(Vec<String>),
    /// A well-formed envelope of an unknown kind arrived: log the tag
    /// and drop the connection.
    DropUnknown(String),
    /// The bytes received do not form a well-formed frame: log the
    /// error and drop the connection.
    Reject(crate::codec::DecodeError),
    /// No complete frame arrived within the read deadline: drop the
    /// connection.
    Expire,
}

/// Mathematical model of a [`ConnOutcome`].
pub enum ConnOutcomeModel {
    Deliver(Seq<Seq<char>>),
    DropUnknown(Seq<char>),
    Reject(crate::codec::DecodeError),
    Expire,
}

impl View for ConnOutcome {
    type V = ConnOutcomeModel;

    open spec fn view(&self) -> ConnOutcomeModel {
        match self {
            ConnOutcome::Deliver(args) => ConnOutcomeModel::Deliver(args.deep_view()),
            ConnOutcome::DropUnknown(kind) => ConnOutcomeModel::DropUnknown(kind@),
            ConnOutcome::Reject(e) => ConnOutcomeModel::Reject(*e),
            ConnOutcome::Expire => ConnOutcomeModel::Expire,
        }
    }
}

/// How the dispatcher maps a decoded envelope to an action: the
/// `"args"` payload is delivered intact and in order; every other kind
/// is ignored, never fatal.
pub open spec fn dispatch_model(e: EnvelopeModel) -> ConnOutcomeModel {
    if e.kind == args_kind() {
        ConnOutcomeModel::Deliver(e.payload)
    } else {
        ConnOutcomeModel::DropUnknown(e.kind)
    }
}

/// Dispatches one decoded envelope by its kind.
pub fn dispatch(e: Envelope) -> (r: ConnOutcome)
    ensures
        r@ == dispatch_model(e@),
{
    if e.kind == String::from_str("args") {
        ConnOutcome::Deliver(e.payload)
    } else {
        ConnOutcome::DropUnknown(e.kind)
    }
}

} // verus!
