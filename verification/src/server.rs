//! The relay server's per-connection handling.  Each accepted
//! connection is handled by its own [`Connection`] value: the bytes it
//! delivers are accumulated until one complete frame is available,
//! the frame body is decoded, and the envelope is dispatched by kind.
//! A connection shares no state with any other, so a malformed or
//! stalled peer can only ever cost its own connection.

use vstd::prelude::*;
use crate::codec::{
    decode_body, encodable, frame_bytes, lemma_parse_body_roundtrip, parse_body, DecodeError,
};
use crate::envelope::{
    args_envelope_model, dispatch, dispatch_model, ConnOutcome, ConnOutcomeModel, EnvelopeModel,
};
use crate::framing::{frame_status, FrameBuffer, FramePoll, FrameStatus};
use crate::wire::lemma_be32_roundtrip;

verus! {

/// What the bytes received so far on one connection amount to: `None`
/// while no complete frame has arrived, and the connection's outcome
/// as soon as one has (or as soon as its length prefix is oversize).
pub open spec fn conn_status(b: Seq<u8>) -> Option<ConnOutcomeModel> {
    match frame_status(b) {
        FrameStatus::Pending => None,
        FrameStatus::Oversize => Some(ConnOutcomeModel::Reject(DecodeError::OversizeFrame)),
        FrameStatus::Complete(body) => Some(
            match parse_body(body) {
                None => ConnOutcomeModel::Reject(DecodeError::Malformed),
                Some(e) => dispatch_model(e),
            },
        ),
    }
}

/// The final outcome of a connection whose complete byte stream was
/// `b`: its status once all bytes arrived, or a truncation rejection
/// if the stream ended before a frame was complete.
pub open spec fn connection_outcome(b: Seq<u8>) -> ConnOutcomeModel {
    match conn_status(b) {
        Some(o) => o,
        None => ConnOutcomeModel::Reject(DecodeError::Truncated),
    }
}

/// The outcomes of a run of the accept loop, one per accepted
/// connection, each a function of that connection's own bytes alone.
pub open spec fn server_outcomes(conns: Seq<Seq<u8>>) -> Seq<ConnOutcomeModel> {
    conns.map_values(|b: Seq<u8>| connection_outcome(b))
}

/// Handler state for one accepted connection.
pub struct Connection {
    buf: FrameBuffer,
}

impl View for Connection {
    type V = Seq<u8>;

    closed spec fn view(&self) -> Seq<u8> {
        self.buf@
    }
}

impl Connection {
    /// A fresh handler: no bytes received yet.
    pub fn new() -> (c: Connection)
        ensures
            c@ == Seq::<u8>::empty(),
    {
        Connection { buf: FrameBuffer::new() }
    }

    /// Feeds one chunk of received bytes.  Returns the connection's
    /// outcome as soon as the bytes received so far contain a complete
    /// frame; the outcome depends only on the concatenated bytes,
    /// never on how they were chunked.
    pub fn on_data(&mut self, chunk: &[u8]) -> (r: Option<ConnOutcome>)
        ensures
            final(self)@ == old(self)@ + chunk@,
            r is Some <==> conn_status(final(self)@) is Some,
            r matches Some(o) ==> conn_status(final(self)@) == Some(o@),
    {
        self.buf.push_chunk(chunk);
        match self.buf.poll() {
            FramePoll::Pending => None,
            FramePoll::Oversize => Some(ConnOutcome::Reject(DecodeError::OversizeFrame)),
            FramePoll::Complete(body) => match decode_body(&body) {
                Err(_) => Some(ConnOutcome::Reject(DecodeError::Malformed)),
                Ok(env) => Some(dispatch(env)),
            },
        }
    }

    /// The peer closed the connection before a complete frame arrived:
    /// the frame is truncated and the connection is dropped.
    pub fn on_eof(&self) -> (r: ConnOutcome)
        ensures
            r@ == ConnOutcomeModel::Reject(DecodeError::Truncated),
            conn_status(self@) is None ==> connection_outcome(self@) == r@,
    {
        ConnOutcome::Reject(DecodeError::Truncated)
    }

    /// No complete frame arrived within the read deadline: the
    /// connection is dropped so a stalled peer cannot hold a handler
    /// open indefinitely.
    pub fn on_deadline(&self) -> (r: ConnOutcome)
        ensures
            r@ == ConnOutcomeModel::Expire,
    {
        ConnOutcome::Expire
    }
}

/// A complete frame for an encodable envelope is accepted whole and
/// dispatched by its kind.
pub proof fn lemma_frame_dispatch(e: EnvelopeModel)
    requires
        encodable(e),
    ensures
        conn_status(frame_bytes(e)) == Some(dispatch_model(e)),
{
    let body = crate::codec::body_bytes(e);
    let f = frame_bytes(e);
    lemma_be32_roundtrip(body.len() as u32);
    assert(f.take(4) =~= crate::wire::be32(body.len() as u32));
    assert(f.subrange(4, 4 + body.len() as int) =~= body);
    lemma_parse_body_roundtrip(e);
}

/// Relay fidelity: for any argument sequence that fits the wire
/// format, a connection that delivers exactly the frame a relay
/// client builds for it is dispatched with that same sequence, intact
/// and in order.
pub proof fn lemma_relay_fidelity(args: Seq<Seq<char>>)
    requires
        encodable(args_envelope_model(args)),
    ensures
        conn_status(frame_bytes(args_envelope_model(args))) == Some(
            ConnOutcomeModel::Deliver(args),
        ),
{
    lemma_frame_dispatch(args_envelope_model(args));
}

/// How a connection's bytes were split into chunks is irrelevant: the
/// status of the reassembled stream is the status of the whole.
pub proof fn lemma_chunking_irrelevant(b: Seq<u8>, k: int)
    requires
        0 <= k <= b.len(),
    ensures
        conn_status(b.take(k) + b.skip(k)) == conn_status(b),
{
    assert(b.take(k) + b.skip(k) =~= b);
}

/// Isolation: a connection's outcome depends on its own bytes alone.
/// Two runs of the accept loop whose streams agree at position `i`
/// agree on the outcome at position `i`, whatever every other
/// connection sent.
pub proof fn lemma_isolation(c1: Seq<Seq<u8>>, c2: Seq<Seq<u8>>, i: int)
    requires
        c1.len() == c2.len(),
        0 <= i < c1.len(),
        c1[i] == c2[i],
    ensures
        server_outcomes(c1)[i] == server_outcomes(c2)[i],
{
}

/// A malformed connection does not block the next one: in a run where
/// connection 0 sent garbage and connection 1 sent a well-formed
/// `"args"` frame, connection 1 is still delivered.
pub proof fn lemma_malformed_does_not_block(bad: Seq<u8>, args: Seq<Seq<char>>)
    requires
        encodable(args_envelope_model(args)),
    ensures
        server_outcomes(seq![bad, frame_bytes(args_envelope_model(args))])[1]
            == ConnOutcomeModel::Deliver(args),
{
    lemma_relay_fidelity(args);
}

/// Repeated relays are all processed: a run of `n` connections, each
/// delivering the frame for its own argument sequence, dispatches all
/// `n` sequences, each intact and in order.
pub proof fn lemma_repeated_relays(conns: Seq<Seq<u8>>, argses: Seq<Seq<Seq<char>>>)
    requires
        conns.len() == argses.len(),
        forall|i: int|
            0 <= i < conns.len() ==> encodable(args_envelope_model(#[trigger] argses[i]))
                && conns[i] == frame_bytes(args_envelope_model(argses[i])),
    ensures
        server_outcomes(conns).len() == conns.len(),
        forall|i: int|
            0 <= i < conns.len() ==> #[trigger] server_outcomes(conns)[i]
                == ConnOutcomeModel::Deliver(argses[i]),
{
    assert forall|i: int| 0 <= i < conns.len() implies #[trigger] server_outcomes(conns)[i]
        == ConnOutcomeModel::Deliver(argses[i]) by {
        lemma_relay_fidelity(argses[i]);
    }
}

} // verus!
