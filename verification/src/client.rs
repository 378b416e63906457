//! The relay client: a non-primary invocation builds one `"args"`
//! envelope for its startup arguments, frames it, writes the frame to
//! the primary instance over the loopback channel as a single message,
//! and returns.  It never waits for an application-level
//! acknowledgment: transport success is the only confirmation.

use vstd::prelude::*;
use crate::codec::{encodable, encode_frame, frame_bytes, EncodeError};
use crate::envelope::{args_envelope, args_envelope_model};

verus! {

/// Why a relay attempt failed.
#[derive(Clone, Copy, Debug, PartialEq, Eq, Structural)]
pub enum RelayError {
    /// The connection was refused or timed out: the primary instance
    /// died between the lock check and the connect attempt.  The
    /// caller reports this and exits; it never promotes itself to
    /// primary.
    Unreachable,
    /// The connection was accepted but the write failed mid-send.
    TransportFailure,
}

/// The transport step at which a relay attempt failed.
#[derive(Clone, Copy, Debug, PartialEq, Eq, Structural)]
pub enum TransportPhase {
    /// Opening the connection to the primary's loopback address.
    Connect,
    /// Writing the single framed message.
    Write,
}

/// Maps a failed transport step to the relay error it surfaces: a
/// failed connect means the primary is unreachable; a failed write is
/// a transport failure mid-send.
pub fn relay_error_for(phase: TransportPhase) -> (r: RelayError)
    ensures
        phase is Connect <==> r is Unreachable,
        phase is Write <==> r is TransportFailure,
{
    match phase {
        TransportPhase::Connect => RelayError::Unreachable,
        TransportPhase::Write => RelayError::TransportFailure,
    }
}

/// Builds the single framed message a relay client sends for the
/// argument sequence `args`: the frame of the `"args"` envelope whose
/// payload is `args`, intact and in order.
pub fn build_relay_frame(args: Vec<String>) -> (r: Result<Vec<u8>, EncodeError>)
    ensures
        r is Ok <==> encodable(args_envelope_model(args.deep_view())),
        r matches Ok(v) ==> v@ == frame_bytes(args_envelope_model(args.deep_view())),
{
    let env = args_envelope(args);
    encode_frame(&env)
}

} // verus!
