//! Incremental frame assembly.  A [`FrameBuffer`] accumulates the
//! bytes a connection has delivered so far, in whatever chunk sizes
//! the transport produced them, and reports when a complete frame is
//! available.  What it reports depends only on the concatenation of
//! the chunks, never on where the chunk boundaries fell.

use vstd::prelude::*;
use crate::wire::{be32_value, copy_range, push_bytes, read_be32, MAX_FRAME_LEN};

verus! {

/// What a byte prefix of a connection's stream amounts to: not yet a
/// complete frame, a length prefix too large to honour, or a complete
/// frame body.
pub enum FrameStatus {
    Pending,
    Oversize,
    Complete(Seq<u8>),
}

/// The frame, if any, delimited at the front of `b`.
pub open spec fn frame_status(b: Seq<u8>) -> FrameStatus {
    if b.len() < 4 {
        FrameStatus::Pending
    } else {
        let n = be32_value(b.take(4)) as int;
        if n > MAX_FRAME_LEN {
            FrameStatus::Oversize
        } else if b.len() < 4 + n {
            FrameStatus::Pending
        } else {
            FrameStatus::Complete(b.subrange(4, 4 + n))
        }
    }
}

/// Accumulates the bytes received so far on one connection.
pub struct FrameBuffer {
    data: Vec<u8>,
}

impl View for FrameBuffer {
    type V = Seq<u8>;

    closed spec fn view(&self) -> Seq<u8> {
        self.data@
    }
}

/// The executable counterpart of [`FrameStatus`].
pub enum FramePoll {
    Pending,
    Oversize,
    Complete(Vec<u8>),
}

impl View for FramePoll {
    type V = FrameStatus;

    open spec fn view(&self) -> FrameStatus {
        match self {
            FramePoll::Pending => FrameStatus::Pending,
            FramePoll::Oversize => FrameStatus::Oversize,
            FramePoll::Complete(body) => FrameStatus::Complete(body@),
        }
    }
}

impl FrameBuffer {
    /// An empty buffer: nothing received yet.
    pub fn new() -> (r: FrameBuffer)
        ensures
            r@ == Seq::<u8>::empty(),
    {
        FrameBuffer { data: Vec::new() }
    }

    /// Appends one chunk of received bytes, exactly as the transport
    /// delivered it.
    pub fn push_chunk(&mut self, chunk: &[u8])
        ensures
            final(self)@ == old(self)@ + chunk@,
    {
        push_bytes(&mut self.data, chunk);
    }

    /// Reports whether the bytes received so far delimit a complete
    /// frame, and extracts its body if so.
    pub fn poll(&self) -> (r: FramePoll)
        ensures
            r@ == frame_status(self@),
    {
        let n = self.data.len();
        if n < 4 {
            return FramePoll::Pending;
        }
        let want = read_be32(&self.data, 0);
        proof {
            assert(self.data@.take(4) =~= self.data@.subrange(0, 4));
        }
        if want > MAX_FRAME_LEN {
            return FramePoll::Oversize;
        }
        let want = want as usize;
        if n - 4 < want {
            return FramePoll::Pending;
        }
        FramePoll::Complete(copy_range(&self.data, 4, 4 + want))
    }
}

} // verus!
