//! Byte-level primitives of the loopback wire format: the 4-byte
//! big-endian length prefix that delimits every frame and every
//! variable-length field inside a frame body.

use vstd::prelude::*;

verus! {

/// Largest frame body the protocol accepts, in bytes.  A length prefix
/// above this bound is treated as malformed rather than buffered.
pub const MAX_FRAME_LEN: u32 = 0x0010_0000;

/// The four big-endian bytes that encode `n`.
pub open spec fn be32(n: u32) -> Seq<u8> {
    seq![
        (n >> 24) as u8,
        (n >> 16) as u8,
        (n >> 8) as u8,
        n as u8,
    ]
}

/// The value a 4-byte big-endian prefix denotes.
pub open spec fn be32_value(b: Seq<u8>) -> u32
    recommends
        b.len() == 4,
{
    (((b[0] as u32) << 24) | ((b[1] as u32) << 16) | ((b[2] as u32) << 8) | (b[3] as u32)) as u32
}

/// Reading back the four bytes of `be32(n)` yields `n` again.
pub proof fn lemma_be32_roundtrip(n: u32)
    ensures
        be32(n).len() == 4,
        be32_value(be32(n)) == n,
{
    let b0 = (n >> 24) as u8;
    let b1 = (n >> 16) as u8;
    let b2 = (n >> 8) as u8;
    let b3 = n as u8;
    assert((((b0 as u32) << 24) | ((b1 as u32) << 16) | ((b2 as u32) << 8) | (b3 as u32)) == n)
        by (bit_vector)
        requires
            b0 == (n >> 24) as u8,
            b1 == (n >> 16) as u8,
            b2 == (n >> 8) as u8,
            b3 == n as u8,
    ;
}

/// Appends the 4-byte big-endian encoding of `n` to `out`.
pub fn push_be32(out: &mut Vec<u8>, n: u32)
    ensures
        final(out)@ == old(out)@ + be32(n),
{
    out.push((n >> 24) as u8);
    out.push((n >> 16) as u8);
    out.push((n >> 8) as u8);
    out.push(n as u8);
    assert(out@ =~= old(out)@ + be32(n));
}

/// Reads the 4-byte big-endian prefix that starts at `at`.
pub fn read_be32(b: &Vec<u8>, at: usize) -> (n: u32)
    requires
        at + 4 <= b@.len(),
    ensures
        n == be32_value(b@.subrange(at as int, at + 4)),
{
    let len = b.len();
    assert(at + 4 <= len);
    let n0 = b[at] as u32;
    let n1 = b[at + 1] as u32;
    let n2 = b[at + 2] as u32;
    let n3 = b[at + 3] as u32;
    let ghost p = b@.subrange(at as int, at + 4);
    assert(p[0] == b@[at as int] && p[1] == b@[at + 1] && p[2] == b@[at + 2] && p[3] == b@[at
        + 3]);
    (n0 << 24) | (n1 << 16) | (n2 << 8) | n3
}

/// Appends every byte of `b` to `out`.
pub fn push_bytes(out: &mut Vec<u8>, b: &[u8])
    ensures
        final(out)@ == old(out)@ + b@,
{
    let n = b.len();
    let mut j: usize = 0;
    while j < n
        invariant
            j <= n,
            n == b@.len(),
            out@ == old(out)@ + b@.take(j as int),
        decreases n - j,
    {
        out.push(b[j]);
        proof {
            assert(out@ =~= old(out)@ + b@.take(j as int + 1));
        }
        j += 1;
    }
    proof {
        assert(b@.take(n as int) =~= b@);
    }
}

/// Copies `b[start..end]` into a fresh vector.
pub fn copy_range(b: &Vec<u8>, start: usize, end: usize) -> (v: Vec<u8>)
    requires
        start <= end <= b@.len(),
    ensures
        v@ == b@.subrange(start as int, end as int),
{
    let mut v: Vec<u8> = Vec::new();
    let mut j: usize = start;
    while j < end
        invariant
            start <= j <= end <= b@.len(),
            v@ == b@.subrange(start as int, j as int),
        decreases end - j,
    {
        v.push(b[j]);
        proof {
            assert(v@ =~= b@.subrange(start as int, j as int + 1));
        }
        j += 1;
    }
    v
}

} // verus!
