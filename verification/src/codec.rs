//! Codec for the loopback wire format.
//!
//! A frame is a 4-byte big-endian length prefix followed by that many
//! bytes of envelope body.  A body is the kind tag as a length-prefixed
//! UTF-8 string, a 4-byte big-endian count of payload strings, and each
//! payload string as a length-prefixed UTF-8 string.  The codec is
//! self-delimiting over a stream transport, so rapid back-to-back
//! relays, or a payload that straddles two read buffers, decode
//! correctly.

use vstd::prelude::*;
use vstd::utf8::{decode_utf8, encode_utf8, valid_utf8};
use crate::envelope::{Envelope, EnvelopeModel};
use crate::wire::{
    be32, be32_value, copy_range, lemma_be32_roundtrip, push_be32, push_bytes, read_be32,
    MAX_FRAME_LEN,
};

verus! {

/// Why a received byte sequence was rejected.
#[derive(Clone, Copy, Debug, PartialEq, Eq, Structural)]
pub enum DecodeError {
    /// A length prefix announced a frame larger than [`MAX_FRAME_LEN`].
    OversizeFrame,
    /// The stream ended before a complete frame arrived.
    Truncated,
    /// The frame body failed structural validation.
    Malformed,
}

/// Why an envelope could not be encoded.
#[derive(Clone, Copy, Debug, PartialEq, Eq, Structural)]
pub enum EncodeError {
    /// The encoded body would exceed [`MAX_FRAME_LEN`].
    Oversize,
}

/// A length-prefixed field: four big-endian bytes of length, then the
/// field's bytes.
pub open spec fn chunk_bytes(b: Seq<u8>) -> Seq<u8>
    recommends
        b.len() <= u32::MAX,
{
    be32(b.len() as u32) + b
}

/// The payload strings, each encoded as a length-prefixed UTF-8 field.
pub open spec fn strings_bytes(ss: Seq<Seq<char>>) -> Seq<u8>
    decreases ss.len(),
{
    if ss.len() == 0 {
        Seq::empty()
    } else {
        chunk_bytes(encode_utf8(ss.first())) + strings_bytes(ss.drop_first())
    }
}

/// The encoded body of an envelope: kind field, payload count, payload
/// fields.
pub open spec fn body_bytes(e: EnvelopeModel) -> Seq<u8> {
    chunk_bytes(encode_utf8(e.kind)) + be32(e.payload.len() as u32) + strings_bytes(e.payload)
}

/// The complete frame for an envelope: length prefix, then body.
pub open spec fn frame_bytes(e: EnvelopeModel) -> Seq<u8> {
    be32(body_bytes(e).len() as u32) + body_bytes(e)
}

/// Whether an envelope fits the wire format: its body within
/// [`MAX_FRAME_LEN`] and its payload count within the 4-byte count
/// field.
pub open spec fn encodable(e: EnvelopeModel) -> bool {
    body_bytes(e).len() <= MAX_FRAME_LEN && e.payload.len() <= u32::MAX
}

/// Splits a length-prefixed field off the front of `b`: the field's
/// bytes and the remainder, or `None` if `b` is too short.
pub open spec fn take_chunk(b: Seq<u8>) -> Option<(Seq<u8>, Seq<u8>)> {
    if b.len() < 4 {
        None
    } else {
        let n = be32_value(b.take(4)) as int;
        if b.len() < 4 + n {
            None
        } else {
            Some((b.subrange(4, 4 + n), b.skip(4 + n)))
        }
    }
}

/// Parses `count` length-prefixed UTF-8 strings off the front of `b`,
/// yielding the strings and the remainder.
pub open spec fn parse_strings(b: Seq<u8>, count: nat) -> Option<(Seq<Seq<char>>, Seq<u8>)>
    decreases count,
{
    if count == 0 {
        Some((Seq::empty(), b))
    } else {
        match take_chunk(b) {
            None => None,
            Some((c, rest)) => if !valid_utf8(c) {
                None
            } else {
                match parse_strings(rest, (count - 1) as nat) {
                    None => None,
                    Some((ss, r2)) => Some((seq![decode_utf8(c)] + ss, r2)),
                }
            },
        }
    }
}

/// Parses a complete envelope body.  `None` when the body fails
/// structural validation: a field length that overruns the body, a
/// field that is not UTF-8, or trailing bytes after the last field.
pub open spec fn parse_body(b: Seq<u8>) -> Option<EnvelopeModel> {
    match take_chunk(b) {
        None => None,
        Some((kb, rest)) => if !valid_utf8(kb) {
            None
        } else if rest.len() < 4 {
            None
        } else {
            let count = be32_value(rest.take(4));
            match parse_strings(rest.skip(4), count as nat) {
                None => None,
                Some((ss, r2)) => if r2.len() != 0 {
                    None
                } else {
                    Some(EnvelopeModel { kind: decode_utf8(kb), payload: ss })
                },
            }
        },
    }
}

/// The encoded payload splits at any string index.
pub proof fn lemma_strings_bytes_split(ss: Seq<Seq<char>>, i: int)
    requires
        0 <= i <= ss.len(),
    ensures
        strings_bytes(ss) == strings_bytes(ss.take(i)) + strings_bytes(ss.skip(i)),
    decreases i,
{
    if i == 0 {
        assert(ss.take(0) =~= Seq::<Seq<char>>::empty());
        assert(ss.skip(0) =~= ss);
        assert(strings_bytes(ss) =~= strings_bytes(ss.take(0)) + strings_bytes(ss.skip(0)));
    } else {
        let rest = ss.drop_first();
        lemma_strings_bytes_split(rest, i - 1);
        assert(ss.take(i).len() != 0);
        assert(ss.take(i).first() == ss.first());
        assert(ss.take(i).drop_first() =~= rest.take(i - 1));
        assert(ss.skip(i) =~= rest.skip(i - 1));
        assert(strings_bytes(ss) =~= strings_bytes(ss.take(i)) + strings_bytes(ss.skip(i)));
    }
}

/// Unfolds one encoded string at index `i` of the payload.
pub proof fn lemma_strings_bytes_skip_unfold(ss: Seq<Seq<char>>, i: int)
    requires
        0 <= i < ss.len(),
    ensures
        strings_bytes(ss.skip(i)) == chunk_bytes(encode_utf8(ss[i])) + strings_bytes(
            ss.skip(i + 1),
        ),
{
    let tail = ss.skip(i);
    assert(tail.len() != 0);
    assert(tail.first() == ss[i]);
    assert(tail.drop_first() =~= ss.skip(i + 1));
}

/// Appending one more string to an encoded prefix of the payload.
pub proof fn lemma_strings_bytes_take_step(ss: Seq<Seq<char>>, i: int)
    requires
        0 <= i < ss.len(),
    ensures
        strings_bytes(ss.take(i + 1)) == strings_bytes(ss.take(i)) + chunk_bytes(
            encode_utf8(ss[i]),
        ),
{
    lemma_strings_bytes_split(ss.take(i + 1), i);
    assert(ss.take(i + 1).take(i) =~= ss.take(i));
    let last = ss.take(i + 1).skip(i);
    assert(last =~= seq![ss[i]]);
    assert(last.len() == 1 && last.first() == ss[i]);
    assert(last.drop_first() =~= Seq::<Seq<char>>::empty());
    assert(strings_bytes(last) == chunk_bytes(encode_utf8(ss[i])) + strings_bytes(
        last.drop_first(),
    ));
    assert(chunk_bytes(encode_utf8(ss[i])) + Seq::<u8>::empty() =~= chunk_bytes(
        encode_utf8(ss[i]),
    ));
}

/// In an encodable envelope every field, with its length prefix, fits
/// inside the frame bound.
pub proof fn lemma_encodable_fits(e: EnvelopeModel)
    requires
        encodable(e),
    ensures
        encode_utf8(e.kind).len() + 4 <= MAX_FRAME_LEN,
        forall|i: int|
            0 <= i < e.payload.len() ==> #[trigger] encode_utf8(e.payload[i]).len() + 4
                <= MAX_FRAME_LEN,
{
    assert forall|i: int| 0 <= i < e.payload.len() implies #[trigger] encode_utf8(
        e.payload[i],
    ).len() + 4 <= MAX_FRAME_LEN by {
        lemma_strings_bytes_split(e.payload, i);
        lemma_strings_bytes_skip_unfold(e.payload, i);
    }
}

/// Splitting a length-prefixed field off recovers the field exactly.
pub proof fn lemma_take_chunk_of_chunk(c: Seq<u8>, rest: Seq<u8>)
    requires
        c.len() <= u32::MAX,
    ensures
        take_chunk(chunk_bytes(c) + rest) == Some((c, rest)),
{
    let b = chunk_bytes(c) + rest;
    lemma_be32_roundtrip(c.len() as u32);
    assert(b.take(4) =~= be32(c.len() as u32));
    let n = be32_value(b.take(4)) as int;
    assert(n == c.len());
    assert(b.subrange(4, 4 + n) =~= c);
    assert(b.skip(4 + n) =~= rest);
    assert(take_chunk(b) =~~= Some((c, rest)));
}

/// Parsing the encoded payload recovers every string, in order.
pub proof fn lemma_parse_strings_roundtrip(ss: Seq<Seq<char>>, tail: Seq<u8>)
    requires
        forall|i: int|
            0 <= i < ss.len() ==> #[trigger] encode_utf8(ss[i]).len() <= u32::MAX,
    ensures
        parse_strings(strings_bytes(ss) + tail, ss.len()) == Some((ss, tail)),
    decreases ss.len(),
{
    broadcast use vstd::utf8::encode_utf8_valid_utf8, vstd::utf8::encode_utf8_decode_utf8;

    if ss.len() == 0 {
        assert(strings_bytes(ss) + tail =~= tail);
        assert(parse_strings(tail, 0) =~~= Some((Seq::<Seq<char>>::empty(), tail)));
        assert(Seq::<Seq<char>>::empty() =~= ss);
    } else {
        let rest = ss.drop_first();
        let b = strings_bytes(ss) + tail;
        assert(b =~= chunk_bytes(encode_utf8(ss.first())) + (strings_bytes(rest) + tail));
        lemma_take_chunk_of_chunk(encode_utf8(ss.first()), strings_bytes(rest) + tail);
        assert(forall|i: int|
            0 <= i < rest.len() ==> #[trigger] encode_utf8(rest[i]).len() <= u32::MAX) by {
            assert(forall|i: int| 0 <= i < rest.len() ==> rest[i] == ss[i + 1]);
        }
        lemma_parse_strings_roundtrip(rest, tail);
        assert(seq![decode_utf8(encode_utf8(ss.first()))] + rest =~= ss);
        assert(parse_strings(b, ss.len()) =~~= Some((ss, tail)));
    }
}

/// Parsing the encoded body of an encodable envelope recovers the
/// envelope exactly.
pub proof fn lemma_parse_body_roundtrip(e: EnvelopeModel)
    requires
        encodable(e),
    ensures
        parse_body(body_bytes(e)) matches Some(d) && d == e,
{
    broadcast use vstd::utf8::encode_utf8_valid_utf8, vstd::utf8::encode_utf8_decode_utf8;

    lemma_encodable_fits(e);
    let kb = encode_utf8(e.kind);
    let rest = be32(e.payload.len() as u32) + strings_bytes(e.payload);
    assert(body_bytes(e) =~= chunk_bytes(kb) + rest);
    lemma_take_chunk_of_chunk(kb, rest);
    lemma_be32_roundtrip(e.payload.len() as u32);
    assert(rest.take(4) =~= be32(e.payload.len() as u32));
    assert(rest.skip(4) =~= strings_bytes(e.payload) + Seq::<u8>::empty());
    assert(forall|i: int|
        0 <= i < e.payload.len() ==> #[trigger] encode_utf8(e.payload[i]).len() <= u32::MAX);
    lemma_parse_strings_roundtrip(e.payload, Seq::<u8>::empty());
    let d = parse_body(body_bytes(e)).unwrap();
    assert(d.kind == decode_utf8(kb));
    assert(d.payload == e.payload);
}

/// Encodes the body of an envelope, or reports that it does not fit
/// the wire format.
pub fn encode_body(e: &Envelope) -> (r: Result<Vec<u8>, EncodeError>)
    ensures
        r is Ok <==> encodable(e@),
        r matches Ok(v) ==> v@ == body_bytes(e@),
{
    let kb: &[u8] = e.kind.as_str().as_bytes();
    if kb.len() > (MAX_FRAME_LEN - 8) as usize {
        proof {
            assert(body_bytes(e@).len() >= 8 + kb@.len());
        }
        return Err(EncodeError::Oversize);
    }
    let count = e.payload.len();
    if count as u64 > u32::MAX as u64 {
        return Err(EncodeError::Oversize);
    }
    let mut out: Vec<u8> = Vec::new();
    push_be32(&mut out, kb.len() as u32);
    push_bytes(&mut out, kb);
    push_be32(&mut out, count as u32);
    let ghost prefix = chunk_bytes(encode_utf8(e@.kind)) + be32(count as u32);
    proof {
        assert(out@ =~= prefix);
    }
    let mut i: usize = 0;
    while i < count
        invariant
            i <= count,
            count == e@.payload.len(),
            count <= u32::MAX,
            prefix == chunk_bytes(encode_utf8(e@.kind)) + be32(count as u32),
            out@ == prefix + strings_bytes(e@.payload.take(i as int)),
            out@.len() <= MAX_FRAME_LEN,
        decreases count - i,
    {
        let ab: &[u8] = (&e.payload[i]).as_str().as_bytes();
        proof {
            assert(e@.payload[i as int] == e.payload@[i as int]@);
        }
        if (out.len() as u128) + 4 + (ab.len() as u128) > MAX_FRAME_LEN as u128 {
            proof {
                lemma_strings_bytes_split(e@.payload, i as int);
                lemma_strings_bytes_skip_unfold(e@.payload, i as int);
                assert(body_bytes(e@).len() >= out@.len() + 4 + ab@.len());
            }
            return Err(EncodeError::Oversize);
        }
        push_be32(&mut out, ab.len() as u32);
        push_bytes(&mut out, ab);
        proof {
            lemma_strings_bytes_take_step(e@.payload, i as int);
            assert(out@ =~= prefix + strings_bytes(e@.payload.take(i as int + 1)));
        }
        i += 1;
    }
    proof {
        assert(e@.payload.take(count as int) =~= e@.payload);
        assert(out@ =~= body_bytes(e@));
    }
    Ok(out)
}

/// Relies on `String::from_utf8`: it returns the string backed by
/// exactly the given bytes when they are valid UTF-8, and an error
/// otherwise.
#[verifier::external_body]
fn string_from_utf8(v: Vec<u8>) -> (r: Option<String>)
    ensures
        r is Some <==> valid_utf8(v@),
        r matches Some(s) ==> s@ == decode_utf8(v@),
{
    String::from_utf8(v).ok()
}

/// Decodes one envelope body, or reports that it fails structural
/// validation.
#[verifier::loop_isolation(false)]
pub fn decode_body(b: &Vec<u8>) -> (r: Result<Envelope, DecodeError>)
    ensures
        r is Ok <==> parse_body(b@) is Some,
        r matches Ok(env) ==> parse_body(b@) matches Some(d) && env@ == d,
        r matches Err(err) ==> err == DecodeError::Malformed,
{
    let n = b.len();
    if n < 4 {
        return Err(DecodeError::Malformed);
    }
    let klen_32 = read_be32(b, 0);
    proof {
        assert(b@.take(4) =~= b@.subrange(0, 4));
    }
    let klen = klen_32 as usize;
    if klen > n - 4 {
        return Err(DecodeError::Malformed);
    }
    let ghost kb_chunk = b@.subrange(4, 4 + klen as int);
    let ghost rest = b@.skip(4 + klen as int);
    proof {
        assert(take_chunk(b@) =~~= Some((kb_chunk, rest)));
    }
    let kchunk = copy_range(b, 4, 4 + klen);
    let kind = match string_from_utf8(kchunk) {
        None => {
            return Err(DecodeError::Malformed);
        },
        Some(s) => s,
    };
    let mut pos: usize = 4 + klen;
    if n - pos < 4 {
        proof {
            assert(rest.len() < 4);
        }
        return Err(DecodeError::Malformed);
    }
    let count = read_be32(b, pos);
    proof {
        assert(rest.take(4) =~= b@.subrange(pos as int, pos as int + 4));
    }
    pos = pos + 4;
    let ghost rest0 = b@.skip(pos as int);
    proof {
        assert(rest.skip(4) =~= rest0);
    }
    let mut payload: Vec<String> = Vec::new();
    let mut remaining: u32 = count;
    while remaining > 0
        invariant
            pos <= n,
            n == b@.len(),
            remaining <= count,
            parse_strings(rest0, count as nat) == (match parse_strings(
                b@.skip(pos as int),
                remaining as nat,
            ) {
                None => None::<(Seq<Seq<char>>, Seq<u8>)>,
                Some((ss, tail)) => Some((payload.deep_view() + ss, tail)),
            }),
        decreases remaining,
    {
        let ghost here = b@.skip(pos as int);
        if n - pos < 4 {
            proof {
                assert(here.len() < 4);
            }
            return Err(DecodeError::Malformed);
        }
        let len_32 = read_be32(b, pos);
        proof {
            assert(here.take(4) =~= b@.subrange(pos as int, pos as int + 4));
        }
        let len = len_32 as usize;
        if len > n - pos - 4 {
            return Err(DecodeError::Malformed);
        }
        let ghost c = b@.subrange(pos + 4, pos + 4 + len as int);
        let ghost after = b@.skip(pos + 4 + len as int);
        proof {
            assert(here.subrange(4, 4 + len as int) =~= c);
            assert(here.skip(4 + len as int) =~= after);
            assert(take_chunk(here) =~~= Some((c, after)));
        }
        let chunk = copy_range(b, pos + 4, pos + 4 + len);
        let s = match string_from_utf8(chunk) {
            None => {
                return Err(DecodeError::Malformed);
            },
            Some(s) => s,
        };
        let ghost old_payload = payload.deep_view();
        payload.push(s);
        pos = pos + 4 + len;
        remaining = remaining - 1;
        proof {
            assert(payload.deep_view() =~= old_payload + seq![s@]);
            match parse_strings(after, remaining as nat) {
                Some(p) => {
                    let (ss, tail) = p;
                    assert(old_payload + (seq![decode_utf8(c)] + ss) =~= payload.deep_view()
                        + ss);
                },
                None => {},
            }
        }
    }
    proof {
        assert(parse_strings(b@.skip(pos as int), 0) == Some(
            (Seq::<Seq<char>>::empty(), b@.skip(pos as int)),
        ));
        assert(payload.deep_view() + Seq::<Seq<char>>::empty() =~= payload.deep_view());
        assert(parse_strings(rest0, count as nat) == Some(
            (payload.deep_view(), b@.skip(pos as int)),
        ));
    }
    if pos != n {
        proof {
            assert(b@.skip(pos as int).len() != 0);
        }
        return Err(DecodeError::Malformed);
    }
    proof {
        assert(b@.skip(pos as int).len() == 0);
    }
    let env = Envelope { kind, payload };
    proof {
        assert(parse_body(b@) matches Some(d) && env@ == d);
    }
    Ok(env)
}

/// Encodes a complete frame: the 4-byte big-endian body length, then
/// the body.
pub fn encode_frame(e: &Envelope) -> (r: Result<Vec<u8>, EncodeError>)
    ensures
        r is Ok <==> encodable(e@),
        r matches Ok(v) ==> v@ == frame_bytes(e@),
{
    match encode_body(e) {
        Err(err) => Err(err),
        Ok(body) => {
            let mut out: Vec<u8> = Vec::new();
            push_be32(&mut out, body.len() as u32);
            push_bytes(&mut out, body.as_slice());
            proof {
                assert(out@ =~= frame_bytes(e@));
            }
            Ok(out)
        },
    }
}

} // verus!
