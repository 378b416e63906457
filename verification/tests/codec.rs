use frogworks::codec::{decode_body, encode_body, encode_frame, DecodeError, EncodeError};
use frogworks::envelope::Envelope;

fn s(x: &str) -> String {
    x.to_string()
}

fn args_envelope_of(args: &[&str]) -> Envelope {
    Envelope { kind: s("args"), payload: args.iter().map(|a| s(a)).collect() }
}

fn be32_of(n: u32) -> [u8; 4] {
    [(n >> 24) as u8, (n >> 16) as u8, (n >> 8) as u8, n as u8]
}

fn push_chunk(out: &mut Vec<u8>, bytes: &[u8]) {
    out.extend_from_slice(&be32_of(bytes.len() as u32));
    out.extend_from_slice(bytes);
}

#[test]
fn roundtrip_three_args() {
    let env = args_envelope_of(&["--open", "game:42", "x"]);
    let body = encode_body(&env).unwrap();
    let back = decode_body(&body).unwrap();
    assert_eq!(back.kind, s("args"));
    assert_eq!(back.payload, vec![s("--open"), s("game:42"), s("x")]);
}

#[test]
fn roundtrip_three_hundred_args() {
    let args: Vec<String> = (0..300).map(|i| format!("argument-number-{:04}", i)).collect();
    let env = Envelope { kind: s("args"), payload: args.clone() };
    let body = encode_body(&env).unwrap();
    assert!(body.len() > 1024, "payload must exceed one transport buffer");
    let back = decode_body(&body).unwrap();
    assert_eq!(back.kind, s("args"));
    assert_eq!(back.payload, args);
}

#[test]
fn roundtrip_empty_payload() {
    let env = args_envelope_of(&[]);
    let body = encode_body(&env).unwrap();
    let back = decode_body(&body).unwrap();
    assert_eq!(back.kind, s("args"));
    assert!(back.payload.is_empty());
}

#[test]
fn roundtrip_empty_strings() {
    let env = args_envelope_of(&["", "", ""]);
    let body = encode_body(&env).unwrap();
    let back = decode_body(&body).unwrap();
    assert_eq!(back.payload, vec![s(""), s(""), s("")]);
}

#[test]
fn roundtrip_unicode_args() {
    let env = args_envelope_of(&["héllo", "wörld → 世界", "🐸works"]);
    let body = encode_body(&env).unwrap();
    let back = decode_body(&body).unwrap();
    assert_eq!(back.payload, vec![s("héllo"), s("wörld → 世界"), s("🐸works")]);
}

#[test]
fn roundtrip_unknown_kind() {
    let env = Envelope { kind: s("ping"), payload: vec![s("payload")] };
    let body = encode_body(&env).unwrap();
    let back = decode_body(&body).unwrap();
    assert_eq!(back.kind, s("ping"));
    assert_eq!(back.payload, vec![s("payload")]);
}

#[test]
fn decode_rejects_truncated_body() {
    let env = args_envelope_of(&["--open", "game:42"]);
    let mut body = encode_body(&env).unwrap();
    body.pop();
    assert_eq!(decode_body(&body), Err(DecodeError::Malformed));
}

#[test]
fn decode_rejects_trailing_bytes() {
    let env = args_envelope_of(&["--open"]);
    let mut body = encode_body(&env).unwrap();
    body.push(0);
    assert_eq!(decode_body(&body), Err(DecodeError::Malformed));
}

#[test]
fn decode_rejects_short_input() {
    assert_eq!(decode_body(&vec![1u8, 2u8]), Err(DecodeError::Malformed));
}

#[test]
fn decode_rejects_overrunning_field_length() {
    let mut body: Vec<u8> = Vec::new();
    push_chunk(&mut body, b"args");
    body.extend_from_slice(&be32_of(1));
    // A field that claims 100 bytes but delivers 2.
    body.extend_from_slice(&be32_of(100));
    body.extend_from_slice(&[1, 2]);
    assert_eq!(decode_body(&body), Err(DecodeError::Malformed));
}

#[test]
fn decode_rejects_invalid_utf8_field() {
    let mut body: Vec<u8> = Vec::new();
    push_chunk(&mut body, b"args");
    body.extend_from_slice(&be32_of(1));
    push_chunk(&mut body, &[0xFF, 0xFE]);
    assert_eq!(decode_body(&body), Err(DecodeError::Malformed));
}

#[test]
fn decode_rejects_invalid_utf8_kind() {
    let mut body: Vec<u8> = Vec::new();
    push_chunk(&mut body, &[0x80]);
    body.extend_from_slice(&be32_of(0));
    assert_eq!(decode_body(&body), Err(DecodeError::Malformed));
}

#[test]
fn encode_rejects_oversize_argument() {
    let env = Envelope { kind: s("args"), payload: vec!["x".repeat(0x0010_0001)] };
    assert_eq!(encode_body(&env), Err(EncodeError::Oversize));
    assert_eq!(encode_frame(&env), Err(EncodeError::Oversize));
}

#[test]
fn encode_rejects_oversize_total() {
    // Each argument fits alone, but together they exceed the frame bound.
    let env = Envelope {
        kind: s("args"),
        payload: (0..5).map(|_| "y".repeat(0x0004_0000)).collect(),
    };
    assert_eq!(encode_body(&env), Err(EncodeError::Oversize));
}

#[test]
fn frame_is_length_prefixed_body() {
    let env = args_envelope_of(&["--open", "game:42"]);
    let body = encode_body(&env).unwrap();
    let frame = encode_frame(&env).unwrap();
    assert_eq!(&frame[0..4], &be32_of(body.len() as u32));
    assert_eq!(&frame[4..], &body[..]);
}
