use frogworks::client::{build_relay_frame, relay_error_for, RelayError, TransportPhase};
use frogworks::codec::{encode_frame, DecodeError};
use frogworks::daemon::{step, DaemonAction, DaemonEvent, DaemonPhase, RelayOutcome};
use frogworks::envelope::{ConnOutcome, Envelope};
use frogworks::server::Connection;

fn s(x: &str) -> String {
    x.to_string()
}

fn args_frame(args: &[&str]) -> Vec<u8> {
    build_relay_frame(args.iter().map(|a| s(a)).collect()).unwrap()
}

fn be32_of(n: u32) -> [u8; 4] {
    [(n >> 24) as u8, (n >> 16) as u8, (n >> 8) as u8, n as u8]
}

#[test]
fn single_chunk_is_delivered() {
    let frame = args_frame(&["--open", "game:42"]);
    let mut conn = Connection::new();
    let outcome = conn.on_data(&frame);
    assert_eq!(outcome, Some(ConnOutcome::Deliver(vec![s("--open"), s("game:42")])));
}

#[test]
fn byte_by_byte_chunks_are_delivered() {
    let frame = args_frame(&["--open", "game:42", "third-argument"]);
    let mut conn = Connection::new();
    for i in 0..frame.len() - 1 {
        assert_eq!(conn.on_data(&frame[i..i + 1]), None, "no outcome before the frame is whole");
    }
    let outcome = conn.on_data(&frame[frame.len() - 1..]);
    assert_eq!(
        outcome,
        Some(ConnOutcome::Deliver(vec![s("--open"), s("game:42"), s("third-argument")]))
    );
}

#[test]
fn straddling_chunks_are_delivered() {
    let args: Vec<String> = (0..300).map(|i| format!("relayed-argument-{:04}", i)).collect();
    let frame = build_relay_frame(args.clone()).unwrap();
    assert!(frame.len() > 2048);
    let mut conn = Connection::new();
    let mut outcome = None;
    for chunk in frame.chunks(1024) {
        assert!(outcome.is_none());
        outcome = conn.on_data(chunk);
    }
    assert_eq!(outcome, Some(ConnOutcome::Deliver(args)));
}

#[test]
fn malformed_connection_does_not_block_next() {
    // Connection 0: a plausible length prefix over garbage bytes.
    let mut garbage: Vec<u8> = Vec::new();
    garbage.extend_from_slice(&be32_of(6));
    garbage.extend_from_slice(&[0xFF, 0xFF, 0xFF, 0xFF, 0xFF, 0xFF]);
    let mut first = Connection::new();
    assert_eq!(first.on_data(&garbage), Some(ConnOutcome::Reject(DecodeError::Malformed)));

    // Connection 1, opened immediately after, is dispatched fine.
    let frame = args_frame(&["still", "works"]);
    let mut second = Connection::new();
    assert_eq!(second.on_data(&frame), Some(ConnOutcome::Deliver(vec![s("still"), s("works")])));
}

#[test]
fn oversize_length_prefix_is_rejected() {
    let mut bytes: Vec<u8> = Vec::new();
    bytes.extend_from_slice(&be32_of(0x0010_0001));
    let mut conn = Connection::new();
    assert_eq!(conn.on_data(&bytes), Some(ConnOutcome::Reject(DecodeError::OversizeFrame)));
}

#[test]
fn eof_before_full_frame_is_truncated() {
    let frame = args_frame(&["--open"]);
    let mut conn = Connection::new();
    assert_eq!(conn.on_data(&frame[..frame.len() - 2]), None);
    assert_eq!(conn.on_eof(), ConnOutcome::Reject(DecodeError::Truncated));
}

#[test]
fn read_deadline_expires_connection() {
    let mut conn = Connection::new();
    assert_eq!(conn.on_data(&[0, 0]), None);
    assert_eq!(conn.on_deadline(), ConnOutcome::Expire);
}

#[test]
fn unknown_kind_is_ignored_not_fatal() {
    let env = Envelope { kind: s("ping"), payload: vec![s("x")] };
    let frame = encode_frame(&env).unwrap();
    let mut conn = Connection::new();
    assert_eq!(conn.on_data(&frame), Some(ConnOutcome::DropUnknown(s("ping"))));
}

#[test]
fn repeated_relays_all_processed() {
    // One long-lived primary accepts five client connections in a row:
    // all five argument lists arrive, none creates a second primary.
    let mut delivered: usize = 0;
    for i in 0..5 {
        let args = vec![format!("--invocation-{}", i)];
        let frame = build_relay_frame(args.clone()).unwrap();
        let mut conn = Connection::new();
        match conn.on_data(&frame) {
            Some(ConnOutcome::Deliver(got)) => {
                assert_eq!(got, args);
                delivered += 1;
            },
            other => panic!("relay {} not delivered: {:?}", i, other),
        }
    }
    assert_eq!(delivered, 5);
}

#[test]
fn relay_failure_classification() {
    assert_eq!(relay_error_for(TransportPhase::Connect), RelayError::Unreachable);
    assert_eq!(relay_error_for(TransportPhase::Write), RelayError::TransportFailure);
}

#[test]
fn scenario_client_args_reach_dispatcher() {
    // Primary started; client invoked with ["--open", "game:42"].
    let frame = args_frame(&["--open", "game:42"]);
    let mut conn = Connection::new();
    let outcome = conn.on_data(&frame);
    assert_eq!(outcome, Some(ConnOutcome::Deliver(vec![s("--open"), s("game:42")])));

    // The client's single write succeeded, so its process exits with 0.
    let (phase, action) = step(
        DaemonPhase::Relaying,
        DaemonEvent::RelayFinished(RelayOutcome::Delivered),
    );
    assert_eq!(phase, DaemonPhase::Terminated);
    assert_eq!(action, DaemonAction::ExitProcess(0));
}
