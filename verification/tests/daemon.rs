use frogworks::client::RelayError;
use frogworks::daemon::{
    get_tcp_address, initial_phase, step, DaemonAction, DaemonEvent, DaemonPhase, LockOutcome,
    RelayOutcome, EXIT_OK, EXIT_RELAY_FAILED, EXIT_STARTUP_FAILED,
};
use frogworks::shutdown::{presence_quit, ShutdownFlag};

#[test]
fn tcp_address_is_fixed_loopback() {
    assert_eq!(get_tcp_address(), "127.0.0.1:57222".to_string());
}

#[test]
fn primary_lifecycle() {
    let phase = initial_phase();
    assert_eq!(phase, DaemonPhase::Starting);

    let (phase, action) = step(phase, DaemonEvent::LockResolved(LockOutcome::Acquired));
    assert_eq!(phase, DaemonPhase::Primary);
    assert_eq!(action, DaemonAction::StartServices);

    let (phase, action) = step(phase, DaemonEvent::QuitRequested);
    assert_eq!(phase, DaemonPhase::ShuttingDown);
    assert_eq!(action, DaemonAction::ExitProcess(EXIT_OK));

    let (phase, action) = step(phase, DaemonEvent::Exited);
    assert_eq!(phase, DaemonPhase::Terminated);
    assert_eq!(action, DaemonAction::NoAction);
}

#[test]
fn secondary_relays_and_exits_cleanly() {
    let (phase, action) = step(
        initial_phase(),
        DaemonEvent::LockResolved(LockOutcome::AlreadyHeld),
    );
    assert_eq!(phase, DaemonPhase::Relaying);
    assert_eq!(action, DaemonAction::StartRelay);

    let (phase, action) = step(phase, DaemonEvent::RelayFinished(RelayOutcome::Delivered));
    assert_eq!(phase, DaemonPhase::Terminated);
    assert_eq!(action, DaemonAction::ExitProcess(EXIT_OK));
}

#[test]
fn scenario_no_primary_running() {
    // No primary is listening: the client observes Unreachable, exits
    // non-zero, and never becomes primary itself.
    let (phase, action) = step(
        initial_phase(),
        DaemonEvent::LockResolved(LockOutcome::AlreadyHeld),
    );
    assert_eq!(phase, DaemonPhase::Relaying);
    assert_eq!(action, DaemonAction::StartRelay);

    let (phase, action) = step(
        phase,
        DaemonEvent::RelayFinished(RelayOutcome::Failed(RelayError::Unreachable)),
    );
    assert_eq!(phase, DaemonPhase::Terminated);
    assert_eq!(action, DaemonAction::ExitProcess(EXIT_RELAY_FAILED));
    assert_ne!(action, DaemonAction::ExitProcess(EXIT_OK));
}

#[test]
fn transport_failure_also_exits_nonzero() {
    let (_, action) = step(
        DaemonPhase::Relaying,
        DaemonEvent::RelayFinished(RelayOutcome::Failed(RelayError::TransportFailure)),
    );
    assert_eq!(action, DaemonAction::ExitProcess(EXIT_RELAY_FAILED));
}

#[test]
fn lock_registration_failure_is_fatal() {
    let (phase, action) = step(initial_phase(), DaemonEvent::LockResolved(LockOutcome::Failed));
    assert_eq!(phase, DaemonPhase::Terminated);
    assert_eq!(action, DaemonAction::ExitProcess(EXIT_STARTUP_FAILED));
}

#[test]
fn out_of_protocol_events_are_ignored() {
    let (phase, action) = step(DaemonPhase::Primary, DaemonEvent::Exited);
    assert_eq!(phase, DaemonPhase::Primary);
    assert_eq!(action, DaemonAction::NoAction);

    let (phase, action) = step(
        DaemonPhase::Terminated,
        DaemonEvent::LockResolved(LockOutcome::Acquired),
    );
    assert_eq!(phase, DaemonPhase::Terminated);
    assert_eq!(action, DaemonAction::NoAction);
}

#[test]
fn shutdown_signal_is_observed_by_all_waiters() {
    let mut flag = ShutdownFlag::new();
    assert!(!flag.is_signaled());
    flag.signal();
    assert!(flag.is_signaled());
    assert!(flag.is_signaled());
}

#[test]
fn shutdown_signal_twice_is_noop() {
    let mut flag = ShutdownFlag::new();
    flag.signal();
    flag.signal();
    assert!(flag.is_signaled());
}

#[test]
fn presence_quit_signals_shutdown() {
    let mut flag = ShutdownFlag::new();
    presence_quit(&mut flag);
    assert!(flag.is_signaled());
}
