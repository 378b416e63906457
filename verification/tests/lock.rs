use frogworks::daemon::{step, DaemonAction, DaemonEvent, DaemonPhase, LockOutcome};
use frogworks::lock::{acquire, outcome_of, LockAcquisition};

#[test]
fn second_acquisition_observes_already_held() {
    // The OS-visible resource arbitrates: with the first acquisition
    // alive, a second of the same name must see "already held".
    let first = acquire("frogworks_daemon_lock_test_a");
    assert!(matches!(first, LockAcquisition::Acquired(_)));
    assert_eq!(outcome_of(&first), LockOutcome::Acquired);

    let second = acquire("frogworks_daemon_lock_test_a");
    assert!(matches!(second, LockAcquisition::AlreadyHeld));
    assert_eq!(outcome_of(&second), LockOutcome::AlreadyHeld);
}

#[test]
fn lock_released_when_holder_dropped() {
    {
        let held = acquire("frogworks_daemon_lock_test_b");
        assert!(matches!(held, LockAcquisition::Acquired(_)));
    }
    let again = acquire("frogworks_daemon_lock_test_b");
    assert!(matches!(again, LockAcquisition::Acquired(_)));
}

#[test]
fn exactly_one_of_two_racers_becomes_primary() {
    let first = acquire("frogworks_daemon_lock_test_c");
    let second = acquire("frogworks_daemon_lock_test_c");

    let (phase_one, action_one) = step(
        DaemonPhase::Starting,
        DaemonEvent::LockResolved(outcome_of(&first)),
    );
    let (phase_two, action_two) = step(
        DaemonPhase::Starting,
        DaemonEvent::LockResolved(outcome_of(&second)),
    );

    assert_eq!(phase_one, DaemonPhase::Primary);
    assert_eq!(action_one, DaemonAction::StartServices);
    assert_eq!(phase_two, DaemonPhase::Relaying);
    assert_eq!(action_two, DaemonAction::StartRelay);
}

#[test]
fn distinct_names_do_not_contend() {
    let a = acquire("frogworks_daemon_lock_test_d");
    let b = acquire("frogworks_daemon_lock_test_e");
    assert!(matches!(a, LockAcquisition::Acquired(_)));
    assert!(matches!(b, LockAcquisition::Acquired(_)));
}
