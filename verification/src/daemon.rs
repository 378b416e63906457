//! The daemon orchestrator: a state machine from process start to
//! process exit.  A starting process resolves the instance lock
//! exactly once, before any concurrent work; on success it becomes
//! the primary instance and runs the relay server and the presence
//! task, on `AlreadyHeld` it relays its arguments to the running
//! primary and terminates, and on any other lock failure it aborts.

use vstd::prelude::*;
use vstd::string::StringExecFns;
use crate::client::RelayError;

verus! {

/// Exit code of a graceful shutdown, and of a relay that was
/// delivered.
pub const EXIT_OK: u8 = 0;

/// Exit code of the client path when the relay failed.
pub const EXIT_RELAY_FAILED: u8 = 1;

/// Exit code of a fatal startup error: a lock registration failure
/// other than "already held", or a bind failure.
pub const EXIT_STARTUP_FAILED: u8 = 2;

/// The loopback address, as both peers know it at build time.
pub open spec fn daemon_address() -> Seq<char> {
    "127.0.0.1:57222"@
}

/// Returns the fixed loopback address of the relay channel.
pub fn get_tcp_address() -> (r: String)
    ensures
        r@ == daemon_address(),
{
    String::from_str("127.0.0.1:57222")
}

/// How the one-time instance lock acquisition resolved.
#[derive(Clone, Copy, Debug, PartialEq, Eq, Structural)]
pub enum LockOutcome {
    /// This process is now the sole holder.
    Acquired,
    /// Another process holds the lock.
    AlreadyHeld,
    /// Registration failed for another reason: a fatal startup error.
    Failed,
}

/// How the client path's relay attempt ended.
#[derive(Clone, Copy, Debug, PartialEq, Eq, Structural)]
pub enum RelayOutcome {
    /// The single framed message was written in full.
    Delivered,
    /// The relay failed; the process still exits, it never becomes a
    /// second primary.
    Failed(RelayError),
}

/// A phase of the daemon's life.
#[derive(Clone, Copy, Debug, PartialEq, Eq, Structural)]
pub enum DaemonPhase {
    /// Before the instance lock is resolved.
    Starting,
    /// A primary exists elsewhere: sending it our arguments.
    Relaying,
    /// This process is the primary instance.
    Primary,
    /// Shutdown was signaled; the process is about to exit.
    ShuttingDown,
    /// The process has exited; the lock is released by the OS.
    Terminated,
}

/// An event the orchestrator reacts to.
#[derive(Clone, Copy, Debug, PartialEq, Eq, Structural)]
pub enum DaemonEvent {
    /// The synchronous, one-time lock acquisition resolved.
    LockResolved(LockOutcome),
    /// The client path's relay attempt finished.
    RelayFinished(RelayOutcome),
    /// The shutdown signal fired.
    QuitRequested,
    /// The process completed its exit.
    Exited,
}

/// What the process must do on entering the next phase.
#[derive(Clone, Copy, Debug, PartialEq, Eq, Structural)]
pub enum DaemonAction {
    /// Become a relay client: send the startup arguments to the
    /// primary, then exit.
    StartRelay,
    /// Start the relay server and the presence task as independent
    /// concurrent units sharing one shutdown signal, then wait on it.
    StartServices,
    /// Exit with the given code.
    ExitProcess(u8),
    /// Nothing: the event does not apply to the phase and is ignored.
    NoAction,
}

/// The exit code the client path reports for a relay outcome: zero
/// exactly when the relay was delivered.
pub open spec fn relay_exit_code(o: RelayOutcome) -> u8 {
    if o is Delivered {
        EXIT_OK
    } else {
        EXIT_RELAY_FAILED
    }
}

/// The orchestrator's transition table.  Events that do not apply to
/// the current phase are ignored.
pub open spec fn spec_step(p: DaemonPhase, ev: DaemonEvent) -> (DaemonPhase, DaemonAction) {
    match (p, ev) {
        (
            DaemonPhase::Starting,
            DaemonEvent::LockResolved(LockOutcome::Acquired),
        ) => (DaemonPhase::Primary, DaemonAction::StartServices),
        (
            DaemonPhase::Starting,
            DaemonEvent::LockResolved(LockOutcome::AlreadyHeld),
        ) => (DaemonPhase::Relaying, DaemonAction::StartRelay),
        (
            DaemonPhase::Starting,
            DaemonEvent::LockResolved(LockOutcome::Failed),
        ) => (DaemonPhase::Terminated, DaemonAction::ExitProcess(EXIT_STARTUP_FAILED)),
        (
            DaemonPhase::Relaying,
            DaemonEvent::RelayFinished(o),
        ) => (DaemonPhase::Terminated, DaemonAction::ExitProcess(relay_exit_code(o))),
        (
            DaemonPhase::Primary,
            DaemonEvent::QuitRequested,
        ) => (DaemonPhase::ShuttingDown, DaemonAction::ExitProcess(EXIT_OK)),
        (DaemonPhase::ShuttingDown, DaemonEvent::Exited) => (
            DaemonPhase::Terminated,
            DaemonAction::NoAction,
        ),
        _ => (p, DaemonAction::NoAction),
    }
}

/// The phase every process starts in.
pub fn initial_phase() -> (p: DaemonPhase)
    ensures
        p is Starting,
{
    DaemonPhase::Starting
}

/// Takes one orchestrator step.
pub fn step(p: DaemonPhase, ev: DaemonEvent) -> (r: (DaemonPhase, DaemonAction))
    ensures
        r == spec_step(p, ev),
{
    match (p, ev) {
        (DaemonPhase::Starting, DaemonEvent::LockResolved(LockOutcome::Acquired)) => (
            DaemonPhase::Primary,
            DaemonAction::StartServices,
        ),
        (DaemonPhase::Starting, DaemonEvent::LockResolved(LockOutcome::AlreadyHeld)) => (
            DaemonPhase::Relaying,
            DaemonAction::StartRelay,
        ),
        (DaemonPhase::Starting, DaemonEvent::LockResolved(LockOutcome::Failed)) => (
            DaemonPhase::Terminated,
            DaemonAction::ExitProcess(EXIT_STARTUP_FAILED),
        ),
        (DaemonPhase::Relaying, DaemonEvent::RelayFinished(RelayOutcome::Delivered)) => (
            DaemonPhase::Terminated,
            DaemonAction::ExitProcess(EXIT_OK),
        ),
        (DaemonPhase::Relaying, DaemonEvent::RelayFinished(RelayOutcome::Failed(_))) => (
            DaemonPhase::Terminated,
            DaemonAction::ExitProcess(EXIT_RELAY_FAILED),
        ),
        (DaemonPhase::Primary, DaemonEvent::QuitRequested) => (
            DaemonPhase::ShuttingDown,
            DaemonAction::ExitProcess(EXIT_OK),
        ),
        (DaemonPhase::ShuttingDown, DaemonEvent::Exited) => (
            DaemonPhase::Terminated,
            DaemonAction::NoAction,
        ),
        _ => (p, DaemonAction::NoAction),
    }
}

/// The phase a starting process enters once its lock acquisition
/// resolves.
pub open spec fn role_of(o: LockOutcome) -> DaemonPhase {
    spec_step(DaemonPhase::Starting, DaemonEvent::LockResolved(o)).0
}

/// The branch at startup: a process becomes primary exactly when it
/// acquired the lock, relays exactly when another holder exists, and
/// aborts on any other registration failure.
pub proof fn lemma_role_of_outcome(o: LockOutcome)
    ensures
        role_of(o) is Primary <==> o is Acquired,
        role_of(o) is Relaying <==> o is AlreadyHeld,
        role_of(o) is Terminated <==> o is Failed,
{
}

/// Exclusivity: among any set of start attempts whose lock
/// acquisitions resolved with exactly one `Acquired` — which the
/// OS-arbitrated lock guarantees — exactly that one process enters
/// `Primary`, and every other enters `Relaying`.
pub proof fn lemma_exclusivity(outcomes: Seq<LockOutcome>, k: int)
    requires
        0 <= k < outcomes.len(),
        outcomes[k] is Acquired,
        forall|j: int| 0 <= j < outcomes.len() && j != k ==> #[trigger] outcomes[j] is AlreadyHeld,
    ensures
        forall|j: int|
            0 <= j < outcomes.len() ==> (#[trigger] role_of(outcomes[j]) is Primary <==> j == k),
        forall|j: int|
            0 <= j < outcomes.len() && j != k ==> #[trigger] role_of(outcomes[j]) is Relaying,
{
}

/// Whether a run of the orchestrator from phase `p` under the events
/// `evs` ever passes through `Primary`.
pub open spec fn visits_primary(p: DaemonPhase, evs: Seq<DaemonEvent>) -> bool
    decreases evs.len(),
{
    p is Primary || (evs.len() != 0 && visits_primary(spec_step(p, evs.first()).0, evs.drop_first()))
}

/// Idempotent relay-path exit: a process on the client path — one
/// whose lock acquisition found another holder — never becomes
/// primary, whatever events follow and however its relay ends.  So
/// repeated invocations against one long-lived primary create zero
/// additional primary instances.
pub proof fn lemma_relay_path_never_primary(evs: Seq<DaemonEvent>)
    ensures
        !visits_primary(DaemonPhase::Relaying, evs),
{
    lemma_non_primary_stays(DaemonPhase::Relaying, evs);
}

/// Phases of the client path and of exit, from which `Primary` is
/// unreachable.
pub open spec fn non_primary(p: DaemonPhase) -> bool {
    p is Relaying || p is Terminated
}

/// From a non-primary phase, every run stays out of `Primary`.
pub proof fn lemma_non_primary_stays(p: DaemonPhase, evs: Seq<DaemonEvent>)
    requires
        non_primary(p),
    ensures
        !visits_primary(p, evs),
    decreases evs.len(),
{
    if evs.len() != 0 {
        lemma_non_primary_stays(spec_step(p, evs.first()).0, evs.drop_first());
    }
}

} // verus!
