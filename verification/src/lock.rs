//! The instance lock: a process-wide, named exclusivity token whose
//! arbiter is the OS, not in-process state.  It is acquired exactly
//! once, synchronously, at process start, before any concurrent work;
//! the OS releases it when the process exits by any path, so no
//! explicit release call is relied upon for correctness.
//!
//! The OS-visible resource is registered through the `single_instance`
//! crate: a named mutex on Windows, an abstract unix-domain socket on
//! Linux, a locked file on macOS.

use vstd::prelude::*;
use crate::daemon::LockOutcome;

verus! {

#[verifier::external_type_specification]
#[verifier::external_body]
pub struct ExSingleInstance(single_instance::SingleInstance);

#[verifier::external_type_specification]
#[verifier::external_body]
pub struct ExSingleInstanceError(single_instance::error::SingleInstanceError);

/// Relies on `SingleInstance::new`: it registers the OS-visible named
/// resource and reports an error only when registration itself failed
/// (not when another holder exists).  Which way it resolves depends on
/// what else runs on the machine, so nothing is promised of the
/// result.
pub assume_specification [ single_instance::SingleInstance::new ](
    name: &str,
) -> std::result::Result<
    single_instance::SingleInstance,
    single_instance::error::SingleInstanceError,
>;

/// Relies on `SingleInstance::is_single`: it reports whether this
/// process's registration made it the sole holder of the name.  The
/// answer is the OS's, so nothing is promised of the result.
pub assume_specification [ single_instance::SingleInstance::is_single ](
    this: &single_instance::SingleInstance,
) -> bool;

/// The held lock.  Keep this value alive for the whole process: the
/// OS-visible resource is released when it is dropped, and at the
/// latest when the process exits.
pub struct InstanceLock {
    handle: single_instance::SingleInstance,
}

/// How one acquisition attempt resolved.  There is no partial state
/// and no queuing: either this process is now the exclusive holder,
/// or another holder exists, or registration failed.
pub enum LockAcquisition {
    /// This process is the sole holder; the token is held for the
    /// process lifetime.
    Acquired(InstanceLock),
    /// Another process on this machine holds a lock of this name.
    AlreadyHeld,
    /// Registration failed for a reason other than "already held": a
    /// fatal startup error, never a silent fallback to multi-instance
    /// behavior.
    Failed(single_instance::error::SingleInstanceError),
}

/// Attempts the one-time acquisition of the named instance lock.  The
/// call resolves synchronously; the OS arbitrates which process, of
/// any that race on the same name, becomes the holder.
pub fn acquire(name: &str) -> LockAcquisition {
    match single_instance::SingleInstance::new(name) {
        Err(e) => LockAcquisition::Failed(e),
        Ok(handle) => if handle.is_single() {
            LockAcquisition::Acquired(InstanceLock { handle })
        } else {
            LockAcquisition::AlreadyHeld
        },
    }
}

/// The orchestrator event an acquisition resolves to, exactly one per
/// variant.
pub fn outcome_of(acq: &LockAcquisition) -> (o: LockOutcome)
    ensures
        o is Acquired <==> acq is Acquired,
        o is AlreadyHeld <==> acq is AlreadyHeld,
        o is Failed <==> acq is Failed,
{
    match acq {
        LockAcquisition::Acquired(_) => LockOutcome::Acquired,
        LockAcquisition::AlreadyHeld => LockOutcome::AlreadyHeld,
        LockAcquisition::Failed(_) => LockOutcome::Failed,
    }
}

} // verus!
