//! The shutdown signal: a single-shot, multi-waiter notification with
//! no payload.  It is created once at daemon startup, signaled exactly
//! once by whichever task first decides the process should exit, and
//! never un-signaled; signaling it again is a no-op, not an error.

use vstd::prelude::*;

verus! {

/// What the signal's state becomes when it is signaled, whatever it
/// was before.
pub open spec fn after_signal(signaled: bool) -> bool {
    true
}

/// The write-once shutdown flag shared by the presence task and the
/// orchestrator's top-level wait.  Its view is whether it has been
/// signaled.
pub struct ShutdownFlag {
    signaled: bool,
}

impl View for ShutdownFlag {
    type V = bool;

    closed spec fn view(&self) -> bool {
        self.signaled
    }
}

impl ShutdownFlag {
    /// A fresh, unsignaled flag.
    pub fn new() -> (r: ShutdownFlag)
        ensures
            !r@,
    {
        ShutdownFlag { signaled: false }
    }

    /// Signals shutdown.  Once signaled the flag stays signaled: a
    /// second signal changes nothing.
    pub fn signal(&mut self)
        ensures
            final(self)@ == after_signal(old(self)@),
    {
        self.signaled = true;
    }

    /// Whether shutdown has been signaled.  Every waiter that asks
    /// after a signal observes it.
    pub fn is_signaled(&self) -> (r: bool)
        ensures
            r == self@,
    {
        self.signaled
    }
}

/// The one inbound event of the presence task: the quit action was
/// selected, so it signals shutdown.
pub fn presence_quit(flag: &mut ShutdownFlag)
    ensures
        final(flag)@ == after_signal(old(flag)@),
{
    flag.signal();
}

/// Shutdown determinism: signaling is idempotent (a second signal is
/// a no-op) and irrevocable (a signaled flag never becomes
/// unsignaled by signaling).
pub proof fn lemma_signal_idempotent(signaled: bool)
    ensures
        after_signal(after_signal(signaled)) == after_signal(signaled),
        signaled ==> after_signal(signaled) == signaled,
{
}

} // verus!
