//! The shutdown orchestrator: the single authority that ends the session.
//!
//! It can be triggered by the use counter, by the abuse counter, or by an
//! external interrupt signal; whichever fires first wins, and every later
//! trigger is a no-op. The orchestrator records why the session is stopping
//! so the surrounding process can choose its exit status.

use vstd::prelude::*;

verus! {

/// Why the session is coming to an end.
#[derive(Clone, Copy, Debug, PartialEq, Eq, Structural)]
pub enum ShutdownReason {
    /// Every allowed delivery of the resource has happened.
    UsesExhausted,
    /// Too many requests missed the secret path.
    AbuseLimit,
    /// An interrupt or terminate signal arrived from outside.
    ExternalSignal,
}

impl ShutdownReason {
    /// Whether a stop for this reason counts as a clean end of the session:
    /// normal exhaustion of the allowed uses and a graceful external
    /// interrupt do, hitting the abuse limit does not.
    pub open spec fn spec_is_clean(self) -> bool {
        match self {
            ShutdownReason::UsesExhausted => true,
            ShutdownReason::AbuseLimit => false,
            ShutdownReason::ExternalSignal => true,
        }
    }

    /// Executable form of `spec_is_clean`.
    pub fn is_clean(self) -> (b: bool)
        ensures
            b == self.spec_is_clean(),
    {
        match self {
            ShutdownReason::UsesExhausted => true,
            ShutdownReason::AbuseLimit => false,
            ShutdownReason::ExternalSignal => true,
        }
    }

    /// The process exit code the session's end calls for: 0 for a clean
    /// stop, 1 otherwise.
    pub fn exit_code(self) -> (c: u8)
        ensures
            c == 0 <==> self.spec_is_clean(),
            c == 0 || c == 1,
    {
        if self.is_clean() {
            0
        } else {
            1
        }
    }
}

/// The lifecycle of the session's endpoint.
#[derive(Clone, Copy, Debug, PartialEq, Eq, Structural)]
pub enum Phase {
    /// Requests are being accepted.
    Running,
    /// A trigger fired: no new work is accepted, in-flight requests finish.
    Stopping(ShutdownReason),
    /// In-flight requests are done and the endpoint is closed.
    Terminated(ShutdownReason),
}

/// Guarantees that the stop sequence runs exactly once, no matter how many
/// triggers race to request it.
#[derive(Clone, Copy, Debug)]
pub struct ShutdownOrchestrator {
    /// Where the session stands in its lifecycle.
    pub phase: Phase,
}

impl ShutdownOrchestrator {
    /// Requests are still being accepted.
    pub open spec fn is_running(self) -> bool {
        self.phase is Running
    }

    /// Why the session is stopping, once a trigger has fired.
    pub open spec fn spec_reason(self) -> Option<ShutdownReason> {
        match self.phase {
            Phase::Running => None,
            Phase::Stopping(r) => Some(r),
            Phase::Terminated(r) => Some(r),
        }
    }

    /// What one shutdown request does: the first one moves a running session
    /// to `Stopping` and fires, every later one changes nothing.
    pub open spec fn spec_request_shutdown(self, reason: ShutdownReason) -> (ShutdownOrchestrator, bool) {
        if self.is_running() {
            (ShutdownOrchestrator { phase: Phase::Stopping(reason) }, true)
        } else {
            (self, false)
        }
    }

    /// A fresh orchestrator for a session that is accepting requests.
    pub fn new() -> (o: ShutdownOrchestrator)
        ensures
            o.is_running(),
            o.phase == Phase::Running,
    {
        ShutdownOrchestrator { phase: Phase::Running }
    }

    /// Executable form of `is_running`.
    pub fn currently_running(&self) -> (b: bool)
        ensures
            b == self.is_running(),
    {
        match self.phase {
            Phase::Running => true,
            _ => false,
        }
    }

    /// Why the session is stopping, or `None` while it still runs.
    pub fn reason(&self) -> (r: Option<ShutdownReason>)
        ensures
            r == self.spec_reason(),
    {
        match self.phase {
            Phase::Running => None,
            Phase::Stopping(reason) => Some(reason),
            Phase::Terminated(reason) => Some(reason),
        }
    }

    /// Ask the session to stop for the given reason.
    ///
    /// Idempotent: the first call moves `Running` to `Stopping` and returns
    /// true; any later call, from a racing trigger or a duplicate signal,
    /// changes nothing and returns false, so the stop sequence runs at most
    /// once per session.
    pub fn request_shutdown(&mut self, reason: ShutdownReason) -> (fired: bool)
        ensures
            (*final(self), fired) == old(self).spec_request_shutdown(reason),
            fired == old(self).is_running(),
            !final(self).is_running(),
            old(self).is_running() ==> final(self).phase == Phase::Stopping(reason),
            !old(self).is_running() ==> *final(self) == *old(self),
    {
        match self.phase {
            Phase::Running => {
                self.phase = Phase::Stopping(reason);
                true
            },
            _ => false,
        }
    }

    /// Record that in-flight requests have finished and the endpoint is
    /// closed: the stop sequence is complete.
    pub fn mark_terminated(&mut self)
        requires
            old(self).phase is Stopping,
        ensures
            final(self).phase == Phase::Terminated(old(self).phase->Stopping_0),
            final(self).spec_reason() == old(self).spec_reason(),
    {
        match self.phase {
            Phase::Stopping(reason) => {
                self.phase = Phase::Terminated(reason);
            },
            _ => {},
        }
    }
}

} // verus!
