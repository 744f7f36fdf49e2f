//! One run of the server: configuration, counters, and the request gate.
//!
//! The request gate composes the pieces: it alone touches the counters
//! and the shutdown orchestrator, once per inbound request. The
//! surrounding process must serialize calls into a session (it holds the
//! session behind one lock), so each gate step is one indivisible
//! check-and-increment: two racing requests can never both take the last
//! remaining use.

use vstd::prelude::*;

use crate::counters::{AbuseCounter, CounterVerdict, UseCounter};
use crate::shutdown::{ShutdownOrchestrator, ShutdownReason};

verus! {

/// What a request is answered with.
#[derive(Clone, Copy, Debug, PartialEq, Eq, Structural)]
pub enum GateResponse {
    /// The request matched the secret path in time: deliver the resource.
    Served,
    /// Everything else: answer not-found.
    NotFound,
}

/// The outcome of one request.
#[derive(Clone, Copy, Debug)]
pub struct GateDecision {
    /// How to answer the request.
    pub response: GateResponse,
    /// `Some(reason)` exactly when this request moved the session from
    /// running to stopping; the caller must then start the stop sequence.
    pub shutdown_trigger: Option<ShutdownReason>,
}

/// The shared state of one run of the server.
pub struct Session {
    /// Counts successful deliveries against `maximum_uses`.
    pub uses: UseCounter,
    /// Counts missed paths against `maximum_failed_attempts`.
    pub fails: AbuseCounter,
    /// The one-shot authority over the end of the session.
    pub orchestrator: ShutdownOrchestrator,
}

impl Session {
    /// The session invariant: both counters are within their positive
    /// limits, and a counter that stands at its limit can only be observed
    /// once the session has already stopped accepting requests.
    pub open spec fn wf(self) -> bool {
        &&& self.uses.wf()
        &&& self.fails.wf()
        &&& (self.uses.at_limit() ==> !self.orchestrator.is_running())
        &&& (self.fails.at_limit() ==> !self.orchestrator.is_running())
    }

    /// New requests are still admitted.
    pub open spec fn is_accepting(self) -> bool {
        self.orchestrator.is_running()
    }

    /// The transition for one request, as a mathematical function:
    /// the session after the request, and the decision for it.
    ///
    /// A request that arrives once the session stops accepting is answered
    /// not-found and touches neither counter. A matched request is served
    /// and counted; when it consumes the last allowed use, it triggers
    /// shutdown. An unmatched request is answered not-found and counted;
    /// when it exhausts the tolerated misses, it triggers shutdown.
    pub open spec fn spec_on_request(self, matched: bool) -> (Session, GateDecision) {
        if !self.orchestrator.is_running() {
            (self, GateDecision { response: GateResponse::NotFound, shutdown_trigger: None })
        } else if matched {
            let uses = UseCounter { count: (self.uses.count + 1) as u16, maximum: self.uses.maximum };
            if uses.at_limit() {
                (
                    Session {
                        uses,
                        orchestrator: self.orchestrator.spec_request_shutdown(
                            ShutdownReason::UsesExhausted,
                        ).0,
                        ..self
                    },
                    GateDecision {
                        response: GateResponse::Served,
                        shutdown_trigger: Some(ShutdownReason::UsesExhausted),
                    },
                )
            } else {
                (
                    Session { uses, ..self },
                    GateDecision { response: GateResponse::Served, shutdown_trigger: None },
                )
            }
        } else {
            let fails = AbuseCounter {
                count: (self.fails.count + 1) as u16,
                maximum: self.fails.maximum,
            };
            if fails.at_limit() {
                (
                    Session {
                        fails,
                        orchestrator: self.orchestrator.spec_request_shutdown(
                            ShutdownReason::AbuseLimit,
                        ).0,
                        ..self
                    },
                    GateDecision {
                        response: GateResponse::NotFound,
                        shutdown_trigger: Some(ShutdownReason::AbuseLimit),
                    },
                )
            } else {
                (
                    Session { fails, ..self },
                    GateDecision { response: GateResponse::NotFound, shutdown_trigger: None },
                )
            }
        }
    }

    /// The session after an external interrupt or terminate signal.
    pub open spec fn spec_on_external_signal(self) -> Session {
        Session {
            orchestrator: self.orchestrator.spec_request_shutdown(
                ShutdownReason::ExternalSignal,
            ).0,
            ..self
        }
    }

    /// A fresh session from validated configuration: both limits are
    /// positive, both counters start at zero, requests are accepted.
    pub fn new(maximum_uses: u16, maximum_failed_attempts: u16) -> (s: Session)
        requires
            1 <= maximum_uses,
            1 <= maximum_failed_attempts,
        ensures
            s.wf(),
            s.is_accepting(),
            s.uses.count == 0,
            s.uses.maximum == maximum_uses,
            s.fails.count == 0,
            s.fails.maximum == maximum_failed_attempts,
    {
        Session {
            uses: UseCounter::new(maximum_uses),
            fails: AbuseCounter::new(maximum_failed_attempts),
            orchestrator: ShutdownOrchestrator::new(),
        }
    }

    /// Take one inbound request through its atomic accounting step.
    ///
    /// `matched` says whether the request hit the secret path. The call is
    /// one atomic step of `spec_on_request`: check, count, and decide in
    /// one piece, under the caller's lock.
    pub fn on_request(&mut self, matched: bool) -> (d: GateDecision)
        requires
            old(self).wf(),
        ensures
            final(self).wf(),
            (*final(self), d) == old(self).spec_on_request(matched),
            final(self).uses.maximum == old(self).uses.maximum,
            final(self).fails.maximum == old(self).fails.maximum,
            old(self).uses.count <= final(self).uses.count,
            old(self).fails.count <= final(self).fails.count,
            (d.response == GateResponse::Served) == (old(self).is_accepting() && matched),
            (d.shutdown_trigger is Some) == (old(self).is_accepting()
                && !final(self).is_accepting()),
            old(self).is_accepting() && matched ==> final(self).uses.count == old(
                self,
            ).uses.count + 1 && final(self).fails.count == old(self).fails.count,
            old(self).is_accepting() && !matched ==> final(self).fails.count == old(
                self,
            ).fails.count + 1 && final(self).uses.count == old(self).uses.count,
            !old(self).is_accepting() ==> *final(self) == *old(self),
    {
        if !self.orchestrator.currently_running() {
            GateDecision { response: GateResponse::NotFound, shutdown_trigger: None }
        } else if matched {
            let verdict = self.uses.record_successful_delivery();
            if verdict == CounterVerdict::LimitReached {
                self.orchestrator.request_shutdown(ShutdownReason::UsesExhausted);
                GateDecision {
                    response: GateResponse::Served,
                    shutdown_trigger: Some(ShutdownReason::UsesExhausted),
                }
            } else {
                GateDecision { response: GateResponse::Served, shutdown_trigger: None }
            }
        } else {
            let verdict = self.fails.record_unmatched_request();
            if verdict == CounterVerdict::LimitReached {
                self.orchestrator.request_shutdown(ShutdownReason::AbuseLimit);
                GateDecision {
                    response: GateResponse::NotFound,
                    shutdown_trigger: Some(ShutdownReason::AbuseLimit),
                }
            } else {
                GateDecision { response: GateResponse::NotFound, shutdown_trigger: None }
            }
        }
    }

    /// How many successful deliveries have happened so far.
    pub fn use_count(&self) -> (c: u16)
        ensures
            c == self.uses.count,
    {
        self.uses.count
    }

    /// How many requests have missed the secret path so far.
    pub fn fail_count(&self) -> (c: u16)
        ensures
            c == self.fails.count,
    {
        self.fails.count
    }

    /// Whether the session still admits new requests.
    pub fn accepting(&self) -> (b: bool)
        ensures
            b == self.is_accepting(),
    {
        self.orchestrator.currently_running()
    }

    /// Why the session is stopping, or `None` while it still runs.
    pub fn shutdown_reason(&self) -> (r: Option<ShutdownReason>)
        ensures
            r == self.orchestrator.spec_reason(),
    {
        self.orchestrator.reason()
    }

    /// Forward an external interrupt or terminate signal to the
    /// orchestrator. Returns true exactly when this signal, and not an
    /// earlier trigger, stopped the session; the counters are untouched.
    pub fn on_external_signal(&mut self) -> (fired: bool)
        requires
            old(self).wf(),
        ensures
            final(self).wf(),
            *final(self) == old(self).spec_on_external_signal(),
            fired == old(self).is_accepting(),
            !final(self).is_accepting(),
            final(self).uses == old(self).uses,
            final(self).fails == old(self).fails,
    {
        self.orchestrator.request_shutdown(ShutdownReason::ExternalSignal)
    }
}

} // verus!
