//! Session-wide guarantees, proved over whole runs of the request gate.
//!
//! The surrounding process serializes all gate calls under one lock, so any
//! burst of simultaneous requests reaches the session as some sequence of
//! atomic gate steps. The lemmas here therefore speak for concurrent bursts
//! as well: they hold for every order in which racing requests can take the
//! lock.

use vstd::prelude::*;

use crate::session::{GateResponse, Session};
use crate::shutdown::{Phase, ShutdownOrchestrator, ShutdownReason};

verus! {

/// The session after `k` requests to the matching path, starting from `s`.
pub open spec fn after_matched_requests(s: Session, k: nat) -> Session
    decreases k,
{
    if k == 0 {
        s
    } else {
        after_matched_requests(s, (k - 1) as nat).spec_on_request(true).0
    }
}

/// The session after `k` requests to non-matching paths, starting from `s`.
pub open spec fn after_unmatched_requests(s: Session, k: nat) -> Session
    decreases k,
{
    if k == 0 {
        s
    } else {
        after_unmatched_requests(s, (k - 1) as nat).spec_on_request(false).0
    }
}

/// A session as it stands right after startup: well-formed, accepting, and
/// with both counters at zero.
pub open spec fn fresh(s: Session) -> bool {
    &&& s.wf()
    &&& s.is_accepting()
    &&& s.uses.count == 0
    &&& s.fails.count == 0
}

/// How a run of matched requests unfolds, step by step: the delivery count
/// climbs to the configured maximum and stays there, the abuse counter never
/// moves, and the session accepts exactly as long as capacity remains.
pub proof fn lemma_matched_run_state(s: Session, k: nat)
    requires
        fresh(s),
    ensures
        after_matched_requests(s, k).wf(),
        after_matched_requests(s, k).uses.maximum == s.uses.maximum,
        after_matched_requests(s, k).fails == s.fails,
        after_matched_requests(s, k).uses.count as int == if k <= s.uses.maximum as nat {
            k as int
        } else {
            s.uses.maximum as int
        },
        after_matched_requests(s, k).is_accepting() <==> k < s.uses.maximum as nat,
    decreases k,
{
    if k > 0 {
        lemma_matched_run_state(s, (k - 1) as nat);
    }
}

/// Exactly the first `maximum_uses` requests to the matching path are
/// served; every later one, racing or sequential, is answered not-found.
///
/// For a fresh session with `N = maximum_uses`, out of any `k` requests to
/// the matching path the `i`-th is served precisely when `i < N`: a burst of
/// `k > N` such requests yields `N` deliveries and `k - N` not-found
/// answers, and the abuse counter never moves for them.
pub proof fn lemma_matched_requests_served_exactly_limit(s: Session, k: nat)
    requires
        fresh(s),
    ensures
        after_matched_requests(s, k).uses.count as int == if k <= s.uses.maximum as nat {
            k as int
        } else {
            s.uses.maximum as int
        },
        after_matched_requests(s, k).fails == s.fails,
        forall|i: nat|
            i < k ==> ((#[trigger] after_matched_requests(s, i)).spec_on_request(
                true,
            ).1.response == GateResponse::Served <==> i < s.uses.maximum as nat),
{
    lemma_matched_run_state(s, k);
    assert forall|i: nat| i < k implies ((#[trigger] after_matched_requests(s, i)).spec_on_request(
        true,
    ).1.response == GateResponse::Served <==> i < s.uses.maximum as nat) by {
        lemma_matched_run_state(s, i);
    };
}

/// How a run of unmatched requests unfolds, step by step: the abuse count
/// climbs to the tolerated maximum and stays there, the use counter never
/// moves, and every such request is answered not-found.
pub proof fn lemma_unmatched_run_state(s: Session, k: nat)
    requires
        fresh(s),
    ensures
        after_unmatched_requests(s, k).wf(),
        after_unmatched_requests(s, k).fails.maximum == s.fails.maximum,
        after_unmatched_requests(s, k).uses == s.uses,
        after_unmatched_requests(s, k).fails.count as int == if k <= s.fails.maximum as nat {
            k as int
        } else {
            s.fails.maximum as int
        },
        after_unmatched_requests(s, k).is_accepting() <==> k < s.fails.maximum as nat,
        k >= s.fails.maximum as nat ==> after_unmatched_requests(s, k).orchestrator.spec_reason()
            == Some(ShutdownReason::AbuseLimit),
    decreases k,
{
    if k > 0 {
        lemma_unmatched_run_state(s, (k - 1) as nat);
    }
}

/// Exactly `maximum_failed_attempts` missed requests stop the session.
///
/// For a fresh session with `M = maximum_failed_attempts`, the `M`-th
/// request to a non-matching path moves the orchestrator out of `Running`,
/// for the abuse-limit reason; fewer than `M` such requests never trigger
/// shutdown on their own, and every one of them is answered not-found.
pub proof fn lemma_unmatched_requests_stop_at_limit(s: Session, k: nat)
    requires
        fresh(s),
    ensures
        after_unmatched_requests(s, k).is_accepting() <==> k < s.fails.maximum as nat,
        k >= s.fails.maximum as nat ==> after_unmatched_requests(s, k).orchestrator.spec_reason()
            == Some(ShutdownReason::AbuseLimit),
        after_unmatched_requests(s, k).uses == s.uses,
        forall|i: nat|
            i < k ==> (#[trigger] after_unmatched_requests(s, i)).spec_on_request(
                false,
            ).1.response == GateResponse::NotFound,
{
    lemma_unmatched_run_state(s, k);
    assert forall|i: nat| i < k implies (#[trigger] after_unmatched_requests(s,
        i,
    )).spec_on_request(false).1.response == GateResponse::NotFound by {
        lemma_unmatched_run_state(s, i);
    };
}

/// Invoking the shutdown trigger twice — say an abuse-limit hit racing with
/// an interrupt signal — produces exactly one entry into the stop sequence:
/// the second request fires nothing and leaves the orchestrator exactly as
/// the first left it, whatever the two reasons are.
pub proof fn lemma_request_shutdown_idempotent(
    o: ShutdownOrchestrator,
    r1: ShutdownReason,
    r2: ShutdownReason,
)
    ensures
        o.spec_request_shutdown(r1).0.spec_request_shutdown(r2).0 == o.spec_request_shutdown(
            r1,
        ).0,
        !o.spec_request_shutdown(r1).0.spec_request_shutdown(r2).1,
        o.is_running() ==> o.spec_request_shutdown(r1).1 && o.spec_request_shutdown(r1).0.phase
            == Phase::Stopping(r1),
        !o.is_running() ==> !o.spec_request_shutdown(r1).1,
{
}

} // verus!
