//! The two access-accounting counters of a session.
//!
//! The use counter records successful deliveries of the resource, the abuse
//! counter records requests that missed the secret path. Each counter owns
//! its configured limit and reports, on every increment, whether that limit
//! has been reached, so that the caller can ask the shutdown orchestrator to
//! end the session.

use vstd::prelude::*;

verus! {

/// What one counting step reports: whether the configured limit is reached.
#[derive(Clone, Copy, Debug, PartialEq, Eq, Structural)]
pub enum CounterVerdict {
    /// The limit is not reached yet; the session goes on.
    Continue,
    /// This increment reached the limit; the caller must ask the shutdown
    /// orchestrator to stop the session.
    LimitReached,
}

/// Counts how many times the resource has been successfully delivered.
#[derive(Clone, Copy, Debug)]
pub struct UseCounter {
    /// Successful deliveries so far.
    pub count: u16,
    /// How many deliveries the session allows; positive, fixed at startup.
    pub maximum: u16,
}

impl UseCounter {
    /// The counter never runs past its positive limit.
    pub open spec fn wf(self) -> bool {
        1 <= self.maximum && self.count <= self.maximum
    }

    /// All allowed deliveries have happened.
    pub open spec fn at_limit(self) -> bool {
        self.count == self.maximum
    }

    /// A fresh counter for a session that allows `maximum` deliveries.
    pub fn new(maximum: u16) -> (c: UseCounter)
        requires
            1 <= maximum,
        ensures
            c.wf(),
            c.count == 0,
            c.maximum == maximum,
    {
        UseCounter { count: 0, maximum }
    }

    /// Record one successful delivery of the resource.
    ///
    /// The caller must have checked capacity before performing the delivery,
    /// so a delivery past the limit can never be recorded. The verdict says
    /// whether this delivery was the last one the session allows.
    pub fn record_successful_delivery(&mut self) -> (v: CounterVerdict)
        requires
            old(self).wf(),
            old(self).count < old(self).maximum,
        ensures
            final(self).wf(),
            final(self).maximum == old(self).maximum,
            final(self).count == old(self).count + 1,
            v == CounterVerdict::LimitReached <==> final(self).at_limit(),
    {
        self.count = self.count + 1;
        if self.count == self.maximum {
            CounterVerdict::LimitReached
        } else {
            CounterVerdict::Continue
        }
    }
}

/// Counts requests that missed the secret path.
#[derive(Clone, Copy, Debug)]
pub struct AbuseCounter {
    /// Unmatched requests so far.
    pub count: u16,
    /// How many misses the session tolerates; positive, fixed at startup.
    pub maximum: u16,
}

impl AbuseCounter {
    /// The counter never runs past its positive limit.
    pub open spec fn wf(self) -> bool {
        1 <= self.maximum && self.count <= self.maximum
    }

    /// The tolerated misses are used up.
    pub open spec fn at_limit(self) -> bool {
        self.count == self.maximum
    }

    /// A fresh counter for a session that tolerates `maximum` misses.
    pub fn new(maximum: u16) -> (c: AbuseCounter)
        requires
            1 <= maximum,
        ensures
            c.wf(),
            c.count == 0,
            c.maximum == maximum,
    {
        AbuseCounter { count: 0, maximum }
    }

    /// Record one request that missed the secret path.
    ///
    /// The verdict says whether the count has now reached the limit, upon
    /// which the caller must ask the shutdown orchestrator to stop.
    pub fn record_unmatched_request(&mut self) -> (v: CounterVerdict)
        requires
            old(self).wf(),
            old(self).count < old(self).maximum,
        ensures
            final(self).wf(),
            final(self).maximum == old(self).maximum,
            final(self).count == old(self).count + 1,
            v == CounterVerdict::LimitReached <==> final(self).count >= final(self).maximum,
    {
        self.count = self.count + 1;
        if self.count >= self.maximum {
            CounterVerdict::LimitReached
        } else {
            CounterVerdict::Continue
        }
    }
}

} // verus!
