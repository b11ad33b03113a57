//! The request-rate limiter's permit accounting.
//!
//! The limiter is a token bucket of capacity one: a timer makes one permit
//! available per refill interval, and a request must acquire a permit before
//! it goes out. The caller owns the timer and the blocking: it calls
//! `refill` at most once per interval and retries `try_acquire` until a
//! permit is there. The accounting proved here bounds the request rate: the
//! bucket starts with one permit and every later grant consumes a distinct
//! refill, so `n` grants need at least `n - 1` refills — with refills at
//! most once per interval, `n` acquisitions span at least `n - 1` intervals
//! of elapsed time.

use vstd::prelude::*;

verus! {

/// A token bucket of capacity one, counting its grants and refills.
pub struct RateLimiter {
    /// The refill interval in nanoseconds: the timer adds one permit per
    /// interval, no more often.
    pub interval_ns: u64,
    /// Permits available right now: zero or one.
    pub available: u64,
    /// How many permits have been granted so far.
    pub grants: Ghost<nat>,
    /// How many refills have occurred so far.
    pub refills: Ghost<nat>,
}

impl RateLimiter {
    /// The bucket's invariant: at most one permit is ever held, and every
    /// grant was covered by the initial permit or by a refill.
    pub open spec fn well_formed(&self) -> bool {
        &&& self.interval_ns >= 1
        &&& self.available <= 1
        &&& self.grants@ + self.available <= 1 + self.refills@
    }

    /// A full bucket for a frequency of `freq` permits per second.
    pub fn new(freq: u64) -> (r: RateLimiter)
        requires
            1 <= freq <= 1_000_000_000,
        ensures
            r.well_formed(),
            r.interval_ns == 1_000_000_000u64 / freq,
            r.available == 1,
            r.grants@ == 0,
            r.refills@ == 0,
    {
        proof {
            assert(1_000_000_000int / (freq as int) >= 1) by (nonlinear_arith)
                requires
                    1 <= freq <= 1_000_000_000,
            ;
        }
        RateLimiter {
            interval_ns: 1_000_000_000 / freq,
            available: 1,
            grants: Ghost(0),
            refills: Ghost(0),
        }
    }

    /// One tick of the timer: a permit becomes available unless the bucket
    /// is already full (capacity one; an unused permit is not banked).
    pub fn refill(&mut self)
        requires
            old(self).well_formed(),
        ensures
            final(self).well_formed(),
            final(self).interval_ns == old(self).interval_ns,
            final(self).grants@ == old(self).grants@,
            final(self).refills@ == old(self).refills@ + 1,
            final(self).available == if old(self).available == 0 {
                1u64
            } else {
                old(self).available
            },
    {
        if self.available == 0 {
            self.available = 1;
        }
        proof {
            self.refills@ = self.refills@ + 1;
        }
    }

    /// Takes a permit if one is there; never blocks and never busy-waits —
    /// the caller decides how to wait between attempts.
    pub fn try_acquire(&mut self) -> (granted: bool)
        requires
            old(self).well_formed(),
        ensures
            final(self).well_formed(),
            final(self).interval_ns == old(self).interval_ns,
            final(self).refills@ == old(self).refills@,
            granted <==> old(self).available > 0,
            granted ==> {
                &&& final(self).available == old(self).available - 1
                &&& final(self).grants@ == old(self).grants@ + 1
            },
            !granted ==> *final(self) == *old(self),
    {
        if self.available > 0 {
            self.available = self.available - 1;
            proof {
                self.grants@ = self.grants@ + 1;
            }
            true
        } else {
            false
        }
    }

    /// The rate bound: every grant beyond the first consumed a distinct
    /// refill, so after any run of calls the grant count is at most one more
    /// than the refill count. A timer that refills no more than once per
    /// interval therefore spaces `n` sequential acquisitions over at least
    /// `n - 1` intervals.
    pub proof fn lemma_grants_bounded(&self)
        requires
            self.well_formed(),
        ensures
            self.grants@ <= 1 + self.refills@,
    {
    }
}

} // verus!
