//! Retry classification and exponential backoff.
//!
//! One idempotent fetch runs under a policy: retry only on a transient
//! failure, multiply the wait by a fixed ratio after every retry up to a
//! cap, and give up once the accumulated waiting would pass the elapsed-time
//! budget, surfacing the last error. A success or a permanent failure stops
//! the schedule at once. The decisions live here; the caller performs the
//! operation and the sleeps and hands the outcome back.

use vstd::prelude::*;
use crate::error::{FetchError, PermanentCause, TransientCause};

verus! {

/// How one fetch attempt ended, as reported by the caller that performed it.
#[derive(Debug)]
pub enum Outcome<T> {
    /// The attempt produced a value; the schedule stops and returns it.
    Success(T),
    /// A failure another attempt may fix; the schedule may retry.
    Transient(TransientCause),
    /// A failure no retry can fix; the schedule stops at once.
    Permanent(PermanentCause),
}

/// True for the statuses worth retrying: too-many-requests and the server
/// error family.
pub open spec fn spec_retryable_status(status: u16) -> bool {
    status == 429 || (500 <= status < 600)
}

/// Classifies a non-200 HTTP status: 404 is the distinguished "no data"
/// signal, 429 and the 5xx family are transient, anything else is permanent.
pub fn classify_status(status: u16) -> (r: FetchError)
    requires
        status != 200,
    ensures
        status == 404 ==> r == FetchError::EmptyResult,
        status != 404 && spec_retryable_status(status) ==> r == FetchError::Transient(
            TransientCause::Status(status),
        ),
        status != 404 && !spec_retryable_status(status) ==> r == FetchError::Permanent(
            PermanentCause::Status(status),
        ),
{
    if status == 404 {
        FetchError::EmptyResult
    } else if status == 429 || (500 <= status && status < 600) {
        FetchError::Transient(TransientCause::Status(status))
    } else {
        FetchError::Permanent(PermanentCause::Status(status))
    }
}

/// An exponential backoff policy. Intervals and the elapsed budget are in
/// milliseconds; the multiplier is the ratio `mult_num / mult_den`.
#[derive(Debug, Clone, Copy)]
pub struct RetryPolicy {
    /// The wait before the first retry.
    pub initial_interval_ms: u64,
    /// Numerator of the multiplier applied to the wait after every retry.
    pub mult_num: u64,
    /// Denominator of that multiplier.
    pub mult_den: u64,
    /// The cap no wait ever exceeds.
    pub max_interval_ms: u64,
    /// The budget: once the accumulated waits would pass it, the schedule
    /// gives up and surfaces the last error.
    pub max_elapsed_ms: u64,
}

impl RetryPolicy {
    /// The policy's invariant: the multiplier exceeds one, so intervals
    /// never shrink, and the starting interval is positive and within the
    /// cap.
    pub open spec fn well_formed(&self) -> bool {
        &&& self.mult_den >= 1
        &&& self.mult_num > self.mult_den
        &&& 0 < self.initial_interval_ms <= self.max_interval_ms
    }

    /// The interval that follows `cur`: scaled by the multiplier, capped.
    pub open spec fn spec_next_interval(&self, cur: u64) -> u64 {
        if cur * self.mult_num / (self.mult_den as int) >= self.max_interval_ms {
            self.max_interval_ms
        } else {
            (cur * self.mult_num / (self.mult_den as int)) as u64
        }
    }

    /// Intervals are monotonically non-decreasing until capped.
    pub proof fn lemma_interval_monotonic(&self, cur: u64)
        requires
            self.well_formed(),
            cur <= self.max_interval_ms,
        ensures
            cur <= self.spec_next_interval(cur) <= self.max_interval_ms,
    {
        let c = cur as int;
        let n = self.mult_num as int;
        let d = self.mult_den as int;
        assert(c * n >= c * d) by (nonlinear_arith)
            requires
                n > d,
                c >= 0,
        ;
        assert(c * d / d == c) by (nonlinear_arith)
            requires
                d >= 1,
                c >= 0,
        ;
        assert(c * n / d >= c * d / d) by (nonlinear_arith)
            requires
                d >= 1,
                c * n >= c * d,
        ;
    }

    /// Computes the interval that follows `cur`.
    pub fn next_interval(&self, cur: u64) -> (r: u64)
        requires
            self.well_formed(),
            cur <= self.max_interval_ms,
        ensures
            r == self.spec_next_interval(cur),
            cur <= r <= self.max_interval_ms,
    {
        proof {
            self.lemma_interval_monotonic(cur);
            assert((cur as int) * (self.mult_num as int) < 0x1_0000_0000_0000_0000
                * 0x1_0000_0000_0000_0000) by (nonlinear_arith)
                requires
                    0 <= cur < 0x1_0000_0000_0000_0000,
                    0 <= self.mult_num < 0x1_0000_0000_0000_0000,
            ;
        }
        let prod: u128 = (cur as u128) * (self.mult_num as u128);
        let step: u128 = prod / (self.mult_den as u128);
        if step >= self.max_interval_ms as u128 {
            self.max_interval_ms
        } else {
            step as u64
        }
    }
}

/// The defaults the schedule starts from: half a second growing by half
/// again each retry, capped at one minute, giving up after fifteen minutes.
pub fn default_policy() -> (p: RetryPolicy)
    ensures
        p.well_formed(),
        p.initial_interval_ms == 500,
        p.mult_num == 3,
        p.mult_den == 2,
        p.max_interval_ms == 60_000,
        p.max_elapsed_ms == 900_000,
{
    RetryPolicy {
        initial_interval_ms: 500,
        mult_num: 3,
        mult_den: 2,
        max_interval_ms: 60_000,
        max_elapsed_ms: 900_000,
    }
}

/// Drives one operation's schedule. The caller performs the operation and
/// the sleeps; this type only decides whether and how long to wait.
#[derive(Debug, Clone, Copy)]
pub struct RetryExecutor {
    /// The policy the schedule runs under.
    pub policy: RetryPolicy,
    /// The wait a retry now would take.
    pub interval_ms: u64,
    /// The waiting already scheduled.
    pub elapsed_ms: u64,
}

impl RetryExecutor {
    /// The executor's invariant.
    pub open spec fn well_formed(&self) -> bool {
        &&& self.policy.well_formed()
        &&& self.interval_ms <= self.policy.max_interval_ms
    }

    /// A fresh schedule under `policy`.
    pub fn new(policy: RetryPolicy) -> (r: RetryExecutor)
        requires
            policy.well_formed(),
        ensures
            r.well_formed(),
            r.policy == policy,
            r.interval_ms == policy.initial_interval_ms,
            r.elapsed_ms == 0,
    {
        RetryExecutor { policy, interval_ms: policy.initial_interval_ms, elapsed_ms: 0 }
    }

    /// After a transient failure: how long to wait before the next attempt,
    /// or nothing once the accumulated waiting would pass the budget.
    pub fn next_delay(&mut self) -> (r: Option<u64>)
        requires
            old(self).well_formed(),
        ensures
            final(self).well_formed(),
            final(self).policy == old(self).policy,
            r is Some <==> old(self).elapsed_ms + old(self).interval_ms
                <= old(self).policy.max_elapsed_ms,
            r matches Some(d) ==> {
                &&& d == old(self).interval_ms
                &&& final(self).elapsed_ms == old(self).elapsed_ms + d
                &&& final(self).interval_ms == old(self).policy.spec_next_interval(
                    old(self).interval_ms,
                )
            },
            r is None ==> *final(self) == *old(self),
    {
        if self.elapsed_ms > self.policy.max_elapsed_ms
            || self.interval_ms > self.policy.max_elapsed_ms - self.elapsed_ms {
            return None;
        }
        let d = self.interval_ms;
        self.elapsed_ms = self.elapsed_ms + d;
        self.interval_ms = self.policy.next_interval(d);
        Some(d)
    }
}

/// What running a schedule over a fixed list of attempt outcomes returns,
/// and how many attempts it makes: the first outcome that is not transient
/// stops it; a transient outcome is retried while the budget allows and
/// another outcome is left, else its error is surfaced.
pub open spec fn spec_run_retry<T>(
    p: RetryPolicy,
    outs: Seq<Outcome<T>>,
    interval: u64,
    elapsed: u64,
) -> (Result<T, FetchError>, int)
    decreases outs.len(),
{
    if outs.len() == 0 {
        (Err(FetchError::Transient(TransientCause::Network)), 0)
    } else {
        match outs[0] {
            Outcome::Success(v) => (Ok(v), 1),
            Outcome::Permanent(c) => (Err(FetchError::Permanent(c)), 1),
            Outcome::Transient(c) => {
                if outs.len() == 1 || elapsed + interval > p.max_elapsed_ms {
                    (Err(FetchError::Transient(c)), 1)
                } else {
                    let rec = spec_run_retry(
                        p,
                        outs.drop_first(),
                        p.spec_next_interval(interval),
                        (elapsed + interval) as u64,
                    );
                    (rec.0, rec.1 + 1)
                }
            },
        }
    }
}

/// A schedule over `outs` makes between one and `outs.len()` attempts.
pub proof fn lemma_run_retry_count_bound<T>(
    p: RetryPolicy,
    outs: Seq<Outcome<T>>,
    interval: u64,
    elapsed: u64,
)
    requires
        outs.len() >= 1,
    ensures
        1 <= spec_run_retry(p, outs, interval, elapsed).1 <= outs.len(),
    decreases outs.len(),
{
    if outs[0] is Transient && outs.len() > 1 && elapsed + interval <= p.max_elapsed_ms {
        lemma_run_retry_count_bound(
            p,
            outs.drop_first(),
            p.spec_next_interval(interval),
            (elapsed + interval) as u64,
        );
    }
}

/// Runs the schedule over a fixed list of attempt outcomes, starting from
/// the given executor state; returns the final result and the number of
/// attempts made.
fn run_retry_from<T>(exec: &mut RetryExecutor, outcomes: Vec<Outcome<T>>) -> (r: (
    Result<T, FetchError>,
    u64,
))
    requires
        old(exec).well_formed(),
        outcomes@.len() >= 1,
        outcomes@.len() <= 0xFFFF_FFFF,
    ensures
        r.0 == spec_run_retry(
            old(exec).policy,
            outcomes@,
            old(exec).interval_ms,
            old(exec).elapsed_ms,
        ).0,
        r.1 == spec_run_retry(
            old(exec).policy,
            outcomes@,
            old(exec).interval_ms,
            old(exec).elapsed_ms,
        ).1,
    decreases outcomes@.len(),
{
    let mut outs = outcomes;
    let first = outs.remove(0);
    match first {
        Outcome::Success(v) => (Ok(v), 1),
        Outcome::Permanent(c) => (Err(FetchError::Permanent(c)), 1),
        Outcome::Transient(c) => {
            if outs.len() == 0 {
                return (Err(FetchError::Transient(c)), 1);
            }
            match exec.next_delay() {
                None => (Err(FetchError::Transient(c)), 1),
                Some(_d) => {
                    proof {
                        lemma_run_retry_count_bound(
                            exec.policy,
                            outs@,
                            exec.interval_ms,
                            exec.elapsed_ms,
                        );
                    }
                    let rec = run_retry_from(exec, outs);
                    (rec.0, rec.1 + 1)
                },
            }
        },
    }
}

/// Runs a whole schedule under `policy` over a fixed list of attempt
/// outcomes: the first attempt is free; each retry waits per the policy.
/// Returns the final result and the number of attempts made.
pub fn run_retry<T>(policy: &RetryPolicy, outcomes: Vec<Outcome<T>>) -> (r: (
    Result<T, FetchError>,
    u64,
))
    requires
        policy.well_formed(),
        outcomes@.len() >= 1,
        outcomes@.len() <= 0xFFFF_FFFF,
    ensures
        r.0 == spec_run_retry(*policy, outcomes@, policy.initial_interval_ms, 0).0,
        r.1 == spec_run_retry(*policy, outcomes@, policy.initial_interval_ms, 0).1,
{
    let mut exec = RetryExecutor::new(*policy);
    run_retry_from(&mut exec, outcomes)
}

/// True when the budget admits `k` consecutive retries from the given state.
pub open spec fn spec_budget_allows(
    p: RetryPolicy,
    interval: u64,
    elapsed: u64,
    k: nat,
) -> bool
    decreases k,
{
    k == 0 || (elapsed + interval <= p.max_elapsed_ms && spec_budget_allows(
        p,
        p.spec_next_interval(interval),
        (elapsed + interval) as u64,
        (k - 1) as nat,
    ))
}

/// The schedule stops exactly at the first outcome that is not transient:
/// with `k` transient outcomes before it and the budget admitting `k`
/// retries, the operation is attempted exactly `k + 1` times, a success
/// value is returned as the result, and a permanent failure is surfaced
/// unchanged.
pub proof fn lemma_retry_stops_at_first_final<T>(
    p: RetryPolicy,
    outs: Seq<Outcome<T>>,
    interval: u64,
    elapsed: u64,
    k: nat,
)
    requires
        p.well_formed(),
        k < outs.len(),
        forall|j: int| 0 <= j < k ==> outs[j] is Transient,
        !(outs[k as int] is Transient),
        spec_budget_allows(p, interval, elapsed, k),
    ensures
        spec_run_retry(p, outs, interval, elapsed).1 == k + 1,
        outs[k as int] matches Outcome::Success(v) ==> spec_run_retry(
            p,
            outs,
            interval,
            elapsed,
        ).0 == Ok::<T, FetchError>(v),
        outs[k as int] matches Outcome::Permanent(c) ==> spec_run_retry(
            p,
            outs,
            interval,
            elapsed,
        ).0 == Err::<T, FetchError>(FetchError::Permanent(c)),
    decreases k,
{
    if k == 0 {
    } else {
        assert(outs[0] is Transient);
        assert(outs.len() > 1);
        lemma_retry_stops_at_first_final(
            p,
            outs.drop_first(),
            p.spec_next_interval(interval),
            (elapsed + interval) as u64,
            (k - 1) as nat,
        );
    }
}

} // verus!
