use std::time::{Duration, Instant};

use polygon_fetch::error::{FetchError, PermanentCause, TransientCause};
use polygon_fetch::limiter::RateLimiter;
use polygon_fetch::retry::{classify_status, default_policy, run_retry, Outcome, RetryExecutor, RetryPolicy};

#[test]
fn classify_status_distinguishes_the_families() {
    assert!(matches!(classify_status(404), FetchError::EmptyResult));
    assert!(matches!(
        classify_status(429),
        FetchError::Transient(TransientCause::Status(429))
    ));
    assert!(matches!(
        classify_status(500),
        FetchError::Transient(TransientCause::Status(500))
    ));
    assert!(matches!(
        classify_status(503),
        FetchError::Transient(TransientCause::Status(503))
    ));
    assert!(matches!(
        classify_status(400),
        FetchError::Permanent(PermanentCause::Status(400))
    ));
    assert!(matches!(
        classify_status(301),
        FetchError::Permanent(PermanentCause::Status(301))
    ));
}

#[test]
fn two_transients_then_success_takes_three_attempts() {
    let policy = default_policy();
    let outcomes: Vec<Outcome<u32>> = vec![
        Outcome::Transient(TransientCause::Network),
        Outcome::Transient(TransientCause::Status(500)),
        Outcome::Success(42),
    ];
    let (result, attempts) = run_retry(&policy, outcomes);
    assert_eq!(attempts, 3);
    assert_eq!(result.unwrap(), 42);
}

#[test]
fn permanent_on_first_attempt_stops_at_once() {
    let policy = default_policy();
    let outcomes: Vec<Outcome<u32>> = vec![
        Outcome::Permanent(PermanentCause::Status(400)),
        Outcome::Success(7),
    ];
    let (result, attempts) = run_retry(&policy, outcomes);
    assert_eq!(attempts, 1);
    assert!(matches!(
        result,
        Err(FetchError::Permanent(PermanentCause::Status(400)))
    ));
}

#[test]
fn exhausted_budget_surfaces_the_last_transient_error() {
    let policy = RetryPolicy {
        initial_interval_ms: 10,
        mult_num: 2,
        mult_den: 1,
        max_interval_ms: 100,
        max_elapsed_ms: 0,
    };
    let outcomes: Vec<Outcome<u32>> = vec![
        Outcome::Transient(TransientCause::Status(502)),
        Outcome::Success(1),
    ];
    let (result, attempts) = run_retry(&policy, outcomes);
    assert_eq!(attempts, 1);
    assert!(matches!(
        result,
        Err(FetchError::Transient(TransientCause::Status(502)))
    ));
}

#[test]
fn intervals_grow_by_the_multiplier_and_cap() {
    let policy = RetryPolicy {
        initial_interval_ms: 100,
        mult_num: 3,
        mult_den: 2,
        max_interval_ms: 300,
        max_elapsed_ms: 10_000,
    };
    let mut exec = RetryExecutor::new(policy);
    assert_eq!(exec.next_delay(), Some(100));
    assert_eq!(exec.next_delay(), Some(150));
    assert_eq!(exec.next_delay(), Some(225));
    assert_eq!(exec.next_delay(), Some(300));
    // Capped from here on.
    assert_eq!(exec.next_delay(), Some(300));
}

#[test]
fn schedule_gives_up_past_the_elapsed_budget() {
    let policy = RetryPolicy {
        initial_interval_ms: 60,
        mult_num: 2,
        mult_den: 1,
        max_interval_ms: 1_000,
        max_elapsed_ms: 100,
    };
    let mut exec = RetryExecutor::new(policy);
    // 60 fits the budget of 100; the next wait of 120 would pass it.
    assert_eq!(exec.next_delay(), Some(60));
    assert_eq!(exec.next_delay(), None);
}

#[test]
fn limiter_grants_one_permit_per_refill() {
    let mut limiter = RateLimiter::new(100);
    assert_eq!(limiter.interval_ns, 10_000_000);
    assert!(limiter.try_acquire());
    assert!(!limiter.try_acquire());
    limiter.refill();
    assert!(limiter.try_acquire());
    assert!(!limiter.try_acquire());
}

#[test]
fn limiter_capacity_is_one_permit() {
    let mut limiter = RateLimiter::new(100);
    limiter.refill();
    limiter.refill();
    limiter.refill();
    // Refills do not bank beyond the capacity of one.
    assert!(limiter.try_acquire());
    assert!(!limiter.try_acquire());
}

/// Drives the bucket with a real clock, refilling at most once per interval:
/// `n` sequential acquisitions then span at least `(n - 1) / freq` seconds.
fn timed_acquires(freq: u64, n: u32) -> Duration {
    let mut limiter = RateLimiter::new(freq);
    let interval = Duration::from_nanos(limiter.interval_ns);
    let start = Instant::now();
    let mut next_refill = start + interval;
    for _ in 0..n {
        loop {
            if limiter.try_acquire() {
                break;
            }
            if Instant::now() >= next_refill {
                limiter.refill();
                next_refill += interval;
            }
        }
    }
    start.elapsed()
}

#[test]
fn limiter_spaces_sequential_acquires() {
    // 50 permits per second: four acquisitions need three refills, so at
    // least 60 milliseconds must elapse.
    let elapsed = timed_acquires(50, 4);
    assert!(elapsed >= Duration::from_millis(60), "elapsed {elapsed:?}");
}
