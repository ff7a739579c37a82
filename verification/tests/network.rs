use rt_engine::network_budget::{
    rate_sleep_nanos, AcquireStep, CancellableStep, GlobalNetworkBudget, RateLimitCancellation,
    SharedRateLimiter, MAX_INITIAL_BURST_BYTES, MIN_RATE_SLEEP_NANOS,
};

const SECOND: u128 = 1_000_000_000;

#[test]
fn unlimited_budget_does_not_wait() {
    let mut limiter = SharedRateLimiter::new(None, 0);
    assert_eq!(limiter.acquire(1_000_000, 0), AcquireStep::Done);
}

#[test]
fn limited_budget_refills_after_wait() {
    let mut limiter = SharedRateLimiter::new(Some(1_000), 0);
    assert_eq!(limiter.acquire(MAX_INITIAL_BURST_BYTES, 0), AcquireStep::Done);
    assert_eq!(limiter.acquire(1_000, 0), AcquireStep::Wait { nanos: 1_000_000_000 });
    assert_eq!(limiter.acquire(1_000, SECOND), AcquireStep::Done);
}

#[test]
fn limited_budget_accepts_request_larger_than_bucket_capacity() {
    let mut limiter = SharedRateLimiter::new(Some(1_000), 0);
    let step = limiter.acquire(MAX_INITIAL_BURST_BYTES.saturating_mul(2), 0);
    assert_eq!(step, AcquireStep::Again { remaining: MAX_INITIAL_BURST_BYTES });
    assert!(matches!(limiter.acquire(MAX_INITIAL_BURST_BYTES, 0), AcquireStep::Wait { .. }));
    assert!(matches!(
        limiter.acquire(MAX_INITIAL_BURST_BYTES, 65 * SECOND),
        AcquireStep::Wait { nanos } if nanos <= 1_000_000_000
    ));
    assert_eq!(limiter.acquire(MAX_INITIAL_BURST_BYTES, 66 * SECOND), AcquireStep::Done);
}

#[test]
fn cancellable_budget_wakes_when_peer_control_changes() {
    let mut limiter = SharedRateLimiter::new(Some(1), 0);
    assert_eq!(limiter.acquire(MAX_INITIAL_BURST_BYTES, 0), AcquireStep::Done);
    let mut cancellation = RateLimitCancellation::default();
    let generation = cancellation.generation();
    assert!(matches!(
        limiter.acquire_or_cancelled(1, 0, &cancellation, generation),
        CancellableStep::Step(AcquireStep::Wait { .. })
    ));
    cancellation.cancel();
    assert_eq!(
        limiter.acquire_or_cancelled(1, 0, &cancellation, generation),
        CancellableStep::Cancelled
    );
}

#[test]
fn changing_global_limit_wakes_existing_waiters() {
    let mut limiter = SharedRateLimiter::new(Some(1), 0);
    assert_eq!(limiter.acquire(MAX_INITIAL_BURST_BYTES, 0), AcquireStep::Done);
    assert!(matches!(limiter.acquire(1, 0), AcquireStep::Wait { .. }));
    let generation = limiter.limit_generation();
    assert!(limiter.set_limit(None, 0));
    assert_ne!(limiter.limit_generation(), generation);
    assert_eq!(limiter.acquire(1, 0), AcquireStep::Done);
}

#[test]
fn reapplying_same_limit_does_not_restore_spent_burst_tokens() {
    let mut limiter = SharedRateLimiter::new(Some(1), 0);
    assert_eq!(limiter.acquire(MAX_INITIAL_BURST_BYTES, 0), AcquireStep::Done);

    assert!(!limiter.set_limit(Some(1), 0));
    assert!(matches!(limiter.acquire(1, 0), AcquireStep::Wait { .. }));
    assert_eq!(limiter.acquire(1, SECOND), AcquireStep::Done);
}

#[test]
fn reapplied_limit_keeps_the_tokens() {
    let mut limiter = SharedRateLimiter::new(Some(1_000_000), 0);
    assert_eq!(limiter.acquire(1_000, 0), AcquireStep::Done);
    let before = limiter.tokens();
    limiter.set_limit(Some(1_000_000), 0);
    assert_eq!(limiter.tokens(), before);
    assert_eq!(limiter.acquire(1, 0), AcquireStep::Done);
    assert_eq!(limiter.tokens(), before - 1);
}

#[test]
fn peer_slots_are_shared_across_clones() {
    let mut budget = GlobalNetworkBudget::new(1, None, None, 0);
    let permit = budget.try_acquire_peer().unwrap();
    assert!(budget.try_acquire_peer().is_none());
    budget.release_peer(permit);
    assert!(budget.try_acquire_peer().is_some());
}

#[test]
fn a_budget_without_peers_has_one_slot() {
    let mut budget = GlobalNetworkBudget::new(0, None, None, 0);
    assert!(budget.try_acquire_peer().is_some());
    assert!(budget.try_acquire_peer().is_none());
}

#[test]
fn a_limit_of_zero_is_no_limit() {
    let mut limiter = SharedRateLimiter::new(Some(0), 0);
    assert_eq!(limiter.acquire(u64::MAX, 0), AcquireStep::Done);
}

#[test]
fn waits_are_rounded_up_to_the_shortest_sleep() {
    assert_eq!(rate_sleep_nanos(1), MIN_RATE_SLEEP_NANOS);
    assert_eq!(rate_sleep_nanos(MIN_RATE_SLEEP_NANOS + 7), MIN_RATE_SLEEP_NANOS + 7);
    let mut limiter = SharedRateLimiter::new(Some(3), 0);
    assert_eq!(limiter.acquire(MAX_INITIAL_BURST_BYTES, 0), AcquireStep::Done);
    assert_eq!(limiter.acquire(1, 0), AcquireStep::Wait { nanos: 333_333_334 });
}

#[test]
fn a_run_of_requests_is_granted_one_burst_and_what_time_brings() {
    let limit: u64 = 1_000;
    let mut limiter = SharedRateLimiter::new(Some(limit), 0);
    let mut granted: u64 = 0;
    for tenth in 0..600u128 {
        let now = tenth * SECOND / 10;
        match limiter.acquire(700, now) {
            AcquireStep::Done => granted += 700,
            AcquireStep::Again { remaining } => granted += 700 - remaining,
            AcquireStep::Wait { .. } => {}
        }
        let brought = (now * limit as u128 / SECOND) as u64;
        assert!(granted <= MAX_INITIAL_BURST_BYTES + brought);
    }
    assert!(granted > MAX_INITIAL_BURST_BYTES);
}
