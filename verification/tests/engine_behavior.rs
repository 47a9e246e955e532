use rate_limiter::admit_request;
use rate_limiter::build_rate_limiter;
use rate_limiter::resolve_client_key;
use rate_limiter::LockFreeRateLimitState;
use rate_limiter::LockFreeSlidingWindowRateLimiter;
use rate_limiter::RateLimitConfig;
use rate_limiter::RateLimitState;
use rate_limiter::RateLimitStateEnum;
use rate_limiter::RateLimiter;
use rate_limiter::RejectionReason;
use rate_limiter::SlidingWindowRateLimiter;

fn exact_engine(max: u32, window: u64) -> SlidingWindowRateLimiter {
    SlidingWindowRateLimiter::new(RateLimitState::new(), RateLimitConfig::new(max, window))
}

fn lock_free_engine(max: u32, window: u64) -> LockFreeSlidingWindowRateLimiter {
    LockFreeSlidingWindowRateLimiter::new(
        LockFreeRateLimitState::new(),
        RateLimitConfig::new(max, window),
    )
}

#[test]
fn exact_boundary_scenario() {
    // max = 3 per 5 seconds: three cycles at t = 0, 1, 2 all succeed.
    let mut limiter = exact_engine(3, 5);
    for t in 0..3u64 {
        assert!(limiter.check_rate_limit("10.0.0.1", t).is_ok());
        limiter.record_request("10.0.0.1", t);
    }
    // A fourth check at t = 3 fails and renders the configured quota.
    let rej = limiter.check_rate_limit("10.0.0.1", 3).unwrap_err();
    assert_eq!(rej.max_requests, 3);
    assert_eq!(rej.window_seconds, 5);
    assert_eq!(rej.message(), "Rate limit exceeded. Maximum 3 requests per 5 seconds.");
    // At t = 6 the window has elapsed since the first recorded request
    // (6 - 0 > 5), so the check succeeds again.
    assert!(limiter.check_rate_limit("10.0.0.1", 6).is_ok());
}

#[test]
fn exact_quota_is_enforced() {
    let mut limiter = exact_engine(10, 60);
    for t in 0..10u64 {
        assert!(limiter.check_rate_limit("k", t).is_ok());
        limiter.record_request("k", t);
    }
    assert!(limiter.check_rate_limit("k", 10).is_err());
}

#[test]
fn exact_window_edge_is_inclusive() {
    // A request exactly `window` seconds old still counts against the
    // quota; one second later it no longer does.
    let mut limiter = exact_engine(1, 5);
    assert!(limiter.check_rate_limit("k", 0).is_ok());
    limiter.record_request("k", 0);
    assert!(limiter.check_rate_limit("k", 5).is_err());
    assert!(limiter.check_rate_limit("k", 6).is_ok());
}

#[test]
fn exact_full_window_reset() {
    let mut limiter = exact_engine(3, 5);
    for _ in 0..3 {
        assert!(limiter.check_rate_limit("k", 0).is_ok());
        limiter.record_request("k", 0);
    }
    assert!(limiter.check_rate_limit("k", 0).is_err());
    // More than one full window later, the count is back to zero.
    assert!(limiter.check_rate_limit("k", 6).is_ok());
}

#[test]
fn exact_distinct_keys_are_isolated() {
    let mut limiter = exact_engine(2, 60);
    for _ in 0..2 {
        assert!(limiter.check_rate_limit("a", 0).is_ok());
        limiter.record_request("a", 0);
    }
    assert!(limiter.check_rate_limit("a", 0).is_err());
    // Saturating key "a" must not affect key "b".
    assert!(limiter.check_rate_limit("b", 0).is_ok());
    limiter.record_request("b", 0);
    assert!(limiter.check_rate_limit("b", 0).is_ok());
}

#[test]
fn exact_check_consumes_no_quota() {
    let mut limiter = exact_engine(2, 60);
    limiter.record_request("k", 0);
    // Repeated checks without an intervening record keep returning the
    // same outcome: a check is a pure read after pruning.
    for _ in 0..10 {
        assert!(limiter.check_rate_limit("k", 1).is_ok());
    }
    limiter.record_request("k", 1);
    for _ in 0..10 {
        assert!(limiter.check_rate_limit("k", 2).is_err());
    }
}

#[test]
fn exact_serialized_burst_admits_exactly_the_quota() {
    // 50 check+record cycles for one key against the exact engine: all
    // operations serialize, so exactly 10 are admitted and 40 rejected,
    // with no double admission past the limit.
    let mut limiter = exact_engine(10, 60);
    let mut admitted = 0;
    let mut rejected = 0;
    for _ in 0..50 {
        match limiter.check_rate_limit("k", 0) {
            Ok(()) => {
                limiter.record_request("k", 0);
                admitted += 1;
            }
            Err(_) => rejected += 1,
        }
    }
    assert_eq!(admitted, 10);
    assert_eq!(rejected, 40);
}

#[test]
fn lock_free_burst_never_exceeds_the_quota() {
    // The same burst against the lock-free engine. Run serially, it
    // admits exactly the quota; under concurrency the engine tolerates a
    // bounded overshoot only at a window-boundary crossing, so the bound
    // asserted here is an upper bound, not exact equality.
    let mut limiter = lock_free_engine(10, 60);
    let mut admitted = 0;
    for _ in 0..50 {
        if limiter.check_rate_limit("k", 0).is_ok() {
            limiter.record_request("k", 0);
            admitted += 1;
        }
    }
    assert!(admitted <= 10);
}

#[test]
fn lock_free_quota_and_reset() {
    let mut limiter = lock_free_engine(3, 5);
    for t in 0..3u64 {
        assert!(limiter.check_rate_limit("k", t).is_ok());
        limiter.record_request("k", t);
    }
    // Within the window the fourth request is rejected...
    let rej = limiter.check_rate_limit("k", 3).unwrap_err();
    assert_eq!(rej.message(), "Rate limit exceeded. Maximum 3 requests per 5 seconds.");
    // ... and once a full window has passed since the last recorded
    // request (the anchor, t = 2), the window resets wholesale.
    assert!(limiter.check_rate_limit("k", 7).is_ok());
}

#[test]
fn lock_free_check_may_cross_a_reset_boundary() {
    // By design, a repeated check on the lock-free engine is not a pure
    // read across time: crossing the window boundary resets the entry in
    // place and flips the outcome. This divergence from the exact engine
    // is documented behaviour, not a bug.
    let mut limiter = lock_free_engine(2, 5);
    for _ in 0..2 {
        assert!(limiter.check_rate_limit("k", 0).is_ok());
        limiter.record_request("k", 0);
    }
    assert!(limiter.check_rate_limit("k", 0).is_err());
    assert!(limiter.check_rate_limit("k", 0).is_err());
    assert!(limiter.check_rate_limit("k", 5).is_ok());
    // The boundary check reset the stored count, so the key is treated
    // as fresh afterwards.
    assert!(limiter.check_rate_limit("k", 5).is_ok());
    limiter.record_request("k", 5);
    assert!(limiter.check_rate_limit("k", 5).is_ok());
}

#[test]
fn lock_free_record_slides_the_anchor() {
    // Every recorded request moves the window anchor, so a steady
    // trickle keeps the window from expiring.
    let mut limiter = lock_free_engine(2, 5);
    limiter.record_request("k", 0);
    limiter.record_request("k", 4);
    // The anchor is now t = 4: at t = 8 the window (5) has not elapsed
    // and both recorded requests still count.
    assert!(limiter.check_rate_limit("k", 8).is_err());
    // At t = 9 the window has fully elapsed since the anchor.
    assert!(limiter.check_rate_limit("k", 9).is_ok());
}

#[test]
fn lock_free_distinct_keys_are_isolated() {
    let mut limiter = lock_free_engine(1, 60);
    assert!(limiter.check_rate_limit("a", 0).is_ok());
    limiter.record_request("a", 0);
    assert!(limiter.check_rate_limit("a", 0).is_err());
    assert!(limiter.check_rate_limit("b", 0).is_ok());
}

#[test]
fn dispatch_standard_variant() {
    let state = RateLimitStateEnum::Standard(RateLimitState::new());
    let mut limiter = build_rate_limiter(state, RateLimitConfig::new(1, 5));
    assert!(limiter.check_rate_limit("k", 0).is_ok());
    limiter.record_request("k", 0);
    // Exact semantics: the request recorded at t = 0 still counts at
    // t = 5 (inclusive window edge).
    assert!(limiter.check_rate_limit("k", 5).is_err());
    assert!(limiter.check_rate_limit("k", 6).is_ok());
}

#[test]
fn dispatch_lock_free_variant() {
    let state = RateLimitStateEnum::LockFree(LockFreeRateLimitState::new());
    let mut limiter = build_rate_limiter(state, RateLimitConfig::new(1, 5));
    assert!(limiter.check_rate_limit("k", 0).is_ok());
    limiter.record_request("k", 0);
    // Approximate semantics: at t = 5 the window has fully elapsed since
    // the anchor, so the entry is reset and the check admits.
    assert!(limiter.check_rate_limit("k", 4).is_err());
    assert!(limiter.check_rate_limit("k", 5).is_ok());
}

#[test]
fn admission_records_only_on_success() {
    let state = RateLimitStateEnum::Standard(RateLimitState::new());
    let mut limiter = build_rate_limiter(state, RateLimitConfig::new(2, 60));
    assert!(admit_request(&mut limiter, "k", 0).is_ok());
    assert!(admit_request(&mut limiter, "k", 1).is_ok());
    let rej = admit_request(&mut limiter, "k", 2).unwrap_err();
    assert_eq!(rej.max_requests, 2);
    // Rejected attempts consume no quota: after the window has passed
    // for the two admitted requests, admission works again.
    for t in 3..50u64 {
        assert!(admit_request(&mut limiter, "k", t).is_err());
    }
    assert!(admit_request(&mut limiter, "k", 62).is_ok());
}

fn one_cycle<L: RateLimiter>(limiter: &mut L, key: &str, now: u64) -> Result<(), RejectionReason> {
    let outcome = RateLimiter::check_rate_limit(limiter, key, now);
    if outcome.is_ok() {
        RateLimiter::record_request(limiter, key, now);
    }
    outcome
}

#[test]
fn both_engines_serve_the_shared_interface() {
    // Driven through the capability trait, both engines enforce the same
    // quota on a burst inside one window.
    let mut exact = exact_engine(2, 60);
    let mut lock_free = lock_free_engine(2, 60);
    for t in 0..2u64 {
        assert!(one_cycle(&mut exact, "k", t).is_ok());
        assert!(one_cycle(&mut lock_free, "k", t).is_ok());
    }
    assert!(one_cycle(&mut exact, "k", 2).is_err());
    assert!(one_cycle(&mut lock_free, "k", 2).is_err());
}

#[test]
fn keyless_requests_share_one_bucket() {
    // Requests without a resolvable client key all map to the sentinel
    // key and are limited as one shared bucket.
    let state = RateLimitStateEnum::Standard(RateLimitState::new());
    let mut limiter = build_rate_limiter(state, RateLimitConfig::new(2, 60));
    let k1 = resolve_client_key(None);
    let k2 = resolve_client_key(None);
    assert_eq!(k1, k2);
    assert!(admit_request(&mut limiter, &k1, 0).is_ok());
    assert!(admit_request(&mut limiter, &k2, 0).is_ok());
    assert!(admit_request(&mut limiter, &k1, 0).is_err());
    // A request with a real key is unaffected by the shared bucket.
    assert!(admit_request(&mut limiter, "203.0.113.7", 0).is_ok());
}
