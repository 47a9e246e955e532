use vstd::prelude::*;

use crate::config::RateLimitConfig;
use crate::lock_free::approx_check_state;
use crate::lock_free::approx_record_state;
use crate::lock_free::LockFreeRateLimitState;
use crate::lock_free::LockFreeSlidingWindowRateLimiter;
use crate::rate_limiter::RateLimiterEnum;
use crate::rate_limiter::RejectionReason;
use crate::standard::exact_check_state;
use crate::standard::exact_record_state;
use crate::standard::RateLimitState;
use crate::standard::SlidingWindowRateLimiter;

verus! {

/// The shared state created once at startup and handed to the boundary:
/// the store of whichever engine the configuration selected.
pub enum RateLimitStateEnum {
    Standard(RateLimitState),
    LockFree(LockFreeRateLimitState),
}

impl RateLimitStateEnum {
    /// The structural invariant of the store held by the active variant.
    pub open spec fn wf(&self) -> bool {
        match self {
            RateLimitStateEnum::Standard(s) => s.wf(),
            RateLimitStateEnum::LockFree(_) => true,
        }
    }
}

/// Builds the engine union around the store of the selected variant,
/// threading the immutable configuration through to the engine.
pub fn build_rate_limiter(state: RateLimitStateEnum, config: RateLimitConfig) -> (r:
    RateLimiterEnum)
    requires
        state.wf(),
        config.wf(),
    ensures
        r.wf(),
        r.spec_config() == config,
        (state is Standard <==> r is Standard),
        state matches RateLimitStateEnum::Standard(s) ==> r->Standard_0@ == s@,
        state matches RateLimitStateEnum::LockFree(s) ==> r->LockFree_0@ == s@,
{
    match state {
        RateLimitStateEnum::Standard(s) => RateLimiterEnum::Standard(
            SlidingWindowRateLimiter::new(s, config),
        ),
        RateLimitStateEnum::LockFree(s) => RateLimiterEnum::LockFree(
            LockFreeSlidingWindowRateLimiter::new(s, config),
        ),
    }
}

/// Resolves the rate-limiting key for an inbound request from the
/// forwarded-for value the boundary extracted: the value itself when one
/// is present, else the fixed sentinel, so that all requests without a
/// resolvable key share a single bucket.
pub fn resolve_client_key(forwarded_for: Option<&str>) -> (k: String)
    ensures
        k@ == (match forwarded_for {
            Some(s) => s@,
            None => "unknown"@,
        }),
{
    match forwarded_for {
        Some(s) => s.to_owned(),
        None => "unknown".to_owned(),
    }
}

/// One full admission decision at the boundary: check `key`'s quota at
/// time `now`, and record the request only when the check admitted it.
/// On rejection the state carries only the check's own transition and the
/// caller must refuse the request with the returned reason.
pub fn admit_request(limiter: &mut RateLimiterEnum, key: &str, now: u64) -> (r: Result<
    (),
    RejectionReason,
>)
    requires
        old(limiter).wf(),
    ensures
        final(limiter).wf(),
        old(limiter).same_shape(final(limiter)),
        r is Ok <==> old(limiter).spec_check_admits(key@, now),
        *old(limiter) is Standard ==> (*final(limiter))->Standard_0@ == (
        {
            let checked = exact_check_state(
                (*old(limiter))->Standard_0@,
                key@,
                now,
                old(limiter).spec_config().window_seconds,
            );
            if old(limiter).spec_check_admits(key@, now) {
                exact_record_state(checked, key@, now)
            } else {
                checked
            }
        }),
        *old(limiter) is LockFree ==> (*final(limiter))->LockFree_0@ == (
        {
            let checked = approx_check_state(
                (*old(limiter))->LockFree_0@,
                key@,
                now,
                old(limiter).spec_config().window_seconds,
            );
            if old(limiter).spec_check_admits(key@, now) {
                approx_record_state(checked, key@, now)
            } else {
                checked
            }
        }),
        r matches Err(rej) ==> rej == (RejectionReason {
            max_requests: old(limiter).spec_config().max_requests,
            window_seconds: old(limiter).spec_config().window_seconds,
        }),
{
    match limiter.check_rate_limit(key, now) {
        Ok(()) => {
            limiter.record_request(key, now);
            Ok(())
        },
        Err(rej) => Err(rej),
    }
}

} // verus!
