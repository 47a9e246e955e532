use vstd::prelude::*;
use vstd::string::StringExecFns;

use crate::decimal::dec_seq;
use crate::decimal::u64_to_dec;
use crate::lock_free::approx_check_admits;
use crate::lock_free::approx_check_state;
use crate::lock_free::approx_record_state;
use crate::lock_free::LockFreeSlidingWindowRateLimiter;
use crate::standard::exact_check_admits;
use crate::standard::exact_check_state;
use crate::standard::exact_record_state;
use crate::standard::SlidingWindowRateLimiter;

verus! {

/// Per-key bookkeeping of the lock-free engine: how many requests were
/// recorded in the current window, and the window anchor, which is the time
/// of the most recent recorded request (or of the last wholesale reset).
#[derive(Debug, Clone, Copy, PartialEq, Eq, Structural)]
pub struct RequestState {
    pub count: u32,
    pub last_updated: u64,
}

/// The one domain-level outcome besides success: the quota for a key is
/// exhausted. It carries the configured limit and window so the boundary
/// can render a user-facing message; it is a normal result value, not a
/// fault.
#[derive(Debug, Clone, Copy, PartialEq, Eq, Structural)]
pub struct RejectionReason {
    pub max_requests: u32,
    pub window_seconds: u64,
}

/// The text of the rejection message for a quota of `max` requests per
/// window of `window` seconds.
pub open spec fn rejection_message(max: nat, window: nat) -> Seq<char> {
    "Rate limit exceeded. Maximum "@ + dec_seq(max) + " requests per "@ + dec_seq(window)
        + " seconds."@
}

impl RejectionReason {
    /// Renders the user-facing rejection message.
    pub fn message(&self) -> (s: String)
        ensures
            s@ == rejection_message(self.max_requests as nat, self.window_seconds as nat),
    {
        let mut s: String = "Rate limit exceeded. Maximum ".to_owned();
        let max_digits = u64_to_dec(self.max_requests as u64);
        s.append(max_digits.as_str());
        s.append(" requests per ");
        let window_digits = u64_to_dec(self.window_seconds);
        s.append(window_digits.as_str());
        s.append(" seconds.");
        proof {
            assert(s@ =~= rejection_message(
                self.max_requests as nat,
                self.window_seconds as nat,
            ));
        }
        s
    }
}

/// The capability interface shared by the two engines. For each
/// admission decision a caller first calls `check_rate_limit`; on
/// rejection it stops, and on success it forwards the request and calls
/// `record_request` once. Checking consumes no quota by itself; only
/// recording does.
pub trait RateLimiter {
    /// The engine's structural invariant, established by its constructor
    /// and preserved by both operations.
    spec fn wf(&self) -> bool;

    /// Decides whether `key` is within quota at time `now` (a monotonic
    /// clock reading in seconds).
    fn check_rate_limit(&mut self, key: &str, now: u64) -> (r: Result<(), RejectionReason>)
        requires
            old(self).wf(),
        ensures
            final(self).wf(),
    ;

    /// Records that one admitted request for `key` happened at time `now`.
    fn record_request(&mut self, key: &str, now: u64)
        requires
            old(self).wf(),
        ensures
            final(self).wf(),
    ;
}

/// The closed union over the two engines. The variant is selected once at
/// startup from configuration; every call site afterwards goes through the
/// union, which forwards to the active engine without observable
/// behavioural difference beyond the engines' own algorithms.
pub enum RateLimiterEnum {
    Standard(SlidingWindowRateLimiter),
    LockFree(LockFreeSlidingWindowRateLimiter),
}

impl RateLimiterEnum {
    /// The active engine's structural invariant.
    pub open spec fn wf(&self) -> bool {
        match self {
            RateLimiterEnum::Standard(l) => l.wf(),
            RateLimiterEnum::LockFree(l) => l.wf(),
        }
    }

    /// The configuration the active engine was built with.
    pub open spec fn spec_config(&self) -> crate::config::RateLimitConfig {
        match self {
            RateLimiterEnum::Standard(l) => l.spec_config(),
            RateLimiterEnum::LockFree(l) => l.spec_config(),
        }
    }

    /// Whether a check for `key` at time `now` would admit the request in
    /// the active engine's current state.
    pub open spec fn spec_check_admits(&self, key: Seq<char>, now: u64) -> bool {
        match self {
            RateLimiterEnum::Standard(l) => exact_check_admits(l@, key, now, l.spec_config()),
            RateLimiterEnum::LockFree(l) => approx_check_admits(l@, key, now, l.spec_config()),
        }
    }

    /// Whether the two unions hold the same variant of engine, built with
    /// the same configuration.
    pub open spec fn same_shape(&self, other: &RateLimiterEnum) -> bool {
        &&& (*self is Standard <==> *other is Standard)
        &&& self.spec_config() == other.spec_config()
    }

    /// Checks whether `key` is within quota at time `now` in the active
    /// engine; forwards to that engine unchanged.
    pub fn check_rate_limit(&mut self, key: &str, now: u64) -> (r: Result<(), RejectionReason>)
        requires
            old(self).wf(),
        ensures
            final(self).wf(),
            old(self).same_shape(final(self)),
            *old(self) is Standard ==> (*final(self))->Standard_0@ == exact_check_state(
                (*old(self))->Standard_0@,
                key@,
                now,
                old(self).spec_config().window_seconds,
            ),
            *old(self) is LockFree ==> (*final(self))->LockFree_0@ == approx_check_state(
                (*old(self))->LockFree_0@,
                key@,
                now,
                old(self).spec_config().window_seconds,
            ),
            r is Ok <==> old(self).spec_check_admits(key@, now),
            r matches Err(rej) ==> rej == (RejectionReason {
                max_requests: old(self).spec_config().max_requests,
                window_seconds: old(self).spec_config().window_seconds,
            }),
    {
        match self {
            RateLimiterEnum::Standard(l) => l.check_rate_limit(key, now),
            RateLimiterEnum::LockFree(l) => l.check_rate_limit(key, now),
        }
    }

    /// Records one admitted request for `key` at time `now` in the active
    /// engine; forwards to that engine unchanged.
    pub fn record_request(&mut self, key: &str, now: u64)
        requires
            old(self).wf(),
        ensures
            final(self).wf(),
            old(self).same_shape(final(self)),
            *old(self) is Standard ==> (*final(self))->Standard_0@ == exact_record_state(
                (*old(self))->Standard_0@,
                key@,
                now,
            ),
            *old(self) is LockFree ==> (*final(self))->LockFree_0@ == approx_record_state(
                (*old(self))->LockFree_0@,
                key@,
                now,
            ),
    {
        match self {
            RateLimiterEnum::Standard(l) => l.record_request(key, now),
            RateLimiterEnum::LockFree(l) => l.record_request(key, now),
        }
    }
}

} // verus!
