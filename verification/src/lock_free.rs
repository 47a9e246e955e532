use vstd::prelude::*;

use dashmap::DashMap;

use crate::config::RateLimitConfig;
use crate::rate_limiter::RateLimiter;
use crate::rate_limiter::RejectionReason;
use crate::rate_limiter::RequestState;

verus! {

// ------------------------------------------------------------------
// The concurrent map, taken from the dashmap crate.
// ------------------------------------------------------------------
/// `dashmap::DashMap`, declared so that values of it can flow through
/// verified code. The map itself is opaque to the verifier; everything the
/// engine relies on is stated on the wrappers below in terms of
/// `dash_view`.
#[verifier::external_type_specification]
#[verifier::external_body]
#[verifier::reject_recursive_types(K)]
#[verifier::reject_recursive_types(V)]
#[verifier::reject_recursive_types(S)]
pub struct ExDashMap<K, V, S>(DashMap<K, V, S>);

/// The contents of a per-key request-state map: which client keys are
/// present, and the count and window anchor each one carries.
pub uninterp spec fn dash_view(m: DashMap<String, RequestState>) -> Map<Seq<char>, (u32, u64)>;

/// The contents of a store with nothing recorded yet.
pub open spec fn approx_empty() -> Map<Seq<char>, (u32, u64)> {
    Map::empty()
}

/// Relies on dashmap::DashMap::new: creates an empty map.
#[verifier::external_body]
fn dash_new() -> (m: DashMap<String, RequestState>)
    ensures
        dash_view(m) == approx_empty(),
{
    DashMap::new()
}

/// Relies on dashmap::DashMap::get: returns the value stored under the
/// key, or nothing when the key is absent.
#[verifier::external_body]
fn dash_get(m: &DashMap<String, RequestState>, key: &str) -> (r: Option<RequestState>)
    ensures
        match r {
            Some(v) => dash_view(*m).contains_key(key@) && dash_view(*m)[key@] == (
                v.count,
                v.last_updated,
            ),
            None => !dash_view(*m).contains_key(key@),
        },
{
    m.get(key).map(|e| *e.value())
}

/// Relies on dashmap::DashMap::insert: maps the key to the given value,
/// replacing any previous value for that key and leaving other keys
/// untouched.
#[verifier::external_body]
fn dash_insert(m: &mut DashMap<String, RequestState>, key: &str, v: RequestState)
    ensures
        dash_view(*final(m)) == dash_view(*old(m)).insert(key@, (v.count, v.last_updated)),
{
    m.insert(key.to_owned(), v);
}

// ------------------------------------------------------------------
// The fixed-window model.
// ------------------------------------------------------------------
/// Whether the window anchored at `e.1` has fully elapsed at time `now`.
/// The elapsed time saturates at zero for an anchor in the future of
/// `now`, mirroring a saturating monotonic-clock difference.
pub open spec fn window_expired(e: (u32, u64), now: u64, window: u64) -> bool {
    (if now >= e.1 {
        now - e.1
    } else {
        0
    }) >= window
}

/// The store after a check for key `k` at time `now`: a fully elapsed
/// window is reset in place to a zero count anchored at `now`; otherwise
/// nothing changes. An absent key is not created by a check.
pub open spec fn approx_check_state(
    m: Map<Seq<char>, (u32, u64)>,
    k: Seq<char>,
    now: u64,
    window: u64,
) -> Map<Seq<char>, (u32, u64)> {
    if m.contains_key(k) && window_expired(m[k], now, window) {
        m.insert(k, (0u32, now))
    } else {
        m
    }
}

/// The count a check for key `k` at time `now` holds against the limit:
/// zero for an absent key or a fully elapsed window, the stored count
/// otherwise.
pub open spec fn approx_count(
    m: Map<Seq<char>, (u32, u64)>,
    k: Seq<char>,
    now: u64,
    window: u64,
) -> u32 {
    if m.contains_key(k) {
        if window_expired(m[k], now, window) {
            0u32
        } else {
            m[k].0
        }
    } else {
        0u32
    }
}

/// Whether a check for key `k` at time `now` admits the request.
pub open spec fn approx_check_admits(
    m: Map<Seq<char>, (u32, u64)>,
    k: Seq<char>,
    now: u64,
    c: RateLimitConfig,
) -> bool {
    approx_count(m, k, now, c.window_seconds) < c.max_requests
}

/// A count incremented by one, saturating at the type's maximum. The
/// maximum is never below a configurable limit, so a saturated count is
/// rejected exactly like an ever-growing one would be.
pub open spec fn saturating_inc(c: u32) -> u32 {
    if c < u32::MAX {
        (c + 1) as u32
    } else {
        c
    }
}

/// The store after recording one admitted request for key `k` at time
/// `now`: the key's count goes up by one (from zero for an absent key) and
/// its window anchor moves to `now`, sliding the reference point of the
/// window with every recorded request.
pub open spec fn approx_record_state(
    m: Map<Seq<char>, (u32, u64)>,
    k: Seq<char>,
    now: u64,
) -> Map<Seq<char>, (u32, u64)> {
    m.insert(
        k,
        if m.contains_key(k) {
            (saturating_inc(m[k].0), now)
        } else {
            (1u32, now)
        },
    )
}

// ------------------------------------------------------------------
// The lock-free engine.
// ------------------------------------------------------------------
/// The lock-free engine's per-key store, backed by a concurrent map so
/// that callers on distinct keys do not block each other.
pub struct LockFreeRateLimitState {
    requests: DashMap<String, RequestState>,
}

impl View for LockFreeRateLimitState {
    type V = Map<Seq<char>, (u32, u64)>;

    closed spec fn view(&self) -> Map<Seq<char>, (u32, u64)> {
        dash_view(self.requests)
    }
}

impl LockFreeRateLimitState {
    /// Creates an empty store.
    pub fn new() -> (s: Self)
        ensures
            s@ == approx_empty(),
    {
        LockFreeRateLimitState { requests: dash_new() }
    }
}

/// The approximate fixed-window engine: it keeps one count and one window
/// anchor per key, resetting them wholesale once the window has fully
/// elapsed. Constant space and time per key, at the price of admitting
/// brief bursts around window boundaries.
pub struct LockFreeSlidingWindowRateLimiter {
    state: LockFreeRateLimitState,
    config: RateLimitConfig,
}

impl View for LockFreeSlidingWindowRateLimiter {
    type V = Map<Seq<char>, (u32, u64)>;

    closed spec fn view(&self) -> Map<Seq<char>, (u32, u64)> {
        self.state@
    }
}

impl LockFreeSlidingWindowRateLimiter {
    /// The configuration the engine was built with.
    pub closed spec fn spec_config(&self) -> RateLimitConfig {
        self.config
    }

    /// The configuration the engine was built with.
    pub fn config(&self) -> (c: RateLimitConfig)
        ensures
            c == self.spec_config(),
    {
        self.config
    }

    /// Builds the engine around an existing store and a configuration.
    pub fn new(state: LockFreeRateLimitState, config: RateLimitConfig) -> (r: Self)
        requires
            config.wf(),
        ensures
            r.wf(),
            r@ == state@,
            r.spec_config() == config,
    {
        LockFreeSlidingWindowRateLimiter { state, config }
    }

    /// Decides whether `key` is within quota at time `now`. A fully
    /// elapsed window is reset in place before the count is compared, so a
    /// repeated check can cross a window boundary and change the stored
    /// state; apart from that reset, no quota is consumed here.
    pub fn check_rate_limit(&mut self, key: &str, now: u64) -> (r: Result<(), RejectionReason>)
        requires
            old(self).wf(),
        ensures
            final(self).wf(),
            final(self).spec_config() == old(self).spec_config(),
            final(self)@ == approx_check_state(
                old(self)@,
                key@,
                now,
                old(self).spec_config().window_seconds,
            ),
            r is Ok <==> approx_check_admits(old(self)@, key@, now, old(self).spec_config()),
            r matches Err(rej) ==> rej == (RejectionReason {
                max_requests: old(self).spec_config().max_requests,
                window_seconds: old(self).spec_config().window_seconds,
            }),
    {
        let window = self.config.window_seconds;
        let max = self.config.max_requests;
        match dash_get(&self.state.requests, key) {
            None => Ok(()),
            Some(entry) => {
                let elapsed = if now >= entry.last_updated {
                    now - entry.last_updated
                } else {
                    0
                };
                let current = if elapsed >= window {
                    let reset = RequestState { count: 0, last_updated: now };
                    dash_insert(&mut self.state.requests, key, reset);
                    0
                } else {
                    entry.count
                };
                if current >= max {
                    Err(RejectionReason { max_requests: max, window_seconds: window })
                } else {
                    Ok(())
                }
            },
        }
    }

    /// Records that one admitted request for `key` happened at time `now`:
    /// the key's count goes up by one and its window anchor moves to
    /// `now`.
    pub fn record_request(&mut self, key: &str, now: u64)
        requires
            old(self).wf(),
        ensures
            final(self).wf(),
            final(self).spec_config() == old(self).spec_config(),
            final(self)@ == approx_record_state(old(self)@, key@, now),
    {
        let next = match dash_get(&self.state.requests, key) {
            Some(entry) => RequestState {
                count: if entry.count < u32::MAX {
                    entry.count + 1
                } else {
                    entry.count
                },
                last_updated: now,
            },
            None => RequestState { count: 1, last_updated: now },
        };
        dash_insert(&mut self.state.requests, key, next);
    }
}

impl RateLimiter for LockFreeSlidingWindowRateLimiter {
    closed spec fn wf(&self) -> bool {
        self.config.wf()
    }

    fn check_rate_limit(&mut self, key: &str, now: u64) -> (r: Result<(), RejectionReason>) {
        self.check_rate_limit(key, now)
    }

    fn record_request(&mut self, key: &str, now: u64) {
        self.record_request(key, now)
    }
}

} // verus!
