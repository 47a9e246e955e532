use vstd::prelude::*;

use crate::config::RateLimitConfig;
use crate::rate_limiter::RateLimiter;
use crate::rate_limiter::RejectionReason;

verus! {

// ------------------------------------------------------------------
// The sliding-window model.
// ------------------------------------------------------------------
/// A recorded timestamp still counts against the quota at time `now` when
/// it is at most `window` seconds old. The lower edge is inclusive: a
/// request exactly `window` seconds old still counts. A timestamp that lies
/// in the future of `now` counts as zero seconds old, mirroring a saturating
/// monotonic-clock difference.
pub open spec fn in_window(t: u64, now: u64, window: u64) -> bool {
    now - t <= window
}

/// The contents of a store with nothing recorded yet.
pub open spec fn exact_empty() -> Map<Seq<char>, Seq<u64>> {
    Map::empty()
}

/// The timestamps of `ts` that still count at time `now`, in their
/// original order.
pub open spec fn prune_seq(ts: Seq<u64>, now: u64, window: u64) -> Seq<u64> {
    ts.filter(|t: u64| in_window(t, now, window))
}

/// The store after the pruning that a check for key `k` at time `now`
/// performs: the key's timestamps are pruned in place, an absent key stays
/// absent, and no other key changes.
pub open spec fn exact_check_state(
    m: Map<Seq<char>, Seq<u64>>,
    k: Seq<char>,
    now: u64,
    window: u64,
) -> Map<Seq<char>, Seq<u64>> {
    if m.contains_key(k) {
        m.insert(k, prune_seq(m[k], now, window))
    } else {
        m
    }
}

/// How many requests currently count against the quota of key `k` at time
/// `now`: the number of its recorded timestamps still inside the window.
pub open spec fn exact_count(m: Map<Seq<char>, Seq<u64>>, k: Seq<char>, now: u64, window: u64) -> nat {
    if m.contains_key(k) {
        prune_seq(m[k], now, window).len()
    } else {
        0
    }
}

/// Whether a check for key `k` at time `now` admits the request.
pub open spec fn exact_check_admits(
    m: Map<Seq<char>, Seq<u64>>,
    k: Seq<char>,
    now: u64,
    c: RateLimitConfig,
) -> bool {
    exact_count(m, k, now, c.window_seconds) < c.max_requests
}

/// The store after recording one admitted request for key `k` at time
/// `now`: `now` is appended to the key's timestamps, which are created
/// empty first when the key is absent.
pub open spec fn exact_record_state(
    m: Map<Seq<char>, Seq<u64>>,
    k: Seq<char>,
    now: u64,
) -> Map<Seq<char>, Seq<u64>> {
    m.insert(
        k,
        (if m.contains_key(k) {
            m[k]
        } else {
            Seq::<u64>::empty()
        }).push(now),
    )
}

// ------------------------------------------------------------------
// Executable pruning.
// ------------------------------------------------------------------
/// Whether a single timestamp still counts at time `now`.
fn timestamp_in_window(t: u64, now: u64, window: u64) -> (b: bool)
    ensures
        b == in_window(t, now, window),
{
    if t <= now {
        now - t <= window
    } else {
        true
    }
}

/// Retains exactly the timestamps that still count at time `now`, in their
/// original order.
fn prune_timestamps(ts: &Vec<u64>, now: u64, window: u64) -> (r: Vec<u64>)
    ensures
        r@ == prune_seq(ts@, now, window),
{
    let mut r: Vec<u64> = Vec::new();
    let n = ts.len();
    proof {
        reveal(Seq::filter);
        assert(ts@.take(0) =~= Seq::<u64>::empty());
    }
    for i in 0..n
        invariant
            n == ts@.len(),
            r@ == prune_seq(ts@.take(i as int), now, window),
    {
        let t = ts[i];
        if timestamp_in_window(t, now, window) {
            r.push(t);
        }
        proof {
            reveal(Seq::filter);
            let prefix = ts@.take(i as int);
            let next = ts@.take(i as int + 1);
            assert(next.drop_last() =~= prefix);
            assert(next.last() == t);
        }
    }
    proof {
        assert(ts@.take(n as int) =~= ts@);
    }
    r
}

// ------------------------------------------------------------------
// The per-key timestamp store.
// ------------------------------------------------------------------
/// The map described by a sequence of key/timestamps entries. A later entry
/// for a key would shadow an earlier one; `unique_keys` rules that out.
spec fn entries_map(s: Seq<(String, Vec<u64>)>) -> Map<Seq<char>, Seq<u64>>
    decreases s.len(),
{
    if s.len() == 0 {
        Map::empty()
    } else {
        entries_map(s.drop_last()).insert(s.last().0@, s.last().1@)
    }
}

/// Each key occurs at most once among the entries.
spec fn unique_keys(s: Seq<(String, Vec<u64>)>) -> bool {
    forall|i: int, j: int| 0 <= i < j < s.len() ==> s[i].0@ != s[j].0@
}

proof fn lemma_entries_map_absent(s: Seq<(String, Vec<u64>)>, k: Seq<char>)
    requires
        forall|j: int| 0 <= j < s.len() ==> s[j].0@ != k,
    ensures
        !entries_map(s).contains_key(k),
    decreases s.len(),
{
    if s.len() > 0 {
        lemma_entries_map_absent(s.drop_last(), k);
    }
}

proof fn lemma_entries_map_found(s: Seq<(String, Vec<u64>)>, k: Seq<char>, i: int)
    requires
        unique_keys(s),
        0 <= i < s.len(),
        s[i].0@ == k,
    ensures
        entries_map(s).contains_key(k),
        entries_map(s)[k] == s[i].1@,
    decreases s.len(),
{
    if i < s.len() - 1 {
        lemma_entries_map_found(s.drop_last(), k, i);
        assert(s.last().0@ != k);
    }
}

proof fn lemma_entries_map_update(s: Seq<(String, Vec<u64>)>, i: int, e: (String, Vec<u64>))
    requires
        unique_keys(s),
        0 <= i < s.len(),
        e.0@ == s[i].0@,
    ensures
        entries_map(s.update(i, e)) == entries_map(s).insert(e.0@, e.1@),
    decreases s.len(),
{
    let s2 = s.update(i, e);
    if i == s.len() - 1 {
        assert(s2.drop_last() =~= s.drop_last());
        assert(s2.last() == e);
        assert(entries_map(s2) =~= entries_map(s).insert(e.0@, e.1@));
    } else {
        assert(s2.drop_last() =~= s.drop_last().update(i, e));
        assert(s2.last() == s.last());
        lemma_entries_map_update(s.drop_last(), i, e);
        assert(s.last().0@ != e.0@);
        assert(entries_map(s2) =~= entries_map(s).insert(e.0@, e.1@));
    }
}

proof fn lemma_entries_map_push(s: Seq<(String, Vec<u64>)>, e: (String, Vec<u64>))
    ensures
        entries_map(s.push(e)) == entries_map(s).insert(e.0@, e.1@),
{
    assert(s.push(e).drop_last() =~= s);
    assert(s.push(e).last() == e);
}

/// The exact engine's per-key store: each client key maps to the ordered
/// sequence of timestamps of its recorded requests. Entries are created
/// lazily on first record and never removed; a pruned-to-empty sequence
/// stays in the store and contributes zero to the count.
pub struct RateLimitState {
    entries: Vec<(String, Vec<u64>)>,
}

impl View for RateLimitState {
    type V = Map<Seq<char>, Seq<u64>>;

    closed spec fn view(&self) -> Map<Seq<char>, Seq<u64>> {
        entries_map(self.entries@)
    }
}

impl RateLimitState {
    /// Each key is stored at most once.
    pub closed spec fn wf(&self) -> bool {
        unique_keys(self.entries@)
    }

    /// Creates an empty store.
    pub fn new() -> (s: Self)
        ensures
            s@ == exact_empty(),
            s.wf(),
    {
        let s = RateLimitState { entries: Vec::new() };
        proof {
            assert(s.entries@.len() == 0);
        }
        s
    }

    /// Position of `key` among the entries, when present.
    fn find(&self, key: &str) -> (r: Option<usize>)
        ensures
            match r {
                Some(i) => i < self.entries@.len() && self.entries@[i as int].0@ == key@,
                None => forall|j: int| 0 <= j < self.entries@.len() ==> self.entries@[j].0@ != key@,
            },
    {
        let owned: String = key.to_owned();
        let n = self.entries.len();
        for i in 0..n
            invariant
                owned@ == key@,
                n == self.entries@.len(),
                forall|j: int| 0 <= j < i ==> self.entries@[j].0@ != key@,
        {
            if self.entries[i].0 == owned {
                return Some(i);
            }
        }
        None
    }

    /// The timestamps recorded for `key`, when any.
    pub fn timestamps(&self, key: &str) -> (r: Option<&Vec<u64>>)
        requires
            self.wf(),
        ensures
            match r {
                Some(v) => self@.contains_key(key@) && v@ == self@[key@],
                None => !self@.contains_key(key@),
            },
    {
        match self.find(key) {
            Some(i) => {
                proof {
                    lemma_entries_map_found(self.entries@, key@, i as int);
                }
                Some(&self.entries[i].1)
            }
            None => {
                proof {
                    lemma_entries_map_absent(self.entries@, key@);
                }
                None
            }
        }
    }

    /// Replaces the timestamps of `key`, creating the entry when absent.
    pub fn set_timestamps(&mut self, key: &str, ts: Vec<u64>)
        requires
            old(self).wf(),
        ensures
            final(self).wf(),
            final(self)@ == old(self)@.insert(key@, ts@),
    {
        let ghost before = self.entries@;
        let ghost new_ts = ts@;
        match self.find(key) {
            Some(i) => {
                let e = vstd::std_specs::vec::vec_index_mut(&mut self.entries, i);
                e.1 = ts;
                proof {
                    assert(self.entries@ == before.update(i as int, self.entries@[i as int]));
                    assert(self.entries@[i as int].0@ == key@);
                    assert(self.entries@[i as int].1@ == new_ts);
                    lemma_entries_map_update(before, i as int, self.entries@[i as int]);
                    assert forall|a: int, b: int|
                        0 <= a < b < self.entries@.len() implies self.entries@[a].0@
                        != self.entries@[b].0@ by {
                        assert(before[a].0@ != before[b].0@);
                    }
                }
            },
            None => {
                let owned: String = key.to_owned();
                self.entries.push((owned, ts));
                proof {
                    lemma_entries_map_push(before, self.entries@.last());
                    assert(self.entries@.last().0@ == key@);
                    assert(self.entries@.last().1@ == new_ts);
                    assert forall|a: int, b: int|
                        0 <= a < b < self.entries@.len() implies self.entries@[a].0@
                        != self.entries@[b].0@ by {
                        if b < self.entries@.len() - 1 {
                            assert(before[a].0@ != before[b].0@);
                        } else {
                            assert(before[a].0@ != key@);
                        }
                    }
                }
            },
        }
    }

    /// Appends one timestamp for `key`, creating the entry when absent.
    pub fn push_timestamp(&mut self, key: &str, t: u64)
        requires
            old(self).wf(),
        ensures
            final(self).wf(),
            final(self)@ == old(self)@.insert(
                key@,
                (if old(self)@.contains_key(key@) {
                    old(self)@[key@]
                } else {
                    Seq::<u64>::empty()
                }).push(t),
            ),
    {
        let ghost before = self.entries@;
        match self.find(key) {
            Some(i) => {
                proof {
                    lemma_entries_map_found(before, key@, i as int);
                }
                let e = vstd::std_specs::vec::vec_index_mut(&mut self.entries, i);
                e.1.push(t);
                proof {
                    assert(self.entries@ == before.update(i as int, self.entries@[i as int]));
                    assert(self.entries@[i as int].0@ == key@);
                    assert(self.entries@[i as int].1@ == before[i as int].1@.push(t));
                    lemma_entries_map_update(before, i as int, self.entries@[i as int]);
                    assert forall|a: int, b: int|
                        0 <= a < b < self.entries@.len() implies self.entries@[a].0@
                        != self.entries@[b].0@ by {
                        assert(before[a].0@ != before[b].0@);
                    }
                }
            },
            None => {
                proof {
                    lemma_entries_map_absent(before, key@);
                }
                let owned: String = key.to_owned();
                let mut fresh: Vec<u64> = Vec::new();
                fresh.push(t);
                proof {
                    assert(fresh@ =~= Seq::<u64>::empty().push(t));
                }
                self.entries.push((owned, fresh));
                proof {
                    lemma_entries_map_push(before, self.entries@.last());
                    assert(self.entries@.last().0@ == key@);
                    assert forall|a: int, b: int|
                        0 <= a < b < self.entries@.len() implies self.entries@[a].0@
                        != self.entries@[b].0@ by {
                        if b < self.entries@.len() - 1 {
                            assert(before[a].0@ != before[b].0@);
                        } else {
                            assert(before[a].0@ != key@);
                        }
                    }
                }
            },
        }
    }
}

// ------------------------------------------------------------------
// The exact sliding-window engine.
// ------------------------------------------------------------------
/// The exact sliding-window engine: it keeps every recorded request
/// timestamp per key. A check prunes the key's timestamps to the trailing
/// window and rejects when at least `max_requests` remain; recording
/// appends the current time. Strong correctness at the cost of keeping up
/// to one timestamp per admitted request.
pub struct SlidingWindowRateLimiter {
    state: RateLimitState,
    config: RateLimitConfig,
}

impl View for SlidingWindowRateLimiter {
    type V = Map<Seq<char>, Seq<u64>>;

    closed spec fn view(&self) -> Map<Seq<char>, Seq<u64>> {
        self.state@
    }
}

impl SlidingWindowRateLimiter {
    /// The configuration the engine was built with.
    pub closed spec fn spec_config(&self) -> RateLimitConfig {
        self.config
    }

    /// The configuration the engine was built with.
    pub fn config(&self) -> (c: RateLimitConfig)
        ensures
            c == self.spec_config(),
    {
        self.config
    }

    /// Builds the engine around an existing store and a configuration.
    pub fn new(state: RateLimitState, config: RateLimitConfig) -> (r: Self)
        requires
            state.wf(),
            config.wf(),
        ensures
            r.wf(),
            r@ == state@,
            r.spec_config() == config,
    {
        SlidingWindowRateLimiter { state, config }
    }

    /// Decides whether `key` is within quota at time `now`, pruning the
    /// key's timestamps to the trailing window first. No quota is consumed:
    /// only `record_request` adds a timestamp.
    pub fn check_rate_limit(&mut self, key: &str, now: u64) -> (r: Result<(), RejectionReason>)
        requires
            old(self).wf(),
        ensures
            final(self).wf(),
            final(self).spec_config() == old(self).spec_config(),
            final(self)@ == exact_check_state(
                old(self)@,
                key@,
                now,
                old(self).spec_config().window_seconds,
            ),
            r is Ok <==> exact_check_admits(old(self)@, key@, now, old(self).spec_config()),
            r matches Err(rej) ==> rej == (RejectionReason {
                max_requests: old(self).spec_config().max_requests,
                window_seconds: old(self).spec_config().window_seconds,
            }),
    {
        let window = self.config.window_seconds;
        let max = self.config.max_requests;
        let pruned = match self.state.timestamps(key) {
            Some(ts) => Some(prune_timestamps(ts, now, window)),
            None => None,
        };
        match pruned {
            None => Ok(()),
            Some(pruned) => {
                let current = pruned.len();
                self.state.set_timestamps(key, pruned);
                if current >= max as usize {
                    Err(RejectionReason { max_requests: max, window_seconds: window })
                } else {
                    Ok(())
                }
            },
        }
    }

    /// Records that one admitted request for `key` happened at time `now`
    /// by appending `now` to the key's timestamps. This is the only place
    /// a timestamp is added.
    pub fn record_request(&mut self, key: &str, now: u64)
        requires
            old(self).wf(),
        ensures
            final(self).wf(),
            final(self).spec_config() == old(self).spec_config(),
            final(self)@ == exact_record_state(old(self)@, key@, now),
    {
        self.state.push_timestamp(key, now);
    }
}

impl RateLimiter for SlidingWindowRateLimiter {
    closed spec fn wf(&self) -> bool {
        self.state.wf() && self.config.wf()
    }

    fn check_rate_limit(&mut self, key: &str, now: u64) -> (r: Result<(), RejectionReason>) {
        self.check_rate_limit(key, now)
    }

    fn record_request(&mut self, key: &str, now: u64) {
        self.record_request(key, now)
    }
}

} // verus!
