use vstd::prelude::*;

use crate::config::RateLimitConfig;
use crate::lock_free::approx_check_admits;
use crate::lock_free::approx_check_state;
use crate::lock_free::approx_count;
use crate::lock_free::approx_record_state;
use crate::lock_free::saturating_inc;
use crate::lock_free::window_expired;
use crate::standard::exact_check_admits;
use crate::standard::exact_check_state;
use crate::standard::exact_count;
use crate::standard::exact_record_state;
use crate::standard::in_window;
use crate::standard::prune_seq;

verus! {

// ------------------------------------------------------------------
// Facts about pruning.
// ------------------------------------------------------------------
proof fn lemma_prune_all_live(ts: Seq<u64>, now: u64, window: u64)
    requires
        forall|i: int| 0 <= i < ts.len() ==> in_window(#[trigger] ts[i], now, window),
    ensures
        prune_seq(ts, now, window) == ts,
    decreases ts.len(),
{
    reveal(Seq::filter);
    if ts.len() > 0 {
        lemma_prune_all_live(ts.drop_last(), now, window);
        assert(prune_seq(ts, now, window) =~= ts);
    } else {
        assert(prune_seq(ts, now, window) =~= ts);
    }
}

proof fn lemma_prune_none_live(ts: Seq<u64>, now: u64, window: u64)
    requires
        forall|i: int| 0 <= i < ts.len() ==> !in_window(#[trigger] ts[i], now, window),
    ensures
        prune_seq(ts, now, window) == Seq::<u64>::empty(),
    decreases ts.len(),
{
    reveal(Seq::filter);
    if ts.len() > 0 {
        lemma_prune_none_live(ts.drop_last(), now, window);
    }
}

proof fn lemma_prune_twice(ts: Seq<u64>, now: u64, later: u64, window: u64)
    requires
        now <= later,
    ensures
        prune_seq(prune_seq(ts, now, window), later, window) == prune_seq(ts, later, window),
    decreases ts.len(),
{
    reveal(Seq::filter);
    if ts.len() > 0 {
        let rest = ts.drop_last();
        let t = ts.last();
        lemma_prune_twice(rest, now, later, window);
        if in_window(t, now, window) {
            assert(prune_seq(ts, now, window) == prune_seq(rest, now, window).push(t));
            assert(prune_seq(rest, now, window).push(t).drop_last() =~= prune_seq(
                rest,
                now,
                window,
            ));
            assert(prune_seq(rest, now, window).push(t).last() == t);
        } else {
            assert(!in_window(t, later, window));
        }
    }
}

// ------------------------------------------------------------------
// Iterated check+record cycles, the shape the quota law speaks about.
// ------------------------------------------------------------------
/// The times of a burst of requests, in the order they happen.
pub open spec fn nondecreasing(times: Seq<u64>) -> bool {
    forall|i: int, j: int| 0 <= i <= j < times.len() ==> times[i] <= times[j]
}

/// The exact store after one check+record cycle for key `k` at time `t`.
pub open spec fn exact_cycle(
    m: Map<Seq<char>, Seq<u64>>,
    k: Seq<char>,
    t: u64,
    window: u64,
) -> Map<Seq<char>, Seq<u64>> {
    exact_record_state(exact_check_state(m, k, t, window), k, t)
}

/// The exact store after a check+record cycle for key `k` at each time of
/// `times` in order.
pub open spec fn exact_run(
    m: Map<Seq<char>, Seq<u64>>,
    k: Seq<char>,
    times: Seq<u64>,
    window: u64,
) -> Map<Seq<char>, Seq<u64>>
    decreases times.len(),
{
    if times.len() == 0 {
        m
    } else {
        exact_run(exact_cycle(m, k, times.first(), window), k, times.drop_first(), window)
    }
}

/// The approximate store after one check+record cycle for key `k` at
/// time `t`.
pub open spec fn approx_cycle(
    m: Map<Seq<char>, (u32, u64)>,
    k: Seq<char>,
    t: u64,
    window: u64,
) -> Map<Seq<char>, (u32, u64)> {
    approx_record_state(approx_check_state(m, k, t, window), k, t)
}

/// The approximate store after a check+record cycle for key `k` at each
/// time of `times` in order.
pub open spec fn approx_run(
    m: Map<Seq<char>, (u32, u64)>,
    k: Seq<char>,
    times: Seq<u64>,
    window: u64,
) -> Map<Seq<char>, (u32, u64)>
    decreases times.len(),
{
    if times.len() == 0 {
        m
    } else {
        approx_run(approx_cycle(m, k, times.first(), window), k, times.drop_first(), window)
    }
}

proof fn lemma_exact_run_snoc(
    m: Map<Seq<char>, Seq<u64>>,
    k: Seq<char>,
    times: Seq<u64>,
    t: u64,
    window: u64,
)
    ensures
        exact_run(m, k, times.push(t), window) == exact_cycle(
            exact_run(m, k, times, window),
            k,
            t,
            window,
        ),
    decreases times.len(),
{
    reveal_with_fuel(exact_run, 3);
    if times.len() == 0 {
        assert(times.push(t).first() == t);
        assert(times.push(t).drop_first() =~= Seq::<u64>::empty());
    } else {
        assert(times.push(t).first() == times.first());
        assert(times.push(t).drop_first() =~= times.drop_first().push(t));
        lemma_exact_run_snoc(
            exact_cycle(m, k, times.first(), window),
            k,
            times.drop_first(),
            t,
            window,
        );
    }
}

proof fn lemma_approx_run_snoc(
    m: Map<Seq<char>, (u32, u64)>,
    k: Seq<char>,
    times: Seq<u64>,
    t: u64,
    window: u64,
)
    ensures
        approx_run(m, k, times.push(t), window) == approx_cycle(
            approx_run(m, k, times, window),
            k,
            t,
            window,
        ),
    decreases times.len(),
{
    reveal_with_fuel(approx_run, 3);
    if times.len() == 0 {
        assert(times.push(t).first() == t);
        assert(times.push(t).drop_first() =~= Seq::<u64>::empty());
    } else {
        assert(times.push(t).first() == times.first());
        assert(times.push(t).drop_first() =~= times.drop_first().push(t));
        lemma_approx_run_snoc(
            approx_cycle(m, k, times.first(), window),
            k,
            times.drop_first(),
            t,
            window,
        );
    }
}

proof fn lemma_exact_run_contents(
    m: Map<Seq<char>, Seq<u64>>,
    k: Seq<char>,
    times: Seq<u64>,
    window: u64,
)
    requires
        !m.contains_key(k),
        nondecreasing(times),
        forall|i: int, j: int| 0 <= i <= j < times.len() ==> times[j] - times[i] <= window,
    ensures
        exact_run(m, k, times, window) == (if times.len() == 0 {
            m
        } else {
            m.insert(k, times)
        }),
    decreases times.len(),
{
    if times.len() > 0 {
        let rest = times.drop_last();
        let t = times.last();
        assert(rest.push(t) =~= times);
        lemma_exact_run_snoc(m, k, rest, t, window);
        lemma_exact_run_contents(m, k, rest, window);
        if rest.len() == 0 {
            assert(Seq::<u64>::empty().push(t) =~= times);
            assert(exact_run(m, k, times, window) =~= m.insert(k, times));
        } else {
            let r = m.insert(k, rest);
            assert forall|i: int| 0 <= i < rest.len() implies in_window(
                #[trigger] rest[i],
                t,
                window,
            ) by {
                assert(rest[i] == times[i]);
                assert(times[times.len() - 1] - times[i] <= window);
            }
            lemma_prune_all_live(rest, t, window);
            assert(exact_check_state(r, k, t, window) =~= r);
            assert(rest.push(t) =~= times);
            assert(exact_record_state(r, k, t) =~= m.insert(k, times));
        }
    }
}

proof fn lemma_approx_run_contents(
    m: Map<Seq<char>, (u32, u64)>,
    k: Seq<char>,
    times: Seq<u64>,
    window: u64,
)
    requires
        !m.contains_key(k),
        nondecreasing(times),
        forall|i: int, j: int| 0 <= i <= j < times.len() ==> times[j] - times[i] < window,
        times.len() <= u32::MAX,
    ensures
        approx_run(m, k, times, window) == (if times.len() == 0 {
            m
        } else {
            m.insert(k, (times.len() as u32, times.last()))
        }),
    decreases times.len(),
{
    if times.len() > 0 {
        let rest = times.drop_last();
        let t = times.last();
        assert(rest.push(t) =~= times);
        lemma_approx_run_snoc(m, k, rest, t, window);
        lemma_approx_run_contents(m, k, rest, window);
        if rest.len() == 0 {
            assert(approx_run(m, k, times, window) =~= m.insert(k, (1u32, t)));
        } else {
            let prior: (u32, u64) = (rest.len() as u32, rest.last());
            let r = m.insert(k, prior);
            assert(rest.last() == times[times.len() - 2]);
            assert(t - rest.last() < window);
            assert(rest.last() <= t);
            assert(!window_expired(prior, t, window));
            assert(approx_check_state(r, k, t, window) == r);
            assert(saturating_inc(prior.0) == times.len() as u32);
            assert(approx_record_state(r, k, t) =~= m.insert(k, (times.len() as u32, t)));
        }
    }
}

// ------------------------------------------------------------------
// Quota enforcement: a burst of `max_requests` cycles inside one window
// all pass their checks, and one more check in the same span is rejected.
// ------------------------------------------------------------------
/// For every configuration and every key: starting from a store that does
/// not know the key, `max_requests` consecutive check+record cycles whose
/// times all lie within less than one window of the first all pass their
/// checks, and one further check in the same span is rejected — under the
/// exact engine's transition relation.
pub proof fn lemma_exact_quota(
    m: Map<Seq<char>, Seq<u64>>,
    k: Seq<char>,
    times: Seq<u64>,
    t_next: u64,
    c: RateLimitConfig,
)
    requires
        c.wf(),
        !m.contains_key(k),
        nondecreasing(times),
        times.len() == c.max_requests,
        forall|i: int| 0 <= i < times.len() ==> #[trigger] times[i] <= t_next,
        t_next - times.first() < c.window_seconds,
    ensures
        forall|i: int|
            0 <= i < times.len() ==> exact_check_admits(
                #[trigger] exact_run(m, k, times.take(i), c.window_seconds),
                k,
                times[i],
                c,
            ),
        !exact_check_admits(exact_run(m, k, times, c.window_seconds), k, t_next, c),
{
    let w = c.window_seconds;
    assert forall|i: int, j: int| 0 <= i <= j < times.len() implies times[j] - times[i] <= w by {
        assert(times.first() <= times[i]);
        assert(times[j] <= t_next);
    }
    assert forall|i: int|
        0 <= i < times.len() implies exact_check_admits(
        #[trigger] exact_run(m, k, times.take(i), w),
        k,
        times[i],
        c,
    ) by {
        let pre = times.take(i);
        assert forall|a: int, b: int| 0 <= a <= b < pre.len() implies pre[a] <= pre[b] by {
            assert(pre[a] == times[a]);
            assert(pre[b] == times[b]);
        }
        assert forall|a: int, b: int| 0 <= a <= b < pre.len() implies pre[b] - pre[a] <= w by {
            assert(pre[a] == times[a]);
            assert(pre[b] == times[b]);
        }
        lemma_exact_run_contents(m, k, pre, w);
        if i > 0 {
            assert forall|a: int| 0 <= a < pre.len() implies in_window(
                #[trigger] pre[a],
                times[i],
                w,
            ) by {
                assert(pre[a] == times[a]);
                assert(times.first() <= times[a]);
                assert(times[i] <= t_next);
            }
            lemma_prune_all_live(pre, times[i], w);
        }
    }
    lemma_exact_run_contents(m, k, times, w);
    assert forall|a: int| 0 <= a < times.len() implies in_window(
        #[trigger] times[a],
        t_next,
        w,
    ) by {
        assert(times.first() <= times[a]);
    }
    lemma_prune_all_live(times, t_next, w);
}

/// The same quota law under the approximate engine's transition relation:
/// within a single window (so that no wholesale reset happens between the
/// cycles), `max_requests` cycles all pass and one further check in the
/// same span is rejected.
pub proof fn lemma_approx_quota(
    m: Map<Seq<char>, (u32, u64)>,
    k: Seq<char>,
    times: Seq<u64>,
    t_next: u64,
    c: RateLimitConfig,
)
    requires
        c.wf(),
        !m.contains_key(k),
        nondecreasing(times),
        times.len() == c.max_requests,
        forall|i: int| 0 <= i < times.len() ==> #[trigger] times[i] <= t_next,
        t_next - times.first() < c.window_seconds,
    ensures
        forall|i: int|
            0 <= i < times.len() ==> approx_check_admits(
                #[trigger] approx_run(m, k, times.take(i), c.window_seconds),
                k,
                times[i],
                c,
            ),
        !approx_check_admits(approx_run(m, k, times, c.window_seconds), k, t_next, c),
{
    let w = c.window_seconds;
    assert forall|i: int, j: int| 0 <= i <= j < times.len() implies times[j] - times[i] < w by {
        assert(times.first() <= times[i]);
        assert(times[j] <= t_next);
    }
    assert forall|i: int|
        0 <= i < times.len() implies approx_check_admits(
        #[trigger] approx_run(m, k, times.take(i), w),
        k,
        times[i],
        c,
    ) by {
        let pre = times.take(i);
        assert forall|a: int, b: int| 0 <= a <= b < pre.len() implies pre[a] <= pre[b] by {
            assert(pre[a] == times[a]);
            assert(pre[b] == times[b]);
        }
        assert forall|a: int, b: int| 0 <= a <= b < pre.len() implies pre[b] - pre[a] < w by {
            assert(pre[a] == times[a]);
            assert(pre[b] == times[b]);
        }
        lemma_approx_run_contents(m, k, pre, w);
        if i > 0 {
            assert(pre.last() == times[i - 1]);
            assert(times[i] - times[i - 1] < w);
            assert(!window_expired((pre.len() as u32, pre.last()), times[i], w));
        }
    }
    lemma_approx_run_contents(m, k, times, w);
    assert(times.last() <= t_next);
    assert(t_next - times.last() < w);
    assert(!window_expired((times.len() as u32, times.last()), t_next, w));
}

// ------------------------------------------------------------------
// Full window reset: after a whole window with no requests for a key, a
// check admits again regardless of the prior count.
// ------------------------------------------------------------------
/// Exact engine: once every recorded timestamp of `k` is strictly more
/// than one window old, a check for `k` admits and counts zero. (At
/// exactly one window of age a timestamp still counts, since the window
/// edge is inclusive.)
pub proof fn lemma_exact_window_reset(
    m: Map<Seq<char>, Seq<u64>>,
    k: Seq<char>,
    now: u64,
    c: RateLimitConfig,
)
    requires
        c.wf(),
        m.contains_key(k) ==> forall|i: int|
            0 <= i < m[k].len() ==> now - #[trigger] m[k][i] > c.window_seconds,
    ensures
        exact_count(m, k, now, c.window_seconds) == 0,
        exact_check_admits(m, k, now, c),
{
    if m.contains_key(k) {
        lemma_prune_none_live(m[k], now, c.window_seconds);
    }
}

/// Approximate engine: once the key's window anchor is at least one
/// window in the past, a check resets the entry and admits regardless of
/// the stored count.
pub proof fn lemma_approx_window_reset(
    m: Map<Seq<char>, (u32, u64)>,
    k: Seq<char>,
    now: u64,
    c: RateLimitConfig,
)
    requires
        c.wf(),
        m.contains_key(k) ==> now >= m[k].1 + c.window_seconds,
    ensures
        approx_count(m, k, now, c.window_seconds) == 0,
        approx_check_admits(m, k, now, c),
        m.contains_key(k) ==> approx_check_state(m, k, now, c.window_seconds) == m.insert(
            k,
            (0u32, now),
        ),
{
}

// ------------------------------------------------------------------
// Isolation: operations on one key never influence another key's counts.
// ------------------------------------------------------------------
/// Exact engine: a check or a record for `k1` changes neither the stored
/// timestamps of a distinct `k2` nor the outcome of any check for `k2`.
pub proof fn lemma_exact_isolation(
    m: Map<Seq<char>, Seq<u64>>,
    k1: Seq<char>,
    k2: Seq<char>,
    t1: u64,
    t2: u64,
    c: RateLimitConfig,
)
    requires
        k1 != k2,
    ensures
        exact_count(exact_check_state(m, k1, t1, c.window_seconds), k2, t2, c.window_seconds)
            == exact_count(m, k2, t2, c.window_seconds),
        exact_count(exact_record_state(m, k1, t1), k2, t2, c.window_seconds) == exact_count(
            m,
            k2,
            t2,
            c.window_seconds,
        ),
        exact_check_admits(exact_check_state(m, k1, t1, c.window_seconds), k2, t2, c)
            == exact_check_admits(m, k2, t2, c),
        exact_check_admits(exact_record_state(m, k1, t1), k2, t2, c) == exact_check_admits(
            m,
            k2,
            t2,
            c,
        ),
{
}

/// Approximate engine: a check or a record for `k1` changes neither the
/// stored entry of a distinct `k2` nor the outcome of any check for `k2`.
pub proof fn lemma_approx_isolation(
    m: Map<Seq<char>, (u32, u64)>,
    k1: Seq<char>,
    k2: Seq<char>,
    t1: u64,
    t2: u64,
    c: RateLimitConfig,
)
    requires
        k1 != k2,
    ensures
        approx_count(approx_check_state(m, k1, t1, c.window_seconds), k2, t2, c.window_seconds)
            == approx_count(m, k2, t2, c.window_seconds),
        approx_count(approx_record_state(m, k1, t1), k2, t2, c.window_seconds) == approx_count(
            m,
            k2,
            t2,
            c.window_seconds,
        ),
        approx_check_admits(approx_check_state(m, k1, t1, c.window_seconds), k2, t2, c)
            == approx_check_admits(m, k2, t2, c),
        approx_check_admits(approx_record_state(m, k1, t1), k2, t2, c) == approx_check_admits(
            m,
            k2,
            t2,
            c,
        ),
{
}

// ------------------------------------------------------------------
// Checks consume no quota.
// ------------------------------------------------------------------
/// Exact engine: a check is a pure read up to pruning. The pruning a
/// check at time `now` performs never changes the state transition or the
/// outcome of any later check for the key: checks can be repeated freely
/// without an intervening record.
pub proof fn lemma_exact_check_idempotent(
    m: Map<Seq<char>, Seq<u64>>,
    k: Seq<char>,
    now: u64,
    later: u64,
    c: RateLimitConfig,
)
    requires
        now <= later,
    ensures
        exact_check_state(
            exact_check_state(m, k, now, c.window_seconds),
            k,
            later,
            c.window_seconds,
        ) == exact_check_state(m, k, later, c.window_seconds),
        exact_check_admits(exact_check_state(m, k, now, c.window_seconds), k, later, c)
            == exact_check_admits(m, k, later, c),
{
    if m.contains_key(k) {
        lemma_prune_twice(m[k], now, later, c.window_seconds);
        assert(exact_check_state(
            exact_check_state(m, k, now, c.window_seconds),
            k,
            later,
            c.window_seconds,
        ) =~= exact_check_state(m, k, later, c.window_seconds));
    }
}

/// Approximate engine: repeating a check at the same time changes nothing
/// further and returns the same outcome. Unlike the exact engine, a later
/// check may cross a window boundary and reset the entry in place, so the
/// divergence across time is the engine's documented design, not a bug.
pub proof fn lemma_approx_check_idempotent(
    m: Map<Seq<char>, (u32, u64)>,
    k: Seq<char>,
    now: u64,
    c: RateLimitConfig,
)
    requires
        c.wf(),
    ensures
        approx_check_state(
            approx_check_state(m, k, now, c.window_seconds),
            k,
            now,
            c.window_seconds,
        ) == approx_check_state(m, k, now, c.window_seconds),
        approx_check_admits(approx_check_state(m, k, now, c.window_seconds), k, now, c)
            == approx_check_admits(m, k, now, c),
{
    let w = c.window_seconds;
    if m.contains_key(k) && window_expired(m[k], now, w) {
        let m1 = m.insert(k, (0u32, now));
        assert(!window_expired((0u32, now), now, w));
        assert(approx_check_state(m1, k, now, w) == m1);
    }
}

} // verus!
