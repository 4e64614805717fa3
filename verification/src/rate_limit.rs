use vstd::prelude::*;
use crate::strutil::str_eq;
use crate::time::current_time_ms;

verus! {

/// The largest window, in seconds, that converts to milliseconds without
/// overflowing a u64; larger windows are clamped to the largest expressible
/// one.
pub const MAX_WINDOW_SECS: u64 = 18446744073709551;

/// A window in milliseconds, clamped at the largest expressible one.
pub open spec fn spec_window_ms(window_secs: u64) -> u64 {
    if window_secs > MAX_WINDOW_SECS {
        0xffff_ffff_ffff_ffff_u64
    } else {
        (window_secs * 1000) as u64
    }
}

/// A recorded timestamp still counts when it is no older than the window
/// reaching back from `now`.
pub open spec fn window_pred(now: u64, window_ms: u64) -> spec_fn(u64) -> bool {
    |t: u64| now - t <= window_ms
}

/// Drops the timestamps of `stamps` that fall outside the window.
fn filter_window(stamps: &Vec<u64>, now: u64, window_ms: u64) -> (r: Vec<u64>)
    ensures
        r@ == stamps@.filter(window_pred(now, window_ms)),
{
    let n = stamps.len();
    let mut r: Vec<u64> = Vec::new();
    let mut i: usize = 0;
    while i < n
        invariant
            n == stamps@.len(),
            i <= n,
            r@ == stamps@.take(i as int).filter(window_pred(now, window_ms)),
        decreases n - i,
    {
        let t = stamps[i];
        let keep = if t >= now {
            true
        } else {
            now - t <= window_ms
        };
        assert(keep == window_pred(now, window_ms)(t));
        if keep {
            r.push(t);
        }
        proof {
            reveal(Seq::filter);
            assert(stamps@.take(i + 1).drop_last() =~= stamps@.take(i as int));
            assert(stamps@.take(i + 1).last() == stamps@[i as int]);
        }
        i += 1;
    }
    proof {
        assert(stamps@.take(n as int) =~= stamps@);
    }
    r
}

/// Tracks the timestamps (milliseconds since the Unix epoch) of recently
/// admitted requests, per project key.
pub struct RateLimiter {
    requests: Vec<(String, Vec<u64>)>,
}

impl View for RateLimiter {
    type V = Seq<(Seq<char>, Seq<u64>)>;

    closed spec fn view(&self) -> Seq<(Seq<char>, Seq<u64>)> {
        self.requests.deep_view()
    }
}

/// Whether some entry carries `key`.
pub open spec fn spec_has_key(entries: Seq<(Seq<char>, Seq<u64>)>, key: Seq<char>) -> bool {
    exists|i: int| 0 <= i < entries.len() && (#[trigger] entries[i]).0 == key
}

/// The timestamps recorded for `key`; an absent key records none.
pub open spec fn spec_stamps_of(entries: Seq<(Seq<char>, Seq<u64>)>, key: Seq<char>) -> Seq<u64> {
    if spec_has_key(entries, key) {
        entries[choose|i: int| 0 <= i < entries.len() && (#[trigger] entries[i]).0 == key].1
    } else {
        Seq::empty()
    }
}

/// What one admission check at `now` does: `post` is `pre` with the entry
/// for `key` updated in place (or appended when the key is new) to
/// `spec_step` of its recorded timestamps, and the check throttles exactly
/// when the timestamps still in the window already reach the cap.
pub open spec fn spec_check_result(
    pre: Seq<(Seq<char>, Seq<u64>)>,
    post: Seq<(Seq<char>, Seq<u64>)>,
    key: Seq<char>,
    max: usize,
    window_secs: u64,
    now: u64,
    throttled: bool,
) -> bool {
    let w = spec_window_ms(window_secs);
    let kept = spec_stamps_of(pre, key).filter(window_pred(now, w));
    let stamps = spec_step(spec_stamps_of(pre, key), now, max, w);
    &&& throttled == (kept.len() >= max)
    &&& if spec_has_key(pre, key) {
        exists|i: int|
            0 <= i < pre.len() && (#[trigger] pre[i]).0 == key && post == pre.update(
                i,
                (key, stamps),
            )
    } else {
        post == pre.push((key, stamps))
    }
}

/// The timestamps `key` records after one admission check at `now`: the
/// stale ones are dropped, and `now` is appended when the remainder is below
/// the cap.
pub open spec fn spec_step(
    stamps: Seq<u64>,
    now: u64,
    max: usize,
    window_ms: u64,
) -> Seq<u64> {
    let kept = stamps.filter(window_pred(now, window_ms));
    if kept.len() < max {
        kept.push(now)
    } else {
        kept
    }
}

impl RateLimiter {
    /// No two entries carry the same key.
    pub open spec fn inv(&self) -> bool {
        forall|i: int, j: int|
            0 <= i < j < self@.len() ==> (#[trigger] self@[i]).0 != (#[trigger] self@[j]).0
    }

    /// An empty limiter: no key has recorded requests.
    pub fn new() -> (r: Self)
        ensures
            r.inv(),
            r@.len() == 0,
    {
        RateLimiter { requests: Vec::new() }
    }

    /// One admission check at time `now` (milliseconds): drops the recorded
    /// timestamps of `key` older than the window, admits and records the
    /// request when fewer than `max` remain, and reports `true` when the
    /// request is throttled instead.
    pub fn check_at(&mut self, key: &str, max: usize, window_secs: u64, now: u64) -> (throttled:
        bool)
        requires
            old(self).inv(),
        ensures
            final(self).inv(),
            spec_check_result(old(self)@, final(self)@, key@, max, window_secs, now, throttled),
    {
        let window_ms = if window_secs > MAX_WINDOW_SECS {
            0xffff_ffff_ffff_ffff_u64
        } else {
            window_secs * 1000
        };
        assert(window_ms == spec_window_ms(window_secs));
        let n = self.requests.len();
        let mut i: usize = 0;
        while i < n
            invariant
                *self == *old(self),
                old(self).inv(),
                n == self.requests@.len(),
                i <= n,
                forall|j: int| 0 <= j < i ==> (#[trigger] self@[j]).0 != key@,
                window_ms == spec_window_ms(window_secs),
            decreases n - i,
        {
            proof {
                assert(self@[i as int] == self.requests@[i as int].deep_view());
            }
            if str_eq(self.requests[i].0.as_str(), key) {
                assert(self@[i as int].0 == key@);
                assert(spec_has_key(self@, key@));
                let ghost old_entries = self@;
                proof {
                    // With unique keys, the recorded stamps for `key` are
                    // exactly those of entry `i`.
                    let k = choose|k: int|
                        0 <= k < old_entries.len() && (#[trigger] old_entries[k]).0 == key@;
                    assert(old_entries[k].0 == key@);
                    assert(old_entries == old(self)@);
                    if k < i as int {
                        assert((old(self)@[k]).0 != (old(self)@[i as int]).0);
                        assert(false);
                    } else if k > i as int {
                        assert((old(self)@[i as int]).0 != (old(self)@[k]).0);
                        assert(false);
                    }
                    assert(k == i as int);
                    assert(spec_stamps_of(old_entries, key@) == old_entries[i as int].1);
                    assert(old_entries[i as int].1 == self.requests@[i as int].1@);
                }
                let kept = filter_window(&self.requests[i].1, now, window_ms);
                let throttled = kept.len() >= max;
                let mut stamps = kept;
                if !throttled {
                    stamps.push(now);
                }
                let ghost stamps_spec = spec_step(
                    spec_stamps_of(old_entries, key@),
                    now,
                    max,
                    spec_window_ms(window_secs),
                );
                assert(stamps@ == stamps_spec);
                let pair = self.requests.remove(i);
                assert(pair.0@ == key@);
                self.requests.insert(i, (pair.0, stamps));
                proof {
                    assert forall|j: int| 0 <= j < old_entries.len() implies #[trigger] self@[j]
                        == old_entries.update(i as int, (key@, stamps_spec))[j] by {
                        assert(self@[j] == self.requests@[j].deep_view());
                        if j != i {
                            assert(self.requests@[j] == old(self).requests@[j]);
                            assert(old_entries[j] == old(self).requests@[j].deep_view());
                        }
                    }
                    assert(self@ =~= old_entries.update(i as int, (key@, stamps_spec)));
                    assert forall|a: int, b: int| 0 <= a < b < self@.len() implies (
                    #[trigger] self@[a]).0 != (#[trigger] self@[b]).0 by {
                        assert((old(self)@[a]).0 != (old(self)@[b]).0);
                        assert(self@[a].0 == old_entries[a].0);
                        assert(self@[b].0 == old_entries[b].0);
                    }
                }
                return throttled;
            }
            i += 1;
        }
        // No entry for this key yet: nothing is recorded for it.
        assert(!spec_has_key(self@, key@));
        let ghost old_entries = self@;
        let mut stamps: Vec<u64> = Vec::new();
        let throttled = max == 0;
        if !throttled {
            stamps.push(now);
        }
        let ghost stamps_spec = spec_step(
            spec_stamps_of(old_entries, key@),
            now,
            max,
            spec_window_ms(window_secs),
        );
        proof {
            reveal(Seq::filter);
            assert(spec_stamps_of(old_entries, key@) == Seq::<u64>::empty());
            assert(Seq::<u64>::empty().filter(window_pred(now, spec_window_ms(window_secs)))
                =~= Seq::<u64>::empty());
            assert(stamps@ =~= stamps_spec);
        }
        self.requests.push((key.to_owned(), stamps));
        proof {
            assert forall|j: int| 0 <= j < self@.len() implies #[trigger] self@[j]
                == old_entries.push((key@, stamps_spec))[j] by {
                assert(self@[j] == self.requests@[j].deep_view());
                if j < old_entries.len() {
                    assert(self.requests@[j] == old(self).requests@[j]);
                    assert(old_entries[j] == old(self).requests@[j].deep_view());
                }
            }
            assert(self@ =~= old_entries.push((key@, stamps_spec)));
            assert forall|a: int, b: int| 0 <= a < b < self@.len() implies (#[trigger] self@[a]).0
                != (#[trigger] self@[b]).0 by {
                if b < old_entries.len() {
                    assert((old(self)@[a]).0 != (old(self)@[b]).0);
                    assert(self@[a].0 == old_entries[a].0);
                    assert(self@[b].0 == old_entries[b].0);
                } else {
                    assert(self@[a].0 == old_entries[a].0);
                    assert(self@[b].0 == key@);
                }
            }
        }
        throttled
    }
}


impl RateLimiter {
    /// Checks if the given key has exceeded the rate limit within the
    /// specified time window, at the moment the clock reports now. Returns
    /// `true` if the rate limit is exceeded, `false` otherwise; `check_at`
    /// pins the outcome down for each moment.
    pub fn check_rate_limit(&mut self, key: &str, max: usize, window_secs: u64) -> (throttled:
        bool)
        requires
            old(self).inv(),
        ensures
            final(self).inv(),
            exists|now: u64|
                spec_check_result(
                    old(self)@,
                    final(self)@,
                    key@,
                    max,
                    window_secs,
                    now,
                    throttled,
                ),
    {
        let now_ms = current_time_ms();
        let now = now_ms as u64;
        let throttled = self.check_at(key, max, window_secs, now);
        proof {
            assert(spec_check_result(old(self)@, self@, key@, max, window_secs, now, throttled));
        }
        throttled
    }
}

/// The timestamps one key records after admission checks at each time of
/// `ts`, in order, starting from `stamps`.
pub open spec fn spec_run_checks(
    stamps: Seq<u64>,
    ts: Seq<u64>,
    max: usize,
    window_ms: u64,
) -> Seq<u64>
    decreases ts.len(),
{
    if ts.len() == 0 {
        stamps
    } else {
        spec_run_checks(spec_step(stamps, ts[0], max, window_ms), ts.drop_first(), max, window_ms)
    }
}

/// A filter that keeps every element changes nothing.
proof fn lemma_filter_id(s: Seq<u64>, pred: spec_fn(u64) -> bool)
    requires
        forall|i: int| 0 <= i < s.len() ==> pred(#[trigger] s[i]),
    ensures
        s.filter(pred) == s,
    decreases s.len(),
{
    reveal(Seq::filter);
    if s.len() > 0 {
        lemma_filter_id(s.drop_last(), pred);
        assert(s.drop_last().push(s.last()) =~= s);
    }
}

proof fn lemma_run_checks_admits_prefix(acc: Seq<u64>, ts: Seq<u64>, max: usize, window_ms: u64)
    requires
        acc.len() <= max,
        forall|i: int, j: int| 0 <= i <= j < ts.len() ==> ts[i] <= ts[j] && ts[j] - ts[i] <= window_ms,
        forall|a: int, i: int|
            0 <= a < acc.len() && 0 <= i < ts.len() ==> #[trigger] acc[a] <= #[trigger] ts[i]
                && ts[i] - acc[a] <= window_ms,
    ensures
        spec_run_checks(acc, ts, max, window_ms) == acc + ts.take(
            if ts.len() <= max - acc.len() {
                ts.len() as int
            } else {
                max - acc.len()
            },
        ),
    decreases ts.len(),
{
    if ts.len() == 0 {
        assert(acc + ts.take(0) =~= acc);
    } else {
        let now = ts[0];
        lemma_filter_id(acc, window_pred(now, window_ms));
        let kept = acc.filter(window_pred(now, window_ms));
        assert(kept == acc);
        if acc.len() < max {
            let acc1 = acc.push(now);
            assert(spec_step(acc, now, max, window_ms) == acc1);
            lemma_run_checks_admits_prefix(acc1, ts.drop_first(), max, window_ms);
            let k1 = if ts.drop_first().len() <= max - acc1.len() {
                ts.drop_first().len() as int
            } else {
                max - acc1.len()
            };
            let k = if ts.len() <= max - acc.len() {
                ts.len() as int
            } else {
                max - acc.len()
            };
            assert(k1 == k - 1);
            assert(acc1 + ts.drop_first().take(k1) =~= acc + ts.take(k));
        } else {
            assert(spec_step(acc, now, max, window_ms) == acc);
            lemma_run_checks_admits_prefix(acc, ts.drop_first(), max, window_ms);
            assert(acc + ts.drop_first().take(0) =~= acc + ts.take(0));
        }
    }
}

/// Law: rate-limiter monotonicity. Starting from no recorded requests for a
/// key, after admission checks at each of the nondecreasing times `ts`, all
/// within one window reaching back from `now`, a further check at `now`
/// is throttled exactly when at least `max` checks came before.
pub proof fn lemma_rate_limit_monotone(ts: Seq<u64>, now: u64, max: usize, window_secs: u64)
    requires
        forall|i: int, j: int| 0 <= i <= j < ts.len() ==> ts[i] <= ts[j],
        forall|i: int| 0 <= i < ts.len() ==> ts[i] <= now,
        ts.len() > 0 ==> now - ts[0] <= spec_window_ms(window_secs),
    ensures
        ({
            let w = spec_window_ms(window_secs);
            let stamps = spec_run_checks(Seq::empty(), ts, max, w);
            (stamps.filter(window_pred(now, w)).len() >= max) == (ts.len() >= max)
        }),
{
    let w = spec_window_ms(window_secs);
    assert forall|i: int, j: int| 0 <= i <= j < ts.len() implies ts[i] <= ts[j] && ts[j] - ts[i]
        <= w by {
        assert(ts[j] <= now);
        assert(ts[0] <= ts[i]);
    }
    lemma_run_checks_admits_prefix(Seq::empty(), ts, max, w);
    let k = if ts.len() <= max { ts.len() as int } else { max as int };
    let stamps = spec_run_checks(Seq::empty(), ts, max, w);
    assert(stamps =~= ts.take(k));
    assert forall|i: int| 0 <= i < stamps.len() implies window_pred(now, w)(#[trigger] stamps[i]) by {
        assert(stamps[i] == ts[i]);
        assert(ts[0] <= ts[i] <= now);
    }
    lemma_filter_id(stamps, window_pred(now, w));
}

} // verus!
