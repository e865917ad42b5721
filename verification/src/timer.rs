//! The repeating spawn countdown: it accumulates elapsed frame time and
//! reports "just finished" at most once per poll, however many whole
//! intervals a single long frame covers. This is what makes the spawner
//! timer-gated rather than frame-rate dependent.

use vstd::prelude::*;

verus! {

#[derive(Clone, Copy, Debug, PartialEq, Eq, Structural)]
pub struct SpawnTimer {
    /// Length of one period, in milliseconds; at least 1.
    pub interval_ms: u64,
    /// Time accumulated into the current period; always below `interval_ms`.
    pub elapsed_ms: u64,
}

impl SpawnTimer {
    pub open spec fn wf(self) -> bool {
        1 <= self.interval_ms && self.elapsed_ms < self.interval_ms
    }

    pub fn new(interval_ms: u64) -> (t: SpawnTimer)
        requires
            interval_ms >= 1,
        ensures
            t.interval_ms == interval_ms,
            t.elapsed_ms == 0,
            t.wf(),
    {
        SpawnTimer { interval_ms, elapsed_ms: 0 }
    }

    /// Advance by `dt` milliseconds; true exactly when the countdown
    /// completed a period during this poll.
    pub fn tick(&mut self, dt: u64) -> (finished: bool)
        requires
            old(self).wf(),
        ensures
            finished == timer_fires(old(self).interval_ms as int, old(self).elapsed_ms as int, dt as int),
            final(self).interval_ms == old(self).interval_ms,
            final(self).elapsed_ms as int == timer_next(old(self).interval_ms as int, old(self).elapsed_ms as int, dt as int),
            final(self).wf(),
    {
        let total: u128 = self.elapsed_ms as u128 + dt as u128;
        if total >= self.interval_ms as u128 {
            proof {
                vstd::arithmetic::div_mod::lemma_mod_bound(total as int, self.interval_ms as int);
            }
            self.elapsed_ms = (total % (self.interval_ms as u128)) as u64;
            true
        } else {
            self.elapsed_ms = total as u64;
            false
        }
    }
}

/// Whether a poll of `dt` completes the period.
pub open spec fn timer_fires(interval: int, elapsed: int, dt: int) -> bool {
    elapsed + dt >= interval
}

/// The accumulated time after a poll of `dt`: wraps into the next period on
/// completion, so overshoot is kept, never double-reported.
pub open spec fn timer_next(interval: int, elapsed: int, dt: int) -> int
    recommends
        interval >= 1,
{
    if timer_fires(interval, elapsed, dt) {
        (elapsed + dt) % interval
    } else {
        elapsed + dt
    }
}

/// How many polls of the sequence `dts`, run in order from accumulated time
/// `elapsed`, report a completed period.
pub open spec fn timer_fire_count(interval: int, elapsed: int, dts: Seq<int>) -> int
    decreases dts.len(),
{
    if dts.len() == 0 {
        0
    } else {
        (if timer_fires(interval, elapsed, dts[0]) {
            1int
        } else {
            0int
        }) + timer_fire_count(interval, timer_next(interval, elapsed, dts[0]), dts.drop_first())
    }
}

pub open spec fn all_nonneg(dts: Seq<int>) -> bool {
    forall|i: int| 0 <= i < dts.len() ==> dts[i] >= 0
}

pub open spec fn total_of(dts: Seq<int>) -> int
    decreases dts.len(),
{
    if dts.len() == 0 {
        0
    } else {
        dts[0] + total_of(dts.drop_first())
    }
}

pub proof fn lemma_total_nonneg(dts: Seq<int>)
    requires
        all_nonneg(dts),
    ensures
        total_of(dts) >= 0,
    decreases dts.len(),
{
    if dts.len() > 0 {
        assert(all_nonneg(dts.drop_first()));
        lemma_total_nonneg(dts.drop_first());
    }
}

/// A sequence of polls whose durations sum to zero never reports a
/// completed period.
pub proof fn lemma_zero_sum_no_fire(interval: int, elapsed: int, dts: Seq<int>)
    requires
        interval >= 1,
        0 <= elapsed < interval,
        all_nonneg(dts),
        total_of(dts) == 0,
    ensures
        timer_fire_count(interval, elapsed, dts) == 0,
    decreases dts.len(),
{
    if dts.len() > 0 {
        assert(all_nonneg(dts.drop_first()));
        lemma_total_nonneg(dts.drop_first());
        assert(dts[0] == 0);
        assert(!timer_fires(interval, elapsed, 0));
        lemma_zero_sum_no_fire(interval, elapsed, dts.drop_first());
    }
}

/// Spawn cadence: starting `elapsed` into a period of length `interval`, a
/// sequence of polls whose durations sum to exactly the remaining time
/// completes the period exactly once, however the total is split across the
/// polls.
pub proof fn lemma_spawn_cadence(interval: int, elapsed: int, dts: Seq<int>)
    requires
        interval >= 1,
        0 <= elapsed < interval,
        all_nonneg(dts),
        elapsed + total_of(dts) == interval,
    ensures
        timer_fire_count(interval, elapsed, dts) == 1,
    decreases dts.len(),
{
    assert(dts.len() > 0);
    let d0 = dts[0];
    let rest = dts.drop_first();
    assert(all_nonneg(rest));
    lemma_total_nonneg(rest);
    if timer_fires(interval, elapsed, d0) {
        assert(elapsed + d0 == interval && total_of(rest) == 0);
        assert((elapsed + d0) % interval == 0) by {
            vstd::arithmetic::div_mod::lemma_mod_self_0(interval);
        }
        lemma_zero_sum_no_fire(interval, 0, rest);
    } else {
        lemma_spawn_cadence(interval, elapsed + d0, rest);
    }
}

} // verus!
