//! Drift-correcting interval scheduler.
//!
//! The scheduler drives the repeating collection loop: it records a round's
//! start, lets the round run, and then sleeps for whatever is left of the
//! configured period, clamped at zero.  Polling latency therefore never
//! accumulates drift across ticks: a round that finishes early waits out the
//! rest of the period, and a round that overruns proceeds immediately.

use vstd::prelude::*;

verus! {

/// Period used when none was configured, or the configured one was unusable.
pub const DEFAULT_PERIOD: u64 = 1;

/// The period actually used for a requested configuration value: a missing or
/// zero period falls back to [`DEFAULT_PERIOD`], anything else is taken as is.
pub open spec fn period_spec(requested: Option<u64>) -> u64 {
    match requested {
        Option::Some(p) => if p == 0 { DEFAULT_PERIOD } else { p },
        Option::None => DEFAULT_PERIOD,
    }
}

/// Time to sleep after a round that took `elapsed`: the remainder of the
/// period, floored at zero.
pub open spec fn sleep_spec(period: u64, elapsed: u64) -> u64 {
    if elapsed >= period { 0 } else { (period - elapsed) as u64 }
}

/// Resolve the configured period, falling back to [`DEFAULT_PERIOD`] when the
/// configuration was absent or zero.  Never fails: a bad period degrades, it
/// does not abort startup.
pub fn period_or_default(requested: Option<u64>) -> (p: u64)
    ensures
        p == period_spec(requested),
        p >= 1,
{
    match requested {
        Option::Some(p) => {
            if p == 0 {
                DEFAULT_PERIOD
            } else {
                p
            }
        },
        Option::None => DEFAULT_PERIOD,
    }
}

/// How long to sleep once a round that started `elapsed` time units ago has
/// finished: `period - elapsed`, clamped at zero so an overrunning round is
/// followed immediately by the next one.
pub fn sleep_duration(period: u64, elapsed: u64) -> (s: u64)
    ensures
        s == sleep_spec(period, elapsed),
{
    if elapsed >= period {
        0
    } else {
        period - elapsed
    }
}

/// The scheduler state that is fixed for the life of the loop: the configured
/// period between round starts.
pub struct IntervalScheduler {
    pub period: u64,
}

impl IntervalScheduler {
    /// A scheduler is well formed when its period is positive.
    pub open spec fn wf(self) -> bool {
        self.period >= 1
    }

    /// Build a scheduler from the configured period, applying the fallback
    /// policy of [`period_or_default`].
    pub fn new(requested: Option<u64>) -> (s: Self)
        ensures
            s.wf(),
            s.period == period_spec(requested),
    {
        IntervalScheduler { period: period_or_default(requested) }
    }

    /// Sleep time after a round of length `elapsed`.
    pub fn sleep_after(&self, elapsed: u64) -> (s: u64)
        ensures
            s == sleep_spec(self.period, elapsed),
    {
        sleep_duration(self.period, elapsed)
    }

    /// Per-device poll deadline in milliseconds: half the period, so that even
    /// a round in which every device times out completes with margin before
    /// the next tick is due.
    pub fn poll_deadline_ms(&self) -> (d: u64)
        requires
            self.period <= u64::MAX / 1000,
        ensures
            d == (self.period * 1000) / 2,
            2 * d <= self.period * 1000,
    {
        self.period * 1000 / 2
    }

    /// Start of the next round, given that the current one started at `start`
    /// and ran for `elapsed`: the round's end plus the clamped sleep.
    pub fn next_round_start(&self, start: u64, elapsed: u64) -> (t: u64)
        requires
            start + self.period <= u64::MAX,
            start + elapsed <= u64::MAX,
        ensures
            t == start + elapsed + sleep_spec(self.period, elapsed),
            elapsed < self.period ==> t == start + self.period,
            elapsed >= self.period ==> t == start + elapsed,
    {
        start + elapsed + self.sleep_after(elapsed)
    }
}

/// For a fixed period, the gap between successive round starts is exactly the
/// period whenever the round completed in under the period, and exactly the
/// round's own elapsed time — with a sleep of zero — whenever it overran.
pub proof fn lemma_round_cadence(period: u64, elapsed: u64)
    ensures
        elapsed < period ==> elapsed + sleep_spec(period, elapsed) == period,
        elapsed >= period ==> sleep_spec(period, elapsed) == 0,
{
}

} // verus!
