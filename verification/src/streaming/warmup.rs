//! The warm-up schedule shared by the streaming indicators.
//!
//! A streaming indicator sees one candle per update. Before it can report a value it
//! goes through a fixed schedule: some indicators first record a reference candle
//! (RSI, ADX and Supertrend need the previous close), then accumulate `period`
//! values, seed their average on the last of them, and smooth from then on.
use vstd::prelude::*;

verus! {

/// What an indicator does with the candle of one update.
#[derive(Debug, Clone, Copy, PartialEq, Eq, Structural)]
pub enum Stage {
    /// Only record the candle as the reference for the next one; report nothing.
    Prime,
    /// Add the candle's contribution to the running sums; report nothing.
    Accumulate,
    /// Add the last contribution and seed the average from the sums; report it.
    Seed,
    /// Update the smoothed value; report it.
    Smooth,
}

/// Whether an update at this stage reports a value.
pub open spec fn stage_reports(s: Stage) -> bool {
    s == Stage::Seed || s == Stage::Smooth
}

/// The stage of the `n`-th update (counted from 1) of a schedule over `period`
/// values; `primed` schedules spend their first update on the reference candle.
pub open spec fn stage_at(n: nat, period: nat, primed: bool) -> Stage {
    let k: int = if primed { n - 1 } else { n as int };
    if primed && n <= 1 {
        Stage::Prime
    } else if k < period {
        Stage::Accumulate
    } else if k == period {
        Stage::Seed
    } else {
        Stage::Smooth
    }
}

/// The first update (counted from 1) that reports a value.
pub open spec fn first_report(period: nat, primed: bool) -> nat {
    if primed {
        if period < 1 { 2 } else { period + 1 }
    } else {
        if period < 1 { 1 } else { period }
    }
}

/// How many of the first `n` updates report a value.
pub open spec fn reports_among(n: nat, period: nat, primed: bool) -> nat {
    if n < first_report(period, primed) {
        0
    } else {
        (n - first_report(period, primed) + 1) as nat
    }
}

/// The warm-up counter of one streaming indicator.
pub struct Warmup {
    period: usize,
    primed: bool,
    count: usize,
}

impl Warmup {
    /// The period this schedule accumulates over.
    pub closed spec fn spec_period(&self) -> nat {
        self.period as nat
    }

    /// Whether the first update only records a reference candle.
    pub closed spec fn spec_primed(&self) -> bool {
        self.primed
    }

    /// How many updates this schedule has seen since it was created or reset.
    pub closed spec fn spec_updates(&self) -> nat {
        self.count as nat
    }

    /// A schedule whose first candle already counts towards the period (EMA).
    pub fn new(period: usize) -> (w: Warmup)
        ensures
            w.spec_period() == period,
            !w.spec_primed(),
            w.spec_updates() == 0,
    {
        Warmup { period, primed: false, count: 0 }
    }

    /// A schedule whose first candle is only the reference for the next one
    /// (RSI, ADX, Supertrend).
    pub fn after_reference(period: usize) -> (w: Warmup)
        ensures
            w.spec_period() == period,
            w.spec_primed(),
            w.spec_updates() == 0,
    {
        Warmup { period, primed: true, count: 0 }
    }

    /// The period this schedule accumulates over.
    pub fn period(&self) -> (p: usize)
        ensures
            p == self.spec_period(),
    {
        self.period
    }

    /// How many updates this schedule has seen.
    pub fn updates(&self) -> (n: usize)
        ensures
            n == self.spec_updates(),
    {
        self.count
    }

    /// Whether the last update reported a value.
    pub fn is_ready(&self) -> (r: bool)
        ensures
            r == (self.spec_updates() >= 1 && stage_reports(
                stage_at(self.spec_updates(), self.spec_period(), self.spec_primed()),
            )),
    {
        if self.count == 0 {
            false
        } else {
            let s = stage_of(self.count, self.period, self.primed);
            match s {
                Stage::Seed => true,
                Stage::Smooth => true,
                _ => false,
            }
        }
    }

    /// Count one more update and say what to do with its candle.
    pub fn advance(&mut self) -> (s: Stage)
        requires
            old(self).spec_updates() < usize::MAX,
        ensures
            final(self).spec_period() == old(self).spec_period(),
            final(self).spec_primed() == old(self).spec_primed(),
            final(self).spec_updates() == old(self).spec_updates() + 1,
            s == stage_at(final(self).spec_updates(), final(self).spec_period(), final(self).spec_primed()),
    {
        self.count = self.count + 1;
        stage_of(self.count, self.period, self.primed)
    }

    /// Start the schedule over, as for a fresh indicator with the same period.
    pub fn reset(&mut self)
        ensures
            final(self).spec_period() == old(self).spec_period(),
            final(self).spec_primed() == old(self).spec_primed(),
            final(self).spec_updates() == 0,
    {
        self.count = 0;
    }
}

/// The stage of the `n`-th update of a schedule over `period` values.
pub fn stage_of(n: usize, period: usize, primed: bool) -> (s: Stage)
    ensures
        s == stage_at(n as nat, period as nat, primed),
{
    if primed && n <= 1 {
        Stage::Prime
    } else {
        let k: usize = if primed { n - 1 } else { n };
        if k < period {
            Stage::Accumulate
        } else if k == period {
            Stage::Seed
        } else {
            Stage::Smooth
        }
    }
}

/// Once a schedule reports a value it reports one on every later update, and it
/// reports from `first_report` on: the indicator returns nothing while it builds up
/// and a value once it is ready.
pub proof fn lemma_reports_from_first_report(n: nat, period: nat, primed: bool)
    requires
        n >= 1,
    ensures
        stage_reports(stage_at(n, period, primed)) <==> n >= first_report(period, primed),
{
}

/// Later updates of a ready schedule are ready too.
pub proof fn lemma_ready_stays_ready(n: nat, m: nat, period: nat, primed: bool)
    requires
        1 <= n <= m,
        stage_reports(stage_at(n, period, primed)),
    ensures
        stage_reports(stage_at(m, period, primed)),
{
}

/// The average is seeded on exactly one update when the period is positive: the
/// `period`-th value counted after the reference candle, if any.
pub proof fn lemma_single_seed(n: nat, period: nat, primed: bool)
    requires
        n >= 1,
    ensures
        stage_at(n, period, primed) == Stage::Seed <==> (period >= 1 && n == first_report(
            period,
            primed,
        )),
{
}

/// Of the first `n` updates, `reports_among(n, ...)` report a value: with at least
/// `first_report` updates the series of reported values is not empty.
pub proof fn lemma_reports_among_step(n: nat, period: nat, primed: bool)
    ensures
        reports_among(n + 1, period, primed) == reports_among(n, period, primed) + (if stage_reports(
            stage_at(n + 1, period, primed),
        ) {
            1nat
        } else {
            0nat
        }),
{
    lemma_reports_from_first_report(n + 1, period, primed);
}

} // verus!
