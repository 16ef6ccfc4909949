//! Simple moving average: when there is enough data.
use vstd::prelude::*;
use crate::streaming::warmup::{stage_at, stage_reports};
use crate::streaming::window::last_n;

verus! {

/// Whether `len` values hold a full window of `period` values: the moving averages
/// and Bollinger Bands of the last `period` values need a positive period and at
/// least that many values.
pub fn has_full_window(len: usize, period: usize) -> (r: bool)
    ensures
        r == (period > 0 && len >= period),
{
    !(len < period || period == 0)
}

/// The streaming SMA reports when its window is full: after `n >= 1` closes the
/// window of the last `period` closes is full exactly when `n >= period`, the same
/// point from which a schedule over `period` values reports.
pub proof fn lemma_sma_window_full_matches_schedule<T>(closes: Seq<T>, period: nat)
    requires
        closes.len() >= 1,
        period > 0,
    ensures
        last_n(closes, period).len() == period <==> closes.len() >= period,
        closes.len() >= period <==> stage_reports(stage_at(closes.len(), period, false)),
{
}

} // verus!
