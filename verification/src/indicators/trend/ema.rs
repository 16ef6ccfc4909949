//! Exponential moving average: when there is enough data.
use vstd::prelude::*;
use crate::streaming::warmup::{stage_at, stage_reports};
use crate::indicators::trend::sma::has_full_window;
use crate::streaming::warmup::reports_among;

verus! {

/// Whether an EMA over `period` can be computed from `len` values: it is seeded with
/// the SMA of the first `period` values, so it needs a full window.
pub fn ema_enough_data(len: usize, period: usize) -> (r: bool)
    ensures
        r == (period > 0 && len >= period),
{
    has_full_window(len, period)
}

/// The streaming EMA reports on `len - period + 1` of `len` updates: the full EMA
/// series of `len` values is that long, so it is never empty when there is enough
/// data.
pub proof fn lemma_ema_series_len(len: nat, period: nat)
    requires
        period > 0,
        len >= period,
    ensures
        reports_among(len, period, false) == len - period + 1,
        reports_among(len, period, false) >= 1,
{
}

/// The check of the convenience function agrees with the warm-up schedule of the
/// streaming EMA, which reports from its `period`-th value on.
pub proof fn lemma_ema_check_matches_schedule(len: nat, period: nat)
    requires
        len >= 1,
        period > 0,
    ensures
        len >= period <==> stage_reports(stage_at(len, period, false)),
{
}

} // verus!
