//! Average Directional Index: when there is enough data.
use vstd::prelude::*;
use crate::streaming::warmup::{reports_among, stage_at, stage_reports};

verus! {

/// Whether an ADX over `period` can be computed from `len` closes with `highs_len`
/// highs and `lows_len` lows: it needs `2 * period + 1` candles (a reference candle,
/// `period` moves to seed the directional movement, and `period` DX values to seed
/// the average).
pub fn adx_enough_data(len: usize, highs_len: usize, lows_len: usize, period: usize) -> (r: bool)
    requires
        2 * period + 1 <= usize::MAX,
    ensures
        r == (len >= 2 * period + 1 && highs_len >= len && lows_len >= len && period > 0),
{
    !(len < 2 * period + 1 || highs_len < len || lows_len < len || period == 0)
}

/// The streaming ADX smooths the directional movement from its `period + 1`-th candle
/// on and averages `period` DX values, one per smoothed candle: when every smoothed
/// candle yields a DX, `len` candles give `reports_among(len, period, true)` DX values
/// and the ADX reports once there are `period` of them, from the `2 * period`-th
/// candle on. The check of the convenience function asks for one candle more, so it
/// only passes when the schedule reports.
pub proof fn lemma_adx_check_implies_schedule(len: nat, period: nat)
    requires
        period > 0,
        len >= 2 * period + 1,
    ensures
        reports_among(len, period, true) == len - period,
        stage_reports(stage_at((len - period) as nat, period, false)),
        reports_among((2 * period) as nat, period, true) == period,
{
}

} // verus!
