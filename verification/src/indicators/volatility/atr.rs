//! Average True Range: when there is enough data.
use vstd::prelude::*;

verus! {

/// Whether an ATR over `period` can be computed from `len` closes with `highs_len`
/// highs and `lows_len` lows: it needs `period + 1` candles (`period` true ranges).
pub fn atr_enough_data(len: usize, highs_len: usize, lows_len: usize, period: usize) -> (r: bool)
    requires
        period + 1 <= usize::MAX,
    ensures
        r == (len >= period + 1 && highs_len >= len && lows_len >= len && period > 0),
{
    !(len < period + 1 || highs_len < len || lows_len < len || period == 0)
}

} // verus!
