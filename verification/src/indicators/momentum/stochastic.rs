//! Stochastic oscillator: when there is enough data.
use vstd::prelude::*;

verus! {

/// Whether a stochastic oscillator can be computed from `len` closes with
/// `highs_len` highs and `lows_len` lows: `%K` needs `k_period` candles and `%D`
/// averages `d_period` values of `%K`, so it needs `k_period + d_period - 1` candles;
/// a zero period is never enough.
pub fn stochastic_enough_data(
    len: usize,
    highs_len: usize,
    lows_len: usize,
    k_period: usize,
    d_period: usize,
) -> (r: bool)
    requires
        k_period + d_period <= usize::MAX,
    ensures
        r == (k_period > 0 && d_period > 0 && len >= k_period + d_period - 1 && highs_len >= len
            && lows_len >= len),
{
    if k_period == 0 || d_period == 0 {
        false
    } else {
        !(len < k_period + d_period - 1 || highs_len < len || lows_len < len)
    }
}

/// With enough data there are `len - k_period + 1 >= d_period` values of `%K`, so the
/// window of the last `d_period` of them is full.
pub proof fn lemma_stochastic_window_full(len: nat, k_period: nat, d_period: nat)
    requires
        len >= k_period + d_period - 1,
        k_period > 0,
        d_period > 0,
    ensures
        len - k_period + 1 >= d_period,
{
}

} // verus!
