//! Volume Weighted Average Price: when there is enough data.
use vstd::prelude::*;

verus! {

/// Whether VWAP can be computed from `len` closes with `highs_len` highs,
/// `lows_len` lows and `volumes_len` volumes: it needs at least one candle and a
/// high, a low and a volume for each close.
pub fn vwap_enough_data(len: usize, highs_len: usize, lows_len: usize, volumes_len: usize) -> (r: bool)
    ensures
        r == (len > 0 && highs_len >= len && lows_len >= len && volumes_len >= len),
{
    !(len == 0 || highs_len < len || lows_len < len || volumes_len < len)
}

} // verus!
