//! On-Balance Volume: which way a day's volume counts, and when there is enough data.
use vstd::prelude::*;
use crate::streaming::sign::Sign;

verus! {

/// Whether OBV can be computed from `len` closes and `volumes_len` volumes: it needs
/// two closes and a volume for each close.
pub fn obv_enough_data(len: usize, volumes_len: usize) -> (r: bool)
    ensures
        r == (len >= 2 && volumes_len >= len),
{
    !(len < 2 || volumes_len < len)
}

/// How a day's volume enters the running total, from the sign of the change in the
/// close: added on an up day (1), subtracted on a down day (-1), ignored otherwise (0).
pub fn obv_direction(change: Sign) -> (d: i8)
    ensures
        change == Sign::Positive ==> d == 1,
        change == Sign::Negative ==> d == -1,
        change != Sign::Positive && change != Sign::Negative ==> d == 0,
{
    match change {
        Sign::Positive => 1,
        Sign::Negative => -1,
        _ => 0,
    }
}

} // verus!
