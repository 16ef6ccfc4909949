//! Relative strength against a benchmark: when there is enough data.
use vstd::prelude::*;

verus! {

/// Whether the relative strength over `period` can be computed from `stock_len`
/// stock closes and `benchmark_len` benchmark closes: the period must be positive and
/// both series must cover it.
pub fn relative_strength_enough_data(stock_len: usize, benchmark_len: usize, period: usize) -> (r: bool)
    ensures
        r == (stock_len >= period && benchmark_len >= period && period > 0),
{
    !(stock_len < period || benchmark_len < period || period == 0)
}

} // verus!
