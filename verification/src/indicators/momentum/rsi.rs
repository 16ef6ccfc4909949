//! Relative Strength Index: when there is enough data.
use vstd::prelude::*;
use crate::streaming::warmup::{first_report, stage_at, stage_reports};

verus! {

/// Whether an RSI over `period` can be computed from `len` closes: it needs
/// `period + 1` closes (`period` changes).
pub fn rsi_enough_data(len: usize, period: usize) -> (r: bool)
    requires
        period + 1 <= usize::MAX,
    ensures
        r == (len >= period + 1 && period > 0),
{
    !(len < period + 1 || period == 0)
}

/// The check of the convenience function agrees with the warm-up schedule of the
/// streaming RSI, which reports from its `period + 1`-th close on: with a positive
/// period, there is enough data exactly when the last of `len` updates reports.
pub proof fn lemma_rsi_check_matches_schedule(len: nat, period: nat)
    requires
        len >= 1,
        period > 0,
    ensures
        len >= period + 1 <==> stage_reports(stage_at(len, period, true)),
        first_report(period, true) == period + 1,
{
}

} // verus!
