//! Supertrend: direction of the trend and when there is enough data.
use vstd::prelude::*;
use crate::streaming::warmup::{stage_at, stage_reports};

verus! {

/// Direction of the Supertrend.
#[derive(Debug, Clone, Copy, PartialEq, Eq, Structural)]
pub enum SupertrendDirection {
    Up,
    Down,
}

/// The text a direction is shown as.
pub open spec fn direction_label(d: SupertrendDirection) -> Seq<char> {
    match d {
        SupertrendDirection::Up => "up"@,
        SupertrendDirection::Down => "down"@,
    }
}

/// The direction after a candle: while the line follows the upper band the trend
/// stays down until the close breaks above the upper band; while it follows the
/// lower band the trend stays up until the close breaks below the lower band.
pub open spec fn next_direction(
    on_upper_band: bool,
    close_at_or_below_upper: bool,
    close_at_or_above_lower: bool,
) -> SupertrendDirection {
    if on_upper_band {
        if close_at_or_below_upper {
            SupertrendDirection::Down
        } else {
            SupertrendDirection::Up
        }
    } else if close_at_or_above_lower {
        SupertrendDirection::Up
    } else {
        SupertrendDirection::Down
    }
}

impl SupertrendDirection {
    /// The text the direction is shown as: "up" or "down".
    pub fn as_str(self) -> (r: &'static str)
        ensures
            r@ == direction_label(self),
    {
        match self {
            SupertrendDirection::Up => "up",
            SupertrendDirection::Down => "down",
        }
    }

    /// The direction after a candle, from where the previous line stood and where the
    /// close stands against the current bands. The Supertrend value is the upper band
    /// when the direction is `Down` and the lower band when it is `Up`.
    pub fn next(
        on_upper_band: bool,
        close_at_or_below_upper: bool,
        close_at_or_above_lower: bool,
    ) -> (d: SupertrendDirection)
        ensures
            d == next_direction(on_upper_band, close_at_or_below_upper, close_at_or_above_lower),
    {
        if on_upper_band {
            if close_at_or_below_upper {
                SupertrendDirection::Down
            } else {
                SupertrendDirection::Up
            }
        } else if close_at_or_above_lower {
            SupertrendDirection::Up
        } else {
            SupertrendDirection::Down
        }
    }
}

/// Whether a Supertrend over `atr_period` can be computed from `len` closes with
/// `highs_len` highs and `lows_len` lows: it needs `atr_period + 1` candles.
pub fn supertrend_enough_data(len: usize, highs_len: usize, lows_len: usize, atr_period: usize) -> (r: bool)
    requires
        atr_period + 1 <= usize::MAX,
    ensures
        r == (len >= atr_period + 1 && highs_len >= len && lows_len >= len && atr_period > 0),
{
    !(len < atr_period + 1 || highs_len < len || lows_len < len || atr_period == 0)
}

/// The check of the convenience function agrees with the warm-up schedule of the
/// streaming Supertrend, which seeds its ATR on the `atr_period + 1`-th candle.
pub proof fn lemma_supertrend_check_matches_schedule(len: nat, atr_period: nat)
    requires
        len >= 1,
        atr_period > 0,
    ensures
        len >= atr_period + 1 <==> stage_reports(stage_at(len, atr_period, true)),
{
}

} // verus!
