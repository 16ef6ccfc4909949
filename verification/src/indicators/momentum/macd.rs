//! MACD: crossover detection and when there is enough data.
use vstd::prelude::*;
use crate::streaming::sign::Sign;

verus! {

/// MACD crossover direction.
#[derive(Debug, Clone, Copy, PartialEq, Eq, Hash, Structural)]
pub enum Crossover {
    Bullish,
    Bearish,
    Neutral,
}

/// The text a crossover is shown as.
pub open spec fn crossover_label(c: Crossover) -> Seq<char> {
    match c {
        Crossover::Bullish => "bullish"@,
        Crossover::Bearish => "bearish"@,
        Crossover::Neutral => "none"@,
    }
}

/// The crossover shown by the histogram (MACD minus signal) moving from `previous`
/// to `current`: bullish when it rises from at most zero to above zero, bearish when
/// it falls from at least zero to below zero.
pub open spec fn crossover_between(previous: Sign, current: Sign) -> Crossover {
    if previous.spec_non_positive() && current == Sign::Positive {
        Crossover::Bullish
    } else if previous.spec_non_negative() && current == Sign::Negative {
        Crossover::Bearish
    } else {
        Crossover::Neutral
    }
}

impl Crossover {
    /// The text the crossover is shown as: "bullish", "bearish" or "none".
    pub fn as_str(self) -> (r: &'static str)
        ensures
            r@ == crossover_label(self),
    {
        match self {
            Crossover::Bullish => "bullish",
            Crossover::Bearish => "bearish",
            Crossover::Neutral => "none",
        }
    }

    /// The crossover between the previous and the current histogram.
    pub fn between(previous: Sign, current: Sign) -> (c: Crossover)
        ensures
            c == crossover_between(previous, current),
            (previous == Sign::Negative || previous == Sign::Zero) && current == Sign::Positive
                ==> c == Crossover::Bullish,
            (previous == Sign::Positive || previous == Sign::Zero) && current == Sign::Negative
                ==> c == Crossover::Bearish,
            c == Crossover::Bullish ==> current == Sign::Positive && (previous == Sign::Negative
                || previous == Sign::Zero),
            c == Crossover::Bearish ==> current == Sign::Negative && (previous == Sign::Positive
                || previous == Sign::Zero),
    {
        let prev_le_zero = match previous {
            Sign::Negative => true,
            Sign::Zero => true,
            _ => false,
        };
        let prev_ge_zero = match previous {
            Sign::Positive => true,
            Sign::Zero => true,
            _ => false,
        };
        let now_above = match current {
            Sign::Positive => true,
            _ => false,
        };
        let now_below = match current {
            Sign::Negative => true,
            _ => false,
        };
        if prev_le_zero && now_above {
            Crossover::Bullish
        } else if prev_ge_zero && now_below {
            Crossover::Bearish
        } else {
            Crossover::Neutral
        }
    }
}

/// A crossover needs the histogram to cross zero: a histogram that keeps its sign,
/// stays at zero or is not a number shows none, and a bullish (bearish) crossover
/// ends above (below) zero.
pub proof fn lemma_crossover_needs_sign_change(previous: Sign, current: Sign)
    ensures
        previous == current ==> crossover_between(previous, current) == Crossover::Neutral,
        previous == Sign::Unordered || current == Sign::Unordered || current == Sign::Zero
            ==> crossover_between(previous, current) == Crossover::Neutral,
        crossover_between(previous, current) == Crossover::Bullish ==> current == Sign::Positive
            && previous != Sign::Positive,
        crossover_between(previous, current) == Crossover::Bearish ==> current == Sign::Negative
            && previous != Sign::Negative,
{
}

/// Whether a MACD with the given periods can be computed from `len` closes: the
/// periods must be positive with the fast one shorter than the slow one, and there
/// must be `slow_period + signal_period` closes.
pub fn macd_enough_data(len: usize, fast_period: usize, slow_period: usize, signal_period: usize) -> (r: bool)
    requires
        slow_period + signal_period <= usize::MAX,
    ensures
        r == (len >= slow_period + signal_period && fast_period > 0 && slow_period > 0
            && signal_period > 0 && fast_period < slow_period),
{
    !(len < slow_period + signal_period || fast_period == 0 || slow_period == 0
        || signal_period == 0 || fast_period >= slow_period)
}

/// With enough data every step of the MACD has values to work on: the fast EMA
/// series is longer than the offset that aligns it with the slow one, and the MACD
/// line (one value per close from the slow period on) is long enough to seed the
/// signal line, so the signal series is not empty.
pub proof fn lemma_macd_lengths(len: nat, fast: nat, slow: nat, signal: nat)
    requires
        len >= slow + signal,
        fast > 0,
        slow > 0,
        signal > 0,
        fast < slow,
    ensures
        len - fast + 1 > slow - fast,
        len - slow + 1 >= signal,
        (len - slow + 1) - signal + 1 >= 2,
{
}

/// The histogram crossing zero decides the crossover: rising from at most zero
/// (negative or zero) to above zero is bullish, falling from at least zero (positive
/// or zero) to below zero is bearish, and every other move (staying on one side,
/// ending at zero, or a value that is not a number) shows none.
pub proof fn lemma_crossover_from_signs(previous: Sign, current: Sign)
    ensures
        (previous == Sign::Negative || previous == Sign::Zero) && current == Sign::Positive
            <==> crossover_between(previous, current) == Crossover::Bullish,
        (previous == Sign::Positive || previous == Sign::Zero) && current == Sign::Negative
            <==> crossover_between(previous, current) == Crossover::Bearish,
        !(current == Sign::Positive && (previous == Sign::Negative || previous == Sign::Zero))
            && !(current == Sign::Negative && (previous == Sign::Positive || previous == Sign::Zero))
            <==> crossover_between(previous, current) == Crossover::Neutral,
{
}

} // verus!
