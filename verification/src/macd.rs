//! MACD of the flat API: its crossover type and when there is enough data.
use vstd::prelude::*;
use crate::streaming::sign::Sign;

verus! {

/// MACD crossover direction.
#[derive(Debug, Clone, Copy, PartialEq, Eq, Structural)]
pub enum Crossover {
    Bullish,
    Bearish,
    NoCrossover,
}

/// The crossover shown by the histogram moving from `previous` to `current`:
/// bullish when it rises from at most zero to above zero, bearish when it falls from
/// at least zero to below zero.
pub open spec fn crossover_of(previous: Sign, current: Sign) -> Crossover {
    if previous.spec_non_positive() && current == Sign::Positive {
        Crossover::Bullish
    } else if previous.spec_non_negative() && current == Sign::Negative {
        Crossover::Bearish
    } else {
        Crossover::NoCrossover
    }
}

/// The text a crossover is shown as.
pub open spec fn crossover_text(c: Crossover) -> Seq<char> {
    match c {
        Crossover::Bullish => "bullish"@,
        Crossover::Bearish => "bearish"@,
        Crossover::NoCrossover => "none"@,
    }
}

impl Crossover {
    /// The text the crossover is shown as: "bullish", "bearish" or "none".
    pub fn as_str(self) -> (r: &'static str)
        ensures
            r@ == crossover_text(self),
    {
        match self {
            Crossover::Bullish => "bullish",
            Crossover::Bearish => "bearish",
            Crossover::NoCrossover => "none",
        }
    }

    /// The crossover between the previous and the current histogram.
    pub fn between(previous: Sign, current: Sign) -> (c: Crossover)
        ensures
            c == crossover_of(previous, current),
            (previous == Sign::Negative || previous == Sign::Zero) && current == Sign::Positive
                ==> c == Crossover::Bullish,
            (previous == Sign::Positive || previous == Sign::Zero) && current == Sign::Negative
                ==> c == Crossover::Bearish,
            c == Crossover::Bullish ==> current == Sign::Positive && (previous == Sign::Negative
                || previous == Sign::Zero),
            c == Crossover::Bearish ==> current == Sign::Negative && (previous == Sign::Positive
                || previous == Sign::Zero),
    {
        match (previous, current) {
            (Sign::Negative, Sign::Positive) => Crossover::Bullish,
            (Sign::Zero, Sign::Positive) => Crossover::Bullish,
            (Sign::Positive, Sign::Negative) => Crossover::Bearish,
            (Sign::Zero, Sign::Negative) => Crossover::Bearish,
            _ => Crossover::NoCrossover,
        }
    }
}

/// Whether the MACD of the flat API can be computed from `len` closes: there must be
/// `slow_period + signal_period` closes, the periods must be positive, and the fast
/// EMA's seed window (the first `fast_period` closes) must lie within the closes.
/// The fast period need not be shorter than the slow one.
pub fn macd_enough_data(len: usize, fast_period: usize, slow_period: usize, signal_period: usize) -> (r: bool)
    requires
        slow_period + signal_period <= usize::MAX,
    ensures
        r == (len >= slow_period + signal_period && slow_period > 0 && fast_period > 0
            && signal_period > 0 && fast_period <= len),
{
    !(len < slow_period + signal_period || slow_period == 0 || fast_period == 0
        || signal_period == 0 || fast_period > len)
}

/// The histogram crossing zero decides the crossover: rising from at most zero
/// (negative or zero) to above zero is bullish, falling from at least zero (positive
/// or zero) to below zero is bearish, and every other move (staying on one side,
/// ending at zero, or a value that is not a number) shows none.
pub proof fn lemma_crossover_from_signs(previous: Sign, current: Sign)
    ensures
        (previous == Sign::Negative || previous == Sign::Zero) && current == Sign::Positive
            <==> crossover_of(previous, current) == Crossover::Bullish,
        (previous == Sign::Positive || previous == Sign::Zero) && current == Sign::Negative
            <==> crossover_of(previous, current) == Crossover::Bearish,
        !(current == Sign::Positive && (previous == Sign::Negative || previous == Sign::Zero))
            && !(current == Sign::Negative && (previous == Sign::Positive || previous == Sign::Zero))
            <==> crossover_of(previous, current) == Crossover::NoCrossover,
{
}

} // verus!
