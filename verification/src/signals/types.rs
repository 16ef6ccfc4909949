//! Signal strengths and their scores.
use vstd::prelude::*;

verus! {

/// Signal strength classification.
#[derive(Debug, Clone, Copy, PartialEq, Eq, Structural)]
pub enum SignalStrength {
    StrongBuy,
    Buy,
    Neutral,
    Sell,
    StrongSell,
}

/// The numeric score of a strength: StrongBuy = 2, Buy = 1, Neutral = 0, Sell = -1,
/// StrongSell = -2.
pub open spec fn strength_score(s: SignalStrength) -> int {
    match s {
        SignalStrength::StrongBuy => 2,
        SignalStrength::Buy => 1,
        SignalStrength::Neutral => 0,
        SignalStrength::Sell => -1,
        SignalStrength::StrongSell => -2,
    }
}

/// The text a strength is shown as.
pub open spec fn strength_label(s: SignalStrength) -> Seq<char> {
    match s {
        SignalStrength::StrongBuy => "strong_buy"@,
        SignalStrength::Buy => "buy"@,
        SignalStrength::Neutral => "neutral"@,
        SignalStrength::Sell => "sell"@,
        SignalStrength::StrongSell => "strong_sell"@,
    }
}

impl SignalStrength {
    /// Numeric score: StrongBuy = 2, Buy = 1, Neutral = 0, Sell = -1, StrongSell = -2.
    pub fn score(self) -> (r: i8)
        ensures
            r == strength_score(self),
    {
        match self {
            SignalStrength::StrongBuy => 2,
            SignalStrength::Buy => 1,
            SignalStrength::Neutral => 0,
            SignalStrength::Sell => -1,
            SignalStrength::StrongSell => -2,
        }
    }

    /// The text the strength is shown as: "strong_buy", "buy", "neutral", "sell",
    /// "strong_sell".
    pub fn as_str(self) -> (r: &'static str)
        ensures
            r@ == strength_label(self),
    {
        match self {
            SignalStrength::StrongBuy => "strong_buy",
            SignalStrength::Buy => "buy",
            SignalStrength::Neutral => "neutral",
            SignalStrength::Sell => "sell",
            SignalStrength::StrongSell => "strong_sell",
        }
    }
}

/// Every score lies in -2..=2 (the engine divides by 2 to get a confidence in
/// 0..=1), and different strengths have different scores.
pub proof fn lemma_score_injective(a: SignalStrength, b: SignalStrength)
    ensures
        strength_score(a) == strength_score(b) <==> a == b,
        -2 <= strength_score(a) <= 2,
{
}

} // verus!
