//! How the signal engine turns the weighted average score of the votes into a
//! strength.
use vstd::prelude::*;
use crate::signals::types::SignalStrength;
use vstd::string::*;

verus! {

/// The weighted average score of the votes against the engine's thresholds.
#[derive(Debug, Clone, Copy, PartialEq, Eq, Structural)]
pub struct ScoreReading {
    /// score >= 1.5
    pub at_least_1_5: bool,
    /// score >= 0.5
    pub at_least_0_5: bool,
    /// score > -0.5
    pub above_minus_0_5: bool,
    /// score > -1.5
    pub above_minus_1_5: bool,
}

/// First match wins: at least 1.5 strong buy, at least 0.5 buy, above -0.5 neutral,
/// above -1.5 sell, strong sell otherwise.
pub open spec fn strength_for(r: ScoreReading) -> SignalStrength {
    if r.at_least_1_5 {
        SignalStrength::StrongBuy
    } else if r.at_least_0_5 {
        SignalStrength::Buy
    } else if r.above_minus_0_5 {
        SignalStrength::Neutral
    } else if r.above_minus_1_5 {
        SignalStrength::Sell
    } else {
        SignalStrength::StrongSell
    }
}

/// The readings of one score agree: each threshold passed implies the lower ones
/// are passed too.
pub open spec fn score_reading_consistent(r: ScoreReading) -> bool {
    &&& r.at_least_1_5 ==> r.at_least_0_5
    &&& r.at_least_0_5 ==> r.above_minus_0_5
    &&& r.above_minus_0_5 ==> r.above_minus_1_5
}

/// The strength of a weighted average score.
pub fn strength_for_score(r: ScoreReading) -> (s: SignalStrength)
    ensures
        s == strength_for(r),
{
    if r.at_least_1_5 {
        SignalStrength::StrongBuy
    } else if r.at_least_0_5 {
        SignalStrength::Buy
    } else if r.above_minus_0_5 {
        SignalStrength::Neutral
    } else if r.above_minus_1_5 {
        SignalStrength::Sell
    } else {
        SignalStrength::StrongSell
    }
}

/// The strength is monotone in the score: of two consistent readings, the one that
/// passes every threshold the other passes gets at least as high a score.
pub proof fn lemma_strength_monotone(lo: ScoreReading, hi: ScoreReading)
    requires
        score_reading_consistent(lo),
        score_reading_consistent(hi),
        lo.at_least_1_5 ==> hi.at_least_1_5,
        lo.at_least_0_5 ==> hi.at_least_0_5,
        lo.above_minus_0_5 ==> hi.above_minus_0_5,
        lo.above_minus_1_5 ==> hi.above_minus_1_5,
    ensures
        crate::signals::types::strength_score(strength_for(lo))
            <= crate::signals::types::strength_score(strength_for(hi)),
{
}

/// The reasons of a composite signal, given the reasons of the votes in the order
/// the rules were added: those reasons, in that order, or the single reason "No
/// indicator data available" when no rule voted.
pub fn signal_reasons(vote_reasons: &Vec<String>) -> (r: Vec<String>)
    ensures
        vote_reasons.len() == 0 ==> r.len() == 1 && r@[0]@ == "No indicator data available"@,
        vote_reasons.len() > 0 ==> r.len() == vote_reasons.len() && forall|i: int|
            0 <= i < r.len() ==> #[trigger] r@[i]@ == vote_reasons@[i]@,
{
    let mut r: Vec<String> = Vec::new();
    if vote_reasons.len() == 0 {
        r.push(String::from_str("No indicator data available"));
        return r;
    }
    let mut i: usize = 0;
    while i < vote_reasons.len()
        invariant
            i <= vote_reasons.len(),
            r.len() == i,
            forall|j: int| 0 <= j < i ==> #[trigger] r@[j]@ == vote_reasons@[j]@,
        decreases vote_reasons.len() - i,
    {
        r.push(vote_reasons[i].clone());
        i = i + 1;
    }
    r
}

} // verus!
