//! The built-in signal rules: how each one votes on the indicator values it reads.
//!
//! A rule compares an indicator value with its thresholds; the comparisons arrive as
//! a reading, together with the value as it is to be shown in the reason.
use vstd::prelude::*;
use crate::indicators::momentum::macd::Crossover;
use crate::indicators::trend::supertrend::SupertrendDirection;
use crate::indicators::volume::volume_trend::{VolumeTrend, volume_label};
use crate::signals::text::{join2, join3, join5};
use crate::signals::types::SignalStrength;
use crate::streaming::sign::Sign;
use vstd::string::*;

verus! {

/// One rule's vote: a strength, the weight of the rule in tenths (0.8 is 8), and the
/// reason shown to the user.
#[derive(Debug, Clone)]
pub struct RuleVote {
    pub strength: SignalStrength,
    pub weight_tenths: u8,
    pub reason: String,
}

/// The vote has the given strength, weight and reason.
pub open spec fn vote_is(v: RuleVote, strength: SignalStrength, weight_tenths: nat, reason: Seq<char>) -> bool {
    v.strength == strength && v.weight_tenths == weight_tenths && v.reason@ == reason
}

// ---------------------------------------------------------------- RSI

/// RSI-based signal: oversold = Buy, overbought = Sell.
#[derive(Debug, Clone, Copy)]
pub struct RsiRule;

/// The RSI against the rule's thresholds.
#[derive(Debug, Clone)]
pub struct RsiReading {
    /// rsi < 20
    pub below_20: bool,
    /// rsi < 30
    pub below_30: bool,
    /// rsi > 80
    pub above_80: bool,
    /// rsi > 70
    pub above_70: bool,
    /// The RSI with one decimal.
    pub value_text: String,
}

/// First match wins: below 20 strong buy, below 30 buy, above 80 strong sell, above
/// 70 sell, neutral otherwise.
pub open spec fn rsi_rule_strength(r: RsiReading) -> SignalStrength {
    if r.below_20 {
        SignalStrength::StrongBuy
    } else if r.below_30 {
        SignalStrength::Buy
    } else if r.above_80 {
        SignalStrength::StrongSell
    } else if r.above_70 {
        SignalStrength::Sell
    } else {
        SignalStrength::Neutral
    }
}

/// How the zone of the RSI is described.
pub open spec fn rsi_rule_zone(r: RsiReading) -> Seq<char> {
    if r.below_20 {
        " — deeply oversold"@
    } else if r.below_30 {
        " — oversold"@
    } else if r.above_80 {
        " — deeply overbought"@
    } else if r.above_70 {
        " — overbought"@
    } else {
        " — neutral zone"@
    }
}

/// The readings of one RSI agree: below 20 is below 30, above 80 is above 70, and
/// nothing is both below 30 and above 70.
pub open spec fn rsi_reading_consistent(r: RsiReading) -> bool {
    &&& r.below_20 ==> r.below_30
    &&& r.above_80 ==> r.above_70
    &&& !(r.below_30 && r.above_70)
}

impl RsiRule {
    /// The weight of the rule in tenths.
    pub fn weight_tenths(&self) -> (w: u8)
        ensures
            w == 8,
    {
        8
    }

    /// The rule's vote, if there is an RSI to read; the reason is "RSI <value> —
    /// <zone>".
    pub fn vote(&self, reading: Option<&RsiReading>) -> (v: Option<RuleVote>)
        ensures
            match reading {
                None => v is None,
                Some(r) => v is Some && vote_is(
                    v->0,
                    rsi_rule_strength(*r),
                    8,
                    "RSI "@ + r.value_text@ + rsi_rule_zone(*r),
                ),
            },
            reading matches Some(r) ==> {
                let t = r.value_text@;
                let why = v->0.reason@;
                &&& r.below_20 ==> v->0.strength == SignalStrength::StrongBuy
                &&& (v->0.strength == SignalStrength::StrongBuy ==> why == "RSI "@ + t + " — deeply oversold"@)
                &&& (v->0.strength == SignalStrength::Buy ==> why == "RSI "@ + t + " — oversold"@)
                &&& (v->0.strength == SignalStrength::StrongSell ==> why == "RSI "@ + t + " — deeply overbought"@)
                &&& (v->0.strength == SignalStrength::Sell ==> why == "RSI "@ + t + " — overbought"@)
                &&& (v->0.strength == SignalStrength::Neutral ==> why == "RSI "@ + t + " — neutral zone"@)
            },
    {
        match reading {
            None => None,
            Some(r) => {
                let (strength, zone) = if r.below_20 {
                    (SignalStrength::StrongBuy, " — deeply oversold")
                } else if r.below_30 {
                    (SignalStrength::Buy, " — oversold")
                } else if r.above_80 {
                    (SignalStrength::StrongSell, " — deeply overbought")
                } else if r.above_70 {
                    (SignalStrength::Sell, " — overbought")
                } else {
                    (SignalStrength::Neutral, " — neutral zone")
                };
                let reason = join3("RSI ", r.value_text.as_str(), zone);
                Some(RuleVote { strength, weight_tenths: self.weight_tenths(), reason })
            },
        }
    }
}

/// Oversold is a buy and overbought a sell: for a consistent reading the RSI rule
/// votes on the buy side exactly when the RSI is below 30, on the sell side exactly
/// when it is above 70, and strongly only below 20 or above 80.
pub proof fn lemma_rsi_rule_sides(r: RsiReading)
    requires
        rsi_reading_consistent(r),
    ensures
        (rsi_rule_strength(r) == SignalStrength::StrongBuy || rsi_rule_strength(r)
            == SignalStrength::Buy) <==> r.below_30,
        (rsi_rule_strength(r) == SignalStrength::StrongSell || rsi_rule_strength(r)
            == SignalStrength::Sell) <==> r.above_70,
        rsi_rule_strength(r) == SignalStrength::StrongBuy <==> r.below_20,
        rsi_rule_strength(r) == SignalStrength::StrongSell <==> r.above_80,
{
}

// ---------------------------------------------------------------- MACD

/// MACD crossover signal.
#[derive(Debug, Clone, Copy)]
pub struct MacdCrossoverRule;

/// The MACD crossover and the sign of its histogram.
#[derive(Debug, Clone)]
pub struct MacdReading {
    pub crossover: Crossover,
    pub histogram: Sign,
    /// The histogram with two decimals.
    pub histogram_text: String,
}

/// A crossover decides; without one a positive histogram is a buy, a negative one
/// a sell, anything else neutral.
pub open spec fn macd_rule_strength(r: MacdReading) -> SignalStrength {
    match r.crossover {
        Crossover::Bullish => SignalStrength::Buy,
        Crossover::Bearish => SignalStrength::Sell,
        Crossover::Neutral => if r.histogram == Sign::Positive {
            SignalStrength::Buy
        } else if r.histogram == Sign::Negative {
            SignalStrength::Sell
        } else {
            SignalStrength::Neutral
        },
    }
}

/// The reason of the MACD rule's vote.
pub open spec fn macd_rule_reason(r: MacdReading) -> Seq<char> {
    match r.crossover {
        Crossover::Bullish => "MACD bullish crossover (histogram: "@ + r.histogram_text@ + ")"@,
        Crossover::Bearish => "MACD bearish crossover (histogram: "@ + r.histogram_text@ + ")"@,
        Crossover::Neutral => if r.histogram == Sign::Positive {
            "MACD positive histogram ("@ + r.histogram_text@ + ")"@
        } else if r.histogram == Sign::Negative {
            "MACD negative histogram ("@ + r.histogram_text@ + ")"@
        } else {
            "MACD flat"@
        },
    }
}

impl MacdCrossoverRule {
    /// The weight of the rule in tenths.
    pub fn weight_tenths(&self) -> (w: u8)
        ensures
            w == 9,
    {
        9
    }

    /// The rule's vote, if there is a MACD to read.
    pub fn vote(&self, reading: Option<&MacdReading>) -> (v: Option<RuleVote>)
        ensures
            match reading {
                None => v is None,
                Some(r) => v is Some && vote_is(
                    v->0,
                    macd_rule_strength(*r),
                    9,
                    macd_rule_reason(*r),
                ),
            },
            reading matches Some(r) ==> {
                let t = r.histogram_text@;
                let why = v->0.reason@;
                &&& r.crossover == Crossover::Bullish ==> v->0.strength == SignalStrength::Buy
                    && why == "MACD bullish crossover (histogram: "@ + t + ")"@
                &&& r.crossover == Crossover::Bearish ==> v->0.strength == SignalStrength::Sell
                    && why == "MACD bearish crossover (histogram: "@ + t + ")"@
                &&& r.crossover == Crossover::Neutral && r.histogram == Sign::Positive
                    ==> v->0.strength == SignalStrength::Buy && why == "MACD positive histogram ("@ + t + ")"@
                &&& r.crossover == Crossover::Neutral && r.histogram == Sign::Negative
                    ==> v->0.strength == SignalStrength::Sell && why == "MACD negative histogram ("@ + t + ")"@
                &&& r.crossover == Crossover::Neutral && r.histogram != Sign::Positive
                    && r.histogram != Sign::Negative
                    ==> v->0.strength == SignalStrength::Neutral && why == "MACD flat"@
            },
    {
        match reading {
            None => None,
            Some(r) => {
                let text = r.histogram_text.as_str();
                let (strength, reason) = match r.crossover {
                    Crossover::Bullish => (
                        SignalStrength::Buy,
                        join3("MACD bullish crossover (histogram: ", text, ")"),
                    ),
                    Crossover::Bearish => (
                        SignalStrength::Sell,
                        join3("MACD bearish crossover (histogram: ", text, ")"),
                    ),
                    Crossover::Neutral => match r.histogram {
                        Sign::Positive => (
                            SignalStrength::Buy,
                            join3("MACD positive histogram (", text, ")"),
                        ),
                        Sign::Negative => (
                            SignalStrength::Sell,
                            join3("MACD negative histogram (", text, ")"),
                        ),
                        _ => (SignalStrength::Neutral, String::from_str("MACD flat")),
                    },
                };
                Some(RuleVote { strength, weight_tenths: self.weight_tenths(), reason })
            },
        }
    }
}

// ---------------------------------------------------------------- Supertrend

/// Supertrend direction signal.
#[derive(Debug, Clone, Copy)]
pub struct SupertrendRule;

/// The Supertrend direction and its value.
#[derive(Debug, Clone)]
pub struct SupertrendReading {
    pub direction: SupertrendDirection,
    /// The Supertrend value with two decimals.
    pub value_text: String,
}

impl SupertrendRule {
    /// The weight of the rule in tenths.
    pub fn weight_tenths(&self) -> (w: u8)
        ensures
            w == 10,
    {
        10
    }

    /// The rule's vote, if there is a Supertrend to read: up is a buy (the line is a
    /// support), down a sell (the line is a resistance).
    pub fn vote(&self, reading: Option<&SupertrendReading>) -> (v: Option<RuleVote>)
        ensures
            match reading {
                None => v is None,
                Some(r) => v is Some && (match r.direction {
                    SupertrendDirection::Up => vote_is(
                        v->0,
                        SignalStrength::Buy,
                        10,
                        "Supertrend UP — support at "@ + r.value_text@,
                    ),
                    SupertrendDirection::Down => vote_is(
                        v->0,
                        SignalStrength::Sell,
                        10,
                        "Supertrend DOWN — resistance at "@ + r.value_text@,
                    ),
                }),
            },
    {
        match reading {
            None => None,
            Some(r) => {
                let text = r.value_text.as_str();
                let (strength, reason) = match r.direction {
                    SupertrendDirection::Up => (
                        SignalStrength::Buy,
                        join2("Supertrend UP — support at ", text),
                    ),
                    SupertrendDirection::Down => (
                        SignalStrength::Sell,
                        join2("Supertrend DOWN — resistance at ", text),
                    ),
                };
                Some(RuleVote { strength, weight_tenths: self.weight_tenths(), reason })
            },
        }
    }
}

// ---------------------------------------------------------------- Volume trend

/// Volume trend confirmation / warning.
#[derive(Debug, Clone, Copy)]
pub struct VolumeTrendRule;

/// Whether a classified volume trend gets a vote: every trend but "insufficient data".
pub open spec fn volume_rule_votes(t: VolumeTrend) -> bool {
    t != VolumeTrend::InsufficientData
}

/// The vote on a classified volume trend: surging and increasing volume confirm
/// (buy), declining volume warns (sell), drying up volume warns strongly, stable
/// volume is neutral.
pub open spec fn volume_rule_strength(t: VolumeTrend) -> SignalStrength {
    match t {
        VolumeTrend::Surging => SignalStrength::Buy,
        VolumeTrend::Increasing => SignalStrength::Buy,
        VolumeTrend::Declining => SignalStrength::Sell,
        VolumeTrend::DryingUp => SignalStrength::StrongSell,
        _ => SignalStrength::Neutral,
    }
}

/// The reason of the vote on a classified volume trend.
pub open spec fn volume_rule_reason(t: VolumeTrend) -> Seq<char> {
    match t {
        VolumeTrend::Surging => "Volume surging — confirms momentum"@,
        VolumeTrend::Increasing => "Volume increasing — supports trend"@,
        VolumeTrend::Declining => "Volume declining — trend weakening"@,
        VolumeTrend::DryingUp => "Volume drying up — caution"@,
        _ => "Volume stable"@,
    }
}

impl VolumeTrendRule {
    /// The weight of the rule in tenths.
    pub fn weight_tenths(&self) -> (w: u8)
        ensures
            w == 6,
    {
        6
    }

    /// The rule's vote on the volume trend as it is named; a text that names no trend
    /// (an empty one, say) gives no vote.
    pub fn vote(&self, trend: &str) -> (v: Option<RuleVote>)
        ensures
            (exists|t: VolumeTrend| #[trigger] volume_label(t) == trend@ && volume_rule_votes(t))
                <==> v is Some,
            forall|t: VolumeTrend|
                #[trigger] volume_label(t) == trend@ && volume_rule_votes(t) ==> vote_is(
                    v->0,
                    volume_rule_strength(t),
                    6,
                    volume_rule_reason(t),
                ),
    {
        let parsed = VolumeTrend::from_label(trend);
        proof {
            if let Some(t0) = parsed {
                assert forall|t: VolumeTrend| #[trigger] volume_label(t) == trend@ implies t == t0 by {
                    crate::indicators::volume::volume_trend::lemma_labels_distinct(t, t0);
                }
            }
        }
        let picked: Option<(SignalStrength, &str)> = match parsed {
            Some(VolumeTrend::Surging) => Some((SignalStrength::Buy, "Volume surging — confirms momentum")),
            Some(VolumeTrend::Increasing) => Some((SignalStrength::Buy, "Volume increasing — supports trend")),
            Some(VolumeTrend::Declining) => Some((SignalStrength::Sell, "Volume declining — trend weakening")),
            Some(VolumeTrend::DryingUp) => Some((SignalStrength::StrongSell, "Volume drying up — caution")),
            Some(VolumeTrend::Stable) => Some((SignalStrength::Neutral, "Volume stable")),
            _ => None,
        };
        match picked {
            None => None,
            Some((strength, text)) => Some(
                RuleVote { strength, weight_tenths: self.weight_tenths(), reason: String::from_str(text) },
            ),
        }
    }
}

// ---------------------------------------------------------------- ADX

/// ADX trend strength — confirms or weakens signals.
#[derive(Debug, Clone, Copy)]
pub struct AdxTrendRule;

/// The ADX against the rule's thresholds.
#[derive(Debug, Clone)]
pub struct AdxReading {
    /// adx > 40
    pub above_40: bool,
    /// adx > 25
    pub above_25: bool,
    /// adx > 20
    pub above_20: bool,
    /// The ADX with one decimal.
    pub value_text: String,
}

/// Only a very strong trend (above 40) votes strong buy; weaker readings are
/// neutral and only change the description.
pub open spec fn adx_rule_strength(r: AdxReading) -> SignalStrength {
    if r.above_40 {
        SignalStrength::StrongBuy
    } else {
        SignalStrength::Neutral
    }
}

/// How the trend is described.
pub open spec fn adx_rule_trend(r: AdxReading) -> Seq<char> {
    if r.above_40 {
        " — very strong trend"@
    } else if r.above_25 {
        " — trending (confirms direction)"@
    } else if r.above_20 {
        " — weak trend"@
    } else {
        " — no trend, range-bound"@
    }
}

impl AdxTrendRule {
    /// The weight of the rule in tenths.
    pub fn weight_tenths(&self) -> (w: u8)
        ensures
            w == 5,
    {
        5
    }

    /// The rule's vote, if there is an ADX to read; the reason is "ADX <value> —
    /// <trend>".
    pub fn vote(&self, reading: Option<&AdxReading>) -> (v: Option<RuleVote>)
        ensures
            match reading {
                None => v is None,
                Some(r) => v is Some && vote_is(
                    v->0,
                    adx_rule_strength(*r),
                    5,
                    "ADX "@ + r.value_text@ + adx_rule_trend(*r),
                ),
            },
            reading matches Some(r) ==> {
                &&& v->0.strength == SignalStrength::StrongBuy || v->0.strength == SignalStrength::Neutral
                &&& (v->0.strength == SignalStrength::StrongBuy <==> r.above_40)
            },
    {
        match reading {
            None => None,
            Some(r) => {
                let (strength, trend) = if r.above_40 {
                    (SignalStrength::StrongBuy, " — very strong trend")
                } else if r.above_25 {
                    (SignalStrength::Neutral, " — trending (confirms direction)")
                } else if r.above_20 {
                    (SignalStrength::Neutral, " — weak trend")
                } else {
                    (SignalStrength::Neutral, " — no trend, range-bound")
                };
                let reason = join3("ADX ", r.value_text.as_str(), trend);
                Some(RuleVote { strength, weight_tenths: self.weight_tenths(), reason })
            },
        }
    }
}

// ---------------------------------------------------------------- Stochastic

/// Stochastic Oscillator rule.
#[derive(Debug, Clone, Copy)]
pub struct StochasticRule;

/// %K and %D against the rule's thresholds.
#[derive(Debug, Clone)]
pub struct StochasticReading {
    /// k < 20
    pub k_below_20: bool,
    /// d < 20
    pub d_below_20: bool,
    /// k < 30
    pub k_below_30: bool,
    /// k > 80
    pub k_above_80: bool,
    /// d > 80
    pub d_above_80: bool,
    /// k > 70
    pub k_above_70: bool,
    /// %K with one decimal.
    pub k_text: String,
    /// %D with one decimal.
    pub d_text: String,
}

/// First match wins: both lines below 20 strong buy, %K below 30 buy, both lines
/// above 80 strong sell, %K above 70 sell, neutral otherwise.
pub open spec fn stochastic_rule_strength(r: StochasticReading) -> SignalStrength {
    if r.k_below_20 && r.d_below_20 {
        SignalStrength::StrongBuy
    } else if r.k_below_30 {
        SignalStrength::Buy
    } else if r.k_above_80 && r.d_above_80 {
        SignalStrength::StrongSell
    } else if r.k_above_70 {
        SignalStrength::Sell
    } else {
        SignalStrength::Neutral
    }
}

/// The reason: both lines for the strong votes, %K alone otherwise.
pub open spec fn stochastic_rule_reason(r: StochasticReading) -> Seq<char> {
    if r.k_below_20 && r.d_below_20 {
        "Stochastic K="@ + r.k_text@ + " D="@ + r.d_text@ + " — deeply oversold"@
    } else if r.k_below_30 {
        "Stochastic K="@ + r.k_text@ + " — oversold zone"@
    } else if r.k_above_80 && r.d_above_80 {
        "Stochastic K="@ + r.k_text@ + " D="@ + r.d_text@ + " — deeply overbought"@
    } else if r.k_above_70 {
        "Stochastic K="@ + r.k_text@ + " — overbought zone"@
    } else {
        "Stochastic K="@ + r.k_text@ + " — neutral zone"@
    }
}

impl StochasticRule {
    /// The weight of the rule in tenths.
    pub fn weight_tenths(&self) -> (w: u8)
        ensures
            w == 7,
    {
        7
    }

    /// The rule's vote, if there is a stochastic oscillator to read.
    pub fn vote(&self, reading: Option<&StochasticReading>) -> (v: Option<RuleVote>)
        ensures
            match reading {
                None => v is None,
                Some(r) => v is Some && vote_is(
                    v->0,
                    stochastic_rule_strength(*r),
                    7,
                    stochastic_rule_reason(*r),
                ),
            },
            reading matches Some(r) ==> {
                let k = r.k_text@;
                let d = r.d_text@;
                let why = v->0.reason@;
                &&& !r.k_below_20 && !r.k_below_30 && !r.k_above_80 && !r.k_above_70
                    ==> v->0.strength == SignalStrength::Neutral
                &&& v->0.strength == SignalStrength::StrongBuy ==> r.k_below_20 && r.d_below_20
                    && why == "Stochastic K="@ + k + " D="@ + d + " — deeply oversold"@
                &&& v->0.strength == SignalStrength::Buy ==> r.k_below_30
                    && why == "Stochastic K="@ + k + " — oversold zone"@
                &&& v->0.strength == SignalStrength::StrongSell ==> r.k_above_80 && r.d_above_80
                    && why == "Stochastic K="@ + k + " D="@ + d + " — deeply overbought"@
                &&& v->0.strength == SignalStrength::Sell ==> r.k_above_70
                    && why == "Stochastic K="@ + k + " — overbought zone"@
                &&& v->0.strength == SignalStrength::Neutral ==> why == "Stochastic K="@ + k + " — neutral zone"@
            },
    {
        match reading {
            None => None,
            Some(r) => {
                let k = r.k_text.as_str();
                let d = r.d_text.as_str();
                let (strength, reason) = if r.k_below_20 && r.d_below_20 {
                    (SignalStrength::StrongBuy, join5("Stochastic K=", k, " D=", d, " — deeply oversold"))
                } else if r.k_below_30 {
                    (SignalStrength::Buy, join3("Stochastic K=", k, " — oversold zone"))
                } else if r.k_above_80 && r.d_above_80 {
                    (SignalStrength::StrongSell, join5("Stochastic K=", k, " D=", d, " — deeply overbought"))
                } else if r.k_above_70 {
                    (SignalStrength::Sell, join3("Stochastic K=", k, " — overbought zone"))
                } else {
                    (SignalStrength::Neutral, join3("Stochastic K=", k, " — neutral zone"))
                };
                Some(RuleVote { strength, weight_tenths: self.weight_tenths(), reason })
            },
        }
    }
}

// ---------------------------------------------------------------- Laws of the votes

/// The zone named in the RSI reason matches the strength of the vote: "deeply" is
/// said exactly of the strong votes, and an RSI below 20 is always a strong buy; for
/// a consistent reading an RSI in 20..30 is described as " — oversold".
pub proof fn lemma_rsi_reason_matches_strength(r: RsiReading)
    ensures
        rsi_rule_strength(r) == SignalStrength::StrongBuy ==> rsi_rule_zone(r) == " — deeply oversold"@,
        rsi_rule_strength(r) == SignalStrength::Buy ==> rsi_rule_zone(r) == " — oversold"@,
        rsi_rule_strength(r) == SignalStrength::StrongSell ==> rsi_rule_zone(r) == " — deeply overbought"@,
        rsi_rule_strength(r) == SignalStrength::Sell ==> rsi_rule_zone(r) == " — overbought"@,
        rsi_rule_strength(r) == SignalStrength::Neutral ==> rsi_rule_zone(r) == " — neutral zone"@,
        r.below_20 ==> rsi_rule_strength(r) == SignalStrength::StrongBuy,
        rsi_reading_consistent(r) && r.below_30 && !r.below_20 ==> rsi_rule_strength(r)
            == SignalStrength::Buy && rsi_rule_zone(r) == " — oversold"@,
{
}

/// A MACD crossover decides the side of the vote: a bullish crossover is a buy and a
/// bearish one a sell; without a crossover the sign of the histogram decides
/// (positive buy, negative sell, otherwise neutral). The vote is never strong.
pub proof fn lemma_macd_rule_follows_crossover(r: MacdReading)
    ensures
        r.crossover == Crossover::Bullish ==> macd_rule_strength(r) == SignalStrength::Buy,
        r.crossover == Crossover::Bearish ==> macd_rule_strength(r) == SignalStrength::Sell,
        r.crossover == Crossover::Neutral && r.histogram == Sign::Positive ==> macd_rule_strength(r)
            == SignalStrength::Buy,
        r.crossover == Crossover::Neutral && r.histogram == Sign::Negative ==> macd_rule_strength(r)
            == SignalStrength::Sell,
        r.crossover == Crossover::Neutral && r.histogram != Sign::Positive && r.histogram
            != Sign::Negative ==> macd_rule_strength(r) == SignalStrength::Neutral,
        crate::signals::types::strength_score(macd_rule_strength(r)) > 0 <==> (r.crossover
            == Crossover::Bullish || (r.crossover == Crossover::Neutral && r.histogram == Sign::Positive)),
        crate::signals::types::strength_score(macd_rule_strength(r)) < 0 <==> (r.crossover
            == Crossover::Bearish || (r.crossover == Crossover::Neutral && r.histogram == Sign::Negative)),
        -1 <= crate::signals::types::strength_score(macd_rule_strength(r)) <= 1,
{
}

/// The readings of one %K and one %D agree: below 20 is below 30, above 80 is above
/// 70, and %K is not both below 30 and above 70.
pub open spec fn stochastic_reading_consistent(r: StochasticReading) -> bool {
    &&& r.k_below_20 ==> r.k_below_30
    &&& r.k_above_80 ==> r.k_above_70
    &&& !(r.k_below_30 && r.k_above_70)
}

/// For a consistent reading the stochastic rule votes on the buy side exactly when
/// %K is below 30, on the sell side exactly when %K is above 70, neutral when %K is
/// between, and strongly only when both lines are beyond 20 (or 80).
pub proof fn lemma_stochastic_rule_sides(r: StochasticReading)
    requires
        stochastic_reading_consistent(r),
    ensures
        crate::signals::types::strength_score(stochastic_rule_strength(r)) > 0 <==> r.k_below_30,
        crate::signals::types::strength_score(stochastic_rule_strength(r)) < 0 <==> r.k_above_70,
        stochastic_rule_strength(r) == SignalStrength::Neutral <==> (!r.k_below_30 && !r.k_above_70),
        stochastic_rule_strength(r) == SignalStrength::StrongBuy <==> (r.k_below_20 && r.d_below_20),
        stochastic_rule_strength(r) == SignalStrength::StrongSell <==> (r.k_above_80 && r.d_above_80),
{
}

/// The ADX measures trend strength, not direction: it only ever votes strong buy (above
/// 40) or neutral, never on the sell side.
pub proof fn lemma_adx_rule_never_sells(r: AdxReading)
    ensures
        adx_rule_strength(r) == SignalStrength::StrongBuy || adx_rule_strength(r)
            == SignalStrength::Neutral,
        adx_rule_strength(r) == SignalStrength::StrongBuy <==> r.above_40,
        crate::signals::types::strength_score(adx_rule_strength(r)) >= 0,
{
}

} // verus!
