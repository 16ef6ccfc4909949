//! Delivery trend: genuine buying or selling on NSE/BSE.
use vstd::prelude::*;

verus! {

/// Delivery trend classification.
#[derive(Debug, Clone, Copy, PartialEq, Eq, Structural)]
pub enum DeliveryTrend {
    /// High delivery % + price up.
    StrongAccumulation,
    /// Above average delivery % + price up.
    Accumulation,
    /// Above average delivery % + price down.
    Distribution,
    /// High delivery % + price down.
    StrongDistribution,
    Neutral,
}

/// Where the delivery ratio (short-term over long-term average delivery %) and the
/// relative price change over the short period stand against the thresholds.
#[derive(Debug, Clone, Copy, PartialEq, Eq, Structural)]
pub struct DeliveryReading {
    /// ratio > 1.3
    pub ratio_above_1_3: bool,
    /// ratio > 1.1
    pub ratio_above_1_1: bool,
    /// change > 0.02
    pub change_above_2pct: bool,
    /// change > 0
    pub change_positive: bool,
    /// change < -0.02
    pub change_below_minus_2pct: bool,
    /// change < 0
    pub change_negative: bool,
}

/// The text a delivery trend is shown as.
pub open spec fn delivery_label(t: DeliveryTrend) -> Seq<char> {
    match t {
        DeliveryTrend::StrongAccumulation => "strong_accumulation"@,
        DeliveryTrend::Accumulation => "accumulation"@,
        DeliveryTrend::Distribution => "distribution"@,
        DeliveryTrend::StrongDistribution => "strong_distribution"@,
        DeliveryTrend::Neutral => "neutral"@,
    }
}

/// The classification, first match wins: strong accumulation (ratio > 1.3, change >
/// 2%), accumulation (ratio > 1.1, change > 0), strong distribution (ratio > 1.3,
/// change < -2%), distribution (ratio > 1.1, change < 0), neutral.
pub open spec fn delivery_trend_for(r: DeliveryReading) -> DeliveryTrend {
    if r.ratio_above_1_3 && r.change_above_2pct {
        DeliveryTrend::StrongAccumulation
    } else if r.ratio_above_1_1 && r.change_positive {
        DeliveryTrend::Accumulation
    } else if r.ratio_above_1_3 && r.change_below_minus_2pct {
        DeliveryTrend::StrongDistribution
    } else if r.ratio_above_1_1 && r.change_negative {
        DeliveryTrend::Distribution
    } else {
        DeliveryTrend::Neutral
    }
}

/// The readings of one ratio and one change agree with each other: a ratio above
/// 1.3 is above 1.1, a change above 2% is positive, a change below -2% is negative,
/// and a change is not both positive and negative.
pub open spec fn reading_consistent(r: DeliveryReading) -> bool {
    &&& r.ratio_above_1_3 ==> r.ratio_above_1_1
    &&& r.change_above_2pct ==> r.change_positive
    &&& r.change_below_minus_2pct ==> r.change_negative
    &&& !(r.change_positive && r.change_negative)
}

impl DeliveryTrend {
    /// The text the trend is shown as: "strong_accumulation", "accumulation",
    /// "distribution", "strong_distribution" or "neutral".
    pub fn as_str(self) -> (s: &'static str)
        ensures
            s@ == delivery_label(self),
    {
        match self {
            DeliveryTrend::StrongAccumulation => "strong_accumulation",
            DeliveryTrend::Accumulation => "accumulation",
            DeliveryTrend::Distribution => "distribution",
            DeliveryTrend::StrongDistribution => "strong_distribution",
            DeliveryTrend::Neutral => "neutral",
        }
    }

    /// Classify a delivery ratio and a price change.
    pub fn classify(r: DeliveryReading) -> (t: DeliveryTrend)
        ensures
            t == delivery_trend_for(r),
    {
        if r.ratio_above_1_3 && r.change_above_2pct {
            DeliveryTrend::StrongAccumulation
        } else if r.ratio_above_1_1 && r.change_positive {
            DeliveryTrend::Accumulation
        } else if r.ratio_above_1_3 && r.change_below_minus_2pct {
            DeliveryTrend::StrongDistribution
        } else if r.ratio_above_1_1 && r.change_negative {
            DeliveryTrend::Distribution
        } else {
            DeliveryTrend::Neutral
        }
    }
}

/// Accumulation needs the price to go up and distribution needs it to go down, both
/// need delivery above its average (ratio > 1.1), and any above-average delivery
/// with a price move gives one of them: high delivery + price up is accumulation,
/// high delivery + price down is distribution.
pub proof fn lemma_delivery_trend_sides(r: DeliveryReading)
    requires
        reading_consistent(r),
    ensures
        (delivery_trend_for(r) == DeliveryTrend::StrongAccumulation || delivery_trend_for(r)
            == DeliveryTrend::Accumulation) <==> (r.ratio_above_1_1 && r.change_positive),
        (delivery_trend_for(r) == DeliveryTrend::StrongDistribution || delivery_trend_for(r)
            == DeliveryTrend::Distribution) <==> (r.ratio_above_1_1 && r.change_negative),
        delivery_trend_for(r) == DeliveryTrend::StrongAccumulation ==> r.ratio_above_1_3
            && r.change_above_2pct,
        delivery_trend_for(r) == DeliveryTrend::StrongDistribution ==> r.ratio_above_1_3
            && r.change_below_minus_2pct,
{
}

/// Whether the delivery trend can be computed from `delivery_len` delivery
/// percentages and `closes_len` closes: both periods must be positive, the short one
/// shorter than the long one, and both series must cover the long period.
pub fn delivery_enough_data(
    delivery_len: usize,
    closes_len: usize,
    short_period: usize,
    long_period: usize,
) -> (r: bool)
    ensures
        r == (delivery_len >= long_period && closes_len >= long_period && short_period > 0
            && long_period > 0 && short_period < long_period),
{
    !(delivery_len < long_period || closes_len < long_period || short_period == 0
        || long_period == 0 || short_period >= long_period)
}

} // verus!
