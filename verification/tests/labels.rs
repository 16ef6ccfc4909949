use indica::indicators::india::circuit::CircuitLimit;
use indica::indicators::india::delivery::{DeliveryReading, DeliveryTrend};
use indica::indicators::momentum::macd::Crossover;
use indica::indicators::trend::supertrend::SupertrendDirection;
use indica::indicators::volume::volume_trend::{VolumeRatioReading, VolumeTrend};
use indica::signals::engine::{signal_reasons, strength_for_score, ScoreReading};
use indica::signals::types::SignalStrength;
use indica::streaming::sign::Sign;

fn sign_of(x: f64) -> Sign {
    if x > 0.0 {
        Sign::Positive
    } else if x < 0.0 {
        Sign::Negative
    } else if x == 0.0 {
        Sign::Zero
    } else {
        Sign::Unordered
    }
}

#[test]
fn strength_scores() {
    assert_eq!(SignalStrength::StrongBuy.score(), 2);
    assert_eq!(SignalStrength::Buy.score(), 1);
    assert_eq!(SignalStrength::Neutral.score(), 0);
    assert_eq!(SignalStrength::Sell.score(), -1);
    assert_eq!(SignalStrength::StrongSell.score(), -2);
}

#[test]
fn strength_labels() {
    assert_eq!(SignalStrength::StrongBuy.as_str(), "strong_buy");
    assert_eq!(SignalStrength::Buy.as_str(), "buy");
    assert_eq!(SignalStrength::Neutral.as_str(), "neutral");
    assert_eq!(SignalStrength::Sell.as_str(), "sell");
    assert_eq!(SignalStrength::StrongSell.as_str(), "strong_sell");
}

#[test]
fn crossover_labels() {
    assert_eq!(Crossover::Bullish.as_str(), "bullish");
    assert_eq!(Crossover::Bearish.as_str(), "bearish");
    assert_eq!(Crossover::Neutral.as_str(), "none");
    assert_eq!(SupertrendDirection::Up.as_str(), "up");
    assert_eq!(SupertrendDirection::Down.as_str(), "down");
}

#[test]
fn delivery_labels() {
    assert_eq!(DeliveryTrend::StrongAccumulation.as_str(), "strong_accumulation");
    assert_eq!(DeliveryTrend::Accumulation.as_str(), "accumulation");
    assert_eq!(DeliveryTrend::Distribution.as_str(), "distribution");
    assert_eq!(DeliveryTrend::StrongDistribution.as_str(), "strong_distribution");
    assert_eq!(DeliveryTrend::Neutral.as_str(), "neutral");
}

#[test]
fn crossover_detection() {
    assert_eq!(Crossover::between(sign_of(-0.1), sign_of(0.2)), Crossover::Bullish);
    assert_eq!(Crossover::between(sign_of(0.0), sign_of(0.2)), Crossover::Bullish);
    assert_eq!(Crossover::between(sign_of(0.1), sign_of(-0.2)), Crossover::Bearish);
    assert_eq!(Crossover::between(sign_of(0.0), sign_of(-0.2)), Crossover::Bearish);
    assert_eq!(Crossover::between(sign_of(0.1), sign_of(0.2)), Crossover::Neutral);
    assert_eq!(Crossover::between(sign_of(-0.1), sign_of(0.0)), Crossover::Neutral);
    assert_eq!(Crossover::between(sign_of(f64::NAN), sign_of(0.2)), Crossover::Neutral);
    assert_eq!(
        indica::Crossover::between(sign_of(-0.1), sign_of(0.2)),
        indica::Crossover::Bullish
    );
    assert_eq!(
        indica::Crossover::between(sign_of(0.0), sign_of(-0.2)),
        indica::Crossover::Bearish
    );
    assert_eq!(
        indica::Crossover::between(sign_of(0.3), sign_of(0.2)),
        indica::Crossover::NoCrossover
    );
}

#[test]
fn supertrend_direction_follows_bands() {
    // On the upper band: stays down until the close breaks above it.
    assert_eq!(SupertrendDirection::next(true, true, true), SupertrendDirection::Down);
    assert_eq!(SupertrendDirection::next(true, false, true), SupertrendDirection::Up);
    // On the lower band: stays up until the close breaks below it.
    assert_eq!(SupertrendDirection::next(false, true, true), SupertrendDirection::Up);
    assert_eq!(SupertrendDirection::next(false, true, false), SupertrendDirection::Down);
}

#[test]
fn circuit_percentages() {
    assert_eq!(CircuitLimit::Percent2.percent(), 2);
    assert_eq!(CircuitLimit::Percent5.percent(), 5);
    assert_eq!(CircuitLimit::Percent10.percent(), 10);
    assert_eq!(CircuitLimit::Percent20.percent(), 20);
}

fn delivery_reading(ratio: f64, change: f64) -> DeliveryReading {
    DeliveryReading {
        ratio_above_1_3: ratio > 1.3,
        ratio_above_1_1: ratio > 1.1,
        change_above_2pct: change > 0.02,
        change_positive: change > 0.0,
        change_below_minus_2pct: change < -0.02,
        change_negative: change < 0.0,
    }
}

#[test]
fn delivery_classification() {
    assert_eq!(DeliveryTrend::classify(delivery_reading(1.5, 0.05)), DeliveryTrend::StrongAccumulation);
    assert_eq!(DeliveryTrend::classify(delivery_reading(1.2, 0.05)), DeliveryTrend::Accumulation);
    assert_eq!(DeliveryTrend::classify(delivery_reading(1.5, 0.01)), DeliveryTrend::Accumulation);
    assert_eq!(DeliveryTrend::classify(delivery_reading(1.5, -0.05)), DeliveryTrend::StrongDistribution);
    assert_eq!(DeliveryTrend::classify(delivery_reading(1.2, -0.05)), DeliveryTrend::Distribution);
    assert_eq!(DeliveryTrend::classify(delivery_reading(1.0, 0.05)), DeliveryTrend::Neutral);
    assert_eq!(DeliveryTrend::classify(delivery_reading(1.5, 0.0)), DeliveryTrend::Neutral);
}

fn ratio_reading(ratio: f64) -> VolumeRatioReading {
    VolumeRatioReading {
        above_1_5: ratio > 1.5,
        above_1_1: ratio > 1.1,
        above_0_9: ratio > 0.9,
        above_0_5: ratio > 0.5,
    }
}

#[test]
fn volume_trend_for_ratios() {
    assert_eq!(VolumeTrend::for_ratio(ratio_reading(5.0)), VolumeTrend::Surging);
    assert_eq!(VolumeTrend::for_ratio(ratio_reading(1.2)), VolumeTrend::Increasing);
    assert_eq!(VolumeTrend::for_ratio(ratio_reading(1.0)), VolumeTrend::Stable);
    assert_eq!(VolumeTrend::for_ratio(ratio_reading(0.7)), VolumeTrend::Declining);
    assert_eq!(VolumeTrend::for_ratio(ratio_reading(0.01)), VolumeTrend::DryingUp);
    assert_eq!(VolumeTrend::for_ratio(ratio_reading(1.5)), VolumeTrend::Increasing);
}

#[test]
fn volume_labels_round_trip() {
    for t in [
        VolumeTrend::Surging,
        VolumeTrend::Increasing,
        VolumeTrend::Stable,
        VolumeTrend::Declining,
        VolumeTrend::DryingUp,
        VolumeTrend::InsufficientData,
    ] {
        assert_eq!(VolumeTrend::from_label(t.as_str()), Some(t));
    }
    assert_eq!(VolumeTrend::DryingUp.as_str(), "drying up");
    assert_eq!(VolumeTrend::from_label("rising"), None);
}

fn score_reading(score: f64) -> ScoreReading {
    ScoreReading {
        at_least_1_5: score >= 1.5,
        at_least_0_5: score >= 0.5,
        above_minus_0_5: score > -0.5,
        above_minus_1_5: score > -1.5,
    }
}

#[test]
fn engine_score_thresholds() {
    assert_eq!(strength_for_score(score_reading(1.5)), SignalStrength::StrongBuy);
    assert_eq!(strength_for_score(score_reading(1.0)), SignalStrength::Buy);
    assert_eq!(strength_for_score(score_reading(0.5)), SignalStrength::Buy);
    assert_eq!(strength_for_score(score_reading(0.0)), SignalStrength::Neutral);
    assert_eq!(strength_for_score(score_reading(-0.5)), SignalStrength::Sell);
    assert_eq!(strength_for_score(score_reading(-1.5)), SignalStrength::StrongSell);
}

#[test]
fn flat_crossover_labels() {
    assert_eq!(indica::Crossover::Bullish.as_str(), "bullish");
    assert_eq!(indica::Crossover::Bearish.as_str(), "bearish");
    assert_eq!(indica::Crossover::NoCrossover.as_str(), "none");
}

#[test]
fn engine_reasons_keep_rule_order() {
    assert_eq!(signal_reasons(&vec![]), vec!["No indicator data available".to_string()]);
    let reasons = vec!["RSI 28.0 — oversold".to_string(), "Volume stable".to_string()];
    assert_eq!(signal_reasons(&reasons), reasons);
}
