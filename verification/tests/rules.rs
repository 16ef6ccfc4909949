use indica::indicators::momentum::macd::Crossover;
use indica::indicators::trend::supertrend::SupertrendDirection;
use indica::signals::rules::{
    AdxReading, AdxTrendRule, MacdCrossoverRule, MacdReading, RsiReading, RsiRule,
    StochasticReading, StochasticRule, SupertrendReading, SupertrendRule, VolumeTrendRule,
};
use indica::signals::types::SignalStrength;
use indica::streaming::sign::Sign;

fn rsi_reading(rsi: f64) -> RsiReading {
    RsiReading {
        below_20: rsi < 20.0,
        below_30: rsi < 30.0,
        above_80: rsi > 80.0,
        above_70: rsi > 70.0,
        value_text: format!("{rsi:.1}"),
    }
}

fn stochastic_reading(k: f64, d: f64) -> StochasticReading {
    StochasticReading {
        k_below_20: k < 20.0,
        d_below_20: d < 20.0,
        k_below_30: k < 30.0,
        k_above_80: k > 80.0,
        d_above_80: d > 80.0,
        k_above_70: k > 70.0,
        k_text: format!("{k:.1}"),
        d_text: format!("{d:.1}"),
    }
}

fn adx_reading(adx: f64) -> AdxReading {
    AdxReading {
        above_40: adx > 40.0,
        above_25: adx > 25.0,
        above_20: adx > 20.0,
        value_text: format!("{adx:.1}"),
    }
}

#[test]
fn rsi_oversold() {
    let vote = RsiRule.vote(Some(&rsi_reading(25.0))).unwrap();
    assert_eq!(vote.strength, SignalStrength::Buy);
}

#[test]
fn rsi_overbought() {
    let vote = RsiRule.vote(Some(&rsi_reading(75.0))).unwrap();
    assert_eq!(vote.strength, SignalStrength::Sell);
}

#[test]
fn rsi_deeply_oversold() {
    let vote = RsiRule.vote(Some(&rsi_reading(15.0))).unwrap();
    assert_eq!(vote.strength, SignalStrength::StrongBuy);
}

#[test]
fn rsi_rule_reason_and_weight() {
    let vote = RsiRule.vote(Some(&rsi_reading(15.0))).unwrap();
    assert_eq!(vote.reason, "RSI 15.0 — deeply oversold");
    assert_eq!(vote.weight_tenths, 8);
    let vote = RsiRule.vote(Some(&rsi_reading(50.0))).unwrap();
    assert_eq!(vote.strength, SignalStrength::Neutral);
    assert_eq!(vote.reason, "RSI 50.0 — neutral zone");
    let vote = RsiRule.vote(Some(&rsi_reading(85.0))).unwrap();
    assert_eq!(vote.strength, SignalStrength::StrongSell);
    assert_eq!(vote.reason, "RSI 85.0 — deeply overbought");
}

#[test]
fn rsi_rule_not_a_number_is_neutral() {
    let vote = RsiRule.vote(Some(&rsi_reading(f64::NAN))).unwrap();
    assert_eq!(vote.strength, SignalStrength::Neutral);
}

#[test]
fn macd_bullish_crossover() {
    let reading = MacdReading {
        crossover: Crossover::Bullish,
        histogram: Sign::Positive,
        histogram_text: format!("{:.2}", 0.5),
    };
    let vote = MacdCrossoverRule.vote(Some(&reading)).unwrap();
    assert_eq!(vote.strength, SignalStrength::Buy);
    assert_eq!(vote.reason, "MACD bullish crossover (histogram: 0.50)");
    assert_eq!(vote.weight_tenths, 9);
}

#[test]
fn macd_rule_without_crossover() {
    let negative = MacdReading {
        crossover: Crossover::Neutral,
        histogram: Sign::Negative,
        histogram_text: "-0.25".to_string(),
    };
    let vote = MacdCrossoverRule.vote(Some(&negative)).unwrap();
    assert_eq!(vote.strength, SignalStrength::Sell);
    assert_eq!(vote.reason, "MACD negative histogram (-0.25)");
    let flat = MacdReading {
        crossover: Crossover::Neutral,
        histogram: Sign::Zero,
        histogram_text: "0.00".to_string(),
    };
    let vote = MacdCrossoverRule.vote(Some(&flat)).unwrap();
    assert_eq!(vote.strength, SignalStrength::Neutral);
    assert_eq!(vote.reason, "MACD flat");
}

#[test]
fn supertrend_up() {
    let reading = SupertrendReading {
        direction: SupertrendDirection::Up,
        value_text: format!("{:.2}", 100.0),
    };
    let vote = SupertrendRule.vote(Some(&reading)).unwrap();
    assert_eq!(vote.strength, SignalStrength::Buy);
    assert_eq!(vote.reason, "Supertrend UP — support at 100.00");
    assert_eq!(vote.weight_tenths, 10);
}

#[test]
fn supertrend_down_is_sell() {
    let reading = SupertrendReading {
        direction: SupertrendDirection::Down,
        value_text: "120.00".to_string(),
    };
    let vote = SupertrendRule.vote(Some(&reading)).unwrap();
    assert_eq!(vote.strength, SignalStrength::Sell);
    assert_eq!(vote.reason, "Supertrend DOWN — resistance at 120.00");
}

#[test]
fn rules_volume_surging() {
    let vote = VolumeTrendRule.vote("surging").unwrap();
    assert_eq!(vote.strength, SignalStrength::Buy);
    assert_eq!(vote.reason, "Volume surging — confirms momentum");
    assert_eq!(vote.weight_tenths, 6);
}

#[test]
fn volume_rule_every_label() {
    assert_eq!(VolumeTrendRule.vote("increasing").unwrap().strength, SignalStrength::Buy);
    assert_eq!(VolumeTrendRule.vote("stable").unwrap().strength, SignalStrength::Neutral);
    assert_eq!(VolumeTrendRule.vote("declining").unwrap().strength, SignalStrength::Sell);
    assert_eq!(VolumeTrendRule.vote("drying up").unwrap().strength, SignalStrength::StrongSell);
    assert!(VolumeTrendRule.vote("insufficient data").is_none());
    assert!(VolumeTrendRule.vote("").is_none());
    assert!(VolumeTrendRule.vote("Surging").is_none());
}

#[test]
fn adx_strong() {
    let vote = AdxTrendRule.vote(Some(&adx_reading(45.0))).unwrap();
    assert_eq!(vote.strength, SignalStrength::StrongBuy);
    assert_eq!(vote.reason, "ADX 45.0 — very strong trend");
    assert_eq!(vote.weight_tenths, 5);
}

#[test]
fn adx_weak_trends_are_neutral() {
    let vote = AdxTrendRule.vote(Some(&adx_reading(30.0))).unwrap();
    assert_eq!(vote.strength, SignalStrength::Neutral);
    assert_eq!(vote.reason, "ADX 30.0 — trending (confirms direction)");
    let vote = AdxTrendRule.vote(Some(&adx_reading(10.0))).unwrap();
    assert_eq!(vote.strength, SignalStrength::Neutral);
    assert_eq!(vote.reason, "ADX 10.0 — no trend, range-bound");
}

#[test]
fn stochastic_oversold() {
    let vote = StochasticRule.vote(Some(&stochastic_reading(15.0, 15.0))).unwrap();
    assert_eq!(vote.strength, SignalStrength::StrongBuy);
    assert_eq!(vote.reason, "Stochastic K=15.0 D=15.0 — deeply oversold");
    assert_eq!(vote.weight_tenths, 7);
}

#[test]
fn rules_stochastic_overbought() {
    let vote = StochasticRule.vote(Some(&stochastic_reading(85.0, 85.0))).unwrap();
    assert_eq!(vote.strength, SignalStrength::StrongSell);
}

#[test]
fn stochastic_k_alone_is_not_strong() {
    let vote = StochasticRule.vote(Some(&stochastic_reading(18.0, 25.0))).unwrap();
    assert_eq!(vote.strength, SignalStrength::Buy);
    assert_eq!(vote.reason, "Stochastic K=18.0 — oversold zone");
    let vote = StochasticRule.vote(Some(&stochastic_reading(75.0, 85.0))).unwrap();
    assert_eq!(vote.strength, SignalStrength::Sell);
}

#[test]
fn missing_data_returns_none() {
    assert!(RsiRule.vote(None).is_none());
    assert!(MacdCrossoverRule.vote(None).is_none());
    assert!(SupertrendRule.vote(None).is_none());
    assert!(AdxTrendRule.vote(None).is_none());
    assert!(StochasticRule.vote(None).is_none());
}
