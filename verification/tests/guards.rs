use indica::indicators::india::delivery::delivery_enough_data;
use indica::indicators::momentum::macd::macd_enough_data;
use indica::indicators::momentum::rsi::rsi_enough_data;
use indica::indicators::momentum::stochastic::stochastic_enough_data;
use indica::indicators::trend::adx::adx_enough_data;
use indica::indicators::trend::ema::ema_enough_data;
use indica::indicators::trend::sma::has_full_window;
use indica::indicators::trend::supertrend::supertrend_enough_data;
use indica::indicators::volatility::atr::atr_enough_data;
use indica::indicators::volume::obv::{obv_direction, obv_enough_data};
use indica::indicators::volume::volume_trend::volume_enough_data;
use indica::indicators::volume::vwap::vwap_enough_data;
use indica::relative_strength::relative_strength_enough_data;
use indica::streaming::sign::Sign;

#[test]
fn sma_fn_insufficient() {
    assert!(!has_full_window(2, 5));
    assert!(!has_full_window(0, 1));
}

#[test]
fn sma_insufficient_data() {
    assert!(!has_full_window([1.0, 2.0].len(), 5));
    assert!(!has_full_window(0, 1));
}

#[test]
fn full_window_exact_and_zero_period() {
    assert!(has_full_window(3, 3));
    assert!(has_full_window(5, 3));
    assert!(!has_full_window(5, 0));
}

#[test]
fn ema_fn_insufficient() {
    assert!(!ema_enough_data(1, 5));
    assert!(ema_enough_data(6, 3));
}

#[test]
fn bb_insufficient_data() {
    assert!(!has_full_window(5, 20));
}

#[test]
fn rsi_insufficient() {
    assert!(!rsi_enough_data(2, 14));
}

#[test]
fn rsi_insufficient_data() {
    assert!(!rsi_enough_data(2, 14));
    assert!(!rsi_enough_data(0, 14));
}

#[test]
fn rsi_needs_one_more_close_than_period() {
    assert!(!rsi_enough_data(14, 14));
    assert!(rsi_enough_data(15, 14));
    assert!(!rsi_enough_data(20, 0));
}

#[test]
fn atr_insufficient() {
    assert!(!atr_enough_data(5, 5, 5, 14));
}

#[test]
fn atr_insufficient_data() {
    assert!(!atr_enough_data(5, 5, 5, 14));
    assert!(atr_enough_data(16, 16, 16, 14));
    assert!(!atr_enough_data(16, 15, 16, 14));
}

#[test]
fn adx_insufficient() {
    assert!(!adx_enough_data(10, 10, 10, 14));
    assert!(!adx_enough_data(28, 28, 28, 14));
    assert!(adx_enough_data(29, 29, 29, 14));
}

#[test]
fn supertrend_insufficient() {
    assert!(!supertrend_enough_data(5, 5, 5, 10));
    assert!(supertrend_enough_data(11, 11, 11, 10));
}

#[test]
fn stochastic_insufficient() {
    assert!(!stochastic_enough_data(5, 5, 5, 14, 3));
    assert!(stochastic_enough_data(16, 16, 16, 14, 3));
    assert!(!stochastic_enough_data(16, 16, 16, 0, 3));
    assert!(!stochastic_enough_data(1, 1, 1, 0, 0));
}

#[test]
fn macd_invalid_params() {
    assert!(!macd_enough_data(50, 0, 26, 9));
    assert!(!macd_enough_data(50, 26, 12, 9));
    assert!(macd_enough_data(50, 12, 26, 9));
}

#[test]
fn macd_insufficient_data() {
    assert!(!indica::macd::macd_enough_data(20, 12, 26, 9));
    assert!(indica::macd::macd_enough_data(35, 12, 26, 9));
}

#[test]
fn flat_macd_fast_period_within_closes() {
    assert!(!indica::macd::macd_enough_data(35, 40, 26, 9));
    assert!(!indica::macd::macd_enough_data(35, 0, 26, 9));
    assert!(indica::macd::macd_enough_data(35, 26, 26, 9));
    assert!(indica::macd::macd_enough_data(40, 30, 26, 9));
    assert!(!indica::macd::macd_enough_data(35, 12, 26, 0));
}

#[test]
fn obv_insufficient() {
    assert!(!obv_enough_data(1, 1));
    assert!(obv_enough_data(4, 4));
    assert!(!obv_enough_data(4, 3));
}

#[test]
fn obv_counts_up_and_down_days() {
    assert_eq!(obv_direction(Sign::Positive), 1);
    assert_eq!(obv_direction(Sign::Negative), -1);
    assert_eq!(obv_direction(Sign::Zero), 0);
    assert_eq!(obv_direction(Sign::Unordered), 0);
}

#[test]
fn vwap_empty() {
    assert!(!vwap_enough_data(0, 0, 0, 0));
    assert!(vwap_enough_data(1, 1, 1, 1));
}

#[test]
fn volume_insufficient() {
    assert!(!volume_enough_data(10));
    assert!(volume_enough_data(20));
}

#[test]
fn insufficient() {
    assert!(!volume_enough_data([100.0; 10].len()));
    assert_eq!(
        indica::indicators::volume::volume_trend::VolumeTrend::InsufficientData.as_str(),
        "insufficient data"
    );
}

#[test]
fn rs_insufficient_data() {
    assert!(!relative_strength_enough_data(1, 1, 5));
    assert!(relative_strength_enough_data(3, 3, 3));
}

#[test]
fn delivery_needs_long_period() {
    assert!(delivery_enough_data(10, 10, 3, 10));
    assert!(!delivery_enough_data(9, 10, 3, 10));
    assert!(!delivery_enough_data(10, 10, 10, 10));
    assert!(!delivery_enough_data(10, 10, 0, 10));
}
