pub mod obv;
pub mod volume_trend;
pub mod vwap;
