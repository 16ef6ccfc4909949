pub mod macd;
pub mod rsi;
pub mod stochastic;
