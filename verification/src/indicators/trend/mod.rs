pub mod adx;
pub mod ema;
pub mod sma;
pub mod supertrend;
