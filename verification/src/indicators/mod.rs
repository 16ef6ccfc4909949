pub mod india;
pub mod momentum;
pub mod trend;
pub mod volatility;
pub mod volume;
