//! Technical-analysis building blocks for stock-market indicators: the decisions,
//! classifications and warm-up schedules of the indicators and of the signal rules,
//! and the conditions under which each indicator has enough data.

use vstd::prelude::*;

pub mod indicators;
pub mod macd;
pub mod relative_strength;
pub mod signals;
pub mod streaming;

pub use macd::Crossover;

verus! {

} // verus!
