//! Circuit limits of Indian exchanges.
use vstd::prelude::*;

verus! {

/// Circuit limit bands for Indian stocks.
#[derive(Debug, Clone, Copy, PartialEq, Eq, Structural)]
pub enum CircuitLimit {
    Percent2,
    Percent5,
    Percent10,
    Percent20,
}

/// The daily move, in percent of the previous close, that a band allows.
pub open spec fn limit_percent(l: CircuitLimit) -> nat {
    match l {
        CircuitLimit::Percent2 => 2,
        CircuitLimit::Percent5 => 5,
        CircuitLimit::Percent10 => 10,
        CircuitLimit::Percent20 => 20,
    }
}

impl CircuitLimit {
    /// The daily move the band allows, in percent of the previous close (2, 5, 10 or
    /// 20); the price limits are the previous close times `1 ± percent / 100`.
    pub fn percent(self) -> (p: u32)
        ensures
            p == limit_percent(self),
    {
        match self {
            CircuitLimit::Percent2 => 2,
            CircuitLimit::Percent5 => 5,
            CircuitLimit::Percent10 => 10,
            CircuitLimit::Percent20 => 20,
        }
    }
}

} // verus!
