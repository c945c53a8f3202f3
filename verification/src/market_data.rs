//! Market data providers.

use vstd::prelude::*;
use crate::domain::{CalendarDate, MarketSnapshot, OptionContract};
use crate::errors::AppError;

verus! {

/// A request for the quotes of one contract as of a date.
#[derive(Debug, Clone, PartialEq, Eq)]
pub struct MarketDataRequest {
    pub contract: OptionContract,
    pub as_of: CalendarDate,
}

/// Provides market snapshots.
pub trait MarketDataProvider {
    fn snapshot(&self, request: MarketDataRequest) -> Result<MarketSnapshot, AppError>;
}

/// A provider that answers every request with the same snapshot.
#[derive(Debug, Clone)]
pub struct FixtureMarketDataProvider {
    snapshot: MarketSnapshot,
}

impl FixtureMarketDataProvider {
    /// The snapshot this provider always gives.
    pub closed spec fn spec_snapshot(&self) -> MarketSnapshot {
        self.snapshot
    }

    /// A provider that always answers `snapshot`.
    pub fn new(snapshot: MarketSnapshot) -> (r: Self)
        ensures
            r.spec_snapshot() == snapshot,
    {
        FixtureMarketDataProvider { snapshot }
    }
}

impl MarketDataProvider for FixtureMarketDataProvider {
    fn snapshot(&self, request: MarketDataRequest) -> (r: Result<MarketSnapshot, AppError>)
        ensures
            r matches Ok(s) && s == self.spec_snapshot(),
    {
        Ok(self.snapshot.clone())
    }
}

} // verus!
