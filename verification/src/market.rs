//! The market source: the observations that signals are made from.

use crate::types::{Binary32, Binary64, MarketObservation, MarketPlatform, ObservationView};
use vstd::prelude::*;
use vstd::string::*;

verus! {

/// The bit pattern of the double-precision number 12500000.
pub const POLYMARKET_VOLUME: u64 = 0x4167_d784_0000_0000;

/// The bit pattern of the single-precision number 0.15.
pub const POLYMARKET_ODDS: u32 = 0x3e19_999a;

/// The bit pattern of the double-precision number 8400000.
pub const KALSHI_VOLUME: u64 = 0x4160_0590_0000_0000;

/// The bit pattern of the single-precision number 0.58.
pub const KALSHI_ODDS: u32 = 0x3f14_7ae1;

/// Why a market source gave no observations.
#[derive(Clone, Copy, Debug, PartialEq, Eq, Structural)]
pub enum FetchError {
    /// The source could not be reached.
    Unavailable,
}

/// The market that Polymarket reports as trending.
pub open spec fn polymarket_trending() -> ObservationView {
    ObservationView {
        platform: MarketPlatform::Polymarket,
        market_name: "Will ETH reach $10k by End of 2026?"@,
        volume: Binary64 { bits: POLYMARKET_VOLUME },
        current_odds: Binary32 { bits: POLYMARKET_ODDS },
        external_id: "polymarket-123"@,
    }
}

/// The market that Kalshi reports as trending.
pub open spec fn kalshi_trending() -> ObservationView {
    ObservationView {
        platform: MarketPlatform::Kalshi,
        market_name: "Super Bowl LIX: Chiefs to Win?"@,
        volume: Binary64 { bits: KALSHI_VOLUME },
        current_odds: Binary32 { bits: KALSHI_ODDS },
        external_id: "kalshi-456"@,
    }
}

/// The views of a list of observations.
pub open spec fn observation_views(observations: Seq<MarketObservation>) -> Seq<ObservationView> {
    Seq::new(observations.len(), |i: int| observations[i]@)
}

/// Reads the trending markets of the supported venues.
pub struct MarketFetcher {}

impl MarketFetcher {
    pub fn new() -> (fetcher: Self) {
        MarketFetcher {  }
    }

    /// The markets trending on Polymarket: one fixed, well-formed observation.
    pub fn fetch_polymarket_trending(&self) -> (fetched: Result<Vec<MarketObservation>, FetchError>)
        ensures
            fetched matches Ok(observations) && observation_views(observations@)
                == seq![polymarket_trending()],
            polymarket_trending().is_well_formed(),
    {
        let mut observations: Vec<MarketObservation> = Vec::new();
        observations.push(
            MarketObservation {
                platform: MarketPlatform::Polymarket,
                market_name: String::from_str("Will ETH reach $10k by End of 2026?"),
                volume: Binary64 { bits: POLYMARKET_VOLUME },
                current_odds: Binary32 { bits: POLYMARKET_ODDS },
                external_id: String::from_str("polymarket-123"),
            },
        );
        assert(observation_views(observations@) =~= seq![polymarket_trending()]);
        Ok(observations)
    }

    /// The markets trending on Kalshi: one fixed, well-formed observation.
    pub fn fetch_kalshi_trending(&self) -> (fetched: Result<Vec<MarketObservation>, FetchError>)
        ensures
            fetched matches Ok(observations) && observation_views(observations@)
                == seq![kalshi_trending()],
            kalshi_trending().is_well_formed(),
    {
        let mut observations: Vec<MarketObservation> = Vec::new();
        observations.push(
            MarketObservation {
                platform: MarketPlatform::Kalshi,
                market_name: String::from_str("Super Bowl LIX: Chiefs to Win?"),
                volume: Binary64 { bits: KALSHI_VOLUME },
                current_odds: Binary32 { bits: KALSHI_ODDS },
                external_id: String::from_str("kalshi-456"),
            },
        );
        assert(observation_views(observations@) =~= seq![kalshi_trending()]);
        Ok(observations)
    }
}

} // verus!
