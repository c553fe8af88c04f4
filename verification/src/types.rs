//! The records that travel through the service, and their mathematical views.
//!
//! Numbers that the outside world writes as binary floating point are carried
//! as their IEEE-754 bit patterns. Nothing here does arithmetic on them; they
//! are stored, compared against range bounds and handed on unchanged.

use crate::text::same_text;
use vstd::prelude::*;

verus! {

/// What one unlock costs, in the smallest unit of the settlement asset.
pub const CATALOG_PRICE: u64 = 50000;

/// The bit pattern of the single-precision number 100.
pub const PERCENT_FULL: u32 = 0x42c8_0000;

/// The bit pattern of the single-precision number 1.
pub const UNIT_FULL: u32 = 0x3f80_0000;

/// The bit pattern of single-precision negative zero.
pub const NEGATIVE_ZERO_32: u32 = 0x8000_0000;

/// The bit pattern of double-precision positive infinity.
pub const INFINITY_64: u64 = 0x7ff0_0000_0000_0000;

/// The bit pattern of double-precision negative zero.
pub const NEGATIVE_ZERO_64: u64 = 0x8000_0000_0000_0000;

/// A single-precision number, held as its IEEE-754 bit pattern.
///
/// For patterns with a clear sign bit that are no NaN, the pattern read as an
/// integer grows exactly as the number does, so a range of non-negative
/// numbers is a range of patterns. Negative zero has its own pattern and
/// counts as zero; every NaN lies above the pattern of infinity, and so
/// outside every range.
#[derive(Clone, Copy, Debug, PartialEq, Eq, Structural)]
pub struct Binary32 {
    pub bits: u32,
}

impl Binary32 {
    /// The number lies between 0 and 100, both included.
    pub open spec fn is_percentage(self) -> bool {
        self.bits <= PERCENT_FULL || self.bits == NEGATIVE_ZERO_32
    }

    /// The number lies between 0 and 1, both included.
    pub open spec fn is_unit_fraction(self) -> bool {
        self.bits <= UNIT_FULL || self.bits == NEGATIVE_ZERO_32
    }

    /// Whether the number lies between 0 and 100, both included.
    pub fn in_percent_range(&self) -> (yes: bool)
        ensures
            yes == self.is_percentage(),
    {
        self.bits <= PERCENT_FULL || self.bits == NEGATIVE_ZERO_32
    }

    /// Whether the number lies between 0 and 1, both included.
    pub fn in_unit_range(&self) -> (yes: bool)
        ensures
            yes == self.is_unit_fraction(),
    {
        self.bits <= UNIT_FULL || self.bits == NEGATIVE_ZERO_32
    }
}

/// A double-precision number, held as its IEEE-754 bit pattern.
#[derive(Clone, Copy, Debug, PartialEq, Eq, Structural)]
pub struct Binary64 {
    pub bits: u64,
}

impl Binary64 {
    /// The number is zero or greater; positive infinity counts, NaN does not.
    pub open spec fn is_non_negative(self) -> bool {
        self.bits <= INFINITY_64 || self.bits == NEGATIVE_ZERO_64
    }

    /// Whether the number is zero or greater.
    pub fn at_least_zero(&self) -> (yes: bool)
        ensures
            yes == self.is_non_negative(),
    {
        self.bits <= INFINITY_64 || self.bits == NEGATIVE_ZERO_64
    }
}

/// A moment in time: whole seconds since the Unix epoch and the nanoseconds
/// into that second.
#[derive(Clone, Copy, Debug, PartialEq, Eq, Structural)]
pub struct Timestamp {
    pub secs: i64,
    pub nanos: u32,
}

/// The venues a signal can come from.
#[derive(Clone, Copy, Debug, PartialEq, Eq, Structural)]
pub enum MarketPlatform {
    Polymarket,
    Kalshi,
    Solflare,
}

impl MarketPlatform {
    /// The venue's name as data sources write it.
    pub open spec fn spec_name(self) -> Seq<char> {
        match self {
            MarketPlatform::Polymarket => "Polymarket"@,
            MarketPlatform::Kalshi => "Kalshi"@,
            MarketPlatform::Solflare => "Solflare"@,
        }
    }

    /// The venue that a data source calls `name`, if it is a supported one.
    pub open spec fn spec_from_name(name: Seq<char>) -> Option<MarketPlatform> {
        if name == "Polymarket"@ {
            Some(MarketPlatform::Polymarket)
        } else if name == "Kalshi"@ {
            Some(MarketPlatform::Kalshi)
        } else if name == "Solflare"@ {
            Some(MarketPlatform::Solflare)
        } else {
            None
        }
    }

    /// The venue's name as data sources write it.
    pub fn name(&self) -> (name: &'static str)
        ensures
            name@ == self.spec_name(),
    {
        match self {
            MarketPlatform::Polymarket => "Polymarket",
            MarketPlatform::Kalshi => "Kalshi",
            MarketPlatform::Solflare => "Solflare",
        }
    }

    /// Reads a venue name at the data-source boundary. Names are matched
    /// exactly; anything else is no supported venue.
    pub fn from_name(name: &str) -> (platform: Option<MarketPlatform>)
        ensures
            platform == Self::spec_from_name(name@),
    {
        if same_text(name, "Polymarket") {
            Some(MarketPlatform::Polymarket)
        } else if same_text(name, "Kalshi") {
            Some(MarketPlatform::Kalshi)
        } else if same_text(name, "Solflare") {
            Some(MarketPlatform::Solflare)
        } else {
            None
        }
    }

    /// Every venue is read back from its own name.
    pub proof fn lemma_name_round_trip(self)
        ensures
            Self::spec_from_name(self.spec_name()) == Some(self),
    {
        reveal_strlit("Polymarket");
        reveal_strlit("Kalshi");
        reveal_strlit("Solflare");
        assert("Polymarket"@[0] == 'P');
        assert("Kalshi"@[0] == 'K');
        assert("Solflare"@[0] == 'S');
    }
}

/// The views of a list of texts.
pub open spec fn views_of(texts: Seq<String>) -> Seq<Seq<char>> {
    Seq::new(texts.len(), |i: int| texts[i]@)
}

/// A snapshot of one market as a data source reported it.
#[derive(Clone, Debug, PartialEq, Eq)]
pub struct MarketObservation {
    pub platform: MarketPlatform,
    pub market_name: String,
    pub volume: Binary64,
    pub current_odds: Binary32,
    pub external_id: String,
}

/// The mathematical content of a [`MarketObservation`].
pub ghost struct ObservationView {
    pub platform: MarketPlatform,
    pub market_name: Seq<char>,
    pub volume: Binary64,
    pub current_odds: Binary32,
    pub external_id: Seq<char>,
}

impl ObservationView {
    /// Volume is not negative and the odds are a probability.
    pub open spec fn is_well_formed(self) -> bool {
        self.volume.is_non_negative() && self.current_odds.is_unit_fraction()
    }
}

impl View for MarketObservation {
    type V = ObservationView;

    open spec fn view(&self) -> ObservationView {
        ObservationView {
            platform: self.platform,
            market_name: self.market_name@,
            volume: self.volume,
            current_odds: self.current_odds,
            external_id: self.external_id@,
        }
    }
}

impl MarketObservation {
    /// Whether volume is not negative and the odds are a probability.
    pub fn is_well_formed(&self) -> (yes: bool)
        ensures
            yes == self@.is_well_formed(),
    {
        self.volume.at_least_zero() && self.current_odds.in_unit_range()
    }
}

/// The scorer's opinion on one market.
#[derive(Clone, Debug, PartialEq, Eq)]
pub struct MarketAlpha {
    pub win_probability: Binary32,
    pub alpha_reasoning: String,
    pub tail_risks: Vec<String>,
}

/// The mathematical content of a [`MarketAlpha`].
pub ghost struct AlphaView {
    pub win_probability: Binary32,
    pub alpha_reasoning: Seq<char>,
    pub tail_risks: Seq<Seq<char>>,
}

impl AlphaView {
    /// The probability is a percentage and there is some reasoning.
    pub open spec fn is_well_formed(self) -> bool {
        self.win_probability.is_percentage() && self.alpha_reasoning.len() > 0
    }
}

impl View for MarketAlpha {
    type V = AlphaView;

    open spec fn view(&self) -> AlphaView {
        AlphaView {
            win_probability: self.win_probability,
            alpha_reasoning: self.alpha_reasoning@,
            tail_risks: views_of(self.tail_risks@),
        }
    }
}

impl MarketAlpha {
    /// Whether the probability is a percentage and there is some reasoning.
    pub fn is_well_formed(&self) -> (yes: bool)
        ensures
            yes == self@.is_well_formed(),
    {
        self.win_probability.in_percent_range() && !self.alpha_reasoning.as_str().is_empty()
    }
}

/// A priced, lockable prediction on one market.
#[derive(Clone, Debug, PartialEq, Eq)]
pub struct Signal {
    pub id: String,
    pub market_id: String,
    pub platform: MarketPlatform,
    pub title: String,
    pub win_probability: Binary32,
    pub alpha_analysis: String,
    pub micropayment_price: u64,
    pub created_at: Timestamp,
    pub is_locked: bool,
    pub community_up: u32,
    pub community_down: u32,
}

/// The mathematical content of a [`Signal`].
pub ghost struct SignalView {
    pub id: Seq<char>,
    pub market_id: Seq<char>,
    pub platform: MarketPlatform,
    pub title: Seq<char>,
    pub win_probability: Binary32,
    pub alpha_analysis: Seq<char>,
    pub micropayment_price: u64,
    pub created_at: Timestamp,
    pub is_locked: bool,
    pub community_up: u32,
    pub community_down: u32,
}

impl SignalView {
    /// The price is positive, the probability is a percentage and there is
    /// some reasoning.
    pub open spec fn is_well_formed(self) -> bool {
        &&& self.micropayment_price > 0
        &&& self.win_probability.is_percentage()
        &&& self.alpha_analysis.len() > 0
    }
}

impl View for Signal {
    type V = SignalView;

    open spec fn view(&self) -> SignalView {
        SignalView {
            id: self.id@,
            market_id: self.market_id@,
            platform: self.platform,
            title: self.title@,
            win_probability: self.win_probability,
            alpha_analysis: self.alpha_analysis@,
            micropayment_price: self.micropayment_price,
            created_at: self.created_at,
            is_locked: self.is_locked,
            community_up: self.community_up,
            community_down: self.community_down,
        }
    }
}

/// The views of a list of signals.
pub open spec fn signal_views(signals: Seq<Signal>) -> Seq<SignalView> {
    Seq::new(signals.len(), |i: int| signals[i]@)
}

} // verus!
