//! The signal assembler and the service that refreshes the signal list.

use crate::agent::{
    fallback_alpha, fallback_view, lemma_fallback_is_well_formed, opinion_of, outcome_view,
    GeminiAgent, ScoringError,
};
use crate::market::{
    kalshi_trending, observation_views, polymarket_trending, FetchError, MarketFetcher,
};
use crate::outside::{
    address_bytes, decode_address, is_base58_text, is_random_uuid_text, random_identifier, utc_now,
    MAX_ADDRESS_CHARS,
};
use crate::types::{
    signal_views, AlphaView, MarketAlpha, MarketObservation, ObservationView, Signal, SignalView,
    Timestamp, CATALOG_PRICE,
};
use crate::text::optional_text;
use crate::x402::X402Verifier;
use vstd::prelude::*;
use vstd::string::*;

verus! {

/// The ledger endpoint that is used where none is configured.
pub const DEFAULT_RPC_URL: &'static str = "https://api.devnet.solana.com";

/// The signal that is made of one observation and one opinion, under the
/// identifier `id` and created at `created_at`: locked, at the catalog price,
/// with no votes.
pub open spec fn assembled(
    observation: ObservationView,
    opinion: AlphaView,
    id: Seq<char>,
    created_at: Timestamp,
) -> SignalView {
    SignalView {
        id,
        market_id: observation.external_id,
        platform: observation.platform,
        title: observation.market_name,
        win_probability: opinion.win_probability,
        alpha_analysis: opinion.alpha_reasoning,
        micropayment_price: CATALOG_PRICE,
        created_at,
        is_locked: true,
        community_up: 0,
        community_down: 0,
    }
}

/// `signal` is what the assembler makes of `observation` and `opinion`: all
/// of it is fixed by the two but the identifier, which is a random UUID, and
/// the creation time, which is a reading of the clock.
pub open spec fn is_assembly_of(
    signal: SignalView,
    observation: ObservationView,
    opinion: AlphaView,
) -> bool {
    &&& signal == assembled(observation, opinion, signal.id, signal.created_at)
    &&& is_random_uuid_text(signal.id)
    &&& signal.created_at.secs >= 0
    &&& signal.created_at.nanos < 1_000_000_000
}

/// The views of a list of scoring outcomes.
pub open spec fn outcome_views(outcomes: Seq<Result<MarketAlpha, ScoringError>>) -> Seq<
    Result<AlphaView, ScoringError>,
> {
    Seq::new(outcomes.len(), |i: int| outcome_view(outcomes[i]))
}

/// The opinion on the `i`-th observation: what the `i`-th outcome stands for,
/// and the fallback where there is no such outcome.
pub open spec fn opinion_at(outcomes: Seq<Result<AlphaView, ScoringError>>, i: int) -> AlphaView {
    if 0 <= i < outcomes.len() {
        opinion_of(outcomes[i])
    } else {
        fallback_view()
    }
}

/// `signals` is what the assembler makes of `observations` and `outcomes`:
/// one signal per observation, in the observations' order.
pub open spec fn is_assembly(
    signals: Seq<SignalView>,
    observations: Seq<ObservationView>,
    outcomes: Seq<Result<AlphaView, ScoringError>>,
) -> bool {
    &&& signals.len() == observations.len()
    &&& forall|i: int|
        0 <= i < signals.len() ==> is_assembly_of(
            #[trigger] signals[i],
            observations[i],
            opinion_at(outcomes, i),
        )
}

/// `signals` is what a refresh makes when `score` scores the observations:
/// the assembly of the trending markets of Polymarket and Kalshi, in that
/// order, with an outcome for each that `score` gives for it.
pub open spec fn is_refresh<F: Fn(&MarketObservation) -> Result<MarketAlpha, ScoringError>>(
    score: F,
    signals: Seq<SignalView>,
) -> bool {
    exists|observations: Seq<MarketObservation>, outcomes: Seq<Result<MarketAlpha, ScoringError>>|
        #![trigger observation_views(observations), outcome_views(outcomes)]
        observation_views(observations) == seq![polymarket_trending(), kalshi_trending()]
            && outcomes.len() == 2 && call_ensures(score, (&observations[0],), outcomes[0])
            && call_ensures(score, (&observations[1],), outcomes[1]) && is_assembly(
            signals,
            observation_views(observations),
            outcome_views(outcomes),
        )
}

/// An assembly holds one signal per observation, and each is locked, priced
/// at the catalog price and well-formed.
pub proof fn lemma_assembly_is_locked_and_priced(
    signals: Seq<SignalView>,
    observations: Seq<ObservationView>,
    outcomes: Seq<Result<AlphaView, ScoringError>>,
)
    requires
        is_assembly(signals, observations, outcomes),
    ensures
        signals.len() == observations.len(),
        forall|i: int|
            0 <= i < signals.len() ==> (#[trigger] signals[i]).is_locked
                && signals[i].micropayment_price == CATALOG_PRICE && signals[i].is_well_formed(),
        forall|i: int|
            0 <= i < signals.len() ==> (#[trigger] signals[i]).market_id
                == observations[i].external_id && signals[i].title == observations[i].market_name
                && signals[i].platform == observations[i].platform,
{
    lemma_fallback_is_well_formed();
}

/// A failed scoring touches its own signal only. Where two runs over the same
/// observations agree on the outcome for one of them, they agree on that
/// observation's signal, up to its identifier and creation time, whatever
/// the other outcomes were; and a failed scoring leaves the fallback opinion
/// in its signal.
pub proof fn lemma_failures_stay_local(
    first: Seq<SignalView>,
    second: Seq<SignalView>,
    observations: Seq<ObservationView>,
    first_outcomes: Seq<Result<AlphaView, ScoringError>>,
    second_outcomes: Seq<Result<AlphaView, ScoringError>>,
    i: int,
)
    requires
        is_assembly(first, observations, first_outcomes),
        is_assembly(second, observations, second_outcomes),
        0 <= i < observations.len(),
        i < first_outcomes.len(),
        i < second_outcomes.len(),
        first_outcomes[i] == second_outcomes[i],
    ensures
        first.len() == second.len() == observations.len(),
        first[i] == (SignalView { id: first[i].id, created_at: first[i].created_at, ..second[i] }),
        first_outcomes[i] is Err ==> first[i].alpha_analysis == fallback_view().alpha_reasoning
            && first[i].win_probability == fallback_view().win_probability,
        first_outcomes[i] matches Ok(alpha) ==> (alpha.is_well_formed() ==> first[i].alpha_analysis
            == alpha.alpha_reasoning && first[i].win_probability == alpha.win_probability),
{
}

/// Makes one signal of an observation and an opinion, under the given
/// identifier and creation time.
pub fn assemble_signal(
    observation: &MarketObservation,
    opinion: &MarketAlpha,
    id: String,
    created_at: Timestamp,
) -> (signal: Signal)
    ensures
        signal@ == assembled(observation@, opinion@, id@, created_at),
{
    Signal {
        id,
        market_id: observation.external_id.clone(),
        platform: observation.platform,
        title: observation.market_name.clone(),
        win_probability: opinion.win_probability,
        alpha_analysis: opinion.alpha_reasoning.clone(),
        micropayment_price: CATALOG_PRICE,
        created_at,
        is_locked: true,
        community_up: 0,
        community_down: 0,
    }
}

/// Makes the signals of a refresh: one per observation, in the observations'
/// order. The `i`-th outcome scores the `i`-th observation; where it is a
/// failure or an ill-formed opinion, or where there is no `i`-th outcome, the
/// fallback opinion takes its place. Outcomes beyond the observations are
/// ignored.
pub fn assemble(
    observations: &Vec<MarketObservation>,
    outcomes: &Vec<Result<MarketAlpha, ScoringError>>,
) -> (signals: Vec<Signal>)
    ensures
        is_assembly(
            signal_views(signals@),
            observation_views(observations@),
            outcome_views(outcomes@),
        ),
{
    let fallback = fallback_alpha();
    let mut signals: Vec<Signal> = Vec::new();
    let mut i: usize = 0;
    while i < observations.len()
        invariant
            i <= observations@.len(),
            fallback@ == fallback_view(),
            signals@.len() == i,
            forall|k: int|
                0 <= k < i ==> is_assembly_of(
                    (#[trigger] signals@[k])@,
                    observations@[k]@,
                    opinion_at(outcome_views(outcomes@), k),
                ),
        decreases observations@.len() - i,
    {
        let id = random_identifier();
        let created_at = utc_now();
        let signal = if i < outcomes.len() {
            match &outcomes[i] {
                Ok(alpha) => if alpha.is_well_formed() {
                    assemble_signal(&observations[i], alpha, id, created_at)
                } else {
                    assemble_signal(&observations[i], &fallback, id, created_at)
                },
                Err(_) => assemble_signal(&observations[i], &fallback, id, created_at),
            }
        } else {
            assemble_signal(&observations[i], &fallback, id, created_at)
        };
        signals.push(signal);
        i += 1;
    }
    signals
}

/// Why the service could not be set up.
#[derive(Clone, Copy, Debug, PartialEq, Eq, Structural)]
pub enum ConfigurationFailure {
    /// No scorer credential is configured.
    MissingCredential,
    /// No vault address is configured.
    MissingVaultAddress,
    /// The configured vault address names no account.
    InvalidVaultAddress,
}

/// The ledger endpoint to use: the configured one, or the public default.
pub open spec fn chosen_rpc_url(configured: Option<Seq<char>>) -> Seq<char> {
    match configured {
        Some(url) => url,
        None => DEFAULT_RPC_URL@,
    }
}

/// What is wrong with a configuration, if anything: the credential is asked
/// for first, then the vault address, which must name an account.
pub open spec fn configuration_failure(
    has_credential: bool,
    vault_addr: Option<Seq<char>>,
) -> Option<ConfigurationFailure> {
    if !has_credential {
        Some(ConfigurationFailure::MissingCredential)
    } else {
        match vault_addr {
            None => Some(ConfigurationFailure::MissingVaultAddress),
            Some(vault) => if address_bytes(vault) is None {
                Some(ConfigurationFailure::InvalidVaultAddress)
            } else {
                None
            },
        }
    }
}

/// The service: the scoring agent, the market source and the payment verifier.
pub struct SignalService {
    pub agent: GeminiAgent,
    pub fetcher: MarketFetcher,
    pub verifier: X402Verifier,
}

impl SignalService {
    /// Sets the service up from its configuration. The vault address must be
    /// configured and name an account; a missing ledger endpoint falls back
    /// to the public default.
    pub fn new(api_key: String, rpc_url: Option<&str>, vault_addr: &str) -> (service: Self)
        requires
            address_bytes(vault_addr@) is Some,
        ensures
            service.agent.credential() == api_key@,
            service.verifier.vault() == vault_addr@,
            service.verifier.endpoint() == chosen_rpc_url(optional_text(rpc_url)),
    {
        let url = match rpc_url {
            Some(url) => url,
            None => DEFAULT_RPC_URL,
        };
        SignalService {
            agent: GeminiAgent::new(api_key),
            fetcher: MarketFetcher::new(),
            verifier: X402Verifier::new(url, vault_addr),
        }
    }

    /// Sets the service up from settings that may be missing, or says what is
    /// wrong with them: a missing credential first, then a missing vault
    /// address, then one that names no account.
    pub fn configure(
        api_key: Option<String>,
        rpc_url: Option<&str>,
        vault_addr: Option<&str>,
    ) -> (configured: Result<Self, ConfigurationFailure>)
        ensures
            configuration_failure(api_key is Some, optional_text(vault_addr)) == (match configured {
                Ok(_) => None,
                Err(failure) => Some(failure),
            }),
            configured matches Ok(service) ==> api_key matches Some(key) && vault_addr matches Some(
                vault,
            ) && service.agent.credential() == key@ && service.verifier.vault() == vault@
                && service.verifier.endpoint() == chosen_rpc_url(optional_text(rpc_url)),
            vault_addr matches Some(vault) ==> (vault@.len() > MAX_ADDRESS_CHARS || !is_base58_text(
                vault@,
            ) ==> configured is Err),
    {
        let key = match api_key {
            Some(key) => key,
            None => {
                return Err(ConfigurationFailure::MissingCredential);
            },
        };
        let vault = match vault_addr {
            Some(vault) => vault,
            None => {
                return Err(ConfigurationFailure::MissingVaultAddress);
            },
        };
        match decode_address(vault) {
            Some(_) => Ok(Self::new(key, rpc_url, vault)),
            None => Err(ConfigurationFailure::InvalidVaultAddress),
        }
    }

    /// Refreshes the signal list: reads the trending markets of Polymarket
    /// and then of Kalshi, has `score` score each observation once, in that
    /// order, and assembles one signal per observation. A failed scoring
    /// costs its own signal its opinion, which the fallback replaces, and
    /// nothing else.
    pub fn refresh_signals<F: Fn(&MarketObservation) -> Result<MarketAlpha, ScoringError>>(
        &self,
        score: F,
    ) -> (refreshed: Result<Vec<Signal>, FetchError>)
        requires
            forall|observation: MarketObservation| call_requires(score, (&observation,)),
        ensures
            refreshed matches Ok(signals) && is_refresh(score, signal_views(signals@)),
    {
        let mut observations = match self.fetcher.fetch_polymarket_trending() {
            Ok(observations) => observations,
            Err(error) => {
                return Err(error);
            },
        };
        let mut kalshi = match self.fetcher.fetch_kalshi_trending() {
            Ok(observations) => observations,
            Err(error) => {
                return Err(error);
            },
        };
        let ghost first = observations@;
        let ghost second = kalshi@;
        observations.append(&mut kalshi);
        proof {
            assert(observation_views(first).len() == 1 && observation_views(second).len() == 1);
            assert(first.len() == 1 && second.len() == 1);
            assert(observation_views(first)[0] == polymarket_trending());
            assert(observation_views(second)[0] == kalshi_trending());
            assert(observations@[0] == first[0]);
            assert(observations@[1] == second[0]);
            assert(observation_views(observations@) =~= seq![
                polymarket_trending(),
                kalshi_trending(),
            ]);
        }
        let mut outcomes: Vec<Result<MarketAlpha, ScoringError>> = Vec::new();
        let mut i: usize = 0;
        while i < observations.len()
            invariant
                i <= observations@.len(),
                outcomes@.len() == i,
                forall|observation: MarketObservation| call_requires(score, (&observation,)),
                forall|k: int|
                    0 <= k < i ==> call_ensures(
                        score,
                        (&#[trigger] observations@[k],),
                        outcomes@[k],
                    ),
            decreases observations@.len() - i,
        {
            let outcome = score(&observations[i]);
            outcomes.push(outcome);
            i += 1;
        }
        let signals = assemble(&observations, &outcomes);
        Ok(signals)
    }
}

} // verus!
