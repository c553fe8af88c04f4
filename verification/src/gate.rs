//! The access gate: what a caller gets to see of a signal.
//!
//! A reveal request names a signal and may carry a payment proof. The answer
//! is the signal's reasoning where the proof is confirmed, and a payment
//! challenge otherwise; the challenge is made of the signal's public fields
//! alone. Every request is judged on its own proof: no record of earlier
//! payments is kept, and answering a request never changes a signal.

use crate::market::FetchError;
use crate::outside::{is_base58_text, signature_bytes, MAX_REFERENCE_CHARS};
use crate::text::{optional_text, same_text};
use crate::types::{signal_views, Binary32, MarketPlatform, Signal, SignalView, Timestamp};
use crate::x402::{
    get_payment_required_header, is_verdict, payment_required_header, LedgerResolution,
    TransactionReference, VerificationResult, X402Verifier,
};
use vstd::prelude::*;
use vstd::string::*;

verus! {

/// What a caller without a proof is told.
pub const PROOF_MISSING_MESSAGE: &'static str =
    "Payment required to unlock premium alpha. (x402 protocol)";

/// What a caller is told whose proof was not confirmed.
pub const PROOF_REFUSED_MESSAGE: &'static str = "Invalid or unconfirmed payment signature.";

/// The status of an answer that reveals the reasoning.
pub const STATUS_SUCCESS: &'static str = "success";

/// The status of an answer that asks for payment.
pub const STATUS_PAYMENT_REQUIRED: &'static str = "payment_required";

/// The status of an answer to a request for a signal that does not exist.
pub const STATUS_NOT_FOUND: &'static str = "not_found";

/// The answer to a reveal request.
#[derive(Clone, Debug, PartialEq, Eq)]
pub enum RevealResponse {
    /// The payment is confirmed: the signal's reasoning.
    Unlocked { alpha_reasoning: String },
    /// No confirmed payment: the signal's public fields and how to pay.
    PaymentRequired {
        signal_id: String,
        title: String,
        platform: MarketPlatform,
        price: u64,
        message: String,
        payment_options: String,
    },
    /// No signal has the requested identifier.
    NotFound,
}

/// The mathematical content of a [`RevealResponse`].
pub ghost enum ResponseView {
    Unlocked { alpha_reasoning: Seq<char> },
    PaymentRequired {
        signal_id: Seq<char>,
        title: Seq<char>,
        platform: MarketPlatform,
        price: u64,
        message: Seq<char>,
        payment_options: Seq<char>,
    },
    NotFound,
}

impl View for RevealResponse {
    type V = ResponseView;

    open spec fn view(&self) -> ResponseView {
        match self {
            RevealResponse::Unlocked { alpha_reasoning } => ResponseView::Unlocked {
                alpha_reasoning: alpha_reasoning@,
            },
            RevealResponse::PaymentRequired {
                signal_id,
                title,
                platform,
                price,
                message,
                payment_options,
            } => ResponseView::PaymentRequired {
                signal_id: signal_id@,
                title: title@,
                platform: *platform,
                price: *price,
                message: message@,
                payment_options: payment_options@,
            },
            RevealResponse::NotFound => ResponseView::NotFound,
        }
    }
}

impl ResponseView {
    /// The status value that the answer carries.
    pub open spec fn status(self) -> Seq<char> {
        match self {
            ResponseView::Unlocked { .. } => STATUS_SUCCESS@,
            ResponseView::PaymentRequired { .. } => STATUS_PAYMENT_REQUIRED@,
            ResponseView::NotFound => STATUS_NOT_FOUND@,
        }
    }
}

impl RevealResponse {
    /// The status value that the answer carries: one of three.
    pub fn status(&self) -> (status: &'static str)
        ensures
            status@ == self@.status(),
    {
        match self {
            RevealResponse::Unlocked { .. } => STATUS_SUCCESS,
            RevealResponse::PaymentRequired { .. } => STATUS_PAYMENT_REQUIRED,
            RevealResponse::NotFound => STATUS_NOT_FOUND,
        }
    }
}

/// What is done next with a request.
#[derive(Clone, Debug, PartialEq, Eq)]
pub enum GateStep {
    /// The request is answered; no payment is verified.
    Respond(RevealResponse),
    /// The proof must be verified for the signal at `index`.
    Verify { index: usize },
}

/// The position of the first signal with the identifier `id`, if there is one.
pub open spec fn position_of(signals: Seq<SignalView>, id: Seq<char>) -> Option<int>
    decreases signals.len(),
{
    if signals.len() == 0 {
        None
    } else if signals.first().id == id {
        Some(0int)
    } else {
        match position_of(signals.drop_first(), id) {
            Some(found) => Some(found + 1),
            None => None,
        }
    }
}

/// The payment challenge for `signal`: its identifier, title, venue and price,
/// a message, and how to pay the vault.
pub open spec fn challenge(
    signal: SignalView,
    vault: Seq<char>,
    message: Seq<char>,
) -> ResponseView {
    ResponseView::PaymentRequired {
        signal_id: signal.id,
        title: signal.title,
        platform: signal.platform,
        price: signal.micropayment_price,
        message,
        payment_options: payment_required_header(signal.micropayment_price, vault),
    }
}

/// The answer once the proof is verified: the reasoning where the payment is
/// confirmed, the challenge otherwise.
pub open spec fn concluded(
    signal: SignalView,
    vault: Seq<char>,
    result: VerificationResult,
) -> ResponseView {
    match result {
        VerificationResult::Confirmed => ResponseView::Unlocked {
            alpha_reasoning: signal.alpha_analysis,
        },
        _ => challenge(signal, vault, PROOF_REFUSED_MESSAGE@),
    }
}

/// A proof is presented: there is one and it is not empty.
pub open spec fn presents_proof(claim: Option<Seq<char>>) -> bool {
    claim matches Some(text) && text.len() > 0
}

/// The answer to a request that needs no verification, if it needs none: an
/// unknown identifier is not found; a known one without a proof is
/// challenged.
pub open spec fn immediate_answer(
    signals: Seq<SignalView>,
    vault: Seq<char>,
    id: Seq<char>,
    claim: Option<Seq<char>>,
) -> Option<ResponseView> {
    match position_of(signals, id) {
        None => Some(ResponseView::NotFound),
        Some(index) => if presents_proof(claim) {
            None
        } else {
            Some(challenge(signals[index], vault, PROOF_MISSING_MESSAGE@))
        },
    }
}

/// `step` is the step that opens the request.
pub open spec fn is_opening(
    signals: Seq<SignalView>,
    vault: Seq<char>,
    id: Seq<char>,
    claim: Option<Seq<char>>,
    step: GateStep,
) -> bool {
    match immediate_answer(signals, vault, id, claim) {
        Some(answer) => step matches GateStep::Respond(response) && response@ == answer,
        None => step matches GateStep::Verify { index } && position_of(signals, id) == Some(
            index as int,
        ),
    }
}

/// `response` answers the request when `resolve` stands for the ledger: the
/// immediate answer where there is one; otherwise what is concluded from the
/// verdict on the proof, for the price of the signal that is asked for.
pub open spec fn is_answer<F: FnOnce(&TransactionReference) -> LedgerResolution>(
    resolve: F,
    signals: Seq<SignalView>,
    vault: Seq<char>,
    id: Seq<char>,
    claim: Option<Seq<char>>,
    response: ResponseView,
) -> bool {
    match immediate_answer(signals, vault, id, claim) {
        Some(answer) => response == answer,
        None => exists|result: VerificationResult| #[trigger]
            is_verdict(
                resolve,
                signature_bytes(claim->0),
                vault,
                signals[position_of(signals, id)->0].micropayment_price,
                result,
            ) && response == concluded(signals[position_of(signals, id)->0], vault, result),
    }
}

/// What `position_of` finds is the first signal with the identifier.
pub proof fn lemma_position_of(signals: Seq<SignalView>, id: Seq<char>)
    ensures
        position_of(signals, id) matches Some(index) ==> 0 <= index < signals.len()
            && signals[index].id == id,
        forall|k: int|
            0 <= k < signals.len() && (position_of(signals, id) matches Some(index) ==> k < index)
                ==> (#[trigger] signals[k]).id != id,
    decreases signals.len(),
{
    if signals.len() > 0 && signals.first().id != id {
        let rest = signals.drop_first();
        lemma_position_of(rest, id);
        match position_of(rest, id) {
            Some(found) => {
                assert forall|k: int| 0 <= k < found + 1 implies (#[trigger] signals[k]).id
                    != id by {
                    if k > 0 {
                        assert(signals[k] == rest[k - 1]);
                    }
                }
                assert(signals[found + 1] == rest[found]);
            },
            None => {
                assert forall|k: int| 0 <= k < signals.len() implies (#[trigger] signals[k]).id
                    != id by {
                    if k > 0 {
                        assert(signals[k] == rest[k - 1]);
                    }
                }
            },
        }
    }
}

/// The challenge shows nothing of what is locked: two signals with the same
/// identifier, title, venue and price get the same challenge, whatever their
/// reasoning and their other fields are.
pub proof fn lemma_challenge_hides_locked_fields(
    first: SignalView,
    second: SignalView,
    vault: Seq<char>,
    message: Seq<char>,
)
    requires
        first.id == second.id,
        first.title == second.title,
        first.platform == second.platform,
        first.micropayment_price == second.micropayment_price,
    ensures
        challenge(first, vault, message) == challenge(second, vault, message),
{
}

/// The rule over both steps. An unknown identifier is not found, proof or no
/// proof. For a known signal, no proof means a challenge; with a
/// proof, the reasoning is revealed if and only if the payment is confirmed,
/// and it is the signal's own; a rejected or unknown payment means a
/// challenge. No answer but the revealing one carries the status of success.
pub proof fn lemma_gate_rule(
    signals: Seq<SignalView>,
    vault: Seq<char>,
    id: Seq<char>,
    claim: Option<Seq<char>>,
    result: VerificationResult,
)
    ensures
        position_of(signals, id) is None ==> immediate_answer(signals, vault, id, claim) == Some(
            ResponseView::NotFound,
        ),
        position_of(signals, id) matches Some(index) ==> (!presents_proof(claim)
            ==> immediate_answer(signals, vault, id, claim) == Some(
            challenge(signals[index], vault, PROOF_MISSING_MESSAGE@),
        )),
        position_of(signals, id) is Some && presents_proof(claim) ==> immediate_answer(
            signals,
            vault,
            id,
            claim,
        ) is None,
        forall|signal: SignalView| #[trigger]
            concluded(signal, vault, result) is Unlocked <==> result
                == VerificationResult::Confirmed,
        forall|signal: SignalView|
            result == VerificationResult::Confirmed ==> #[trigger] concluded(signal, vault, result)
                == (ResponseView::Unlocked { alpha_reasoning: signal.alpha_analysis }),
        forall|signal: SignalView|
            result != VerificationResult::Confirmed ==> #[trigger] concluded(signal, vault, result)
                == challenge(signal, vault, PROOF_REFUSED_MESSAGE@),
        forall|signal: SignalView|
            (#[trigger] concluded(signal, vault, result)).status() == STATUS_SUCCESS@ <==> result
                == VerificationResult::Confirmed,
{
    reveal_strlit("success");
    reveal_strlit("payment_required");
    assert(STATUS_SUCCESS@.len() != STATUS_PAYMENT_REQUIRED@.len());
}

/// Finds the first signal with the identifier `id`.
pub fn find_signal(signals: &Vec<Signal>, id: &str) -> (found: Option<usize>)
    ensures
        position_of(signal_views(signals@), id@) == (match found {
            Some(index) => Some(index as int),
            None => None,
        }),
{
    let ghost views = signal_views(signals@);
    let mut i: usize = 0;
    while i < signals.len()
        invariant
            i <= signals@.len(),
            views == signal_views(signals@),
            forall|k: int| 0 <= k < i ==> (#[trigger] views[k]).id != id@,
        decreases signals@.len() - i,
    {
        if same_text(signals[i].id.as_str(), id) {
            proof {
                lemma_position_of(views, id@);
                assert(views[i as int].id == id@);
            }
            return Some(i);
        }
        i += 1;
    }
    proof {
        lemma_position_of(views, id@);
    }
    None
}

/// Writes the payment challenge for `signal`.
pub fn challenge_for(
    signal: &Signal,
    verifier: &X402Verifier,
    message: &str,
) -> (response: RevealResponse)
    ensures
        response@ == challenge(signal@, verifier.vault(), message@),
{
    RevealResponse::PaymentRequired {
        signal_id: signal.id.clone(),
        title: signal.title.clone(),
        platform: signal.platform,
        price: signal.micropayment_price,
        message: String::from_str(message),
        payment_options: get_payment_required_header(
            signal.micropayment_price,
            verifier.vault_address(),
        ),
    }
}

/// Opens a reveal request. A request for an unknown signal is answered as
/// not found. A request without a proof, or with an empty one, is answered
/// with the challenge at once. Any other request has its proof verified.
pub fn begin_reveal(
    signals: &Vec<Signal>,
    verifier: &X402Verifier,
    id: &str,
    claim: Option<&str>,
) -> (step: GateStep)
    ensures
        is_opening(signal_views(signals@), verifier.vault(), id@, optional_text(claim), step),
{
    let index = match find_signal(signals, id) {
        Some(index) => index,
        None => {
            return GateStep::Respond(RevealResponse::NotFound);
        },
    };
    proof {
        lemma_position_of(signal_views(signals@), id@);
    }
    let presented = match claim {
        Some(text) => !text.is_empty(),
        None => false,
    };
    if presented {
        GateStep::Verify { index }
    } else {
        GateStep::Respond(challenge_for(&signals[index], verifier, PROOF_MISSING_MESSAGE))
    }
}

/// Closes a reveal request whose proof was verified: a confirmed payment
/// reveals the signal's reasoning; a rejected or unknown one is answered
/// with the challenge.
pub fn conclude_reveal(
    signal: &Signal,
    verifier: &X402Verifier,
    result: VerificationResult,
) -> (response: RevealResponse)
    ensures
        response@ == concluded(signal@, verifier.vault(), result),
{
    match result {
        VerificationResult::Confirmed => RevealResponse::Unlocked {
            alpha_reasoning: signal.alpha_analysis.clone(),
        },
        _ => challenge_for(signal, verifier, PROOF_REFUSED_MESSAGE),
    }
}

/// Answers a reveal request, asking `resolve` for the proof's transaction
/// where one has to be looked up. The proof is verified at most once, for
/// the signal's own price, and only where the signal exists and a proof is
/// presented.
pub fn reveal_alpha<F: FnOnce(&TransactionReference) -> LedgerResolution>(
    signals: &Vec<Signal>,
    verifier: &X402Verifier,
    id: &str,
    claim: Option<&str>,
    resolve: F,
) -> (response: RevealResponse)
    requires
        forall|reference: TransactionReference| call_requires(resolve, (&reference,)),
    ensures
        is_answer(
            resolve,
            signal_views(signals@),
            verifier.vault(),
            id@,
            optional_text(claim),
            response@,
        ),
        position_of(signal_views(signals@), id@) matches Some(index) ==> (claim matches Some(text)
            ==> (text@.len() > MAX_REFERENCE_CHARS || !is_base58_text(text@) ==> response@
            is PaymentRequired)),
{
    match begin_reveal(signals, verifier, id, claim) {
        GateStep::Respond(response) => response,
        GateStep::Verify { index } => {
            proof {
                lemma_position_of(signal_views(signals@), id@);
            }
            let signal = &signals[index];
            let presented = match claim {
                Some(text) => text,
                None => "",
            };
            let result = verifier.verify_payment(presented, signal.micropayment_price, resolve);
            conclude_reveal(signal, verifier, result)
        },
    }
}

/// The signal after a verification: a confirmed payment unlocks it, and
/// nothing else changes.
pub open spec fn after_verification(signal: SignalView, result: VerificationResult) -> SignalView {
    SignalView {
        is_locked: signal.is_locked && result != VerificationResult::Confirmed,
        ..signal
    }
}

/// The signal after a run of verifications, first to last.
pub open spec fn after_verifications(
    signal: SignalView,
    results: Seq<VerificationResult>,
) -> SignalView
    decreases results.len(),
{
    if results.len() == 0 {
        signal
    } else {
        after_verification(after_verifications(signal, results.drop_last()), results.last())
    }
}

/// The lock opens and never closes. Whatever verifications a signal goes
/// through, nothing of it changes but its lock state; it is still locked at
/// the end if and only if it was locked at the start and no payment was
/// confirmed; so a signal that is unlocked stays unlocked.
pub proof fn lemma_lock_only_opens(signal: SignalView, results: Seq<VerificationResult>)
    ensures
        after_verifications(signal, results) == (SignalView {
            is_locked: after_verifications(signal, results).is_locked,
            ..signal
        }),
        after_verifications(signal, results).is_locked <==> signal.is_locked && forall|i: int|
            0 <= i < results.len() ==> #[trigger] results[i] != VerificationResult::Confirmed,
        !signal.is_locked ==> !after_verifications(signal, results).is_locked,
    decreases results.len(),
{
    if results.len() > 0 {
        let earlier = results.drop_last();
        lemma_lock_only_opens(signal, earlier);
        assert forall|i: int| 0 <= i < earlier.len() implies earlier[i] == results[i] by {}
        if after_verifications(signal, results).is_locked {
            assert forall|i: int| 0 <= i < results.len() implies #[trigger] results[i]
                != VerificationResult::Confirmed by {
                if i < earlier.len() {
                    assert(earlier[i] == results[i]);
                }
            }
        }
        if signal.is_locked && (forall|i: int|
            0 <= i < results.len() ==> #[trigger] results[i] != VerificationResult::Confirmed) {
            assert forall|i: int| 0 <= i < earlier.len() implies #[trigger] earlier[i]
                != VerificationResult::Confirmed by {
                assert(earlier[i] == results[i]);
            }
            assert(results.last() == results[results.len() - 1]);
        }
    }
}

impl Signal {
    /// Records a verification on the signal: a confirmed payment unlocks it,
    /// and nothing else changes. Answering a reveal request does not call
    /// this; it is for a catalog that keeps a signal open once it is paid for.
    pub fn apply_verification(&mut self, result: VerificationResult)
        ensures
            final(self)@ == after_verification(old(self)@, result),
    {
        match result {
            VerificationResult::Confirmed => {
                self.is_locked = false;
            },
            _ => {},
        }
    }
}

/// What the signal list shows of one signal: everything but the reasoning
/// while the signal is locked, and everything once it is not.
#[derive(Clone, Debug, PartialEq, Eq)]
pub struct SignalListing {
    pub id: String,
    pub market_id: String,
    pub platform: MarketPlatform,
    pub title: String,
    pub win_probability: Binary32,
    pub alpha_analysis: Option<String>,
    pub micropayment_price: u64,
    pub created_at: Timestamp,
    pub is_locked: bool,
    pub community_up: u32,
    pub community_down: u32,
}

/// The mathematical content of a [`SignalListing`].
pub ghost struct ListingView {
    pub id: Seq<char>,
    pub market_id: Seq<char>,
    pub platform: MarketPlatform,
    pub title: Seq<char>,
    pub win_probability: Binary32,
    pub alpha_analysis: Option<Seq<char>>,
    pub micropayment_price: u64,
    pub created_at: Timestamp,
    pub is_locked: bool,
    pub community_up: u32,
    pub community_down: u32,
}

impl View for SignalListing {
    type V = ListingView;

    open spec fn view(&self) -> ListingView {
        ListingView {
            id: self.id@,
            market_id: self.market_id@,
            platform: self.platform,
            title: self.title@,
            win_probability: self.win_probability,
            alpha_analysis: match self.alpha_analysis {
                Some(text) => Some(text@),
                None => None,
            },
            micropayment_price: self.micropayment_price,
            created_at: self.created_at,
            is_locked: self.is_locked,
            community_up: self.community_up,
            community_down: self.community_down,
        }
    }
}

/// What the list shows of `signal`.
pub open spec fn listed(signal: SignalView) -> ListingView {
    ListingView {
        id: signal.id,
        market_id: signal.market_id,
        platform: signal.platform,
        title: signal.title,
        win_probability: signal.win_probability,
        alpha_analysis: if signal.is_locked {
            None
        } else {
            Some(signal.alpha_analysis)
        },
        micropayment_price: signal.micropayment_price,
        created_at: signal.created_at,
        is_locked: signal.is_locked,
        community_up: signal.community_up,
        community_down: signal.community_down,
    }
}

/// What the list shows after a refresh: every signal of a refresh that
/// worked, in order; nothing after one that failed.
pub open spec fn listing_of(refreshed: Result<Seq<SignalView>, FetchError>) -> Seq<ListingView> {
    match refreshed {
        Ok(signals) => Seq::new(signals.len(), |i: int| listed(signals[i])),
        Err(_) => Seq::empty(),
    }
}

/// The views of a list of listings.
pub open spec fn listing_views(listings: Seq<SignalListing>) -> Seq<ListingView> {
    Seq::new(listings.len(), |i: int| listings[i]@)
}

/// The list shows nothing of a locked signal's reasoning: two locked signals
/// that differ in their reasoning alone are listed alike.
pub proof fn lemma_listing_hides_locked_reasoning(first: SignalView, second: SignalView)
    requires
        first.is_locked,
        second == (SignalView { alpha_analysis: second.alpha_analysis, ..first }),
    ensures
        listed(first) == listed(second),
        listed(first).alpha_analysis is None,
{
}

/// Writes the list entry of one signal.
pub fn locked_view(signal: &Signal) -> (listing: SignalListing)
    ensures
        listing@ == listed(signal@),
{
    SignalListing {
        id: signal.id.clone(),
        market_id: signal.market_id.clone(),
        platform: signal.platform,
        title: signal.title.clone(),
        win_probability: signal.win_probability,
        alpha_analysis: if signal.is_locked {
            None
        } else {
            Some(signal.alpha_analysis.clone())
        },
        micropayment_price: signal.micropayment_price,
        created_at: signal.created_at,
        is_locked: signal.is_locked,
        community_up: signal.community_up,
        community_down: signal.community_down,
    }
}

/// Writes the signal list after a refresh.
pub fn get_signals(refreshed: &Result<Vec<Signal>, FetchError>) -> (listings: Vec<SignalListing>)
    ensures
        listing_views(listings@) == listing_of(
            match refreshed {
                Ok(signals) => Ok(signal_views(signals@)),
                Err(error) => Err(*error),
            },
        ),
{
    let mut listings: Vec<SignalListing> = Vec::new();
    match refreshed {
        Ok(signals) => {
            let mut i: usize = 0;
            while i < signals.len()
                invariant
                    i <= signals@.len(),
                    listings@.len() == i,
                    forall|k: int|
                        0 <= k < i ==> (#[trigger] listings@[k])@ == listed(signals@[k]@),
                decreases signals@.len() - i,
            {
                listings.push(locked_view(&signals[i]));
                i += 1;
            }
            assert(listing_views(listings@) =~= listing_of(Ok(signal_views(signals@))));
        },
        Err(_) => {
            assert(listing_views(listings@) =~= Seq::<ListingView>::empty());
        },
    }
    listings
}

} // verus!
