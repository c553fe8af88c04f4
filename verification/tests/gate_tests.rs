use signal402::gate::{
    begin_reveal, challenge_for, conclude_reveal, find_signal, get_signals, locked_view,
    reveal_alpha, GateStep, RevealResponse, SignalListing, PROOF_MISSING_MESSAGE,
    PROOF_REFUSED_MESSAGE,
};
use signal402::market::FetchError;
use signal402::types::{Binary32, MarketPlatform, Signal, Timestamp};
use signal402::x402::{
    LedgerResolution, LedgerTransaction, TransactionReference, Transfer, VerificationResult,
    X402Verifier,
};
use std::cell::Cell;

const VAULT: &str = "EPjFWdd5AufqSSqeM2qN1xzybapC8G4wEGGkZwyTDt1v";
const SIGNATURE_TEXT: &str =
    "11cgTH4D5e8S3snD444WbbGrkepjTvWMj2jkmCGJtgn3H7qrPb1BnwapxpbGdRtHQh9t9Wbn9t6ZDGHzWpL4df";
const REASONING: &str = "Order books show a wall of bids; sentiment is turning.";

fn vault_verifier() -> X402Verifier {
    X402Verifier::try_new("https://api.devnet.solana.com", VAULT).unwrap()
}

fn signal(id: &str, title: &str, price: u64) -> Signal {
    Signal {
        id: String::from(id),
        market_id: String::from("kalshi-456"),
        platform: MarketPlatform::Kalshi,
        title: String::from(title),
        win_probability: Binary32 { bits: 61.5f32.to_bits() },
        alpha_analysis: String::from(REASONING),
        micropayment_price: price,
        created_at: Timestamp { secs: 1_700_000_000, nanos: 0 },
        is_locked: true,
        community_up: 3,
        community_down: 1,
    }
}

fn catalog() -> Vec<Signal> {
    vec![signal("a-1", "First", 50000), signal("b-2", "Second", 70000)]
}

fn paying(amount: u64) -> LedgerResolution {
    LedgerResolution::Resolved(LedgerTransaction {
        failed: false,
        transfers: vec![Transfer {
            asset: String::from("USDC"),
            destination: String::from(VAULT),
            amount,
        }],
    })
}

fn failed_on_chain() -> LedgerResolution {
    LedgerResolution::Resolved(LedgerTransaction {
        failed: true,
        transfers: vec![Transfer {
            asset: String::from("USDC"),
            destination: String::from(VAULT),
            amount: 50000,
        }],
    })
}

fn challenge(id: &str, title: &str, price: u64, message: &str) -> RevealResponse {
    RevealResponse::PaymentRequired {
        signal_id: String::from(id),
        title: String::from(title),
        platform: MarketPlatform::Kalshi,
        price,
        message: String::from(message),
        payment_options: format!("x402 amount={}, address={}, asset=USDC", price, VAULT),
    }
}

#[test]
fn messages_are_fixed() {
    assert_eq!(PROOF_MISSING_MESSAGE, "Payment required to unlock premium alpha. (x402 protocol)");
    assert_eq!(PROOF_REFUSED_MESSAGE, "Invalid or unconfirmed payment signature.");
}

#[test]
fn find_signal_gives_the_position() {
    let signals = catalog();
    assert_eq!(find_signal(&signals, "a-1"), Some(0));
    assert_eq!(find_signal(&signals, "b-2"), Some(1));
    assert_eq!(find_signal(&signals, "c-3"), None);
    assert_eq!(find_signal(&signals, ""), None);
    assert_eq!(find_signal(&signals, "A-1"), None);
    assert_eq!(find_signal(&vec![], "a-1"), None);
}

#[test]
fn find_signal_gives_the_first_of_two_with_one_identifier() {
    let signals = vec![signal("x", "One", 1), signal("dup", "Two", 2), signal("dup", "Three", 3)];
    assert_eq!(find_signal(&signals, "dup"), Some(1));
}

#[test]
fn a_request_without_a_proof_is_challenged_at_once() {
    let lookups = Cell::new(0);
    let response = reveal_alpha(
        &catalog(),
        &vault_verifier(),
        "a-1",
        None,
        |_reference: &TransactionReference| {
            lookups.set(lookups.get() + 1);
            paying(50000)
        },
    );
    assert_eq!(
        response,
        challenge(
            "a-1",
            "First",
            50000,
            "Payment required to unlock premium alpha. (x402 protocol)"
        )
    );
    assert_eq!(response.status(), "payment_required");
    assert_eq!(lookups.get(), 0);
}

#[test]
fn an_empty_proof_is_no_proof() {
    let response = reveal_alpha(
        &catalog(),
        &vault_verifier(),
        "b-2",
        Some(""),
        |_reference: &TransactionReference| paying(70000),
    );
    assert_eq!(
        response,
        challenge(
            "b-2",
            "Second",
            70000,
            "Payment required to unlock premium alpha. (x402 protocol)"
        )
    );
}

#[test]
fn a_challenge_shows_nothing_of_the_reasoning() {
    let signals = catalog();
    let payments = vault_verifier();
    let responses = [
        reveal_alpha(&signals, &payments, "a-1", None, |_r: &TransactionReference| paying(1)),
        reveal_alpha(&signals, &payments, "a-1", Some("junk"), |_r: &TransactionReference| {
            paying(50000)
        }),
        reveal_alpha(&signals, &payments, "a-1", Some(SIGNATURE_TEXT), |_r: &TransactionReference| {
            failed_on_chain()
        }),
        reveal_alpha(&signals, &payments, "a-1", Some(SIGNATURE_TEXT), |_r: &TransactionReference| {
            LedgerResolution::Unresolved
        }),
    ];
    for response in responses {
        assert_eq!(response.status(), "payment_required");
        assert!(matches!(response, RevealResponse::PaymentRequired { .. }));
        let shown = format!("{:?}", response);
        assert!(!shown.contains(REASONING));
        assert!(!shown.contains("Order books"));
        assert!(shown.contains("a-1") && shown.contains("First") && shown.contains("50000"));
    }
}

#[test]
fn a_payment_of_exactly_the_price_reveals_the_reasoning() {
    let lookups = Cell::new(0);
    let response = reveal_alpha(
        &catalog(),
        &vault_verifier(),
        "a-1",
        Some(SIGNATURE_TEXT),
        |_reference: &TransactionReference| {
            lookups.set(lookups.get() + 1);
            paying(50000)
        },
    );
    assert_eq!(response.status(), "success");
    assert_eq!(response, RevealResponse::Unlocked { alpha_reasoning: String::from(REASONING) });
    match response {
        RevealResponse::Unlocked { alpha_reasoning } => assert!(!alpha_reasoning.is_empty()),
        _ => unreachable!(),
    }
    assert_eq!(lookups.get(), 1);
}

#[test]
fn a_payment_is_measured_against_the_signals_own_price() {
    let signals = catalog();
    let payments = vault_verifier();
    let short = reveal_alpha(
        &signals,
        &payments,
        "b-2",
        Some(SIGNATURE_TEXT),
        |_reference: &TransactionReference| paying(50000),
    );
    assert_eq!(
        short,
        challenge("b-2", "Second", 70000, "Invalid or unconfirmed payment signature.")
    );
    let enough = reveal_alpha(
        &signals,
        &payments,
        "b-2",
        Some(SIGNATURE_TEXT),
        |_reference: &TransactionReference| paying(70000),
    );
    assert_eq!(enough.status(), "success");
}

#[test]
fn a_transaction_that_failed_on_chain_is_challenged() {
    let response = reveal_alpha(
        &catalog(),
        &vault_verifier(),
        "a-1",
        Some(SIGNATURE_TEXT),
        |_reference: &TransactionReference| failed_on_chain(),
    );
    assert_eq!(response.status(), "payment_required");
    assert_eq!(
        response,
        challenge("a-1", "First", 50000, "Invalid or unconfirmed payment signature.")
    );
}

#[test]
fn an_unresolved_transaction_is_challenged() {
    let response = reveal_alpha(
        &catalog(),
        &vault_verifier(),
        "a-1",
        Some(SIGNATURE_TEXT),
        |_reference: &TransactionReference| LedgerResolution::Unresolved,
    );
    assert_eq!(response.status(), "payment_required");
}

#[test]
fn a_malformed_proof_is_challenged_without_a_lookup() {
    let lookups = Cell::new(0);
    let response = reveal_alpha(
        &catalog(),
        &vault_verifier(),
        "a-1",
        Some("not-a-signature"),
        |_reference: &TransactionReference| {
            lookups.set(lookups.get() + 1);
            paying(50000)
        },
    );
    assert_eq!(
        response,
        challenge("a-1", "First", 50000, "Invalid or unconfirmed payment signature.")
    );
    assert_eq!(lookups.get(), 0);
}

#[test]
fn a_request_for_a_signal_that_does_not_exist_is_not_found() {
    let lookups = Cell::new(0);
    for claim in [None, Some(""), Some("junk"), Some(SIGNATURE_TEXT)] {
        let response = reveal_alpha(
            &catalog(),
            &vault_verifier(),
            "no-such-signal",
            claim,
            |_reference: &TransactionReference| {
                lookups.set(lookups.get() + 1);
                paying(50000)
            },
        );
        assert_eq!(response, RevealResponse::NotFound);
        assert_eq!(response.status(), "not_found");
        assert_ne!(response.status(), "payment_required");
    }
    assert_eq!(lookups.get(), 0);
}

#[test]
fn a_request_against_an_empty_catalog_is_not_found() {
    let response = reveal_alpha(
        &vec![],
        &vault_verifier(),
        "a-1",
        Some(SIGNATURE_TEXT),
        |_reference: &TransactionReference| paying(50000),
    );
    assert_eq!(response, RevealResponse::NotFound);
}

#[test]
fn begin_reveal_asks_for_verification_only_with_a_proof() {
    let signals = catalog();
    let payments = vault_verifier();
    assert_eq!(begin_reveal(&signals, &payments, "b-2", Some("x")), GateStep::Verify { index: 1 });
    assert_eq!(
        begin_reveal(&signals, &payments, "a-1", Some(SIGNATURE_TEXT)),
        GateStep::Verify { index: 0 }
    );
    assert_eq!(
        begin_reveal(&signals, &payments, "b-2", None),
        GateStep::Respond(challenge(
            "b-2",
            "Second",
            70000,
            "Payment required to unlock premium alpha. (x402 protocol)"
        ))
    );
    assert_eq!(
        begin_reveal(&signals, &payments, "zzz", Some("x")),
        GateStep::Respond(RevealResponse::NotFound)
    );
}

#[test]
fn conclude_reveal_unlocks_on_confirmation_only() {
    let signals = catalog();
    let payments = vault_verifier();
    assert_eq!(
        conclude_reveal(&signals[0], &payments, VerificationResult::Confirmed),
        RevealResponse::Unlocked { alpha_reasoning: String::from(REASONING) }
    );
    for result in [VerificationResult::Rejected, VerificationResult::Unknown] {
        assert_eq!(
            conclude_reveal(&signals[0], &payments, result),
            challenge("a-1", "First", 50000, "Invalid or unconfirmed payment signature.")
        );
    }
}

#[test]
fn a_challenge_is_made_of_the_public_fields_alone() {
    let payments = vault_verifier();
    let one = signal("a-1", "First", 50000);
    let other = Signal {
        market_id: String::from("elsewhere"),
        win_probability: Binary32 { bits: 1.0f32.to_bits() },
        alpha_analysis: String::from("something else entirely"),
        created_at: Timestamp { secs: 1, nanos: 1 },
        is_locked: false,
        community_up: 99,
        community_down: 99,
        ..one.clone()
    };
    assert_eq!(challenge_for(&one, &payments, "m"), challenge_for(&other, &payments, "m"));
}

#[test]
fn answering_a_request_changes_no_signal() {
    let signals = catalog();
    let before = signals.clone();
    let response = reveal_alpha(
        &signals,
        &vault_verifier(),
        "a-1",
        Some(SIGNATURE_TEXT),
        |_reference: &TransactionReference| paying(50000),
    );
    assert_eq!(response.status(), "success");
    assert_eq!(signals, before);
}

#[test]
fn only_a_confirmed_payment_unlocks_a_signal() {
    let mut subject = signal("a-1", "First", 50000);
    let locked = subject.clone();
    subject.apply_verification(VerificationResult::Rejected);
    assert_eq!(subject, locked);
    subject.apply_verification(VerificationResult::Unknown);
    assert_eq!(subject, locked);
    subject.apply_verification(VerificationResult::Confirmed);
    assert_eq!(subject, Signal { is_locked: false, ..locked.clone() });
}

#[test]
fn an_unlocked_signal_is_never_locked_again() {
    let mut subject = signal("a-1", "First", 50000);
    subject.apply_verification(VerificationResult::Confirmed);
    let unlocked = subject.clone();
    for result in [
        VerificationResult::Rejected,
        VerificationResult::Unknown,
        VerificationResult::Confirmed,
        VerificationResult::Rejected,
    ] {
        subject.apply_verification(result);
        assert_eq!(subject, unlocked);
        assert!(!subject.is_locked);
    }
}

#[test]
fn the_list_omits_the_reasoning_of_a_locked_signal() {
    let listing = locked_view(&signal("a-1", "First", 50000));
    assert_eq!(
        listing,
        SignalListing {
            id: String::from("a-1"),
            market_id: String::from("kalshi-456"),
            platform: MarketPlatform::Kalshi,
            title: String::from("First"),
            win_probability: Binary32 { bits: 61.5f32.to_bits() },
            alpha_analysis: None,
            micropayment_price: 50000,
            created_at: Timestamp { secs: 1_700_000_000, nanos: 0 },
            is_locked: true,
            community_up: 3,
            community_down: 1,
        }
    );
    assert!(!format!("{:?}", listing).contains(REASONING));
}

#[test]
fn the_list_shows_the_reasoning_of_an_unlocked_signal() {
    let mut subject = signal("a-1", "First", 50000);
    subject.apply_verification(VerificationResult::Confirmed);
    let listing = locked_view(&subject);
    assert_eq!(listing.alpha_analysis, Some(String::from(REASONING)));
    assert!(!listing.is_locked);
}

#[test]
fn the_list_holds_every_signal_in_order() {
    let listings = get_signals(&Ok(catalog()));
    assert_eq!(listings.len(), 2);
    assert_eq!(listings[0], locked_view(&catalog()[0]));
    assert_eq!(listings[1], locked_view(&catalog()[1]));
    assert_eq!(listings[0].id, "a-1");
    assert_eq!(listings[1].id, "b-2");
}

#[test]
fn the_list_is_empty_after_a_refresh_that_failed() {
    assert_eq!(get_signals(&Err(FetchError::Unavailable)), vec![]);
    assert_eq!(get_signals(&Ok(vec![])), vec![]);
}
