use signal402::middleware::{
    x402_middleware, MiddlewareDecision, PAYMENT_OPTIONS_HEADER, PAYMENT_PROOF_HEADER,
    PAYMENT_REQUIRED_BODY, PROTECTED_PREFIX,
};

fn challenge(vault: &str) -> MiddlewareDecision {
    MiddlewareDecision::PaymentRequired {
        payment_options: format!("x402 amount=50000, address={}, asset=USDC", vault),
        body: String::from("Payment Required to Unlock Alpha"),
    }
}

#[test]
fn header_names_and_body_are_fixed() {
    assert_eq!(PROTECTED_PREFIX, "/reveal/");
    assert_eq!(PAYMENT_PROOF_HEADER, "X-402-Payment-Proof");
    assert_eq!(PAYMENT_OPTIONS_HEADER, "X-402-Payment-Options");
    assert_eq!(PAYMENT_REQUIRED_BODY, "Payment Required to Unlock Alpha");
}

#[test]
fn open_routes_go_on_with_or_without_a_proof() {
    for path in ["/", "/health", "/signals", "/reveal", "/Reveal/1", "", "/api/reveal/1"] {
        for proof in [None, Some(""), Some("abc")] {
            assert_eq!(
                x402_middleware(path, proof, "SIGNAL402_VAULT_ADDRESS"),
                MiddlewareDecision::Proceed,
                "{path:?} {proof:?}"
            );
        }
    }
}

#[test]
fn a_protected_route_with_a_proof_goes_on() {
    for path in ["/reveal/", "/reveal/1", "/reveal/a/b"] {
        assert_eq!(
            x402_middleware(path, Some("5sig"), "SIGNAL402_VAULT_ADDRESS"),
            MiddlewareDecision::Proceed
        );
    }
}

#[test]
fn a_protected_route_without_a_proof_is_challenged() {
    assert_eq!(
        x402_middleware("/reveal/1", None, "SIGNAL402_VAULT_ADDRESS"),
        challenge("SIGNAL402_VAULT_ADDRESS")
    );
}

#[test]
fn an_empty_proof_counts_as_none() {
    assert_eq!(x402_middleware("/reveal/1", Some(""), "vault"), challenge("vault"));
}
