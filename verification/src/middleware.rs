//! The check in front of the protected routes: a request without a payment
//! proof is turned away with the payment challenge before it reaches a
//! handler.

use crate::text::{has_prefix, optional_text, starts_with};
use crate::types::CATALOG_PRICE;
use crate::x402::{get_payment_required_header, payment_required_header};
use vstd::prelude::*;
use vstd::string::*;

verus! {

/// The paths that need a payment proof begin with this.
pub const PROTECTED_PREFIX: &'static str = "/reveal/";

/// The request header that carries the payment proof.
pub const PAYMENT_PROOF_HEADER: &'static str = "X-402-Payment-Proof";

/// The response header that carries the payment challenge.
pub const PAYMENT_OPTIONS_HEADER: &'static str = "X-402-Payment-Options";

/// The body of a response that asks for payment.
pub const PAYMENT_REQUIRED_BODY: &'static str = "Payment Required to Unlock Alpha";

/// What happens to a request.
#[derive(Clone, Debug, PartialEq, Eq)]
pub enum MiddlewareDecision {
    /// The request goes on to its handler.
    Proceed,
    /// The request is answered with status 402, this challenge and this body.
    PaymentRequired { payment_options: String, body: String },
}

/// The mathematical content of a [`MiddlewareDecision`].
pub ghost enum DecisionView {
    Proceed,
    PaymentRequired { payment_options: Seq<char>, body: Seq<char> },
}

impl View for MiddlewareDecision {
    type V = DecisionView;

    open spec fn view(&self) -> DecisionView {
        match self {
            MiddlewareDecision::Proceed => DecisionView::Proceed,
            MiddlewareDecision::PaymentRequired { payment_options, body } => {
                DecisionView::PaymentRequired { payment_options: payment_options@, body: body@ }
            },
        }
    }
}

/// The rule: a path outside the protected routes goes on; a protected one
/// goes on if and only if it carries a proof that is not empty, and is
/// otherwise asked for the catalog price.
pub open spec fn decided(
    path: Seq<char>,
    payment_proof: Option<Seq<char>>,
    vault: Seq<char>,
) -> DecisionView {
    if !has_prefix(path, PROTECTED_PREFIX@) {
        DecisionView::Proceed
    } else if payment_proof matches Some(text) && text.len() > 0 {
        DecisionView::Proceed
    } else {
        DecisionView::PaymentRequired {
            payment_options: payment_required_header(CATALOG_PRICE, vault),
            body: PAYMENT_REQUIRED_BODY@,
        }
    }
}

/// Decides whether a request may go on to its handler. `payment_proof` is
/// the value of the proof header where the request has one; `vault` is the
/// account that the challenge tells the caller to pay.
pub fn x402_middleware(
    path: &str,
    payment_proof: Option<&str>,
    vault: &str,
) -> (decision: MiddlewareDecision)
    ensures
        decision@ == decided(path@, optional_text(payment_proof), vault@),
{
    if starts_with(path, PROTECTED_PREFIX) {
        let presented = match payment_proof {
            Some(text) => !text.is_empty(),
            None => false,
        };
        if presented {
            return MiddlewareDecision::Proceed;
        }
        return MiddlewareDecision::PaymentRequired {
            payment_options: get_payment_required_header(CATALOG_PRICE, vault),
            body: String::from_str(PAYMENT_REQUIRED_BODY),
        };
    }
    MiddlewareDecision::Proceed
}

} // verus!
