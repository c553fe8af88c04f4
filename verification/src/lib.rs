//! Payment-gated market signals: priced, lockable predictions whose reasoning
//! is released only against a verified ledger payment.
//!
//! The library holds the decisions of the service and proves them against
//! their contracts. It does no I/O: a caller fetches, sends and looks up, and
//! hands the library what came back.
//!
//! - [`types`]: the records and their mathematical views.
//! - [`market`]: the market source.
//! - [`agent`]: the scoring agent, its prompt, and the fallback opinion.
//! - [`service`]: the signal assembler and the refresh of the signal list.
//! - [`x402`]: the payment verifier and the payment challenge.
//! - [`gate`]: the access gate in front of a signal's reasoning.
//! - [`middleware`]: the payment check in front of the protected routes.
//! - [`text`]: text handling shared by the others.
//! - [`outside`]: the calls into other crates, whose contracts are trusted.

pub mod agent;
pub mod gate;
pub mod market;
pub mod middleware;
pub mod outside;
pub mod service;
pub mod text;
pub mod types;
pub mod x402;
