//! The calls into other crates.
//!
//! Verus does not read the bodies in this file: it takes each contract on
//! trust. Every contract here says what the called function's source shows,
//! and no more.

use crate::types::Timestamp;
use std::str::FromStr;
use vstd::prelude::*;

verus! {

/// The longest text that can name a ledger transaction.
pub const MAX_REFERENCE_CHARS: usize = 88;

/// The longest text that can name a ledger account.
pub const MAX_ADDRESS_CHARS: usize = 44;

/// The digits of base58: the decimal digits but `0`, and the Latin letters
/// but `I`, `O` and `l`.
pub open spec fn is_base58_char(c: char) -> bool {
    ||| '1' <= c <= '9'
    ||| 'A' <= c <= 'H'
    ||| 'J' <= c <= 'N'
    ||| 'P' <= c <= 'Z'
    ||| 'a' <= c <= 'k'
    ||| 'm' <= c <= 'z'
}

/// Every character of `text` is a base58 digit.
pub open spec fn is_base58_text(text: Seq<char>) -> bool {
    forall|i: int| 0 <= i < text.len() ==> is_base58_char(#[trigger] text[i])
}

/// The 64 bytes that `reference` names as a transaction signature, if it
/// names any. Stands for what `solana_sdk`'s parser makes of the text.
pub uninterp spec fn signature_bytes(reference: Seq<char>) -> Option<Seq<u8>>;

/// The 32 bytes that `text` names as an account address, if it names any.
/// Stands for what `solana_sdk`'s parser makes of the text.
pub uninterp spec fn address_bytes(text: Seq<char>) -> Option<Seq<u8>>;

/// Parses a transaction signature with `solana_sdk::signature::Signature`'s
/// `from_str`.
///
/// Trusted: the outcome depends on the text alone; the parser refuses a text
/// of more than 88 bytes before it decodes anything, and refuses any byte that
/// is no base58 digit.
#[verifier::external_body]
pub(crate) fn decode_signature(reference: &str) -> (decoded: Option<[u8; 64]>)
    ensures
        signature_bytes(reference@) == (match decoded {
            Some(bytes) => Some(bytes@),
            None => None,
        }),
        decoded is Some ==> reference@.len() <= MAX_REFERENCE_CHARS && is_base58_text(
            reference@,
        ),
{
    match solana_sdk::signature::Signature::from_str(reference) {
        Ok(signature) => Some(signature.into()),
        Err(_) => None,
    }
}

/// Parses an account address with `solana_sdk::pubkey::Pubkey`'s `from_str`.
///
/// Trusted: the outcome depends on the text alone; the parser refuses a text
/// of more than 44 bytes before it decodes anything, and refuses any byte that
/// is no base58 digit.
#[verifier::external_body]
pub(crate) fn decode_address(text: &str) -> (decoded: Option<[u8; 32]>)
    ensures
        address_bytes(text@) == (match decoded {
            Some(bytes) => Some(bytes@),
            None => None,
        }),
        decoded is Some ==> text@.len() <= MAX_ADDRESS_CHARS && is_base58_text(text@),
{
    match solana_sdk::pubkey::Pubkey::from_str(text) {
        Ok(address) => Some(address.to_bytes()),
        Err(_) => None,
    }
}

/// A lower-case hexadecimal digit.
pub open spec fn is_lower_hex(c: char) -> bool {
    '0' <= c <= '9' || 'a' <= c <= 'f'
}

/// The shape of a random (version 4) UUID in hyphenated lower-case form:
/// 36 characters, hyphens after the 8th, 12th, 16th and 20th digit, the
/// version digit `4` and a variant digit from `8` to `b`.
pub open spec fn is_random_uuid_text(id: Seq<char>) -> bool {
    &&& id.len() == 36
    &&& forall|i: int|
        0 <= i < 36 ==> if i == 8 || i == 13 || i == 18 || i == 23 {
            #[trigger] id[i] == '-'
        } else {
            is_lower_hex(id[i])
        }
    &&& id[14] == '4'
    &&& (id[19] == '8' || id[19] == '9' || id[19] == 'a' || id[19] == 'b')
}

/// Draws a fresh identifier with `uuid::Uuid::new_v4` and writes it out as
/// `Uuid`'s `Display` does.
///
/// Trusted: only the shape of the text. Which identifier comes out is left
/// open, and so is whether two calls give different ones.
#[verifier::external_body]
pub(crate) fn random_identifier() -> (id: String)
    ensures
        is_random_uuid_text(id@),
{
    uuid::Uuid::new_v4().to_string()
}

/// Reads the clock with `chrono::Utc::now`.
///
/// Trusted: the seconds are not negative and the nanoseconds stay below one
/// second, as `now` builds its answer from the time elapsed since the Unix
/// epoch. `now` itself panics on a clock set before the epoch.
#[verifier::external_body]
pub(crate) fn utc_now() -> (now: Timestamp)
    ensures
        now.secs >= 0,
        now.nanos < 1_000_000_000,
{
    let now = chrono::Utc::now();
    Timestamp { secs: now.timestamp(), nanos: now.timestamp_subsec_nanos() }
}

} // verus!
