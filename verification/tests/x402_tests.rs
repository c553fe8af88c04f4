use signal402::x402::{
    amount_before, credited_transfers, get_payment_required_header, step_for, transaction_of,
    LedgerResolution, LedgerTransaction, TokenBalance, TransactionMeta, TransactionReference,
    Transfer, VerificationResult, VerificationStep, X402Verifier, SETTLEMENT_ASSET,
};
use solana_sdk::signature::Signature;
use std::cell::Cell;
use std::str::FromStr;

const VAULT: &str = "EPjFWdd5AufqSSqeM2qN1xzybapC8G4wEGGkZwyTDt1v";
const OTHER_ACCOUNT: &str = "11111111111111111111111111111111";
const SIGNATURE_TEXT: &str =
    "11cgTH4D5e8S3snD444WbbGrkepjTvWMj2jkmCGJtgn3H7qrPb1BnwapxpbGdRtHQh9t9Wbn9t6ZDGHzWpL4df";
const SIGNATURE_BYTES: [u8; 64] = [
    0, 0, 10, 85, 198, 191, 71, 18, 5, 54, 6, 255, 181, 32, 227, 150, 208, 3, 157, 135, 222, 67,
    50, 23, 237, 51, 240, 123, 34, 148, 111, 84, 98, 162, 236, 133, 31, 93, 185, 142, 108, 41, 191,
    1, 138, 6, 192, 0, 46, 93, 25, 65, 243, 223, 225, 225, 85, 55, 82, 251, 109, 132, 165, 2,
];

fn devnet_verifier() -> X402Verifier {
    X402Verifier::try_new("https://api.devnet.solana.com", VAULT).unwrap()
}

fn transfer(asset: &str, destination: &str, amount: u64) -> Transfer {
    Transfer { asset: String::from(asset), destination: String::from(destination), amount }
}

fn resolved(failed: bool, transfers: Vec<Transfer>) -> LedgerResolution {
    LedgerResolution::Resolved(LedgerTransaction { failed, transfers })
}

#[test]
fn header_names_amount_address_and_asset() {
    assert_eq!(
        get_payment_required_header(50000, "SIGNAL402_VAULT_ADDRESS"),
        "x402 amount=50000, address=SIGNAL402_VAULT_ADDRESS, asset=USDC"
    );
}

#[test]
fn header_agrees_with_formatting() {
    for price in [0u64, 1, 9, 10, 49999, 50000, 1_000_000, u64::MAX] {
        for vault in ["", VAULT, "a b", "€"] {
            assert_eq!(
                get_payment_required_header(price, vault),
                format!("x402 amount={}, address={}, asset=USDC", price, vault)
            );
        }
    }
}

#[test]
fn settlement_asset_is_usdc() {
    assert_eq!(SETTLEMENT_ASSET, "USDC");
}

#[test]
fn verifier_keeps_its_endpoint_and_vault() {
    let payments = X402Verifier::try_new("http://localhost:8899", VAULT).unwrap();
    assert_eq!(payments.rpc_url(), "http://localhost:8899");
    assert_eq!(payments.vault_address(), VAULT);
}

#[test]
fn verifier_refuses_a_vault_that_names_no_account() {
    let too_long = "1".repeat(45);
    for vault in [
        "",
        "6M2N...",
        "SIGNAL402_VAULT_ADDRESS",
        "1111111111111111111111111111111",
        "EPjFWdd5AufqSSqeM2qN1xzybapC8G4wEGGkZwyTDt1vv",
        "0PjFWdd5AufqSSqeM2qN1xzybapC8G4wEGGkZwyTDt1v",
        "EPjFWdd5AufqSSqeM2qN1xzybapC8G4wEGGkZwyTDt1l",
        " EPjFWdd5AufqSSqeM2qN1xzybapC8G4wEGGkZwyTDt1v",
        too_long.as_str(),
    ] {
        assert!(X402Verifier::try_new("http://localhost:8899", vault).is_none(), "{vault:?}");
    }
}

#[test]
fn verifier_accepts_the_accounts_that_the_ledger_crate_accepts() {
    for vault in [VAULT, OTHER_ACCOUNT, "4zMMC9srt5Ri5X14GAgXhaHii3GnPAEERYPJgZJDncDU", "", "x"] {
        assert_eq!(
            X402Verifier::try_new("http://localhost:8899", vault).is_some(),
            solana_sdk::pubkey::Pubkey::from_str(vault).is_ok(),
            "{vault:?}"
        );
    }
}

#[test]
fn a_well_formed_claim_names_its_transaction() {
    assert_eq!(
        devnet_verifier().begin_verification(SIGNATURE_TEXT),
        VerificationStep::Resolve(TransactionReference { signature: SIGNATURE_BYTES })
    );
}

#[test]
fn a_claim_of_all_ones_names_the_zero_signature() {
    let text = "1".repeat(64);
    assert_eq!(
        devnet_verifier().begin_verification(&text),
        VerificationStep::Resolve(TransactionReference { signature: [0u8; 64] })
    );
}

#[test]
fn claims_decode_as_the_ledger_crate_decodes_them() {
    let texts = [
        String::from(SIGNATURE_TEXT),
        Signature::from([7u8; 64]).to_string(),
        Signature::from([255u8; 64]).to_string(),
        "1".repeat(64),
        "1".repeat(63),
        "1".repeat(65),
        String::from("abc"),
    ];
    for text in texts {
        let expected = match Signature::from_str(&text) {
            Ok(signature) => {
                VerificationStep::Resolve(TransactionReference { signature: signature.into() })
            }
            Err(_) => VerificationStep::Settled(VerificationResult::Rejected),
        };
        assert_eq!(devnet_verifier().begin_verification(&text), expected, "{text:?}");
    }
}

#[test]
fn a_claim_of_the_wrong_length_is_rejected() {
    let too_long = format!("{}1", SIGNATURE_TEXT);
    let much_too_long = "2".repeat(200);
    for text in ["", "1", &SIGNATURE_TEXT[..85], too_long.as_str(), much_too_long.as_str()] {
        assert_eq!(
            devnet_verifier().begin_verification(text),
            VerificationStep::Settled(VerificationResult::Rejected),
            "{text:?}"
        );
    }
}

#[test]
fn a_claim_outside_the_alphabet_is_rejected() {
    for bad in ["0", "O", "I", "l", "_", " ", "+", "é"] {
        let text = format!("{}{}", bad, &SIGNATURE_TEXT[1..]);
        assert_eq!(
            devnet_verifier().begin_verification(&text),
            VerificationStep::Settled(VerificationResult::Rejected),
            "{text:?}"
        );
    }
}

#[test]
fn a_claim_that_did_not_decode_is_settled_as_rejected() {
    assert_eq!(step_for(None), VerificationStep::Settled(VerificationResult::Rejected));
    assert_eq!(
        step_for(Some([9u8; 64])),
        VerificationStep::Resolve(TransactionReference { signature: [9u8; 64] })
    );
}

#[test]
fn an_unresolved_transaction_is_unknown() {
    assert_eq!(devnet_verifier().judge(&LedgerResolution::Unresolved, 50000), VerificationResult::Unknown);
}

#[test]
fn a_failed_transaction_is_rejected() {
    let resolution = resolved(true, vec![transfer("USDC", VAULT, 50000)]);
    assert_eq!(devnet_verifier().judge(&resolution, 50000), VerificationResult::Rejected);
}

#[test]
fn a_transfer_of_exactly_the_price_is_confirmed() {
    let resolution = resolved(false, vec![transfer("USDC", VAULT, 50000)]);
    assert_eq!(devnet_verifier().judge(&resolution, 50000), VerificationResult::Confirmed);
}

#[test]
fn a_transfer_of_more_than_the_price_is_confirmed() {
    let resolution = resolved(false, vec![transfer("USDC", VAULT, u64::MAX)]);
    assert_eq!(devnet_verifier().judge(&resolution, 50000), VerificationResult::Confirmed);
}

#[test]
fn a_transfer_of_less_than_the_price_is_rejected() {
    let resolution = resolved(false, vec![transfer("USDC", VAULT, 49999)]);
    assert_eq!(devnet_verifier().judge(&resolution, 50000), VerificationResult::Rejected);
}

#[test]
fn a_transfer_to_another_account_is_rejected() {
    let resolution = resolved(false, vec![transfer("USDC", OTHER_ACCOUNT, 50000)]);
    assert_eq!(devnet_verifier().judge(&resolution, 50000), VerificationResult::Rejected);
}

#[test]
fn a_transfer_of_another_asset_is_rejected() {
    for asset in ["SOL", "usdc", "USDC ", "", "USDT"] {
        let resolution = resolved(false, vec![transfer(asset, VAULT, 50000)]);
        assert_eq!(devnet_verifier().judge(&resolution, 50000), VerificationResult::Rejected, "{asset:?}");
    }
}

#[test]
fn a_transaction_without_transfers_is_rejected() {
    assert_eq!(devnet_verifier().judge(&resolved(false, vec![]), 50000), VerificationResult::Rejected);
    assert_eq!(devnet_verifier().judge(&resolved(false, vec![]), 0), VerificationResult::Rejected);
}

#[test]
fn one_paying_transfer_among_others_is_enough() {
    let resolution = resolved(
        false,
        vec![
            transfer("SOL", VAULT, 1_000_000),
            transfer("USDC", OTHER_ACCOUNT, 1_000_000),
            transfer("USDC", VAULT, 10),
            transfer("USDC", VAULT, 50000),
        ],
    );
    assert_eq!(devnet_verifier().judge(&resolution, 50000), VerificationResult::Confirmed);
}

#[test]
fn small_transfers_do_not_add_up() {
    let resolution =
        resolved(false, vec![transfer("USDC", VAULT, 25000), transfer("USDC", VAULT, 25000)]);
    assert_eq!(devnet_verifier().judge(&resolution, 50000), VerificationResult::Rejected);
}

#[test]
fn a_malformed_claim_is_rejected_without_a_lookup() {
    let lookups = Cell::new(0);
    let too_long = "1".repeat(89);
    for text in ["", "not a signature", "O0Il", too_long.as_str(), &SIGNATURE_TEXT[..80], &SIGNATURE_TEXT[1..]] {
        let result = devnet_verifier().verify_payment(text, 50000, |_reference: &TransactionReference| {
            lookups.set(lookups.get() + 1);
            resolved(false, vec![transfer("USDC", VAULT, 50000)])
        });
        assert_eq!(result, VerificationResult::Rejected, "{text:?}");
    }
    assert_eq!(lookups.get(), 0);
}

#[test]
fn a_well_formed_claim_is_looked_up_once() {
    let lookups = Cell::new(0);
    let result =
        devnet_verifier().verify_payment(SIGNATURE_TEXT, 50000, |reference: &TransactionReference| {
            lookups.set(lookups.get() + 1);
            assert_eq!(reference.signature, SIGNATURE_BYTES);
            resolved(false, vec![transfer("USDC", VAULT, 50000)])
        });
    assert_eq!(result, VerificationResult::Confirmed);
    assert_eq!(lookups.get(), 1);
}

#[test]
fn a_lookup_without_an_answer_leaves_the_claim_unknown() {
    let result = devnet_verifier().verify_payment(
        SIGNATURE_TEXT,
        50000,
        |_reference: &TransactionReference| LedgerResolution::Unresolved,
    );
    assert_eq!(result, VerificationResult::Unknown);
}

#[test]
fn verification_gives_the_same_result_every_time() {
    let ledger = |reference: &TransactionReference| {
        if reference.signature == SIGNATURE_BYTES {
            resolved(false, vec![transfer("USDC", VAULT, 60000)])
        } else if reference.signature == [0u8; 64] {
            resolved(true, vec![transfer("USDC", VAULT, 60000)])
        } else {
            LedgerResolution::Unresolved
        }
    };
    let zero = "1".repeat(64);
    let other = Signature::from([7u8; 64]).to_string();
    let payments = devnet_verifier();
    for _ in 0..5 {
        assert_eq!(
            payments.verify_payment(SIGNATURE_TEXT, 50000, ledger),
            VerificationResult::Confirmed
        );
        assert_eq!(
            payments.verify_payment(SIGNATURE_TEXT, 60001, ledger),
            VerificationResult::Rejected
        );
        assert_eq!(payments.verify_payment(&zero, 50000, ledger), VerificationResult::Rejected);
        assert_eq!(payments.verify_payment(&other, 50000, ledger), VerificationResult::Unknown);
        assert_eq!(payments.verify_payment("junk", 50000, ledger), VerificationResult::Rejected);
    }
}

fn balance(account_index: u8, asset: &str, owner: Option<&str>, amount: u64) -> TokenBalance {
    TokenBalance {
        account_index,
        asset: String::from(asset),
        owner: owner.map(String::from),
        amount,
    }
}

#[test]
fn an_account_without_an_earlier_balance_held_nothing() {
    let before = vec![balance(1, "USDC", Some(VAULT), 10), balance(3, "USDC", Some(VAULT), 30)];
    assert_eq!(amount_before(&before, 0), 0);
    assert_eq!(amount_before(&before, 1), 10);
    assert_eq!(amount_before(&before, 2), 0);
    assert_eq!(amount_before(&before, 3), 30);
    assert_eq!(amount_before(&vec![], 1), 0);
}

#[test]
fn the_first_earlier_balance_of_an_account_counts() {
    let before = vec![balance(1, "USDC", Some(VAULT), 10), balance(1, "USDC", Some(VAULT), 99)];
    assert_eq!(amount_before(&before, 1), 10);
}

#[test]
fn a_grown_balance_is_a_transfer_to_its_owner() {
    let before = vec![
        balance(1, "USDC", Some(OTHER_ACCOUNT), 80000),
        balance(2, "USDC", Some(VAULT), 1000),
    ];
    let after = vec![
        balance(1, "USDC", Some(OTHER_ACCOUNT), 30000),
        balance(2, "USDC", Some(VAULT), 51000),
    ];
    assert_eq!(credited_transfers(&before, &after), vec![transfer("USDC", VAULT, 50000)]);
}

#[test]
fn a_new_account_is_credited_with_all_it_holds() {
    let after = vec![balance(4, "USDC", Some(VAULT), 50000)];
    assert_eq!(credited_transfers(&vec![], &after), vec![transfer("USDC", VAULT, 50000)]);
}

#[test]
fn balances_that_did_not_grow_are_no_transfers() {
    let before = vec![balance(1, "USDC", Some(VAULT), 500), balance(2, "SOL", Some(VAULT), 7)];
    let after = vec![
        balance(1, "USDC", Some(VAULT), 500),
        balance(2, "SOL", Some(VAULT), 6),
        balance(3, "USDC", Some(VAULT), 0),
    ];
    assert_eq!(credited_transfers(&before, &after), vec![]);
    assert_eq!(credited_transfers(&before, &vec![]), vec![]);
}

#[test]
fn an_account_without_a_known_owner_is_no_destination() {
    let after = vec![balance(1, "USDC", None, 50000)];
    assert_eq!(credited_transfers(&vec![], &after), vec![]);
}

#[test]
fn transfers_come_in_the_order_of_the_later_balances() {
    let before = vec![balance(2, "SOL", Some(VAULT), 1)];
    let after = vec![
        balance(5, "USDC", Some(OTHER_ACCOUNT), 9),
        balance(2, "SOL", Some(VAULT), 4),
        balance(7, "USDC", None, 1),
        balance(1, "USDC", Some(VAULT), u64::MAX),
    ];
    assert_eq!(
        credited_transfers(&before, &after),
        vec![
            transfer("USDC", OTHER_ACCOUNT, 9),
            transfer("SOL", VAULT, 3),
            transfer("USDC", VAULT, u64::MAX),
        ]
    );
}

#[test]
fn metadata_is_read_into_a_transaction() {
    let meta = TransactionMeta {
        failed: false,
        pre_token_balances: vec![balance(2, "USDC", Some(VAULT), 1000)],
        post_token_balances: vec![balance(2, "USDC", Some(VAULT), 51000)],
    };
    let transaction = transaction_of(Some(&meta));
    assert_eq!(
        transaction,
        LedgerTransaction { failed: false, transfers: vec![transfer("USDC", VAULT, 50000)] }
    );
    assert_eq!(
        devnet_verifier().judge(&LedgerResolution::Resolved(transaction), 50000),
        VerificationResult::Confirmed
    );
}

#[test]
fn metadata_of_a_failed_transaction_is_read_as_failed() {
    let meta = TransactionMeta {
        failed: true,
        pre_token_balances: vec![],
        post_token_balances: vec![balance(2, "USDC", Some(VAULT), 50000)],
    };
    let transaction = transaction_of(Some(&meta));
    assert!(transaction.failed);
    assert_eq!(
        devnet_verifier().judge(&LedgerResolution::Resolved(transaction), 50000),
        VerificationResult::Rejected
    );
}

#[test]
fn a_transaction_without_metadata_shows_no_payment() {
    let transaction = transaction_of(None);
    assert_eq!(transaction, LedgerTransaction { failed: false, transfers: vec![] });
    assert_eq!(
        devnet_verifier().judge(&LedgerResolution::Resolved(transaction), 50000),
        VerificationResult::Rejected
    );
}

fn is_base58(c: char) -> bool {
    "123456789ABCDEFGHJKLMNPQRSTUVWXYZabcdefghijkmnopqrstuvwxyz".contains(c)
}

#[test]
fn every_character_outside_the_alphabet_spoils_a_claim() {
    let mut code = 0u32;
    while code < 0x3000 {
        if let Some(c) = char::from_u32(code) {
            if !is_base58(c) {
                let text = format!("{}{}{}", &SIGNATURE_TEXT[..40], c, &SIGNATURE_TEXT[41..]);
                assert_eq!(
                    devnet_verifier().begin_verification(&text),
                    VerificationStep::Settled(VerificationResult::Rejected),
                    "U+{:04X}",
                    code
                );
            }
        }
        code += 1;
    }
}

#[test]
fn every_signature_is_read_back_from_its_text() {
    for fill in 0..=255u8 {
        let mut bytes = [fill; 64];
        bytes[63] = fill.wrapping_mul(31).wrapping_add(7);
        bytes[0] = fill / 3;
        let text = Signature::from(bytes).to_string();
        assert!(text.chars().count() <= 88 && text.chars().all(is_base58), "{text}");
        assert_eq!(
            devnet_verifier().begin_verification(&text),
            VerificationStep::Resolve(TransactionReference { signature: bytes })
        );
    }
}

#[test]
fn every_account_is_read_back_from_its_text() {
    for fill in 0..=255u8 {
        let mut bytes = [fill; 32];
        bytes[0] = fill / 5;
        let text = solana_sdk::pubkey::Pubkey::from(bytes).to_string();
        assert!(text.chars().count() <= 44 && text.chars().all(is_base58), "{text}");
        let payments = X402Verifier::try_new("http://localhost:8899", &text).unwrap();
        assert_eq!(payments.vault_address(), text);
    }
}
