//! The payment verifier: whether a claimed ledger transaction paid the vault.
//!
//! Looking a transaction up on the ledger is the caller's work. The verifier
//! says when a lookup is needed at all, and what to make of its answer.

use crate::outside::{
    address_bytes, decode_address, decode_signature, is_base58_text, signature_bytes,
    MAX_ADDRESS_CHARS, MAX_REFERENCE_CHARS,
};
use crate::text::{decimal_text, push_decimal, same_text};
use vstd::prelude::*;
use vstd::string::*;

verus! {

/// The symbol of the asset that signals are paid in.
pub const SETTLEMENT_ASSET: &'static str = "USDC";

/// What the verifier makes of a claimed payment.
#[derive(Clone, Copy, Debug, PartialEq, Eq, Structural)]
pub enum VerificationResult {
    /// The transaction succeeded and paid the vault at least the price.
    Confirmed,
    /// The claim is malformed, or the transaction failed or did not pay enough.
    Rejected,
    /// The ledger could not say; the caller may try again.
    Unknown,
}

/// One movement of an asset into an account, as a transaction recorded it.
#[derive(Clone, Debug, PartialEq, Eq)]
pub struct Transfer {
    pub asset: String,
    pub destination: String,
    pub amount: u64,
}

/// The mathematical content of a [`Transfer`].
pub ghost struct TransferView {
    pub asset: Seq<char>,
    pub destination: Seq<char>,
    pub amount: u64,
}

impl View for Transfer {
    type V = TransferView;

    open spec fn view(&self) -> TransferView {
        TransferView { asset: self.asset@, destination: self.destination@, amount: self.amount }
    }
}

/// What the ledger holds about one transaction.
#[derive(Clone, Debug, PartialEq, Eq)]
pub struct LedgerTransaction {
    /// The transaction recorded an execution error.
    pub failed: bool,
    pub transfers: Vec<Transfer>,
}

/// The mathematical content of a [`LedgerTransaction`].
pub ghost struct TransactionView {
    pub failed: bool,
    pub transfers: Seq<TransferView>,
}

impl View for LedgerTransaction {
    type V = TransactionView;

    open spec fn view(&self) -> TransactionView {
        TransactionView {
            failed: self.failed,
            transfers: transfer_views(self.transfers@),
        }
    }
}

/// What one token account holds, before or after a transaction.
#[derive(Clone, Debug, PartialEq, Eq)]
pub struct TokenBalance {
    /// The account's position among the transaction's accounts.
    pub account_index: u8,
    pub asset: String,
    /// Who owns the account, where the ledger says.
    pub owner: Option<String>,
    pub amount: u64,
}

/// The mathematical content of a [`TokenBalance`].
pub ghost struct BalanceView {
    pub account_index: u8,
    pub asset: Seq<char>,
    pub owner: Option<Seq<char>>,
    pub amount: u64,
}

impl View for TokenBalance {
    type V = BalanceView;

    open spec fn view(&self) -> BalanceView {
        BalanceView {
            account_index: self.account_index,
            asset: self.asset@,
            owner: match self.owner {
                Some(owner) => Some(owner@),
                None => None,
            },
            amount: self.amount,
        }
    }
}

/// The views of a list of balances.
pub open spec fn balance_views(balances: Seq<TokenBalance>) -> Seq<BalanceView> {
    Seq::new(balances.len(), |i: int| balances[i]@)
}

/// What a transaction's metadata says: whether an execution error was
/// recorded, and the token balances before and after.
#[derive(Clone, Debug, PartialEq, Eq)]
pub struct TransactionMeta {
    pub failed: bool,
    pub pre_token_balances: Vec<TokenBalance>,
    pub post_token_balances: Vec<TokenBalance>,
}

/// The mathematical content of a [`TransactionMeta`].
pub ghost struct MetaView {
    pub failed: bool,
    pub pre_token_balances: Seq<BalanceView>,
    pub post_token_balances: Seq<BalanceView>,
}

impl View for TransactionMeta {
    type V = MetaView;

    open spec fn view(&self) -> MetaView {
        MetaView {
            failed: self.failed,
            pre_token_balances: balance_views(self.pre_token_balances@),
            post_token_balances: balance_views(self.post_token_balances@),
        }
    }
}

/// What the account at `account_index` held before the transaction: the
/// amount of its first entry in `before`, and nothing where it has none.
pub open spec fn held_before(before: Seq<BalanceView>, account_index: u8) -> u64
    decreases before.len(),
{
    if before.len() == 0 {
        0
    } else if before.first().account_index == account_index {
        before.first().amount
    } else {
        held_before(before.drop_first(), account_index)
    }
}

/// The transfer that a balance after the transaction shows: where the
/// account has a known owner and holds more than before, the difference has
/// moved to that owner.
pub open spec fn credit(before: Seq<BalanceView>, after: BalanceView) -> Option<TransferView> {
    match after.owner {
        Some(owner) => if after.amount > held_before(before, after.account_index) {
            Some(
                TransferView {
                    asset: after.asset,
                    destination: owner,
                    amount: (after.amount - held_before(before, after.account_index)) as u64,
                },
            )
        } else {
            None
        },
        None => None,
    }
}

/// The transfers that the balances show, in the order of `after`.
pub open spec fn credits(before: Seq<BalanceView>, after: Seq<BalanceView>) -> Seq<TransferView>
    decreases after.len(),
{
    if after.len() == 0 {
        Seq::empty()
    } else {
        match credit(before, after.last()) {
            Some(transfer) => credits(before, after.drop_last()).push(transfer),
            None => credits(before, after.drop_last()),
        }
    }
}

/// What the ledger holds about a transaction with this metadata. Without
/// metadata nothing is known to have failed and nothing to have moved.
pub open spec fn read_from(meta: Option<MetaView>) -> TransactionView {
    match meta {
        Some(meta) => TransactionView {
            failed: meta.failed,
            transfers: credits(meta.pre_token_balances, meta.post_token_balances),
        },
        None => TransactionView { failed: false, transfers: Seq::empty() },
    }
}

/// The views of a list of transfers.
pub open spec fn transfer_views(transfers: Seq<Transfer>) -> Seq<TransferView> {
    Seq::new(transfers.len(), |i: int| transfers[i]@)
}

/// The answer of a ledger lookup.
#[derive(Clone, Debug, PartialEq, Eq)]
pub enum LedgerResolution {
    /// The ledger holds the transaction.
    Resolved(LedgerTransaction),
    /// Not found, not yet final, a node error or a timeout.
    Unresolved,
}

/// The mathematical content of a [`LedgerResolution`].
pub ghost enum ResolutionView {
    Resolved(TransactionView),
    Unresolved,
}

impl View for LedgerResolution {
    type V = ResolutionView;

    open spec fn view(&self) -> ResolutionView {
        match self {
            LedgerResolution::Resolved(transaction) => ResolutionView::Resolved(transaction@),
            LedgerResolution::Unresolved => ResolutionView::Unresolved,
        }
    }
}

/// A well-formed reference to a ledger transaction: its 64-byte signature.
#[derive(Clone, Copy, Debug, PartialEq, Eq)]
pub struct TransactionReference {
    pub signature: [u8; 64],
}

/// What the verifier does next with a claim.
#[derive(Clone, Copy, Debug, PartialEq, Eq)]
pub enum VerificationStep {
    /// The claim is decided; the ledger is not asked.
    Settled(VerificationResult),
    /// The ledger must be asked for this transaction.
    Resolve(TransactionReference),
}

/// `transfer` moves at least `required` of the settlement asset to `vault`.
pub open spec fn pays(transfer: TransferView, vault: Seq<char>, required: u64) -> bool {
    &&& transfer.asset == SETTLEMENT_ASSET@
    &&& transfer.destination == vault
    &&& transfer.amount >= required
}

/// One of `transfers` pays `vault` at least `required`.
pub open spec fn holds_payment(
    transfers: Seq<TransferView>,
    vault: Seq<char>,
    required: u64,
) -> bool {
    exists|i: int| 0 <= i < transfers.len() && pays(#[trigger] transfers[i], vault, required)
}

/// What a ledger answer means for a well-formed claim.
pub open spec fn judged(
    resolution: ResolutionView,
    vault: Seq<char>,
    required: u64,
) -> VerificationResult {
    match resolution {
        ResolutionView::Unresolved => VerificationResult::Unknown,
        ResolutionView::Resolved(transaction) => if !transaction.failed && holds_payment(
            transaction.transfers,
            vault,
            required,
        ) {
            VerificationResult::Confirmed
        } else {
            VerificationResult::Rejected
        },
    }
}

/// What a ledger answers when asked for a transaction. A ledger is the map of
/// the transactions that are final on it, by signature.
pub open spec fn lookup(
    ledger: Map<Seq<u8>, TransactionView>,
    signature: Seq<u8>,
) -> ResolutionView {
    if ledger.dom().contains(signature) {
        ResolutionView::Resolved(ledger[signature])
    } else {
        ResolutionView::Unresolved
    }
}

/// What is made of a claim against a ledger: one that names no transaction
/// is rejected; any other goes by the ledger's answer.
pub open spec fn verdict_on(
    ledger: Map<Seq<u8>, TransactionView>,
    decoded: Option<Seq<u8>>,
    vault: Seq<char>,
    required: u64,
) -> VerificationResult {
    match decoded {
        None => VerificationResult::Rejected,
        Some(signature) => judged(lookup(ledger, signature), vault, required),
    }
}

/// Verification does not depend on when it is done. As a ledger grows and
/// keeps what is final on it, a claim that was confirmed stays confirmed and
/// one that was rejected stays rejected; only an unknown one can still turn
/// into either. On the same ledger the same claim always gets the same
/// verdict.
pub proof fn lemma_verdict_is_stable(
    earlier: Map<Seq<u8>, TransactionView>,
    later: Map<Seq<u8>, TransactionView>,
    decoded: Option<Seq<u8>>,
    vault: Seq<char>,
    required: u64,
)
    requires
        forall|signature: Seq<u8>| #[trigger]
            earlier.dom().contains(signature) ==> later.dom().contains(signature)
                && later[signature] == earlier[signature],
    ensures
        verdict_on(earlier, decoded, vault, required) != VerificationResult::Unknown ==> verdict_on(
            later,
            decoded,
            vault,
            required,
        ) == verdict_on(earlier, decoded, vault, required),
        earlier == later ==> verdict_on(later, decoded, vault, required) == verdict_on(
            earlier,
            decoded,
            vault,
            required,
        ),
        decoded is None ==> verdict_on(later, decoded, vault, required)
            == VerificationResult::Rejected,
{
}

/// The view of a decoded signature.
pub open spec fn signature_view(decoded: Option<[u8; 64]>) -> Option<Seq<u8>> {
    match decoded {
        Some(bytes) => Some(bytes@),
        None => None,
    }
}

/// The view of transaction metadata that may be missing.
pub open spec fn meta_view(meta: Option<&TransactionMeta>) -> Option<MetaView> {
    match meta {
        Some(meta) => Some(meta@),
        None => None,
    }
}

/// `result` is what is made of a claim when `resolve` stands for the ledger:
/// a claim that names no transaction is rejected; for any other, `resolve`
/// is asked for the transaction that it names, and its answer is judged.
pub open spec fn is_verdict<F: FnOnce(&TransactionReference) -> LedgerResolution>(
    resolve: F,
    decoded: Option<Seq<u8>>,
    vault: Seq<char>,
    required: u64,
    result: VerificationResult,
) -> bool {
    match decoded {
        None => result == VerificationResult::Rejected,
        Some(bytes) => exists|reference: TransactionReference, resolution: LedgerResolution|
            #![trigger call_ensures(resolve, (&reference,), resolution)]
            reference.signature@ == bytes && call_ensures(resolve, (&reference,), resolution)
                && result == judged(resolution@, vault, required),
    }
}

/// The step that follows the decoding of a claim.
pub open spec fn step_after(decoded: Option<Seq<u8>>, step: VerificationStep) -> bool {
    match decoded {
        None => step matches VerificationStep::Settled(VerificationResult::Rejected),
        Some(bytes) => step matches VerificationStep::Resolve(reference) && reference.signature@
            == bytes,
    }
}

/// The text of the payment challenge.
pub open spec fn payment_required_header(price: u64, vault: Seq<char>) -> Seq<char> {
    "x402 amount="@ + decimal_text(price as nat) + ", address="@ + vault + ", asset="@
        + SETTLEMENT_ASSET@
}

/// Writes the challenge that tells a caller how to pay: the amount in the
/// asset's smallest unit, the vault to pay, and the asset.
pub fn get_payment_required_header(price: u64, vault: &str) -> (header: String)
    ensures
        header@ == payment_required_header(price, vault@),
{
    let mut header = String::from_str("x402 amount=");
    push_decimal(&mut header, price);
    header.append(", address=");
    header.append(vault);
    header.append(", asset=");
    header.append(SETTLEMENT_ASSET);
    header
}

/// What the account at `account_index` held before the transaction.
pub fn amount_before(before: &Vec<TokenBalance>, account_index: u8) -> (amount: u64)
    ensures
        amount == held_before(balance_views(before@), account_index),
{
    let ghost views = balance_views(before@);
    assert(views.subrange(0, views.len() as int) =~= views);
    let mut i: usize = 0;
    while i < before.len()
        invariant
            i <= before@.len(),
            views == balance_views(before@),
            held_before(views, account_index) == held_before(
                views.subrange(i as int, views.len() as int),
                account_index,
            ),
        decreases before@.len() - i,
    {
        let ghost rest = views.subrange(i as int, views.len() as int);
        assert(rest.first() == before@[i as int]@);
        if before[i].account_index == account_index {
            return before[i].amount;
        }
        assert(rest.drop_first() =~= views.subrange(i + 1, views.len() as int));
        i += 1;
    }
    0
}

/// Reads the transfers off a transaction's token balances: every account
/// with a known owner that holds more after the transaction than before has
/// received the difference.
pub fn credited_transfers(
    before: &Vec<TokenBalance>,
    after: &Vec<TokenBalance>,
) -> (transfers: Vec<Transfer>)
    ensures
        transfer_views(transfers@) == credits(balance_views(before@), balance_views(after@)),
{
    let ghost earlier = balance_views(before@);
    let ghost later = balance_views(after@);
    let mut transfers: Vec<Transfer> = Vec::new();
    let mut i: usize = 0;
    while i < after.len()
        invariant
            i <= after@.len(),
            earlier == balance_views(before@),
            later == balance_views(after@),
            transfer_views(transfers@) == credits(earlier, later.subrange(0, i as int)),
        decreases after@.len() - i,
    {
        let ghost so_far = transfer_views(transfers@);
        let ghost upto = later.subrange(0, i + 1);
        assert(upto.drop_last() =~= later.subrange(0, i as int));
        assert(upto.last() == after@[i as int]@);
        let entry = &after[i];
        let held = amount_before(before, entry.account_index);
        match &entry.owner {
            Some(owner) => {
                if entry.amount > held {
                    transfers.push(
                        Transfer {
                            asset: entry.asset.clone(),
                            destination: owner.clone(),
                            amount: entry.amount - held,
                        },
                    );
                    assert(transfer_views(transfers@) =~= so_far.push(
                        credit(earlier, upto.last())->0,
                    ));
                }
            },
            None => {},
        }
        i += 1;
    }
    assert(later.subrange(0, i as int) =~= later);
    transfers
}

/// Reads what the ledger holds about a transaction off its metadata.
pub fn transaction_of(meta: Option<&TransactionMeta>) -> (transaction: LedgerTransaction)
    ensures
        transaction@ == read_from(meta_view(meta)),
{
    match meta {
        Some(meta) => LedgerTransaction {
            failed: meta.failed,
            transfers: credited_transfers(&meta.pre_token_balances, &meta.post_token_balances),
        },
        None => {
            let transaction = LedgerTransaction { failed: false, transfers: Vec::new() };
            assert(transaction@.transfers =~= Seq::<TransferView>::empty());
            transaction
        },
    }
}

/// Decides the step for a decoded claim: a claim that did not decode is
/// rejected on the spot, any other is looked up.
pub fn step_for(decoded: Option<[u8; 64]>) -> (step: VerificationStep)
    ensures
        step_after(signature_view(decoded), step),
{
    match decoded {
        Some(signature) => VerificationStep::Resolve(TransactionReference { signature }),
        None => VerificationStep::Settled(VerificationResult::Rejected),
    }
}

/// Checks claimed payments against the ledger's answers.
pub struct X402Verifier {
    rpc_url: String,
    vault_address: String,
}

impl X402Verifier {
    #[verifier::type_invariant]
    spec fn vault_is_an_address(self) -> bool {
        address_bytes(self.vault_address@) is Some
    }

    /// The ledger endpoint that lookups go to.
    pub closed spec fn endpoint(self) -> Seq<char> {
        self.rpc_url@
    }

    /// The account that payments must reach.
    pub closed spec fn vault(self) -> Seq<char> {
        self.vault_address@
    }

    /// A verifier for the ledger at `rpc_url` and the vault `vault_addr`,
    /// which must name an account.
    pub fn new(rpc_url: &str, vault_addr: &str) -> (verifier: Self)
        requires
            address_bytes(vault_addr@) is Some,
        ensures
            verifier.endpoint() == rpc_url@,
            verifier.vault() == vault_addr@,
    {
        X402Verifier {
            rpc_url: String::from_str(rpc_url),
            vault_address: String::from_str(vault_addr),
        }
    }

    /// A verifier for the ledger at `rpc_url` and the vault `vault_addr`, or
    /// nothing where `vault_addr` names no account.
    pub fn try_new(rpc_url: &str, vault_addr: &str) -> (verifier: Option<Self>)
        ensures
            verifier is Some <==> address_bytes(vault_addr@) is Some,
            verifier matches Some(v) ==> v.endpoint() == rpc_url@ && v.vault() == vault_addr@,
            vault_addr@.len() > MAX_ADDRESS_CHARS || !is_base58_text(vault_addr@)
                ==> verifier is None,
    {
        match decode_address(vault_addr) {
            Some(_) => Some(Self::new(rpc_url, vault_addr)),
            None => None,
        }
    }

    /// The ledger endpoint that lookups go to.
    pub fn rpc_url(&self) -> (url: &str)
        ensures
            url@ == self.endpoint(),
    {
        self.rpc_url.as_str()
    }

    /// The account that payments must reach.
    pub fn vault_address(&self) -> (address: &str)
        ensures
            address@ == self.vault(),
            address_bytes(address@) is Some,
    {
        proof {
            use_type_invariant(self);
        }
        self.vault_address.as_str()
    }

    /// Reads the claim. A malformed one is rejected without a lookup; a
    /// well-formed one names the transaction to look up.
    pub fn begin_verification(&self, signature_str: &str) -> (step: VerificationStep)
        ensures
            step_after(signature_bytes(signature_str@), step),
            signature_str@.len() > MAX_REFERENCE_CHARS || !is_base58_text(signature_str@)
                ==> step matches VerificationStep::Settled(VerificationResult::Rejected),
    {
        step_for(decode_signature(signature_str))
    }

    /// What the ledger's answer means for a well-formed claim: no answer
    /// leaves the claim unknown; a failed transaction is rejected; a
    /// successful one is confirmed if one of its transfers moves at least
    /// `expected_amount` of the settlement asset to the vault, and rejected
    /// otherwise.
    pub fn judge(
        &self,
        resolution: &LedgerResolution,
        expected_amount: u64,
    ) -> (result: VerificationResult)
        ensures
            result == judged(resolution@, self.vault(), expected_amount),
    {
        match resolution {
            LedgerResolution::Unresolved => VerificationResult::Unknown,
            LedgerResolution::Resolved(transaction) => {
                if transaction.failed {
                    return VerificationResult::Rejected;
                }
                let mut i: usize = 0;
                while i < transaction.transfers.len()
                    invariant
                        i <= transaction.transfers@.len(),
                        !transaction.failed,
                        resolution@ == ResolutionView::Resolved(transaction@),
                        forall|k: int|
                            0 <= k < i ==> !pays(
                                #[trigger] transaction@.transfers[k],
                                self.vault(),
                                expected_amount,
                            ),
                    decreases transaction.transfers@.len() - i,
                {
                    let transfer = &transaction.transfers[i];
                    if transfer.amount >= expected_amount && same_text(
                        transfer.asset.as_str(),
                        SETTLEMENT_ASSET,
                    ) && same_text(transfer.destination.as_str(), self.vault_address.as_str()) {
                        assert(pays(
                            transaction@.transfers[i as int],
                            self.vault(),
                            expected_amount,
                        ));
                        return VerificationResult::Confirmed;
                    }
                    i += 1;
                }
                VerificationResult::Rejected
            },
        }
    }

    /// Verifies a claimed payment, asking `resolve` for the transaction where
    /// the claim is well-formed. A malformed claim is rejected and `resolve`
    /// is not called; otherwise `resolve` is called once, with the reference
    /// that the claim names, and its answer is judged.
    pub fn verify_payment<F: FnOnce(&TransactionReference) -> LedgerResolution>(
        &self,
        signature_str: &str,
        expected_amount: u64,
        resolve: F,
    ) -> (result: VerificationResult)
        requires
            forall|reference: TransactionReference| call_requires(resolve, (&reference,)),
        ensures
            is_verdict(
                resolve,
                signature_bytes(signature_str@),
                self.vault(),
                expected_amount,
                result,
            ),
            signature_str@.len() > MAX_REFERENCE_CHARS || !is_base58_text(signature_str@)
                ==> result == VerificationResult::Rejected,
    {
        match self.begin_verification(signature_str) {
            VerificationStep::Settled(result) => result,
            VerificationStep::Resolve(reference) => {
                let resolution = resolve(&reference);
                self.judge(&resolution, expected_amount)
            },
        }
    }
}

} // verus!
