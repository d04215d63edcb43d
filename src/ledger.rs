//! Identifiers and the primitive calls that the token ledger executes.

use vstd::prelude::*;

verus! {

/// The 32-byte public key of an account, a mint or a signer.
#[derive(Clone, Copy, Debug, PartialEq, Eq, Hash)]
pub struct AccountKey {
    pub bytes: [u8; 32],
}

impl AccountKey {
    /// The key with the given bytes.
    pub fn new(bytes: [u8; 32]) -> (r: AccountKey)
        ensures
            r.bytes == bytes,
    {
        AccountKey { bytes }
    }
}

/// One primitive of the token ledger, with every identity and amount it is
/// given. The ledger checks the authority's signature itself; this library
/// only hands on the authority it was given.
#[derive(Clone, Copy, Debug, PartialEq, Eq)]
pub enum LedgerCall {
    /// Create the mint with the given precision and minting authority.
    CreateMint { mint: AccountKey, decimals: u8, mint_authority: AccountKey, payer: AccountKey },
    /// Create `amount` new tokens in account `to`.
    MintTo { mint: AccountKey, to: AccountKey, authority: AccountKey, amount: u64 },
    /// Move `amount` tokens from `from` to `to`.
    Transfer { from: AccountKey, to: AccountKey, authority: AccountKey, amount: u64 },
    /// Destroy `amount` tokens held in `from`.
    Burn { mint: AccountKey, from: AccountKey, authority: AccountKey, amount: u64 },
}

/// The identity under which the ledger is asked to run the call.
pub open spec fn call_authority(c: LedgerCall) -> AccountKey {
    match c {
        LedgerCall::CreateMint { payer, .. } => payer,
        LedgerCall::MintTo { authority, .. } => authority,
        LedgerCall::Transfer { authority, .. } => authority,
        LedgerCall::Burn { authority, .. } => authority,
    }
}

/// How much the call takes out of `account`.
pub open spec fn call_debit(c: LedgerCall, account: AccountKey) -> int {
    match c {
        LedgerCall::Transfer { from, amount, .. } => if from == account { amount as int } else { 0 },
        LedgerCall::Burn { from, amount, .. } => if from == account { amount as int } else { 0 },
        _ => 0,
    }
}

/// How much the call puts into `account`.
pub open spec fn call_credit(c: LedgerCall, account: AccountKey) -> int {
    match c {
        LedgerCall::MintTo { to, amount, .. } => if to == account { amount as int } else { 0 },
        LedgerCall::Transfer { to, amount, .. } => if to == account { amount as int } else { 0 },
        _ => 0,
    }
}

/// How the call changes the total supply of the mint.
pub open spec fn call_supply_change(c: LedgerCall) -> int {
    match c {
        LedgerCall::MintTo { amount, .. } => amount as int,
        LedgerCall::Burn { amount, .. } => -(amount as int),
        _ => 0,
    }
}

/// What a sequence of calls takes out of `account` in all.
pub open spec fn total_debit(calls: Seq<LedgerCall>, account: AccountKey) -> int
    decreases calls.len(),
{
    if calls.len() == 0 {
        0
    } else {
        total_debit(calls.drop_last(), account) + call_debit(calls.last(), account)
    }
}

/// What a sequence of calls puts into `account` in all.
pub open spec fn total_credit(calls: Seq<LedgerCall>, account: AccountKey) -> int
    decreases calls.len(),
{
    if calls.len() == 0 {
        0
    } else {
        total_credit(calls.drop_last(), account) + call_credit(calls.last(), account)
    }
}

/// How a sequence of calls changes the total supply.
pub open spec fn total_supply_change(calls: Seq<LedgerCall>) -> int
    decreases calls.len(),
{
    if calls.len() == 0 {
        0
    } else {
        total_supply_change(calls.drop_last()) + call_supply_change(calls.last())
    }
}

/// Debits add up over consecutive runs of calls.
pub proof fn lemma_total_debit_append(a: Seq<LedgerCall>, b: Seq<LedgerCall>, account: AccountKey)
    ensures
        total_debit(a + b, account) == total_debit(a, account) + total_debit(b, account),
    decreases b.len(),
{
    if b.len() > 0 {
        assert((a + b).drop_last() =~= a + b.drop_last());
        lemma_total_debit_append(a, b.drop_last(), account);
    } else {
        assert(a + b =~= a);
    }
}

} // verus!
