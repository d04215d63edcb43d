//! The accounts that each operation names.

use vstd::prelude::*;
use crate::ledger::AccountKey;

verus! {

/// The accounts of a mint creation.
#[derive(Clone, Copy, Debug, PartialEq, Eq)]
pub struct Initialize {
    /// The mint to create.
    pub mint: AccountKey,
    /// Who may mint once it exists.
    pub mint_authority: AccountKey,
    /// Who pays for the new account.
    pub payer: AccountKey,
}

/// The accounts of a mint of new tokens.
#[derive(Clone, Copy, Debug, PartialEq, Eq)]
pub struct MintTokens {
    pub mint: AccountKey,
    /// The account that receives the new tokens.
    pub to: AccountKey,
    /// The signer, who must be the mint's authority.
    pub authority: AccountKey,
}

/// The accounts of a transfer that burns its fee.
#[derive(Clone, Copy, Debug, PartialEq, Eq)]
pub struct TransferWithBurn {
    pub mint: AccountKey,
    /// The account debited by both the delivery and the burn.
    pub from: AccountKey,
    /// The account that receives the delivered part.
    pub to: AccountKey,
    /// The signer, owner or delegate of `from`.
    pub authority: AccountKey,
}

/// The accounts of a burn by a holder.
#[derive(Clone, Copy, Debug, PartialEq, Eq)]
pub struct BurnTokens {
    pub mint: AccountKey,
    /// The account whose tokens are destroyed.
    pub from: AccountKey,
    /// The signer, owner or delegate of `from`.
    pub authority: AccountKey,
}

} // verus!
