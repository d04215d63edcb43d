//! The records that a completed operation leaves for the event sink.

use vstd::prelude::*;
use crate::ledger::AccountKey;

verus! {

/// A completed transfer: the gross amount, what was burned and what arrived.
#[derive(Clone, Copy, Debug, PartialEq, Eq)]
pub struct TransferEvent {
    pub from: AccountKey,
    pub to: AccountKey,
    pub amount: u64,
    pub burn_amount: u64,
    pub transfer_amount: u64,
}

/// A completed burn by a holder.
#[derive(Clone, Copy, Debug, PartialEq, Eq)]
pub struct BurnEvent {
    pub from: AccountKey,
    pub amount: u64,
}

/// Either record.
#[derive(Clone, Copy, Debug, PartialEq, Eq)]
pub enum Event {
    Transfer(TransferEvent),
    Burn(BurnEvent),
}

} // verus!
