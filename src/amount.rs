//! Amount validation and the split of a transfer into a delivered part and a
//! burned part.

use vstd::prelude::*;

verus! {

/// Numerator of the burn rate: five parts in a thousand (0.5%).
pub const BURN_RATE_NUMERATOR: u64 = 5;

/// Denominator of the burn rate.
pub const BURN_RATE_DENOMINATOR: u64 = 1000;

/// The smallest amount that a transfer accepts.
pub const MIN_TRANSFER_AMOUNT: u64 = 200;

/// The errors that this program raises itself, before the ledger is asked
/// for anything.
#[derive(Clone, Copy, Debug, PartialEq, Eq, Structural)]
pub enum ErrorCode {
    /// The amount is zero.
    InvalidAmount,
    /// The amount is below the minimum for a transfer.
    AmountTooSmall,
    /// A step of the split computation left the integer range.
    MathOverflow,
}

impl ErrorCode {
    /// The message that goes with the error.
    pub fn message(&self) -> (r: &'static str) {
        match self {
            ErrorCode::InvalidAmount => "Invalid amount: must be greater than 0",
            ErrorCode::AmountTooSmall => "Amount too small: minimum 200 tokens required for 0.5% burn",
            ErrorCode::MathOverflow => "Math overflow occurred",
        }
    }
}

/// How a transfer amount is divided.
#[derive(Clone, Copy, Debug, PartialEq, Eq, Structural)]
pub struct Split {
    /// The part that is destroyed.
    pub burn_amount: u64,
    /// The part that reaches the recipient.
    pub transfer_amount: u64,
}

/// The burned part of a transfer of `amount`: `floor(amount * 5 / 1000)`.
pub open spec fn burn_part(amount: u64) -> int {
    (amount as int) * (BURN_RATE_NUMERATOR as int) / (BURN_RATE_DENOMINATOR as int)
}

/// The delivered part of a transfer of `amount`.
pub open spec fn transfer_part(amount: u64) -> int {
    amount - burn_part(amount)
}

/// What checking a plain amount (for a mint or a burn) gives.
pub open spec fn amount_check(amount: u64) -> Result<(), ErrorCode> {
    if amount == 0 {
        Err(ErrorCode::InvalidAmount)
    } else {
        Ok(())
    }
}

/// What the split of a transfer of `amount` gives.
pub open spec fn split_of(amount: u64) -> Result<Split, ErrorCode> {
    if amount == 0 {
        Err(ErrorCode::InvalidAmount)
    } else if amount < MIN_TRANSFER_AMOUNT {
        Err(ErrorCode::AmountTooSmall)
    } else {
        Ok(Split { burn_amount: burn_part(amount) as u64, transfer_amount: transfer_part(amount) as u64 })
    }
}

/// The burned part never exceeds the amount, and both parts fit in a `u64`.
pub proof fn lemma_burn_part_bounds(amount: u64)
    ensures
        0 <= burn_part(amount) <= amount,
        0 <= transfer_part(amount) <= amount,
{
    assert(0 <= (amount as int) * 5 / 1000 <= amount) by (nonlinear_arith);
}

/// Checks an amount for a mint or a burn: it must not be zero.
pub fn validate_amount(amount: u64) -> (r: Result<(), ErrorCode>)
    ensures
        r == amount_check(amount),
{
    if amount == 0 {
        Err(ErrorCode::InvalidAmount)
    } else {
        Ok(())
    }
}

/// Splits a transfer amount into the part that is burned and the part that is
/// delivered. The product `amount * 5` is taken in 128 bits, so it cannot
/// wrap for any `u64` amount.
pub fn compute_split(amount: u64) -> (r: Result<Split, ErrorCode>)
    ensures
        r == split_of(amount),
{
    if amount == 0 {
        return Err(ErrorCode::InvalidAmount);
    }
    if amount < MIN_TRANSFER_AMOUNT {
        return Err(ErrorCode::AmountTooSmall);
    }
    proof {
        lemma_burn_part_bounds(amount);
    }
    let wide: u128 = (amount as u128) * (BURN_RATE_NUMERATOR as u128);
    let burn_amount: u64 = (wide / (BURN_RATE_DENOMINATOR as u128)) as u64;
    match amount.checked_sub(burn_amount) {
        Some(transfer_amount) => Ok(Split { burn_amount, transfer_amount }),
        None => Err(ErrorCode::MathOverflow),
    }
}

} // verus!
