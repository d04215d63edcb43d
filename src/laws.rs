//! Properties of the operations taken together.

use vstd::prelude::*;
use crate::accounts::{BurnTokens, Initialize, MintTokens, TransferWithBurn};
use crate::amount::{burn_part, lemma_burn_part_bounds, split_of, transfer_part, ErrorCode, MIN_TRANSFER_AMOUNT};
use crate::ledger::{call_authority, lemma_total_debit_append, total_credit, total_debit, total_supply_change};
use crate::program::{burn_tokens_spec, initialize_spec, mint_tokens_spec, transfer_with_burn_spec};

verus! {

/// A zero amount is refused with `InvalidAmount` by every operation that
/// takes an amount, before any ledger call is planned.
pub proof fn lemma_zero_amount_rejected(m: MintTokens, t: TransferWithBurn, b: BurnTokens)
    ensures
        mint_tokens_spec(m, 0) == Err::<crate::session::SessionView, ErrorCode>(ErrorCode::InvalidAmount),
        transfer_with_burn_spec(t, 0) == Err::<crate::session::SessionView, ErrorCode>(ErrorCode::InvalidAmount),
        burn_tokens_spec(b, 0) == Err::<crate::session::SessionView, ErrorCode>(ErrorCode::InvalidAmount),
{
}

/// A transfer amount from 1 to 199 is refused with `AmountTooSmall`, before
/// any ledger call is planned.
pub proof fn lemma_small_transfer_rejected(t: TransferWithBurn, amount: u64)
    requires
        0 < amount < MIN_TRANSFER_AMOUNT,
    ensures
        transfer_with_burn_spec(t, amount) == Err::<crate::session::SessionView, ErrorCode>(ErrorCode::AmountTooSmall),
{
}

/// From the minimum up, the split succeeds, its two parts add up to the
/// amount, and the burned part is `floor(amount * 5 / 1000)`.
pub proof fn lemma_split_exact(amount: u64)
    requires
        amount >= MIN_TRANSFER_AMOUNT,
    ensures
        split_of(amount) is Ok,
        split_of(amount)->Ok_0.burn_amount + split_of(amount)->Ok_0.transfer_amount == amount,
        split_of(amount)->Ok_0.burn_amount == (amount as int) * 5 / 1000,
{
    lemma_burn_part_bounds(amount);
}

/// From the minimum up, at least one token is burned and at least one is
/// delivered.
pub proof fn lemma_split_parts_positive(amount: u64)
    requires
        amount >= MIN_TRANSFER_AMOUNT,
    ensures
        split_of(amount)->Ok_0.burn_amount >= 1,
        split_of(amount)->Ok_0.transfer_amount >= 1,
{
    lemma_burn_part_bounds(amount);
    assert((amount as int) * 5 / 1000 >= 1) by (nonlinear_arith)
        requires amount >= 200;
    assert(transfer_part(amount) >= 1) by (nonlinear_arith)
        requires
            amount >= 200,
            transfer_part(amount) == amount - (amount as int) * 5 / 1000;
}

/// What an accepted transfer does to balances and supply once all of its
/// calls have run: the sender loses exactly the amount, the recipient (if
/// another account) gains the delivered part, and the supply shrinks by the
/// burned part.
pub proof fn lemma_transfer_accounting(t: TransferWithBurn, amount: u64)
    requires
        amount >= MIN_TRANSFER_AMOUNT,
    ensures
        total_debit(transfer_with_burn_spec(t, amount)->Ok_0.plan, t.from) == amount,
        t.to != t.from ==> total_credit(transfer_with_burn_spec(t, amount)->Ok_0.plan, t.to)
            == transfer_part(amount),
        total_supply_change(transfer_with_burn_spec(t, amount)->Ok_0.plan) == -burn_part(amount),
{
    lemma_split_parts_positive(amount);
    lemma_burn_part_bounds(amount);
    reveal_with_fuel(total_debit, 3);
    reveal_with_fuel(total_credit, 3);
    reveal_with_fuel(total_supply_change, 3);
    let p = transfer_with_burn_spec(t, amount)->Ok_0.plan;
    assert(p.len() == 2);
    assert(p.drop_last().drop_last() =~= Seq::empty());
    assert(p.drop_last() =~= seq![p[0]]);
}

/// Nothing is deduplicated: two identical transfer requests plan the same
/// calls twice, and running both takes twice the amount from the sender.
pub proof fn lemma_repeated_transfer_debits_twice(t: TransferWithBurn, amount: u64)
    requires
        amount >= MIN_TRANSFER_AMOUNT,
    ensures
        ({
            let p = transfer_with_burn_spec(t, amount)->Ok_0.plan;
            total_debit(p + p, t.from) == 2 * amount
        }),
{
    let p = transfer_with_burn_spec(t, amount)->Ok_0.plan;
    lemma_transfer_accounting(t, amount);
    lemma_total_debit_append(p, p, t.from);
}

/// A completed mint adds exactly the amount to the supply, and a completed
/// burn removes exactly the amount.
pub proof fn lemma_mint_and_burn_supply(m: MintTokens, b: BurnTokens, amount: u64)
    requires
        amount > 0,
    ensures
        total_supply_change(mint_tokens_spec(m, amount)->Ok_0.plan) == amount,
        total_supply_change(burn_tokens_spec(b, amount)->Ok_0.plan) == -amount,
        total_debit(burn_tokens_spec(b, amount)->Ok_0.plan, b.from) == amount,
{
    reveal_with_fuel(total_debit, 2);
    reveal_with_fuel(total_supply_change, 2);
    let pm = mint_tokens_spec(m, amount)->Ok_0.plan;
    let pb = burn_tokens_spec(b, amount)->Ok_0.plan;
    assert(pm.drop_last() =~= Seq::empty());
    assert(pb.drop_last() =~= Seq::empty());
}

/// Every planned call runs under the identity that the request named, and
/// no other.
pub proof fn lemma_calls_use_given_authority(
    i: Initialize,
    decimals: u8,
    m: MintTokens,
    t: TransferWithBurn,
    b: BurnTokens,
    amount: u64,
)
    ensures
        forall|k: int| 0 <= k < initialize_spec(i, decimals).plan.len()
            ==> call_authority(#[trigger] initialize_spec(i, decimals).plan[k]) == i.payer,
        mint_tokens_spec(m, amount) is Ok ==> forall|k: int|
            0 <= k < mint_tokens_spec(m, amount)->Ok_0.plan.len()
            ==> call_authority(#[trigger] mint_tokens_spec(m, amount)->Ok_0.plan[k]) == m.authority,
        transfer_with_burn_spec(t, amount) is Ok ==> forall|k: int|
            0 <= k < transfer_with_burn_spec(t, amount)->Ok_0.plan.len()
            ==> call_authority(#[trigger] transfer_with_burn_spec(t, amount)->Ok_0.plan[k]) == t.authority,
        burn_tokens_spec(b, amount) is Ok ==> forall|k: int|
            0 <= k < burn_tokens_spec(b, amount)->Ok_0.plan.len()
            ==> call_authority(#[trigger] burn_tokens_spec(b, amount)->Ok_0.plan[k]) == b.authority,
{
}

} // verus!
