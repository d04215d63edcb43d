//! The four operations. Each checks its amount, then lays out the ledger
//! calls it needs and the record it leaves, as a [`Session`] for the caller
//! to run. A rejected amount ends the operation before any call is planned.

use vstd::prelude::*;
use crate::accounts::{BurnTokens, Initialize, MintTokens, TransferWithBurn};
use crate::amount::{amount_check, compute_split, split_of, validate_amount, ErrorCode, Split};
use crate::events::{BurnEvent, Event, TransferEvent};
use crate::ledger::LedgerCall;
use crate::session::{fresh, Session, SessionView};

verus! {

/// `r` holds a session in the state `expected` holds, or the same error.
pub open spec fn started_as(r: Result<Session, ErrorCode>, expected: Result<SessionView, ErrorCode>) -> bool {
    match expected {
        Ok(v) => r matches Ok(s) && s@ == v && s.wf(),
        Err(e) => r matches Err(f) && f == e,
    }
}

/// Creating the mint: one call that hands on the precision and the
/// authority as given, and no record.
pub open spec fn initialize_spec(ctx: Initialize, decimals: u8) -> SessionView {
    fresh(
        seq![LedgerCall::CreateMint {
            mint: ctx.mint,
            decimals,
            mint_authority: ctx.mint_authority,
            payer: ctx.payer,
        }],
        None,
    )
}

/// Minting: the amount is checked, then one mint call, and no record.
pub open spec fn mint_tokens_spec(ctx: MintTokens, amount: u64) -> Result<SessionView, ErrorCode> {
    match amount_check(amount) {
        Err(e) => Err(e),
        Ok(()) => Ok(fresh(
            seq![LedgerCall::MintTo { mint: ctx.mint, to: ctx.to, authority: ctx.authority, amount }],
            None,
        )),
    }
}

/// The calls of a transfer: the delivery first, then the burn, which is left
/// out when there is nothing to burn.
pub open spec fn transfer_calls(ctx: TransferWithBurn, split: Split) -> Seq<LedgerCall> {
    let delivery = LedgerCall::Transfer {
        from: ctx.from,
        to: ctx.to,
        authority: ctx.authority,
        amount: split.transfer_amount,
    };
    if split.burn_amount > 0 {
        seq![delivery, LedgerCall::Burn {
            mint: ctx.mint,
            from: ctx.from,
            authority: ctx.authority,
            amount: split.burn_amount,
        }]
    } else {
        seq![delivery]
    }
}

/// The record of a completed transfer.
pub open spec fn transfer_record(ctx: TransferWithBurn, amount: u64, split: Split) -> Event {
    Event::Transfer(TransferEvent {
        from: ctx.from,
        to: ctx.to,
        amount,
        burn_amount: split.burn_amount,
        transfer_amount: split.transfer_amount,
    })
}

/// Transferring: the amount is split, then delivery and burn, and a record.
pub open spec fn transfer_with_burn_spec(ctx: TransferWithBurn, amount: u64) -> Result<SessionView, ErrorCode> {
    match split_of(amount) {
        Err(e) => Err(e),
        Ok(split) => Ok(fresh(transfer_calls(ctx, split), Some(transfer_record(ctx, amount, split)))),
    }
}

/// Burning: the amount is checked, then one burn call, and a record.
pub open spec fn burn_tokens_spec(ctx: BurnTokens, amount: u64) -> Result<SessionView, ErrorCode> {
    match amount_check(amount) {
        Err(e) => Err(e),
        Ok(()) => Ok(fresh(
            seq![LedgerCall::Burn { mint: ctx.mint, from: ctx.from, authority: ctx.authority, amount }],
            Some(Event::Burn(BurnEvent { from: ctx.from, amount })),
        )),
    }
}

/// Creates the mint with the requested precision and minting authority.
pub fn initialize(ctx: &Initialize, decimals: u8) -> (r: Session)
    ensures
        r@ == initialize_spec(*ctx, decimals),
        r.wf(),
{
    let mut plan: Vec<LedgerCall> = Vec::new();
    plan.push(
        LedgerCall::CreateMint {
            mint: ctx.mint,
            decimals,
            mint_authority: ctx.mint_authority,
            payer: ctx.payer,
        },
    );
    assert(plan@ =~= initialize_spec(*ctx, decimals).plan);
    Session::new(plan, None)
}

/// Mints `amount` new tokens into `ctx.to`, signed by `ctx.authority`.
pub fn mint_tokens(ctx: &MintTokens, amount: u64) -> (r: Result<Session, ErrorCode>)
    ensures
        started_as(r, mint_tokens_spec(*ctx, amount)),
        amount == 0 <==> r == Err::<Session, ErrorCode>(ErrorCode::InvalidAmount),
{
    match validate_amount(amount) {
        Err(e) => Err(e),
        Ok(()) => {
            let mut plan: Vec<LedgerCall> = Vec::new();
            plan.push(LedgerCall::MintTo { mint: ctx.mint, to: ctx.to, authority: ctx.authority, amount });
            assert(plan@ =~= mint_tokens_spec(*ctx, amount)->Ok_0.plan);
            Ok(Session::new(plan, None))
        },
    }
}

/// Sends `amount` from `ctx.from` to `ctx.to`, of which half a percent,
/// rounded down, is burned instead of delivered.
pub fn transfer_with_burn(ctx: &TransferWithBurn, amount: u64) -> (r: Result<Session, ErrorCode>)
    ensures
        started_as(r, transfer_with_burn_spec(*ctx, amount)),
        amount == 0 <==> r == Err::<Session, ErrorCode>(ErrorCode::InvalidAmount),
        0 < amount < 200 <==> r == Err::<Session, ErrorCode>(ErrorCode::AmountTooSmall),
        amount >= 200 <==> r is Ok,
{
    match compute_split(amount) {
        Err(e) => Err(e),
        Ok(split) => {
            let mut plan: Vec<LedgerCall> = Vec::new();
            plan.push(
                LedgerCall::Transfer {
                    from: ctx.from,
                    to: ctx.to,
                    authority: ctx.authority,
                    amount: split.transfer_amount,
                },
            );
            if split.burn_amount > 0 {
                plan.push(
                    LedgerCall::Burn {
                        mint: ctx.mint,
                        from: ctx.from,
                        authority: ctx.authority,
                        amount: split.burn_amount,
                    },
                );
            }
            assert(plan@ =~= transfer_calls(*ctx, split));
            let event = Event::Transfer(
                TransferEvent {
                    from: ctx.from,
                    to: ctx.to,
                    amount,
                    burn_amount: split.burn_amount,
                    transfer_amount: split.transfer_amount,
                },
            );
            Ok(Session::new(plan, Some(event)))
        },
    }
}

/// Burns `amount` tokens held in `ctx.from`, signed by `ctx.authority`.
pub fn burn_tokens(ctx: &BurnTokens, amount: u64) -> (r: Result<Session, ErrorCode>)
    ensures
        started_as(r, burn_tokens_spec(*ctx, amount)),
        amount == 0 <==> r == Err::<Session, ErrorCode>(ErrorCode::InvalidAmount),
{
    match validate_amount(amount) {
        Err(e) => Err(e),
        Ok(()) => {
            let mut plan: Vec<LedgerCall> = Vec::new();
            plan.push(LedgerCall::Burn { mint: ctx.mint, from: ctx.from, authority: ctx.authority, amount });
            assert(plan@ =~= burn_tokens_spec(*ctx, amount)->Ok_0.plan);
            Ok(Session::new(plan, Some(Event::Burn(BurnEvent { from: ctx.from, amount }))))
        },
    }
}

} // verus!
