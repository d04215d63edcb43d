use velirion_spl::accounts::{BurnTokens, Initialize, MintTokens, TransferWithBurn};
use velirion_spl::amount::{compute_split, validate_amount, ErrorCode, Split};
use velirion_spl::events::{BurnEvent, Event, TransferEvent};
use velirion_spl::ledger::{AccountKey, LedgerCall};
use velirion_spl::session::{Session, Step};
use velirion_spl::{burn_tokens, initialize, mint_tokens, transfer_with_burn};

fn key(b: u8) -> AccountKey {
    AccountKey::new([b; 32])
}

fn transfer_ctx() -> TransferWithBurn {
    TransferWithBurn { mint: key(1), from: key(2), to: key(3), authority: key(4) }
}

/// Runs a session against a scripted ledger; returns the calls made and the
/// final outcome.
fn run(
    mut session: Session,
    ledger: impl Fn(&LedgerCall) -> Result<(), String>,
) -> (Vec<LedgerCall>, Result<Option<Event>, String>) {
    let mut made = Vec::new();
    let mut call = session.pending().expect("a fresh session has a pending call");
    loop {
        made.push(call);
        match session.advance(ledger(&call)) {
            Step::Invoke(next) => call = next,
            Step::Done(event) => return (made, Ok(event)),
            Step::Failed(e) => return (made, Err(e)),
        }
    }
}

#[test]
fn split_of_one_thousand() {
    assert_eq!(compute_split(1000), Ok(Split { burn_amount: 5, transfer_amount: 995 }));
}

#[test]
fn split_at_minimum() {
    assert_eq!(compute_split(200), Ok(Split { burn_amount: 1, transfer_amount: 199 }));
}

#[test]
fn split_rounds_down() {
    assert_eq!(compute_split(399), Ok(Split { burn_amount: 1, transfer_amount: 398 }));
    assert_eq!(compute_split(400), Ok(Split { burn_amount: 2, transfer_amount: 398 }));
}

#[test]
fn split_of_largest_amount_does_not_overflow() {
    let amount = u64::MAX;
    let burn = ((amount as u128) * 5 / 1000) as u64;
    assert_eq!(compute_split(amount), Ok(Split { burn_amount: burn, transfer_amount: amount - burn }));
    assert_eq!(burn, 92233720368547758);
}

#[test]
fn split_rejects_zero_and_small() {
    assert_eq!(compute_split(0), Err(ErrorCode::InvalidAmount));
    assert_eq!(compute_split(1), Err(ErrorCode::AmountTooSmall));
    assert_eq!(compute_split(199), Err(ErrorCode::AmountTooSmall));
}

#[test]
fn split_parts_add_up() {
    for amount in [200u64, 201, 999, 1000, 1001, 123_456_789, u64::MAX / 3] {
        let s = compute_split(amount).unwrap();
        assert_eq!(s.burn_amount as u128 + s.transfer_amount as u128, amount as u128);
        assert_eq!(s.burn_amount as u128, amount as u128 * 5 / 1000);
        assert!(s.burn_amount >= 1);
        assert!(s.transfer_amount >= 1);
    }
}

#[test]
fn validate_amount_rejects_only_zero() {
    assert_eq!(validate_amount(0), Err(ErrorCode::InvalidAmount));
    assert_eq!(validate_amount(1), Ok(()));
    assert_eq!(validate_amount(u64::MAX), Ok(()));
}

#[test]
fn transfer_of_one_thousand_moves_then_burns() {
    let ctx = transfer_ctx();
    let (made, outcome) = run(transfer_with_burn(&ctx, 1000).unwrap(), |_| Ok(()));
    assert_eq!(
        made,
        vec![
            LedgerCall::Transfer { from: key(2), to: key(3), authority: key(4), amount: 995 },
            LedgerCall::Burn { mint: key(1), from: key(2), authority: key(4), amount: 5 },
        ]
    );
    assert_eq!(
        outcome,
        Ok(Some(Event::Transfer(TransferEvent {
            from: key(2),
            to: key(3),
            amount: 1000,
            burn_amount: 5,
            transfer_amount: 995,
        })))
    );
}

#[test]
fn transfer_of_199_is_too_small() {
    assert_eq!(transfer_with_burn(&transfer_ctx(), 199).err(), Some(ErrorCode::AmountTooSmall));
}

#[test]
fn transfer_below_minimum_is_too_small() {
    for amount in [1u64, 2, 100, 198, 199] {
        assert_eq!(transfer_with_burn(&transfer_ctx(), amount).err(), Some(ErrorCode::AmountTooSmall));
    }
}

#[test]
fn transfer_of_200_moves_and_burns() {
    let (made, outcome) = run(transfer_with_burn(&transfer_ctx(), 200).unwrap(), |_| Ok(()));
    assert_eq!(
        made,
        vec![
            LedgerCall::Transfer { from: key(2), to: key(3), authority: key(4), amount: 199 },
            LedgerCall::Burn { mint: key(1), from: key(2), authority: key(4), amount: 1 },
        ]
    );
    assert!(matches!(outcome, Ok(Some(Event::Transfer(TransferEvent { burn_amount: 1, transfer_amount: 199, .. })))));
}

#[test]
fn mint_of_zero_is_invalid() {
    let ctx = MintTokens { mint: key(1), to: key(3), authority: key(9) };
    assert_eq!(mint_tokens(&ctx, 0).err(), Some(ErrorCode::InvalidAmount));
}

#[test]
fn zero_is_invalid_for_every_operation() {
    let m = MintTokens { mint: key(1), to: key(3), authority: key(9) };
    let b = BurnTokens { mint: key(1), from: key(2), authority: key(4) };
    assert_eq!(mint_tokens(&m, 0).err(), Some(ErrorCode::InvalidAmount));
    assert_eq!(transfer_with_burn(&transfer_ctx(), 0).err(), Some(ErrorCode::InvalidAmount));
    assert_eq!(burn_tokens(&b, 0).err(), Some(ErrorCode::InvalidAmount));
}

#[test]
fn failed_move_skips_the_burn() {
    let (made, outcome) = run(transfer_with_burn(&transfer_ctx(), 1000).unwrap(), |c| match c {
        LedgerCall::Transfer { .. } => Err("insufficient funds".to_string()),
        _ => Ok(()),
    });
    assert_eq!(made, vec![LedgerCall::Transfer { from: key(2), to: key(3), authority: key(4), amount: 995 }]);
    assert_eq!(outcome, Err("insufficient funds".to_string()));
}

#[test]
fn failed_burn_after_move_fails_the_transfer() {
    let mut session = transfer_with_burn(&transfer_ctx(), 1000).unwrap();
    let first = session.pending();
    assert_eq!(first, Some(LedgerCall::Transfer { from: key(2), to: key(3), authority: key(4), amount: 995 }));
    let step: Step<String> = session.advance(Ok(()));
    assert_eq!(step, Step::Invoke(LedgerCall::Burn { mint: key(1), from: key(2), authority: key(4), amount: 5 }));
    assert_eq!(session.completed(), 1);
    let step = session.advance(Err("burn refused".to_string()));
    assert_eq!(step, Step::Failed("burn refused".to_string()));
    assert!(session.has_failed());
    assert_eq!(session.completed(), 1);
    assert_eq!(session.pending(), None);
}

#[test]
fn repeated_transfer_debits_twice() {
    let ctx = transfer_ctx();
    let mut debited: u64 = 0;
    for _ in 0..2 {
        let (made, outcome) = run(transfer_with_burn(&ctx, 1000).unwrap(), |_| Ok(()));
        assert!(outcome.is_ok());
        for c in made {
            match c {
                LedgerCall::Transfer { from, amount, .. } | LedgerCall::Burn { from, amount, .. } if from == ctx.from => {
                    debited += amount
                }
                _ => {}
            }
        }
    }
    assert_eq!(debited, 2000);
}

#[test]
fn mint_plans_one_mint_call_and_no_event() {
    let ctx = MintTokens { mint: key(1), to: key(3), authority: key(9) };
    let (made, outcome) = run(mint_tokens(&ctx, 42).unwrap(), |_| Ok(()));
    assert_eq!(made, vec![LedgerCall::MintTo { mint: key(1), to: key(3), authority: key(9), amount: 42 }]);
    assert_eq!(outcome, Ok(None));
}

#[test]
fn mint_failure_is_passed_on() {
    let ctx = MintTokens { mint: key(1), to: key(3), authority: key(5) };
    let (_, outcome) = run(mint_tokens(&ctx, 42).unwrap(), |_| Err("not the mint authority".to_string()));
    assert_eq!(outcome, Err("not the mint authority".to_string()));
}

#[test]
fn burn_plans_one_burn_call_and_an_event() {
    let ctx = BurnTokens { mint: key(1), from: key(2), authority: key(4) };
    let session = burn_tokens(&ctx, 7).unwrap();
    assert_eq!(session.event(), Some(Event::Burn(BurnEvent { from: key(2), amount: 7 })));
    let (made, outcome) = run(session, |_| Ok(()));
    assert_eq!(made, vec![LedgerCall::Burn { mint: key(1), from: key(2), authority: key(4), amount: 7 }]);
    assert_eq!(outcome, Ok(Some(Event::Burn(BurnEvent { from: key(2), amount: 7 }))));
}

#[test]
fn burn_failure_leaves_no_event() {
    let ctx = BurnTokens { mint: key(1), from: key(2), authority: key(4) };
    let (_, outcome) = run(burn_tokens(&ctx, 7).unwrap(), |_| Err("insufficient funds".to_string()));
    assert_eq!(outcome, Err("insufficient funds".to_string()));
}

#[test]
fn initialize_passes_decimals_and_authority_through() {
    let ctx = Initialize { mint: key(1), mint_authority: key(9), payer: key(8) };
    let session = initialize(&ctx, 6);
    assert_eq!(
        session.plan().clone(),
        vec![LedgerCall::CreateMint { mint: key(1), decimals: 6, mint_authority: key(9), payer: key(8) }]
    );
    let (_, outcome) = run(session, |_| Ok(()));
    assert_eq!(outcome, Ok(None));
}

#[test]
fn calls_carry_the_given_authority() {
    let ctx = transfer_ctx();
    let session = transfer_with_burn(&ctx, 5000).unwrap();
    for c in session.plan() {
        match *c {
            LedgerCall::Transfer { authority, .. } | LedgerCall::Burn { authority, .. } => {
                assert_eq!(authority, ctx.authority)
            }
            _ => panic!("unexpected call"),
        }
    }
}

#[test]
fn error_messages() {
    assert_eq!(ErrorCode::InvalidAmount.message(), "Invalid amount: must be greater than 0");
    assert_eq!(ErrorCode::AmountTooSmall.message(), "Amount too small: minimum 200 tokens required for 0.5% burn");
    assert_eq!(ErrorCode::MathOverflow.message(), "Math overflow occurred");
}
