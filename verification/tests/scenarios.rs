use blazing::action::{ChainAction, ChainEvent};
use blazing::address::Address;
use blazing::amount::Amount;
use blazing::collect::{CollectEngine, CollectPhase};
use blazing::disperse::{DisperseEngine, DispersePhase};
use blazing::error::TransferError;

fn amt(x: u64) -> Amount {
    Amount::from_u64(x)
}

fn max_amount() -> Amount {
    Amount { limb0: u64::MAX, limb1: u64::MAX, limb2: u64::MAX, limb3: u64::MAX }
}

fn addr(tag: u8) -> Address {
    let mut bytes = [0u8; 20];
    bytes[0] = tag;
    Address::new(bytes)
}

fn balance(x: u64) -> ChainEvent {
    ChainEvent::Balance { value: amt(x) }
}

fn allowance(x: u64) -> ChainEvent {
    ChainEvent::Allowance { value: amt(x) }
}

#[test]
fn collect_absolute_sufficient_funds_never_approves() {
    // One token, one sender with balance 1000 and allowance 1000,
    // absolute amount 100: no approval, settlement sees [[100]].
    let token = addr(1);
    let sender = addr(2);
    let (mut e, a) = CollectEngine::new(
        addr(3),
        vec![sender],
        vec![token],
        vec![vec![amt(100)]],
        false,
    );
    match a {
        ChainAction::ReadTokenBalance { token: t, holder } => {
            assert_eq!(t.bytes, token.bytes);
            assert_eq!(holder.bytes, sender.bytes);
        },
        _ => panic!("expected a balance read"),
    }
    let a = e.step(balance(1000));
    assert!(matches!(a, ChainAction::ReadAllowance { .. }));
    let a = e.step(allowance(1000));
    assert!(matches!(a, ChainAction::SubmitSettlement));
    assert_eq!(e.resolved, vec![vec![amt(100)]]);
    let a = e.step(ChainEvent::Confirmed);
    assert!(matches!(a, ChainAction::Halt));
    assert!(matches!(e.phase, CollectPhase::Done));
}

#[test]
fn disperse_percentage_needs_one_approval() {
    // One token, sender balance 1000, allowance 0, 50% to each of two
    // recipients: resolved to [[500, 500]], one approval raising the
    // allowance to 1000, then settlement.
    let token = addr(1);
    let sender = addr(2);
    let (mut e, a) = DisperseEngine::new(
        sender,
        vec![addr(3), addr(4)],
        vec![token],
        vec![vec![amt(50), amt(50)]],
        true,
    );
    match a {
        ChainAction::ReadTokenBalance { token: t, holder } => {
            assert_eq!(t.bytes, token.bytes);
            assert_eq!(holder.bytes, sender.bytes);
        },
        _ => panic!("expected a balance read"),
    }
    let a = e.step(balance(1000));
    assert!(matches!(a, ChainAction::ReadAllowance { .. }));
    assert_eq!(e.resolved, vec![vec![amt(500), amt(500)]]);
    let a = e.step(allowance(0));
    match a {
        ChainAction::SubmitApprove { token: t, holder, amount } => {
            assert_eq!(t.bytes, token.bytes);
            assert_eq!(holder.bytes, sender.bytes);
            assert_eq!(amount, amt(1000));
        },
        _ => panic!("expected an approval"),
    }
    let a = e.step(ChainEvent::Confirmed);
    assert!(matches!(a, ChainAction::SubmitSettlement));
    let a = e.step(ChainEvent::Confirmed);
    assert!(matches!(a, ChainAction::Halt));
    assert!(matches!(e.phase, DispersePhase::Done));
}

#[test]
fn collect_insufficient_balance_stops_everything() {
    // Sender balance 10 against a needed 100: the request fails with
    // the balance error; no approval and no settlement is submitted,
    // whatever the allowance would have permitted.
    let (mut e, _) = CollectEngine::new(
        addr(3),
        vec![addr(2)],
        vec![addr(1)],
        vec![vec![amt(100)]],
        false,
    );
    let a = e.step(balance(10));
    assert!(matches!(a, ChainAction::ReadAllowance { .. }));
    let a = e.step(allowance(1_000_000));
    assert!(matches!(a, ChainAction::Halt));
    assert!(matches!(
        e.phase,
        CollectPhase::Aborted { error: TransferError::InsufficientBalance }
    ));
}

#[test]
fn disperse_insufficient_balance_stops_everything() {
    let (mut e, _) = DisperseEngine::new(
        addr(2),
        vec![addr(3), addr(4)],
        vec![addr(1)],
        vec![vec![amt(60), amt(60)]],
        false,
    );
    let a = e.step(balance(100));
    assert!(matches!(a, ChainAction::ReadAllowance { .. }));
    let a = e.step(allowance(0));
    assert!(matches!(a, ChainAction::Halt));
    assert!(matches!(
        e.phase,
        DispersePhase::Aborted { error: TransferError::InsufficientBalance }
    ));
}

#[test]
fn collect_malformed_matrix_fails_before_any_read() {
    // Two tokens but a single amount row: rejected up front.
    let (e, a) = CollectEngine::new(
        addr(3),
        vec![addr(2)],
        vec![addr(1), addr(5)],
        vec![vec![amt(1)]],
        false,
    );
    assert!(matches!(a, ChainAction::Halt));
    assert!(matches!(
        e.phase,
        CollectPhase::Aborted { error: TransferError::MalformedRequest }
    ));
}

#[test]
fn disperse_malformed_row_fails_before_any_read() {
    // A row with one entry for two recipients: rejected up front.
    let (e, a) = DisperseEngine::new(
        addr(2),
        vec![addr(3), addr(4)],
        vec![addr(1)],
        vec![vec![amt(1)]],
        false,
    );
    assert!(matches!(a, ChainAction::Halt));
    assert!(matches!(
        e.phase,
        DispersePhase::Aborted { error: TransferError::MalformedRequest }
    ));
}

#[test]
fn collect_zero_native_leg_moves_nothing() {
    // The native row resolves to zero: no transfer is submitted.
    let (mut e, a) = CollectEngine::new(
        addr(3),
        vec![addr(2)],
        vec![Address::zero()],
        vec![vec![amt(0)]],
        false,
    );
    assert!(matches!(a, ChainAction::ReadNativeBalance { .. }));
    let a = e.step(balance(55));
    assert!(matches!(a, ChainAction::SubmitSettlement));
}

#[test]
fn collect_moves_each_senders_native_leg() {
    let s1 = addr(2);
    let s2 = addr(4);
    let (mut e, a) = CollectEngine::new(
        addr(3),
        vec![s1, s2],
        vec![Address::zero()],
        vec![vec![amt(5), amt(0)]],
        false,
    );
    assert!(matches!(a, ChainAction::ReadNativeBalance { .. }));
    let a = e.step(balance(10));
    assert!(matches!(a, ChainAction::ReadNativeBalance { .. }));
    let a = e.step(balance(7));
    match a {
        ChainAction::SubmitNativeTransfer { from, amount } => {
            assert_eq!(from.bytes, s1.bytes);
            assert_eq!(amount, amt(5));
        },
        _ => panic!("expected the first sender's native transfer"),
    }
    // the second sender's zero leg is skipped
    let a = e.step(ChainEvent::Confirmed);
    assert!(matches!(a, ChainAction::SubmitSettlement));
    let a = e.step(ChainEvent::Confirmed);
    assert!(matches!(a, ChainAction::Halt));
    assert!(matches!(e.phase, CollectPhase::Done));
}

#[test]
fn disperse_aggregates_native_legs_into_one_transfer() {
    let sender = addr(2);
    let (mut e, a) = DisperseEngine::new(
        sender,
        vec![addr(3), addr(4)],
        vec![Address::zero()],
        vec![vec![amt(30), amt(40)]],
        false,
    );
    assert!(matches!(a, ChainAction::ReadNativeBalance { .. }));
    let a = e.step(balance(100));
    match a {
        ChainAction::SubmitNativeTransfer { from, amount } => {
            assert_eq!(from.bytes, sender.bytes);
            assert_eq!(amount, amt(70));
        },
        _ => panic!("expected one aggregated native transfer"),
    }
    let a = e.step(ChainEvent::Confirmed);
    assert!(matches!(a, ChainAction::SubmitSettlement));
}

#[test]
fn disperse_native_shortfall_aborts() {
    let (mut e, _) = DisperseEngine::new(
        addr(2),
        vec![addr(3), addr(4)],
        vec![Address::zero()],
        vec![vec![amt(30), amt(40)]],
        false,
    );
    let a = e.step(balance(50));
    assert!(matches!(a, ChainAction::Halt));
    assert!(matches!(
        e.phase,
        DispersePhase::Aborted { error: TransferError::InsufficientBalance }
    ));
}

#[test]
fn collect_percentage_overflow_aborts() {
    let (mut e, _) = CollectEngine::new(
        addr(3),
        vec![addr(2)],
        vec![addr(1)],
        vec![vec![max_amount()]],
        true,
    );
    let a = e.step(ChainEvent::Balance { value: max_amount() });
    assert!(matches!(a, ChainAction::Halt));
    assert!(matches!(
        e.phase,
        CollectPhase::Aborted { error: TransferError::ArithmeticOverflow }
    ));
}

#[test]
fn chain_failure_aborts_operationally() {
    let (mut e, _) = CollectEngine::new(
        addr(3),
        vec![addr(2)],
        vec![addr(1)],
        vec![vec![amt(1)]],
        false,
    );
    let a = e.step(ChainEvent::Failed);
    assert!(matches!(a, ChainAction::Halt));
    assert!(matches!(
        e.phase,
        CollectPhase::Aborted { error: TransferError::TransactionError }
    ));
}

#[test]
fn unexpected_answer_aborts_operationally() {
    let (mut e, _) = DisperseEngine::new(
        addr(2),
        vec![addr(3)],
        vec![addr(1)],
        vec![vec![amt(1)]],
        false,
    );
    let a = e.step(ChainEvent::Confirmed);
    assert!(matches!(a, ChainAction::Halt));
    assert!(matches!(
        e.phase,
        DispersePhase::Aborted { error: TransferError::TransactionError }
    ));
}

#[test]
fn collect_short_allowance_is_raised_to_the_entry() {
    let token = addr(1);
    let sender = addr(2);
    let (mut e, _) = CollectEngine::new(
        addr(3),
        vec![sender],
        vec![token],
        vec![vec![amt(100)]],
        false,
    );
    e.step(balance(1000));
    let a = e.step(allowance(50));
    match a {
        ChainAction::SubmitApprove { token: t, holder, amount } => {
            assert_eq!(t.bytes, token.bytes);
            assert_eq!(holder.bytes, sender.bytes);
            assert_eq!(amount, amt(100));
        },
        _ => panic!("expected an approval"),
    }
    let a = e.step(ChainEvent::Confirmed);
    assert!(matches!(a, ChainAction::SubmitSettlement));
}

#[test]
fn collect_empty_token_list_settles_directly() {
    let (e, a) = CollectEngine::new(addr(3), vec![addr(2)], vec![], vec![], false);
    assert!(matches!(a, ChainAction::SubmitSettlement));
    assert!(matches!(e.phase, CollectPhase::AwaitSettlement));
}

#[test]
fn disperse_mixed_tokens_resolve_in_order() {
    // A fungible token and the native asset: the token row resolves
    // against the token balance, the native row against the native one.
    let token = addr(1);
    let sender = addr(2);
    let (mut e, a) = DisperseEngine::new(
        sender,
        vec![addr(3)],
        vec![token, Address::zero()],
        vec![vec![amt(10)], vec![amt(20)]],
        true,
    );
    assert!(matches!(a, ChainAction::ReadTokenBalance { .. }));
    let a = e.step(balance(100));
    assert!(matches!(a, ChainAction::ReadNativeBalance { .. }));
    let a = e.step(balance(400));
    // token row: 10% of 100 = 10; native row: 20% of 400 = 80
    assert_eq!(e.resolved, vec![vec![amt(10)], vec![amt(80)]]);
    assert!(matches!(a, ChainAction::ReadAllowance { .. }));
    let a = e.step(allowance(10));
    match a {
        ChainAction::SubmitNativeTransfer { amount, .. } => assert_eq!(amount, amt(80)),
        _ => panic!("expected the native transfer"),
    }
}
