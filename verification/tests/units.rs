use blazing::address::Address;
use blazing::amount::Amount;
use blazing::error::TransferError;
use blazing::gate::{gate_check, GateOutcome};
use blazing::native::{native_check, NativeOutcome};
use blazing::resolve::resolve;
use blazing::rows::{resolve_row, sum_row};

fn amt(x: u64) -> Amount {
    Amount::from_u64(x)
}

fn max_amount() -> Amount {
    Amount { limb0: u64::MAX, limb1: u64::MAX, limb2: u64::MAX, limb3: u64::MAX }
}

#[test]
fn resolve_absolute_is_identity() {
    assert_eq!(resolve(false, &amt(1000), &amt(100)).unwrap(), amt(100));
    assert_eq!(resolve(false, &amt(0), &amt(7)).unwrap(), amt(7));
    assert_eq!(resolve(false, &max_amount(), &max_amount()).unwrap(), max_amount());
}

#[test]
fn resolve_percentage_takes_floor() {
    assert_eq!(resolve(true, &amt(200), &amt(50)).unwrap(), amt(100));
    assert_eq!(resolve(true, &amt(1), &amt(50)).unwrap(), amt(0));
    assert_eq!(resolve(true, &amt(999), &amt(10)).unwrap(), amt(99));
    assert_eq!(resolve(true, &amt(1000), &amt(100)).unwrap(), amt(1000));
}

#[test]
fn resolve_percentage_crosses_limbs() {
    // balance of 2^64 at 50% is 2^63
    let balance = Amount { limb0: 0, limb1: 1, limb2: 0, limb3: 0 };
    let half = resolve(true, &balance, &amt(50)).unwrap();
    assert_eq!(half, Amount { limb0: 1u64 << 63, limb1: 0, limb2: 0, limb3: 0 });
}

#[test]
fn resolve_percentage_overflow_is_detected() {
    let r = resolve(true, &max_amount(), &max_amount());
    assert_eq!(r.unwrap_err(), TransferError::ArithmeticOverflow);
}

#[test]
fn gate_insufficient_balance_wins() {
    let r = gate_check(&amt(50), &amt(1000), &amt(100));
    assert!(matches!(r, GateOutcome::Insufficient));
}

#[test]
fn gate_elevates_to_exactly_needed() {
    let r = gate_check(&amt(1000), &amt(0), &amt(500));
    match r {
        GateOutcome::Elevate { amount } => assert_eq!(amount, amt(500)),
        _ => panic!("expected an elevation"),
    }
    let r = gate_check(&amt(1000), &amt(499), &amt(500));
    match r {
        GateOutcome::Elevate { amount } => assert_eq!(amount, amt(500)),
        _ => panic!("expected an elevation"),
    }
}

#[test]
fn gate_covering_allowance_writes_nothing() {
    assert!(matches!(gate_check(&amt(1000), &amt(500), &amt(500)), GateOutcome::Authorized));
    assert!(matches!(gate_check(&amt(1000), &amt(501), &amt(500)), GateOutcome::Authorized));
}

#[test]
fn native_zero_amount_is_noop() {
    assert!(matches!(native_check(&amt(0), &amt(0)), NativeOutcome::Skip));
    assert!(matches!(native_check(&amt(1000), &amt(0)), NativeOutcome::Skip));
}

#[test]
fn native_checks_balance() {
    assert!(matches!(native_check(&amt(5), &amt(10)), NativeOutcome::Insufficient));
    match native_check(&amt(10), &amt(10)) {
        NativeOutcome::Transfer { amount } => assert_eq!(amount, amt(10)),
        _ => panic!("expected a transfer"),
    }
}

#[test]
fn resolve_row_resolves_each_entry() {
    let row = vec![amt(50), amt(10), amt(0)];
    let out = resolve_row(true, &amt(200), &row).unwrap();
    assert_eq!(out, vec![amt(100), amt(20), amt(0)]);
}

#[test]
fn resolve_row_reports_overflow() {
    let row = vec![amt(50), max_amount()];
    let r = resolve_row(true, &max_amount(), &row);
    assert_eq!(r.unwrap_err(), TransferError::ArithmeticOverflow);
}

#[test]
fn sum_row_adds_amounts() {
    assert_eq!(sum_row(&vec![amt(30), amt(40)]).unwrap(), amt(70));
    assert_eq!(sum_row(&vec![]).unwrap(), amt(0));
}

#[test]
fn sum_row_carries_across_limbs() {
    let half = Amount { limb0: 1u64 << 63, limb1: 0, limb2: 0, limb3: 0 };
    let total = sum_row(&vec![half, half]).unwrap();
    assert_eq!(total, Amount { limb0: 0, limb1: 1, limb2: 0, limb3: 0 });
}

#[test]
fn sum_row_detects_overflow() {
    let r = sum_row(&vec![max_amount(), amt(1)]);
    assert_eq!(r.unwrap_err(), TransferError::ArithmeticOverflow);
}

#[test]
fn amount_comparison_orders_by_value() {
    let big = Amount { limb0: 0, limb1: 1, limb2: 0, limb3: 0 };
    assert!(amt(u64::MAX).lt(&big));
    assert!(!big.lt(&amt(u64::MAX)));
    assert!(!amt(5).lt(&amt(5)));
    assert!(amt(4).lt(&amt(5)));
}

#[test]
fn amount_zero_checks() {
    assert!(Amount::zero().is_zero());
    assert!(!amt(1).is_zero());
    assert!(!Amount { limb0: 0, limb1: 0, limb2: 0, limb3: 1 }.is_zero());
}

#[test]
fn address_native_sentinel() {
    assert!(Address::zero().is_native());
    let mut bytes = [0u8; 20];
    bytes[19] = 1;
    assert!(!Address::new(bytes).is_native());
}
