use revm_inspect::gas::Gas;
use revm_inspect::result::{ErrorKind, InstructionResult};

#[test]
fn record_cost_charges_when_enough_remains() {
    let mut gas = Gas::new(50);
    assert!(gas.record_cost(20));
    assert_eq!(gas.remaining(), 30);
    assert_eq!(gas.last_cost(), 20);
    assert_eq!(gas.spent(), 20);
    assert_eq!(gas.limit(), 50);
    assert!(gas.record_cost(30));
    assert_eq!(gas.remaining(), 0);
}

#[test]
fn record_cost_refuses_more_than_remains() {
    let mut gas = Gas::new(50);
    assert!(gas.record_cost(20));
    assert!(!gas.record_cost(31));
    assert_eq!(gas.remaining(), 30);
    assert_eq!(gas.last_cost(), 20);
}

#[test]
fn record_refund_saturates() {
    let mut gas = Gas::new(10);
    gas.record_refund(4);
    gas.record_refund(5);
    assert_eq!(gas.refunded(), 9);
    gas.record_refund(u64::MAX);
    assert_eq!(gas.refunded(), u64::MAX);
}

#[test]
fn only_error_status_is_error() {
    assert!(InstructionResult::Error(ErrorKind::StackUnderflow).is_error());
    assert!(InstructionResult::Error(ErrorKind::CallTooDeep).is_error());
    assert!(!InstructionResult::Revert.is_error());
    assert!(!InstructionResult::Halt.is_error());
    assert!(!InstructionResult::Continue.is_error());
}
