use reth_evm_test_harness::result::{EvmComparison, ExecutionResult};
use reth_evm_test_harness::types::{Address, Log, B256};

fn log() -> Log {
    Log { address: Address::with_last_byte(1), topics: vec![B256::zero()], data: vec![1] }
}

#[test]
fn identical_results_match() {
    let a = ExecutionResult::success(21_000, vec![1, 2]);
    let b = ExecutionResult::success(21_000, vec![1, 2]);
    let c = EvmComparison::new(a, b);
    assert!(c.is_match());
    assert!(c.differences().is_empty());
}

#[test]
fn refund_and_reason_are_not_compared() {
    let a = ExecutionResult::revert(500, "first reason").with_gas_refunded(10);
    let b = ExecutionResult::revert(500, "another reason").with_gas_refunded(99);
    let c = EvmComparison::new(a, b);
    assert!(c.is_match());
    assert!(c.differences().is_empty());
    c.assert_match();
}

#[test]
fn every_dimension_differs_in_fixed_order() {
    let a = ExecutionResult::success(21_000, vec![0xab, 0x01]).with_log(log());
    let b = ExecutionResult::revert(20_999, "boom");
    let c = EvmComparison::new(a, b);
    assert!(!c.is_match());
    assert_eq!(
        c.differences(),
        &[
            "Execution status differs: test=true, reference=false".to_string(),
            "Gas used differs: test=21000, reference=20999".to_string(),
            "Output differs: test=0xab01, reference=0x".to_string(),
            "Log count differs: test=1, reference=0".to_string(),
        ]
    );
    assert_eq!(
        c.mismatch_report(),
        "EVM execution results differ:\nExecution status differs: test=true, reference=false\nGas used differs: test=21000, reference=20999\nOutput differs: test=0xab01, reference=0x\nLog count differs: test=1, reference=0"
    );
}

#[test]
fn only_gas_differs() {
    let a = ExecutionResult::success(0, vec![]);
    let b = ExecutionResult::success(1_234_567, vec![]);
    let c = EvmComparison::new(a, b);
    assert!(!c.matches);
    assert_eq!(c.differences, vec!["Gas used differs: test=0, reference=1234567".to_string()]);
}

#[test]
fn log_contents_are_not_compared() {
    let a = ExecutionResult::success(1, vec![]).with_log(log());
    let other = Log { address: Address::with_last_byte(9), topics: vec![], data: vec![] };
    let b = ExecutionResult::success(1, vec![]).with_log(other);
    assert!(EvmComparison::new(a, b).is_match());
}

#[test]
fn result_constructors_and_accessors() {
    let s = ExecutionResult::success(7, vec![5]);
    assert!(s.is_success());
    assert!(!s.is_revert());
    assert_eq!(s.revert_reason(), None);
    assert_eq!(s.gas_refunded, 0);
    let r = ExecutionResult::revert(8, "why");
    assert!(r.is_revert());
    assert_eq!(r.revert_reason(), Some("why"));
    assert!(r.output.is_empty());
    let r = r.with_gas_refunded(3).with_log(log());
    assert_eq!(r.gas_refunded, 3);
    assert_eq!(r.logs.len(), 1);
}
