use reth_evm_test_harness::backend::{BackendOutcome, Transaction};
use reth_evm_test_harness::dev::{dev_account, dev_account_at};
use reth_evm_test_harness::harness::settle;
use reth_evm_test_harness::types::Address;
use reth_evm_test_harness::{Error, EvmTestHarness};

fn balance(h: &EvmTestHarness, a: Address) -> revm::primitives::U256 {
    revm::primitives::U256::from_be_bytes(h.get_balance(a).unwrap())
}

fn transfer(h: &EvmTestHarness, from: Address, to: Address, value: u128, gas_limit: u64) -> Transaction {
    Transaction {
        tx_type: 0,
        caller: from,
        gas_limit,
        gas_price: 1_000_000_000,
        to: Some(to),
        value,
        data: Vec::new(),
        nonce: h.nonce_of(from),
        chain_id: Some(h.chain_id()),
        gas_priority_fee: None,
    }
}

#[test]
fn test_harness_creation() {
    let harness = EvmTestHarness::builder().build();

    assert_eq!(harness.block_number(), 0);
    assert!(harness.chain_id() > 0);
}

#[test]
fn test_set_block_env() {
    let harness = EvmTestHarness::builder()
        .with_block_number(100)
        .with_timestamp(1234567890)
        .with_base_fee(1_000_000_000)
        .build();

    assert_eq!(harness.block_number(), 100);
    assert_eq!(harness.block_env().timestamp, 1234567890);
    assert_eq!(harness.block_env().base_fee, Some(1_000_000_000));
}

#[test]
fn value_transfer_moves_value_and_charges_gas() {
    let mut h = EvmTestHarness::dev();
    let sender = dev_account();
    let receiver = dev_account_at(1).unwrap();
    let value: u128 = 1_000_000_000_000_000_000;
    let sender_before = balance(&h, sender);
    let receiver_before = balance(&h, receiver);

    let result = h.execute_tx(transfer(&h, sender, receiver, value, 21_000)).unwrap();

    assert!(result.success);
    assert_eq!(result.gas_used, 21_000);
    assert!(result.output.is_empty());
    assert!(result.revert_reason.is_none());
    let fee = revm::primitives::U256::from(result.gas_used) * revm::primitives::U256::from(1_000_000_000u64);
    assert_eq!(sender_before - balance(&h, sender), revm::primitives::U256::from(value) + fee);
    assert_eq!(balance(&h, receiver) - receiver_before, revm::primitives::U256::from(value));
    assert_eq!(h.nonce_of(sender), 1);
}

#[test]
fn second_transfer_uses_next_nonce() {
    let mut h = EvmTestHarness::dev();
    let sender = dev_account();
    let receiver = dev_account_at(2).unwrap();
    assert!(h.execute_tx(transfer(&h, sender, receiver, 5, 21_000)).unwrap().success);
    assert!(h.execute_tx(transfer(&h, sender, receiver, 7, 21_000)).unwrap().success);
    assert_eq!(h.nonce_of(sender), 2);
}

#[test]
fn identity_precompile_echoes_input() {
    let mut h = EvmTestHarness::dev();
    let input = vec![1u8, 2, 3, 0xff, 0x00, 0x42];
    let result = h.execute_precompile(Address::with_last_byte(4), input.clone()).unwrap();
    assert!(result.success);
    assert_eq!(result.output, input);
}

#[test]
fn identity_precompile_with_empty_input() {
    let mut h = EvmTestHarness::dev();
    let result = h.execute_precompile(Address::with_last_byte(4), Vec::new()).unwrap();
    assert!(result.success);
    assert!(result.output.is_empty());
}

#[test]
fn precompile_call_is_a_zero_value_call_from_the_default_sender() {
    let h = EvmTestHarness::dev();
    let tx = h.precompile_tx(Address::with_last_byte(4), vec![9]);
    assert_eq!(tx.caller, dev_account());
    assert_eq!(tx.to, Some(Address::with_last_byte(4)));
    assert_eq!(tx.value, 0);
    assert_eq!(tx.gas_limit, 10_000_000);
    assert_eq!(tx.gas_price, 1_000_000_000);
    assert_eq!(tx.data, vec![9]);
    assert_eq!(tx.nonce, 0);
    assert_eq!(tx.chain_id, Some(1));
}

#[test]
fn block_number_can_move_backwards() {
    let mut h = EvmTestHarness::dev();
    h.set_block_number(500);
    assert_eq!(h.block_number(), 500);
    h.set_block_number(7);
    assert_eq!(h.block_number(), 7);
    h.set_block_number(u64::MAX);
    assert_eq!(h.block_number(), u64::MAX);
    h.set_timestamp(3);
    assert_eq!(h.block_env().timestamp, 3);
    h.set_base_fee(9);
    assert_eq!(h.block_env().base_fee, Some(9));
}

#[test]
fn new_harness_starts_at_initial_block() {
    let h = EvmTestHarness::dev_with_chain_id(1337);
    assert_eq!(h.chain_id(), 1337);
    assert_eq!(h.block_number(), 0);
    assert_eq!(h.block_env().timestamp, 1);
    assert_eq!(h.block_env().base_fee, None);
    assert_eq!(h.block_env().gas_limit, u64::MAX);
}

#[test]
fn too_little_gas_is_never_a_success() {
    let mut h = EvmTestHarness::dev();
    let sender = dev_account();
    let receiver = dev_account_at(3).unwrap();
    let gas_limit = 20_000;
    match h.execute_tx(transfer(&h, sender, receiver, 1, gas_limit)) {
        Err(Error::EvmExecution(m)) => assert!(m.starts_with("EVM execution failed: ")),
        Err(other) => panic!("unexpected {:?}", other),
        Ok(r) => assert!(!r.success || r.gas_used <= gas_limit),
    }
}

#[test]
fn engine_refusal_is_distinct_from_revert() {
    let mut h = EvmTestHarness::dev();
    let stranger = Address::with_last_byte(0x77);
    let tx = transfer(&h, stranger, dev_account(), 1, 21_000);
    assert!(matches!(h.execute_tx(tx), Err(Error::EvmExecution(_))));
}

#[test]
fn refused_transaction_keeps_accounts() {
    let mut h = EvmTestHarness::dev();
    let sender = dev_account();
    let receiver = dev_account_at(5).unwrap();
    let before = (balance(&h, sender), balance(&h, receiver));
    let mut tx = transfer(&h, sender, receiver, 1, 21_000);
    tx.nonce = 9;
    assert!(h.execute_tx(tx).is_err());
    assert_eq!((balance(&h, sender), balance(&h, receiver)), before);
    assert_eq!(h.nonce_of(sender), 0);
}

#[test]
fn new_harness_uses_latest_rule_set() {
    let h = EvmTestHarness::dev();
    assert_eq!(h.spec_id(), revm::primitives::hardfork::SpecId::OSAKA);
    assert_eq!(EvmTestHarness::builder().build().spec_id(), revm::primitives::hardfork::SpecId::OSAKA);
}

#[test]
fn reverting_code_gives_failed_result() {
    let mut h = EvmTestHarness::dev();
    // init code: PUSH1 0 PUSH1 0 REVERT
    let tx = Transaction {
        tx_type: 0,
        caller: dev_account(),
        gas_limit: 100_000,
        gas_price: 1_000_000_000,
        to: None,
        value: 0,
        data: vec![0x60, 0x00, 0x60, 0x00, 0xfd],
        nonce: 0,
        chain_id: Some(1),
        gas_priority_fee: None,
    };
    let r = h.execute_tx(tx).unwrap();
    assert!(!r.success);
    assert_eq!(r.gas_refunded, 0);
    assert_eq!(r.revert_reason.as_deref(), Some("Transaction reverted"));
}

#[test]
fn invalid_opcode_halts() {
    let mut h = EvmTestHarness::dev();
    // init code: INVALID
    let tx = Transaction {
        tx_type: 0,
        caller: dev_account(),
        gas_limit: 100_000,
        gas_price: 1_000_000_000,
        to: None,
        value: 0,
        data: vec![0xfe],
        nonce: 0,
        chain_id: Some(1),
        gas_priority_fee: None,
    };
    let r = h.execute_tx(tx).unwrap();
    assert!(!r.success);
    assert!(r.output.is_empty());
    assert!(r.revert_reason.unwrap().starts_with("Transaction halted: "));
}

#[test]
fn settle_maps_each_outcome() {
    let ok = settle(Ok(BackendOutcome::Success {
        gas_used: 21_000,
        gas_refunded: 5,
        output: vec![1, 2],
        created_address: None,
    }))
    .unwrap();
    assert!(ok.success);
    assert_eq!(ok.gas_used, 21_000);
    assert_eq!(ok.gas_refunded, 5);
    assert_eq!(ok.output, vec![1, 2]);
    assert!(ok.logs.is_empty());
    assert!(ok.revert_reason.is_none());

    let rev = settle(Ok(BackendOutcome::Revert { gas_used: 30, output: vec![7] })).unwrap();
    assert!(!rev.success);
    assert_eq!(rev.gas_used, 30);
    assert_eq!(rev.gas_refunded, 0);
    assert_eq!(rev.output, vec![7]);
    assert_eq!(rev.revert_reason.as_deref(), Some("Transaction reverted"));

    let halt = settle(Ok(BackendOutcome::Halt { gas_used: 99, reason: "OutOfGas".to_string() })).unwrap();
    assert!(!halt.success);
    assert_eq!(halt.gas_used, 99);
    assert!(halt.output.is_empty());
    assert_eq!(halt.revert_reason.as_deref(), Some("Transaction halted: OutOfGas"));

    match settle(Err("NonceTooLow".to_string())) {
        Err(Error::EvmExecution(m)) => assert_eq!(m, "EVM execution failed: NonceTooLow"),
        other => panic!("unexpected {:?}", other),
    }
}

#[test]
fn built_harness_without_database_has_no_accounts() {
    let h = EvmTestHarness::builder().build();
    assert_eq!(h.get_balance(dev_account()), None);
    assert_eq!(h.nonce_of(dev_account()), 0);
}
