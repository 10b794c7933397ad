use reth_evm_test_harness::dev::{
    create_dev_db, dev_account, dev_account_at, DEV_ACCOUNTS, DEV_BALANCE,
};
use reth_evm_test_harness::types::Address;
use reth_evm_test_harness::{Error, EvmTestHarness};
use std::str::FromStr;

fn parsed(s: &str) -> Address {
    let a = revm::primitives::Address::from_str(s).unwrap();
    Address { bytes: a.0 .0 }
}

fn balance_of(h: &EvmTestHarness, a: Address) -> Option<revm::primitives::U256> {
    h.get_balance(a).map(revm::primitives::U256::from_be_bytes)
}

#[test]
fn test_dev_db_has_funded_accounts() {
    let db = create_dev_db();
    let harness = EvmTestHarness::new(db, 1);

    for account_str in &DEV_ACCOUNTS {
        let address = parsed(account_str);
        assert_eq!(
            balance_of(&harness, address),
            Some(revm::primitives::U256::from(DEV_BALANCE))
        );
        assert_eq!(harness.nonce_of(address), 0);
    }
}

#[test]
fn test_dev_harness_creation() {
    let harness = EvmTestHarness::dev();

    let first_account = dev_account();
    let balance = balance_of(&harness, first_account).unwrap();
    assert_eq!(balance, revm::primitives::U256::from(DEV_BALANCE));
}

#[test]
fn dev_addresses_match_their_hex_spelling() {
    for (i, s) in DEV_ACCOUNTS.iter().enumerate() {
        assert_eq!(dev_account_at(i).unwrap(), parsed(s));
    }
    assert_eq!(dev_account(), parsed(DEV_ACCOUNTS[0]));
}

#[test]
fn dev_addresses_are_stable_and_distinct() {
    for i in 0..10 {
        assert_eq!(dev_account_at(i).unwrap(), dev_account_at(i).unwrap());
        for j in 0..10 {
            if i != j {
                assert_ne!(dev_account_at(i).unwrap(), dev_account_at(j).unwrap());
            }
        }
    }
    let first = EvmTestHarness::dev();
    let second = EvmTestHarness::dev();
    for i in 0..10 {
        let a = dev_account_at(i).unwrap();
        assert_eq!(first.get_balance(a), second.get_balance(a));
    }
}

#[test]
fn dev_account_index_out_of_range_is_an_error() {
    match dev_account_at(10) {
        Err(Error::Generic(m)) => assert_eq!(m, "Dev account index out of bounds"),
        other => panic!("unexpected {:?}", other),
    }
    assert!(dev_account_at(usize::MAX).is_err());
}

#[test]
fn dev_balance_is_ten_thousand_ether() {
    assert_eq!(DEV_BALANCE, 10_000u128 * 1_000_000_000_000_000_000u128);
}

#[test]
fn provisioning_funds_every_dev_account_with_nonce_zero() {
    let harness = EvmTestHarness::dev();
    for i in 0..10 {
        let a = dev_account_at(i).unwrap();
        assert_eq!(
            balance_of(&harness, a),
            Some(revm::primitives::U256::from(DEV_BALANCE))
        );
        assert_eq!(harness.nonce_of(a), 0);
        assert!(harness.has_no_code(a));
    }
    let stranger = Address::with_last_byte(0x42);
    assert_eq!(harness.get_balance(stranger), None);
    assert_eq!(harness.nonce_of(stranger), 0);
    assert!(!harness.has_no_code(stranger));
}
