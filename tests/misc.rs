use reth_evm_test_harness::consensus::ConsensusTestHarness;
use reth_evm_test_harness::engine::{EngineApiTestHarness, ForkchoiceUpdate, PayloadStatus};
use reth_evm_test_harness::fixtures::{
    block_file_name, is_json_file, order_blocks, test_vector_file_name, BlockFixture,
};
use reth_evm_test_harness::rpc::TestRpcClient;
use reth_evm_test_harness::text::{bool_string, decimal_string, hex_string};
use reth_evm_test_harness::types::B256;
use reth_evm_test_harness::{Error, FixtureManager};
use std::path::Path;

#[test]
fn test_fixture_manager_creation() {
    let manager = FixtureManager::new("test_fixtures");
    assert_eq!(manager.fixtures_dir(), Path::new("test_fixtures"));
}

#[test]
fn fixture_manager_keeps_directory_text() {
    let manager = FixtureManager::new("some/dir");
    assert_eq!(manager.fixtures_dir_str(), "some/dir");
}

fn block(number: u64, gas_used: u64) -> BlockFixture {
    BlockFixture {
        number,
        hash: B256::zero(),
        parent_hash: B256::zero(),
        timestamp: 0,
        gas_limit: 0,
        gas_used,
        base_fee_per_gas: None,
        transactions: Vec::new(),
        pre_state: None,
        post_state: None,
    }
}

#[test]
fn blocks_are_ordered_by_number() {
    let ordered = order_blocks(vec![block(3, 0), block(1, 0), block(2, 1), block(2, 2), block(0, 0)]);
    let numbers: Vec<u64> = ordered.iter().map(|b| b.number).collect();
    assert_eq!(numbers, vec![0, 1, 2, 2, 3]);
    let gas: Vec<u64> = ordered.iter().map(|b| b.gas_used).collect();
    assert_eq!(gas, vec![0, 0, 1, 2, 0]);
    assert!(order_blocks(Vec::new()).is_empty());
}

#[test]
fn fixture_file_names() {
    assert!(is_json_file("block_1.json"));
    assert!(is_json_file("a.json"));
    assert!(!is_json_file(".json"));
    assert!(!is_json_file("json"));
    assert!(!is_json_file("block.txt"));
    assert!(!is_json_file("block.jsonl"));
    assert_eq!(block_file_name(0), "block_1.json");
    assert_eq!(block_file_name(41), "block_42.json");
    assert_eq!(test_vector_file_name("cancun"), "cancun.json");
}

#[test]
fn text_formatting() {
    assert_eq!(decimal_string(0), "0");
    assert_eq!(decimal_string(1_234_567_890), "1234567890");
    assert_eq!(decimal_string(u64::MAX), u64::MAX.to_string());
    assert_eq!(hex_string(&vec![]), "0x");
    assert_eq!(hex_string(&vec![0x00, 0x0f, 0xa0, 0xff]), "0x000fa0ff");
    assert_eq!(bool_string(true), "true");
    assert_eq!(bool_string(false), "false");
}

#[test]
fn error_constructors_and_text() {
    let e = Error::evm_execution("boom");
    assert!(matches!(&e, Error::EvmExecution(m) if m == "boom"));
    assert_eq!(e.to_text(), "EVM execution failed: boom");
    assert_eq!(Error::consensus("c").to_text(), "Consensus validation failed: c");
    assert_eq!(Error::engine_api("e").to_text(), "Engine API error: e");
    assert_eq!(Error::fixture("f").to_text(), "Fixture error: f");
    assert_eq!(Error::Rpc("r".to_string()).to_text(), "RPC error: r");
    assert_eq!(Error::Generic("g".to_string()).to_text(), "Test harness error: g");
}

#[test]
fn engine_api_operations_are_not_implemented() {
    let mut h = EngineApiTestHarness::new();
    let is_not_implemented = |e: Error| matches!(e, Error::EngineApi(m) if m == "Not yet implemented");
    assert!(is_not_implemented(h.build_payload(()).unwrap_err()));
    assert!(is_not_implemented(h.validate_payload(vec![1, 2]).unwrap_err()));
    let update = ForkchoiceUpdate {
        head_block_hash: B256::zero(),
        safe_block_hash: B256::zero(),
        finalized_block_hash: B256::zero(),
    };
    assert!(is_not_implemented(h.update_forkchoice(update).unwrap_err()));
    assert_ne!(PayloadStatus::Valid, PayloadStatus::Syncing);
}

#[test]
fn placeholder_components_construct() {
    let _ = ConsensusTestHarness::new();
    let _ = ConsensusTestHarness::default();
    let _ = TestRpcClient::new();
    let _ = TestRpcClient::default();
}
