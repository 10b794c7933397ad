use reth_evm_test_harness::backend::{BackendOutcome, ExecutionBackend, Transaction};
use reth_evm_test_harness::context::BlockEnv;
use reth_evm_test_harness::presets::{test_gas_limit, test_tx_rejection};
use reth_evm_test_harness::types::Address;
use reth_evm_test_harness::{Error, EvmTestHarness};
use revm::primitives::hardfork::SpecId;

/// A backend without nonces that reports a fixed answer and records the block it was
/// asked to run in.
struct Scripted {
    answer: Result<(u64, bool), String>,
    seen_blocks: Vec<u64>,
}

impl ExecutionBackend for Scripted {
    fn nonce(&self, _address: Address) -> u64 {
        0
    }

    fn transact(
        &mut self,
        block: &BlockEnv,
        _chain_id: u64,
        _spec_id: SpecId,
        tx: &Transaction,
    ) -> Result<BackendOutcome, String> {
        self.seen_blocks.push(block.number);
        match &self.answer {
            Ok((gas, true)) => Ok(BackendOutcome::Success {
                gas_used: *gas,
                gas_refunded: 0,
                output: tx.data.clone(),
                created_address: None,
            }),
            Ok((gas, false)) => Ok(BackendOutcome::Revert { gas_used: *gas, output: vec![0xde] }),
            Err(d) => Err(d.clone()),
        }
    }
}

#[test]
fn harness_runs_on_a_custom_backend() {
    let backend = Scripted { answer: Ok((50_000, true)), seen_blocks: Vec::new() };
    let mut h = EvmTestHarness::new(backend, 7);
    h.set_block_number(42);
    let r = h.execute_precompile(Address::with_last_byte(4), vec![1, 2]).unwrap();
    assert!(r.success);
    assert_eq!(r.output, vec![1, 2]);
    assert_eq!(h.precompile_tx(Address::with_last_byte(4), vec![]).nonce, 0);
    assert_eq!(h.db().seen_blocks, vec![42]);
    assert!(test_gas_limit(&mut h, 40_000).is_err());
    assert!(test_gas_limit(&mut h, 50_000).is_ok());
}

#[test]
fn custom_backend_refusal_and_revert() {
    let refusing = Scripted { answer: Err("unsupported type".to_string()), seen_blocks: Vec::new() };
    let mut h = EvmTestHarness::new(refusing, 1);
    match h.execute_precompile(Address::with_last_byte(4), vec![]) {
        Err(Error::EvmExecution(m)) => assert_eq!(m, "EVM execution failed: unsupported type"),
        other => panic!("unexpected {:?}", other),
    }
    let reverting = Scripted { answer: Ok((10, false)), seen_blocks: Vec::new() };
    let mut h = EvmTestHarness::new(reverting, 1);
    let tx = h.precompile_tx(Address::with_last_byte(9), vec![]);
    assert!(test_tx_rejection(&mut h, tx).is_ok());
}
