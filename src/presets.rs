//! Canned scenarios: each builds one transaction, runs it and turns the result into a
//! pass or a failure.
use vstd::prelude::*;
use crate::backend::{ExecutionBackend, Transaction};
use crate::dev::{dev_account, dev_address};
use crate::error::{Error, error_message};
use crate::harness::{DEFAULT_GAS_PRICE, EvmTestHarness, PRECOMPILE_GAS_LIMIT, ran_tx};
use crate::result::{ExecutionResult, reason_text};
use crate::text::{decimal, decimal_string};
use crate::types::Address;
use revm::primitives::hardfork::SpecId;

verus! {

/// Gas of a plain value transfer.
pub const TRANSFER_GAS: u64 = 21_000;

/// One ether, in wei.
pub const ONE_ETHER: u128 = 1_000_000_000_000_000_000;

/// Pass when the transaction succeeded. An error of the call is passed on; a failed
/// result gives an execution error with its revert reason, or `fallback` without one.
pub open spec fn success_verdict(
    res: Result<ExecutionResult, Error>,
    fallback: Seq<char>,
    r: Result<(), Error>,
) -> bool {
    match res {
        Err(e) => r == Err::<(), Error>(e),
        Ok(x) => if x.success {
            r is Ok
        } else {
            r matches Err(e) && e is EvmExecution && error_message(e) == match reason_text(x) {
                Some(t) => t,
                None => fallback,
            }
        },
    }
}

/// Passes when `res` is a successful result (see `success_verdict`).
pub fn require_success(res: Result<ExecutionResult, Error>, fallback: &str) -> (r: Result<(), Error>)
    ensures
        success_verdict(res, fallback@, r),
{
    match res {
        Err(e) => Err(e),
        Ok(x) => if x.is_success() {
            Ok(())
        } else {
            match x.revert_reason() {
                Some(t) => Err(Error::evm_execution(t)),
                None => Err(Error::evm_execution(fallback)),
            }
        },
    }
}

/// Pass when the call failed or the transaction did not succeed; a transaction that
/// succeeded gives an execution error.
pub open spec fn rejection_verdict(res: Result<ExecutionResult, Error>, r: Result<(), Error>) -> bool {
    if res is Err || !res->Ok_0.success {
        r is Ok
    } else {
        r matches Err(e) && e is EvmExecution && error_message(e)
            == "Expected transaction to be rejected, but it succeeded"@
    }
}

/// Passes when `res` is an error or a failed result (see `rejection_verdict`).
pub fn require_rejection(res: Result<ExecutionResult, Error>) -> (r: Result<(), Error>)
    ensures
        rejection_verdict(res, r),
{
    match res {
        Err(_) => Ok(()),
        Ok(x) => if x.is_revert() {
            Ok(())
        } else {
            Err(Error::evm_execution("Expected transaction to be rejected, but it succeeded"))
        },
    }
}

/// Pass when the gas used is within `gas_limit`; an error of the call is passed on.
pub open spec fn gas_verdict(res: Result<ExecutionResult, Error>, gas_limit: u64, r: Result<(), Error>) -> bool {
    match res {
        Err(e) => r == Err::<(), Error>(e),
        Ok(x) => if x.gas_used <= gas_limit {
            r is Ok
        } else {
            r matches Err(e) && e is EvmExecution && error_message(e) == "Gas used ("@ + decimal(
                x.gas_used as nat,
            ) + ") exceeded gas limit ("@ + decimal(gas_limit as nat) + ")"@
        },
    }
}

/// Passes when `res` used no more gas than `gas_limit` (see `gas_verdict`).
pub fn require_within_gas(res: Result<ExecutionResult, Error>, gas_limit: u64) -> (r: Result<(), Error>)
    ensures
        gas_verdict(res, gas_limit, r),
{
    match res {
        Err(e) => Err(e),
        Ok(x) => if x.gas_used <= gas_limit {
            Ok(())
        } else {
            let mut s = String::from_str("Gas used (");
            s.append(decimal_string(x.gas_used).as_str());
            s.append(") exceeded gas limit (");
            s.append(decimal_string(gas_limit).as_str());
            s.append(")");
            Err(Error::EvmExecution(s))
        },
    }
}

/// The created address when the creation succeeded; otherwise as `success_verdict`.
pub open spec fn deployment_verdict(res: Result<ExecutionResult, Error>, r: Result<Address, Error>) -> bool {
    match res {
        Err(e) => r == Err::<Address, Error>(e),
        Ok(x) => if x.success {
            match x.created_address {
                Some(a) => r == Ok::<Address, Error>(a),
                None => r matches Err(e) && e is EvmExecution && error_message(e)
                    == "Contract deployment created no contract"@,
            }
        } else {
            r matches Err(e) && e is EvmExecution && error_message(e) == match reason_text(x) {
                Some(t) => t,
                None => "Contract deployment failed"@,
            }
        },
    }
}

/// The address of the contract that `res` created (see `deployment_verdict`).
pub fn require_deployment(res: Result<ExecutionResult, Error>) -> (r: Result<Address, Error>)
    ensures
        deployment_verdict(res, r),
{
    match res {
        Err(e) => Err(e),
        Ok(x) => if x.is_success() {
            match x.created_address {
                Some(a) => Ok(a),
                None => Err(Error::evm_execution("Contract deployment created no contract")),
            }
        } else {
            match x.revert_reason() {
                Some(t) => Err(Error::evm_execution(t)),
                None => Err(Error::evm_execution("Contract deployment failed")),
            }
        },
    }
}

/// A legacy transaction at the sender's current nonce on the harness's chain.
pub open spec fn legacy_tx<B: ExecutionBackend>(
    h: EvmTestHarness<B>,
    tx: Transaction,
    caller: Seq<u8>,
    gas_limit: u64,
    to: Option<Address>,
    value: u128,
) -> bool {
    &&& tx.tx_type == 0
    &&& tx.caller.bytes@ == caller
    &&& tx.gas_limit == gas_limit
    &&& tx.gas_price == DEFAULT_GAS_PRICE
    &&& tx.to == to
    &&& tx.value == value
    &&& tx.nonce as nat == h.nonce_model(caller)
    &&& tx.chain_id == Some(h.chain())
    &&& tx.gas_priority_fee is None
}

/// Whether `tx` is the plain transfer of `value` from `from` to `to`, with the gas of a
/// transfer and no data.
pub open spec fn is_value_transfer<B: ExecutionBackend>(
    h: EvmTestHarness<B>,
    tx: Transaction,
    from: Address,
    to: Address,
    value: u128,
) -> bool {
    legacy_tx(h, tx, from.bytes@, TRANSFER_GAS, Some(to), value) && tx.data@.len() == 0
}

/// The transfer of `is_value_transfer`.
pub fn value_transfer_tx<B: ExecutionBackend>(harness: &EvmTestHarness<B>, from: Address, to: Address, value: u128) -> (r: Transaction)
    ensures
        is_value_transfer(*harness, r, from, to, value),
{
    Transaction {
        tx_type: 0,
        caller: from,
        gas_limit: TRANSFER_GAS,
        gas_price: DEFAULT_GAS_PRICE,
        to: Some(to),
        value,
        data: Vec::new(),
        nonce: harness.nonce_of(from),
        chain_id: Some(harness.chain_id()),
        gas_priority_fee: None,
    }
}

/// Transfers `value` from `from` to `to`; passes when the transfer succeeds.
pub fn test_value_transfer<B: ExecutionBackend>(harness: &mut EvmTestHarness<B>, from: Address, to: Address, value: u128) -> (r: Result<(), Error>)
    ensures
        exists|tx: Transaction, res: Result<ExecutionResult, Error>|
            is_value_transfer(*old(harness), tx, from, to, value) && #[trigger] ran_tx(
                *old(harness),
                *final(harness),
                tx,
                res,
            ) && success_verdict(res, "Value transfer failed"@, r),
{
    let ghost pre = *harness;
    let tx = value_transfer_tx(harness, from, to, value);
    let ghost t = tx;
    let res = harness.execute_tx(tx);
    let ghost g = res;
    let r = require_success(res, "Value transfer failed");
    assert(is_value_transfer(pre, t, from, to, value) && ran_tx(pre, *harness, t, g)
        && success_verdict(g, "Value transfer failed"@, r));
    r
}

/// Whether `tx` is the fee-market (type 2) transfer of one ether from the default sender,
/// at its current nonce, to address 1, with the gas of a transfer, a maximum fee of one
/// gwei, a priority fee of one gwei and no data.
pub open spec fn is_eip1559_transfer<B: ExecutionBackend>(h: EvmTestHarness<B>, tx: Transaction) -> bool {
    &&& tx.tx_type == 2
    &&& tx.caller.bytes@ == dev_address(0)
    &&& tx.gas_limit == TRANSFER_GAS
    &&& tx.gas_price == DEFAULT_GAS_PRICE
    &&& tx.gas_priority_fee == Some(DEFAULT_GAS_PRICE)
    &&& tx.to matches Some(a) && a.bytes@ == Address::with_last_byte_spec(1)
    &&& tx.value == ONE_ETHER
    &&& tx.data@.len() == 0
    &&& tx.nonce as nat == h.nonce_model(dev_address(0))
    &&& tx.chain_id == Some(h.chain())
}

/// The transfer of `is_eip1559_transfer`.
pub fn eip1559_tx<B: ExecutionBackend>(harness: &EvmTestHarness<B>) -> (r: Transaction)
    ensures
        is_eip1559_transfer(*harness, r),
{
    let sender = dev_account();
    Transaction {
        tx_type: 2,
        caller: sender,
        gas_limit: TRANSFER_GAS,
        gas_price: DEFAULT_GAS_PRICE,
        to: Some(Address::with_last_byte(1)),
        value: ONE_ETHER,
        data: Vec::new(),
        nonce: harness.nonce_of(sender),
        chain_id: Some(harness.chain_id()),
        gas_priority_fee: Some(DEFAULT_GAS_PRICE),
    }
}

/// Runs the fee-market transaction of `eip1559_tx`; passes when it succeeds.
pub fn test_eip1559_transaction<B: ExecutionBackend>(harness: &mut EvmTestHarness<B>) -> (r: Result<(), Error>)
    ensures
        exists|tx: Transaction, res: Result<ExecutionResult, Error>|
            is_eip1559_transfer(*old(harness), tx) && #[trigger] ran_tx(
                *old(harness),
                *final(harness),
                tx,
                res,
            ) && success_verdict(res, "Transaction reverted"@, r),
{
    let ghost pre = *harness;
    let tx = eip1559_tx(harness);
    let ghost t = tx;
    let res = harness.execute_tx(tx);
    let ghost g = res;
    let r = require_success(res, "Transaction reverted");
    assert(is_eip1559_transfer(pre, t) && ran_tx(pre, *harness, t, g) && success_verdict(
        g,
        "Transaction reverted"@,
        r,
    ));
    r
}

/// Runs `tx`; passes when the engine refuses it or it does not succeed.
pub fn test_tx_rejection<B: ExecutionBackend>(harness: &mut EvmTestHarness<B>, tx: Transaction) -> (r: Result<(), Error>)
    ensures
        exists|res: Result<ExecutionResult, Error>|
            #[trigger] ran_tx(*old(harness), *final(harness), tx, res) && rejection_verdict(res, r),
{
    let ghost pre = *harness;
    let ghost t = tx;
    let res = harness.execute_tx(tx);
    let ghost g = res;
    let r = require_rejection(res);
    assert(ran_tx(pre, *harness, t, g) && rejection_verdict(g, r));
    r
}

/// Whether `tx` creates a contract with init code `bytecode`, from the default sender,
/// with no value and a gas allowance of ten million.
pub open spec fn is_deployment<B: ExecutionBackend>(h: EvmTestHarness<B>, tx: Transaction, bytecode: Seq<u8>) -> bool {
    legacy_tx(h, tx, dev_address(0), PRECOMPILE_GAS_LIMIT, None, 0) && tx.data@ == bytecode
}

/// The creation of `is_deployment`.
pub fn deployment_tx<B: ExecutionBackend>(harness: &EvmTestHarness<B>, bytecode: Vec<u8>) -> (r: Transaction)
    ensures
        is_deployment(*harness, r, bytecode@),
{
    let sender = dev_account();
    Transaction {
        tx_type: 0,
        caller: sender,
        gas_limit: PRECOMPILE_GAS_LIMIT,
        gas_price: DEFAULT_GAS_PRICE,
        to: None,
        value: 0,
        data: bytecode,
        nonce: harness.nonce_of(sender),
        chain_id: Some(harness.chain_id()),
        gas_priority_fee: None,
    }
}

/// Deploys `bytecode`; gives the created contract's address when the creation succeeds.
pub fn test_contract_deployment<B: ExecutionBackend>(harness: &mut EvmTestHarness<B>, bytecode: Vec<u8>) -> (r: Result<Address, Error>)
    ensures
        exists|tx: Transaction, res: Result<ExecutionResult, Error>|
            is_deployment(*old(harness), tx, bytecode@) && #[trigger] ran_tx(
                *old(harness),
                *final(harness),
                tx,
                res,
            ) && deployment_verdict(res, r),
{
    let ghost pre = *harness;
    let ghost code = bytecode@;
    let tx = deployment_tx(harness, bytecode);
    let ghost t = tx;
    let res = harness.execute_tx(tx);
    let ghost g = res;
    let r = require_deployment(res);
    assert(is_deployment(pre, t, code) && ran_tx(pre, *harness, t, g) && deployment_verdict(g, r));
    r
}

/// Whether `tx` is a zero-value call without data from the default sender to address 1
/// with the given gas limit.
pub open spec fn is_gas_limit_call<B: ExecutionBackend>(h: EvmTestHarness<B>, tx: Transaction, gas_limit: u64) -> bool {
    &&& tx.to matches Some(a) && a.bytes@ == Address::with_last_byte_spec(1)
    &&& legacy_tx(h, tx, dev_address(0), gas_limit, tx.to, 0)
    &&& tx.data@.len() == 0
}

/// The call of `is_gas_limit_call`.
pub fn gas_limit_tx<B: ExecutionBackend>(harness: &EvmTestHarness<B>, gas_limit: u64) -> (r: Transaction)
    ensures
        is_gas_limit_call(*harness, r, gas_limit),
{
    let sender = dev_account();
    Transaction {
        tx_type: 0,
        caller: sender,
        gas_limit,
        gas_price: DEFAULT_GAS_PRICE,
        to: Some(Address::with_last_byte(1)),
        value: 0,
        data: Vec::new(),
        nonce: harness.nonce_of(sender),
        chain_id: Some(harness.chain_id()),
        gas_priority_fee: None,
    }
}

/// Runs the call of `gas_limit_tx`; passes when it used no more gas than `gas_limit`.
pub fn test_gas_limit<B: ExecutionBackend>(harness: &mut EvmTestHarness<B>, gas_limit: u64) -> (r: Result<(), Error>)
    ensures
        exists|tx: Transaction, res: Result<ExecutionResult, Error>|
            is_gas_limit_call(*old(harness), tx, gas_limit) && #[trigger] ran_tx(
                *old(harness),
                *final(harness),
                tx,
                res,
            ) && gas_verdict(res, gas_limit, r),
{
    let ghost pre = *harness;
    let tx = gas_limit_tx(harness, gas_limit);
    let ghost t = tx;
    let res = harness.execute_tx(tx);
    let ghost g = res;
    let r = require_within_gas(res, gas_limit);
    assert(is_gas_limit_call(pre, t, gas_limit) && ran_tx(pre, *harness, t, g) && gas_verdict(
        g,
        gas_limit,
        r,
    ));
    r
}

/// Moves the harness to the block before `fork_block`, then to `fork_block`.
pub fn test_fork_transition<B: ExecutionBackend>(
    harness: &mut EvmTestHarness<B>,
    fork_block: u64,
    _pre_fork_spec: SpecId,
    _post_fork_spec: SpecId,
) -> (r: Result<(), Error>)
    requires
        fork_block >= 1,
    ensures
        r is Ok,
        final(harness).block().number == fork_block,
        final(harness).database() == old(harness).database(),
        final(harness).chain() == old(harness).chain(),
{
    harness.set_block_number(fork_block - 1);
    harness.set_block_number(fork_block);
    Ok(())
}

/// Moves the harness to the block before `fork_block`.
pub fn test_feature_disabled_pre_fork<B: ExecutionBackend>(harness: &mut EvmTestHarness<B>, fork_block: u64) -> (r: Result<(), Error>)
    requires
        fork_block >= 1,
    ensures
        r is Ok,
        final(harness).block().number == fork_block - 1,
        final(harness).database() == old(harness).database(),
        final(harness).chain() == old(harness).chain(),
{
    harness.set_block_number(fork_block - 1);
    Ok(())
}

/// Moves the harness to the block after `fork_block`.
pub fn test_feature_enabled_post_fork<B: ExecutionBackend>(harness: &mut EvmTestHarness<B>, fork_block: u64) -> (r: Result<(), Error>)
    requires
        fork_block < u64::MAX,
    ensures
        r is Ok,
        final(harness).block().number == fork_block + 1,
        final(harness).database() == old(harness).database(),
        final(harness).chain() == old(harness).chain(),
{
    harness.set_block_number(fork_block + 1);
    Ok(())
}

} // verus!
