//! The boundary to revm, the execution engine that runs transactions.
use vstd::prelude::*;
use crate::context::BlockEnv;
use crate::types::{Address, be_value};
use revm::primitives::hardfork::SpecId;
use revm::{DatabaseRef, ExecuteCommitEvm, MainBuilder, MainContext};
use revm::context_interface::result::ExecutionResult as RevmResult;
use revm::context::BlockEnv as RevmBlock;

verus! {

/// One call or contract-creation request.
#[derive(Clone, Debug)]
pub struct Transaction {
    /// Transaction type tag (0 legacy, 2 fee-market).
    pub tx_type: u8,
    pub caller: Address,
    pub gas_limit: u64,
    /// Gas price; for a fee-market transaction, the maximum fee per gas.
    pub gas_price: u128,
    /// The callee, or `None` to create a contract.
    pub to: Option<Address>,
    pub value: u128,
    pub data: Vec<u8>,
    pub nonce: u64,
    pub chain_id: Option<u64>,
    /// Priority fee per gas of a fee-market transaction.
    pub gas_priority_fee: Option<u128>,
}

/// What the execution engine reports for a transaction that it ran.
pub enum BackendOutcome {
    /// The transaction completed; a creation names the created contract.
    Success {
        gas_used: u64,
        gas_refunded: u64,
        output: Vec<u8>,
        created_address: Option<Address>,
    },
    /// The transaction was reverted by the code it ran.
    Revert { gas_used: u64, output: Vec<u8> },
    /// Execution stopped abnormally (out of gas, invalid opcode, ...).
    Halt { gas_used: u64, reason: String },
}

/// An execution engine that the harness can run transactions on: it holds the account
/// state and runs one transaction at a time against it.
pub trait ExecutionBackend: Sized {
    /// The nonce that the backend holds for the account at `a`, 0 where there is none.
    /// A backend that keeps no nonces reports 0 for every account.
    open spec fn nonce_model(&self, a: Seq<u8>) -> nat {
        0
    }

    /// The current nonce of the account at `address`, 0 where there is none.
    fn nonce(&self, address: Address) -> (r: u64)
        ensures
            r as nat == self.nonce_model(address.bytes@),
    ;

    /// What the backend guarantees of one run: from state `self` to state `post`, it ran
    /// `tx` in `block` on `chain_id` under `spec_id` and reported `out`. A backend that
    /// guarantees nothing more leaves it true.
    open spec fn ran(
        &self,
        post: Self,
        block: BlockEnv,
        chain_id: u64,
        spec_id: SpecId,
        tx: Transaction,
        out: Result<BackendOutcome, String>,
    ) -> bool {
        true
    }

    /// Runs `tx` in `block` on the chain `chain_id` under the rule set `spec_id`, keeping
    /// its state changes. `Ok` reports a transaction that ran; `Err` describes why the
    /// engine refused one before running it.
    fn transact(
        &mut self,
        block: &BlockEnv,
        chain_id: u64,
        spec_id: SpecId,
        tx: &Transaction,
    ) -> (r: Result<BackendOutcome, String>)
        ensures
            old(self).ran(*final(self), *block, chain_id, spec_id, *tx, r),
    ;
}

#[verifier::external_type_specification]
#[verifier::external_body]
#[verifier::reject_recursive_types(ExtDB)]
pub struct ExCacheDB<ExtDB>(revm::database::CacheDB<ExtDB>);

#[verifier::external_type_specification]
#[verifier::external_body]
#[verifier::reject_recursive_types(E)]
pub struct ExEmptyDBTyped<E>(revm::database::EmptyDBTyped<E>);

#[verifier::external_type_specification]
pub struct ExSpecId(revm::primitives::hardfork::SpecId);

#[verifier::external_type_specification]
#[verifier::external_body]
pub struct ExRevmBlock(RevmBlock);

#[verifier::external_type_specification]
#[verifier::external_body]
#[verifier::reject_recursive_types(SPEC)]
pub struct ExCfgEnv<SPEC>(revm::context::CfgEnv<SPEC>);

#[verifier::external_type_specification]
#[verifier::external_body]
pub struct ExTxEnv(revm::context::TxEnv);

#[verifier::external_type_specification]
#[verifier::external_body]
#[verifier::reject_recursive_types(H)]
pub struct ExRevmResult<H>(RevmResult<H>);

#[verifier::external_type_specification]
#[verifier::external_body]
pub struct ExHaltReason(revm::context_interface::result::HaltReason);

/// revm's in-memory account database.
pub type InMemoryDB = revm::database::InMemoryDB;

/// revm's result of a transaction that ran.
pub type EngineResult = RevmResult<revm::context_interface::result::HaltReason>;

/// What the model holds of an account: its balance, its nonce, and whether its code is
/// empty (its code hash is that of no code).
pub type AccountModel = (nat, nat, bool);

/// The existing accounts of a database, by address bytes.
pub uninterp spec fn db_accounts(db: InMemoryDB) -> Map<Seq<u8>, AccountModel>;

/// A database model without accounts.
pub open spec fn no_accounts() -> Map<Seq<u8>, AccountModel> {
    Map::empty()
}

/// Relies on revm's `SpecId` default: `OSAKA`, its latest supported fork.
pub assume_specification[ <revm::primitives::hardfork::SpecId as core::default::Default>::default ](
) -> (r: revm::primitives::hardfork::SpecId)
    ensures
        r == revm::primitives::hardfork::SpecId::OSAKA,
;

/// Relies on `CacheDB::new` over `EmptyDB`: a cache over a database without accounts.
#[verifier::external_body]
pub(crate) fn new_db() -> (r: InMemoryDB)
    ensures
        db_accounts(r) == no_accounts(),
{
    revm::database::CacheDB::new(revm::database::EmptyDB::default())
}

/// Relies on `CacheDB::insert_account_info` with `AccountInfo::from_balance`: the account
/// then exists with that balance, nonce 0 and the code hash of no code.
#[verifier::external_body]
pub(crate) fn insert_funded(db: &mut InMemoryDB, address: Address, balance: u128)
    ensures
        db_accounts(*final(db)) == db_accounts(*old(db)).insert(
            address.bytes@,
            (balance as nat, 0nat, true),
        ),
{
    let info = revm::state::AccountInfo::from_balance(revm::primitives::U256::from(balance));
    db.insert_account_info(revm::primitives::Address::from(address.bytes), info)
}

/// Relies on `DatabaseRef::basic_ref` of `CacheDB` and `AccountInfo::is_empty_code_hash`:
/// the balance (32 big-endian bytes), nonce and code emptiness of an existing account,
/// `None` for an address without one.
#[verifier::external_body]
pub(crate) fn account_of(db: &InMemoryDB, address: Address) -> (r: Option<([u8; 32], u64, bool)>)
    ensures
        r is Some <==> db_accounts(*db).contains_key(address.bytes@),
        r matches Some((balance, nonce, no_code)) ==> be_value(balance@) == db_accounts(
            *db,
        )[address.bytes@].0 && nonce as nat == db_accounts(*db)[address.bytes@].1 && no_code
            == db_accounts(*db)[address.bytes@].2,
{
    match db.basic_ref(revm::primitives::Address::from(address.bytes)) {
        Ok(Some(info)) => Some((info.balance.to_be_bytes::<32>(), info.nonce, info.is_empty_code_hash())),
        _ => None,
    }
}

/// Relies on revm's `BlockEnv` fields; the blob fee fields keep their defaults.
#[verifier::external_body]
pub(crate) fn engine_block(
    number: u64,
    timestamp: u64,
    base_fee: u64,
    gas_limit: u64,
    coinbase: Address,
    prev_randao: [u8; 32],
) -> RevmBlock {
    RevmBlock {
        number: revm::primitives::U256::from(number),
        beneficiary: revm::primitives::Address::from(coinbase.bytes),
        timestamp: revm::primitives::U256::from(timestamp),
        gas_limit,
        basefee: base_fee,
        prevrandao: Some(revm::primitives::B256::from(prev_randao)),
        ..Default::default()
    }
}

/// Relies on `CfgEnv::new_with_spec` and `CfgEnv::with_chain_id`.
#[verifier::external_body]
pub(crate) fn engine_cfg(
    chain_id: u64,
    spec: SpecId,
) -> revm::context::CfgEnv {
    revm::context::CfgEnv::new_with_spec(spec).with_chain_id(chain_id)
}

/// Relies on revm's `TxEnv` fields; access list, blobs and authorizations stay empty.
#[verifier::external_body]
pub(crate) fn engine_tx(tx: &Transaction) -> revm::context::TxEnv {
    revm::context::TxEnv {
        tx_type: tx.tx_type,
        caller: revm::primitives::Address::from(tx.caller.bytes),
        gas_limit: tx.gas_limit,
        gas_price: tx.gas_price,
        kind: revm::primitives::TxKind::from(tx.to.map(|a| revm::primitives::Address::from(a.bytes))),
        value: revm::primitives::U256::from(tx.value),
        data: revm::primitives::Bytes::from(tx.data.clone()),
        nonce: tx.nonce,
        chain_id: tx.chain_id,
        gas_priority_fee: tx.gas_priority_fee,
        ..Default::default()
    }
}

/// Relies on revm's mainnet EVM (`build_mainnet`, `transact_commit`): runs the transaction
/// and writes its state changes into the database; a transaction that the engine refuses
/// to run gives the error's description and is not committed, so the accounts stay.
#[verifier::external_body]
pub(crate) fn engine_transact(
    db: &mut InMemoryDB,
    block: RevmBlock,
    cfg: revm::context::CfgEnv,
    tx: revm::context::TxEnv,
) -> (r: Result<EngineResult, String>)
    ensures
        r is Err ==> db_accounts(*final(db)) == db_accounts(*old(db)),
{
    let mut evm = revm::Context::mainnet().with_db(db).with_block(block).with_cfg(cfg).build_mainnet();
    match evm.transact_commit(tx) {
        Ok(r) => Ok(r),
        Err(e) => Err(format!("{:?}", e)),
    }
}

/// Relies on revm's `ExecutionResult` variants: moves each into the matching outcome, with
/// the receipt's gas used (`tx_gas_used`), the effective refund (`final_refunded`) and, for
/// a creation, the created address (`Output::address`).
#[verifier::external_body]
pub(crate) fn classify(r: EngineResult) -> BackendOutcome {
    match r {
        RevmResult::Success { gas, output, .. } => BackendOutcome::Success {
            created_address: output.address().map(|a| Address { bytes: a.0.0 }),
            gas_used: gas.tx_gas_used(),
            gas_refunded: gas.final_refunded(),
            output: output.into_data().to_vec(),
        },
        RevmResult::Revert { gas, output, .. } => BackendOutcome::Revert { gas_used: gas.tx_gas_used(), output: output.to_vec() },
        RevmResult::Halt { reason, gas, .. } => BackendOutcome::Halt { gas_used: gas.tx_gas_used(), reason: format!("{:?}", reason) },
    }
}

impl ExecutionBackend for InMemoryDB {
    open spec fn nonce_model(&self, a: Seq<u8>) -> nat {
        if db_accounts(*self).contains_key(a) {
            db_accounts(*self)[a].1
        } else {
            0
        }
    }

    /// A refused transaction leaves the accounts as they were.
    open spec fn ran(
        &self,
        post: Self,
        block: BlockEnv,
        chain_id: u64,
        spec_id: SpecId,
        tx: Transaction,
        out: Result<BackendOutcome, String>,
    ) -> bool {
        out is Err ==> db_accounts(post) == db_accounts(*self)
    }

    fn nonce(&self, address: Address) -> (r: u64) {
        match account_of(self, address) {
            Some((_, nonce, _)) => nonce,
            None => 0,
        }
    }

    fn transact(
        &mut self,
        block: &BlockEnv,
        chain_id: u64,
        spec_id: SpecId,
        tx: &Transaction,
    ) -> (r: Result<BackendOutcome, String>) {
        let base_fee = match block.base_fee {
            Some(fee) => fee,
            None => 0,
        };
        let engine_block = engine_block(
            block.number,
            block.timestamp,
            base_fee,
            block.gas_limit,
            block.coinbase,
            block.prev_randao.bytes,
        );
        let cfg = engine_cfg(chain_id, spec_id);
        match engine_transact(self, engine_block, cfg, engine_tx(tx)) {
            Ok(res) => Ok(classify(res)),
            Err(d) => Err(d),
        }
    }
}

} // verus!
