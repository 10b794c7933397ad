//! In-memory EVM test harness: one backend, one current block, one rule set.
use vstd::prelude::*;
use crate::backend::{
    AccountModel, BackendOutcome, ExecutionBackend, InMemoryDB, Transaction, account_of, db_accounts,
    new_db,
};
use crate::context::{BlockEnv, MAINNET_CHAIN_ID, all_zero};
use crate::dev::{create_dev_db, dev_account, dev_accounts_model, dev_address};
use crate::error::{Error, error_message};
use crate::result::{ExecutionResult, outcome_result};
use crate::types::{Address, B256};
use revm::primitives::hardfork::SpecId;

verus! {

/// Gas allowance of a precompile call.
pub const PRECOMPILE_GAS_LIMIT: u64 = 10_000_000;

/// Gas price of the transactions that the harness synthesizes: one gwei.
pub const DEFAULT_GAS_PRICE: u128 = 1_000_000_000;

/// The block that a new harness starts at: number 0, timestamp 1, no base fee, an
/// unbounded gas limit, zero coinbase and randomness.
pub open spec fn initial_block(b: BlockEnv) -> bool {
    &&& b.number == 0
    &&& b.timestamp == 1
    &&& b.base_fee is None
    &&& b.gas_limit == u64::MAX
    &&& all_zero(b.coinbase.bytes@)
    &&& all_zero(b.prev_randao.bytes@)
}

/// What `execute_tx` returns for what the engine reported: the mapped result for a
/// transaction that ran, an execution error naming the engine's description for one
/// that it refused.
pub open spec fn settled(engine: Result<BackendOutcome, String>, r: Result<ExecutionResult, Error>) -> bool {
    match engine {
        Ok(o) => r matches Ok(res) && outcome_result(o, res),
        Err(d) => r matches Err(e) && e is EvmExecution && error_message(e)
            == "EVM execution failed: "@ + d@,
    }
}

/// The result of a transaction for whatever the engine reported.
pub fn settle(engine: Result<BackendOutcome, String>) -> (r: Result<ExecutionResult, Error>)
    ensures
        settled(engine, r),
{
    match engine {
        Ok(o) => Ok(ExecutionResult::from_outcome(o)),
        Err(d) => {
            let mut text = String::from_str("EVM execution failed: ");
            text.append(d.as_str());
            Err(Error::EvmExecution(text))
        },
    }
}

/// The harness went from `pre` to `post` by running `tx` on its backend in its current
/// block, chain and rule set, and `res` is what `settle` gives for the backend's report.
pub open spec fn ran_tx<B: ExecutionBackend>(
    pre: EvmTestHarness<B>,
    post: EvmTestHarness<B>,
    tx: Transaction,
    res: Result<ExecutionResult, Error>,
) -> bool {
    &&& post.block() == pre.block()
    &&& post.chain() == pre.chain()
    &&& post.spec() == pre.spec()
    &&& exists|engine: Result<BackendOutcome, String>|
        #[trigger] pre.database().ran(
            post.database(),
            pre.block(),
            pre.chain(),
            pre.spec(),
            tx,
            engine,
        ) && settled(engine, res)
}

/// In-memory EVM test harness over an execution backend, by default revm's in-memory
/// database.
pub struct EvmTestHarness<B = InMemoryDB> {
    db: B,
    chain_id: u64,
    block_env: BlockEnv,
    spec_id: SpecId,
}

impl<B: ExecutionBackend> EvmTestHarness<B> {
    /// The backend.
    pub closed spec fn database(&self) -> B {
        self.db
    }

    /// The current block.
    pub closed spec fn block(&self) -> BlockEnv {
        self.block_env
    }

    /// The chain identifier.
    pub closed spec fn chain(&self) -> u64 {
        self.chain_id
    }

    /// The active rule set.
    pub closed spec fn spec(&self) -> SpecId {
        self.spec_id
    }

    /// A harness over the backend `db` on the chain `chain_id`, at the initial block, with
    /// the latest rule set that revm supports (Osaka).
    pub fn new(db: B, chain_id: u64) -> (r: Self)
        ensures
            r.database() == db,
            r.chain() == chain_id,
            initial_block(r.block()),
            r.spec() == SpecId::OSAKA,
    {
        EvmTestHarness {
            db,
            chain_id,
            block_env: BlockEnv {
                number: 0,
                timestamp: 1,
                base_fee: None,
                gas_limit: u64::MAX,
                coinbase: Address::zero(),
                prev_randao: B256::zero(),
            },
            spec_id: SpecId::default(),
        }
    }

    /// Asks the backend to run `tx` in the current block, on the harness's chain and rule
    /// set, and keeps its state changes. The result is the one `settle` gives for the
    /// backend's report: an error when the engine refused the transaction, a failed
    /// result when it reverted or halted, a successful one when it completed. The block,
    /// chain and rule set stay.
    pub fn execute_tx(&mut self, tx: Transaction) -> (r: Result<ExecutionResult, Error>)
        ensures
            ran_tx(*old(self), *final(self), tx, r),
    {
        let ghost pre = *self;
        let engine = self.db.transact(&self.block_env, self.chain_id, self.spec_id, &tx);
        let ghost g = engine;
        let r = settle(engine);
        assert(pre.database().ran(self.database(), pre.block(), pre.chain(), pre.spec(), tx, g)
            && settled(g, r));
        r
    }

    /// Whether `tx` is the zero-value call that `execute_precompile` sends to `address`
    /// with `input`: from the default sender at its current nonce, with a gas allowance of
    /// ten million and a price of one gwei.
    pub open spec fn is_precompile_call(&self, tx: Transaction, address: Address, input: Seq<u8>) -> bool {
        &&& tx.tx_type == 0
        &&& tx.caller.bytes@ == dev_address(0)
        &&& tx.gas_limit == PRECOMPILE_GAS_LIMIT
        &&& tx.gas_price == DEFAULT_GAS_PRICE
        &&& tx.to == Some(address)
        &&& tx.value == 0
        &&& tx.data@ == input
        &&& tx.nonce as nat == self.nonce_model(dev_address(0))
        &&& tx.chain_id == Some(self.chain())
        &&& tx.gas_priority_fee is None
    }

    /// The call that `execute_precompile` sends (see `is_precompile_call`).
    pub fn precompile_tx(&self, address: Address, input: Vec<u8>) -> (r: Transaction)
        ensures
            self.is_precompile_call(r, address, input@),
    {
        let sender = dev_account();
        Transaction {
            tx_type: 0,
            caller: sender,
            gas_limit: PRECOMPILE_GAS_LIMIT,
            gas_price: DEFAULT_GAS_PRICE,
            to: Some(address),
            value: 0,
            data: input,
            nonce: self.nonce_of(sender),
            chain_id: Some(self.chain_id),
            gas_priority_fee: None,
        }
    }

    /// Calls the precompile at `address` with `input`: runs the call of
    /// `is_precompile_call` as `execute_tx` does.
    pub fn execute_precompile(&mut self, address: Address, input: Vec<u8>) -> (r: Result<
        ExecutionResult,
        Error,
    >)
        ensures
            exists|tx: Transaction|
                #[trigger] old(self).is_precompile_call(tx, address, input@) && ran_tx(
                    *old(self),
                    *final(self),
                    tx,
                    r,
                ),
    {
        let ghost pre = *self;
        let tx = self.precompile_tx(address, input);
        let ghost t = tx;
        let r = self.execute_tx(tx);
        assert(pre.is_precompile_call(t, address, input@) && ran_tx(pre, *self, t, r));
        r
    }

    /// The nonce that the backend holds for the account at `a`.
    pub open spec fn nonce_model(&self, a: Seq<u8>) -> nat {
        self.database().nonce_model(a)
    }

    /// The nonce of the account at `address`, 0 where there is none.
    pub fn nonce_of(&self, address: Address) -> (r: u64)
        ensures
            r as nat == self.nonce_model(address.bytes@),
    {
        self.db.nonce(address)
    }

    /// Sets the block number; any value is accepted, also a lower one.
    pub fn set_block_number(&mut self, number: u64)
        ensures
            final(self).block() == (BlockEnv { number, ..old(self).block() }),
            final(self).database() == old(self).database(),
            final(self).chain() == old(self).chain(),
            final(self).spec() == old(self).spec(),
    {
        self.block_env.number = number;
    }

    /// Sets the block timestamp; any value is accepted.
    pub fn set_timestamp(&mut self, timestamp: u64)
        ensures
            final(self).block() == (BlockEnv { timestamp, ..old(self).block() }),
            final(self).database() == old(self).database(),
            final(self).chain() == old(self).chain(),
            final(self).spec() == old(self).spec(),
    {
        self.block_env.timestamp = timestamp;
    }

    /// Sets the block base fee.
    pub fn set_base_fee(&mut self, base_fee: u64)
        ensures
            final(self).block() == (BlockEnv { base_fee: Some(base_fee), ..old(self).block() }),
            final(self).database() == old(self).database(),
            final(self).chain() == old(self).chain(),
            final(self).spec() == old(self).spec(),
    {
        self.block_env.base_fee = Some(base_fee);
    }

    /// The current block number.
    pub fn block_number(&self) -> (r: u64)
        ensures
            r == self.block().number,
    {
        self.block_env.number
    }

    /// The chain identifier.
    pub fn chain_id(&self) -> (r: u64)
        ensures
            r == self.chain(),
    {
        self.chain_id
    }

    /// The current block.
    pub fn block_env(&self) -> (r: &BlockEnv)
        ensures
            *r == self.block(),
    {
        &self.block_env
    }

    /// The active rule set.
    pub fn spec_id(&self) -> (r: SpecId)
        ensures
            r == self.spec(),
    {
        self.spec_id
    }

    /// The database.
    pub fn db(&self) -> (r: &B)
        ensures
            *r == self.database(),
    {
        &self.db
    }

    /// The database, for changes made around the harness.
    pub fn db_mut(&mut self) -> (r: &mut B)
        ensures
            *r == old(self).database(),
            final(self).database() == *final(r),
            final(self).block() == old(self).block(),
            final(self).chain() == old(self).chain(),
            final(self).spec() == old(self).spec(),
    {
        &mut self.db
    }
}

impl EvmTestHarness<InMemoryDB> {
    /// The accounts of the harness's database.
    pub open spec fn accounts(&self) -> Map<Seq<u8>, AccountModel> {
        db_accounts(self.database())
    }

    /// A builder with default settings.
    pub fn builder() -> (r: EvmTestHarnessBuilder)
        ensures
            r.db is None,
            r.chain_id is None,
            r.block_number == 0,
            r.timestamp == 0,
            r.base_fee is None,
            r.spec_id == SpecId::OSAKA,
    {
        EvmTestHarnessBuilder::new()
    }

    /// A mainnet harness whose database holds the ten funded dev accounts.
    pub fn dev() -> (r: Self)
        ensures
            r.accounts() == dev_accounts_model(),
            r.chain() == MAINNET_CHAIN_ID,
            initial_block(r.block()),
            r.spec() == SpecId::OSAKA,
    {
        EvmTestHarness::new(create_dev_db(), MAINNET_CHAIN_ID)
    }

    /// A harness on `chain_id` whose database holds the ten funded dev accounts.
    pub fn dev_with_chain_id(chain_id: u64) -> (r: Self)
        ensures
            r.accounts() == dev_accounts_model(),
            r.chain() == chain_id,
            initial_block(r.block()),
            r.spec() == SpecId::OSAKA,
    {
        EvmTestHarness::new(create_dev_db(), chain_id)
    }

    /// The balance of the account at `address`, as 32 big-endian bytes; `None` where
    /// there is no account.
    pub fn get_balance(&self, address: Address) -> (r: Option<[u8; 32]>)
        ensures
            r is Some <==> self.accounts().contains_key(address.bytes@),
            r matches Some(b) ==> crate::types::be_value(b@) == self.accounts()[address.bytes@].0,
    {
        match account_of(&self.db, address) {
            Some((balance, _, _)) => Some(balance),
            None => None,
        }
    }

    /// Whether the account at `address` exists and has no code.
    pub fn has_no_code(&self, address: Address) -> (r: bool)
        ensures
            r == (self.accounts().contains_key(address.bytes@) && self.accounts()[address.bytes@].2),
    {
        match account_of(&self.db, address) {
            Some((_, _, no_code)) => no_code,
            None => false,
        }
    }
}

/// Builder of an `EvmTestHarness`.
pub struct EvmTestHarnessBuilder {
    pub db: Option<InMemoryDB>,
    pub chain_id: Option<u64>,
    pub block_number: u64,
    pub timestamp: u64,
    pub base_fee: Option<u64>,
    pub spec_id: SpecId,
}

impl EvmTestHarnessBuilder {
    /// A builder with no database, no chain, block 0 at time 0 and the latest rule set.
    pub fn new() -> (r: Self)
        ensures
            r.db is None,
            r.chain_id is None,
            r.block_number == 0,
            r.timestamp == 0,
            r.base_fee is None,
            r.spec_id == SpecId::OSAKA,
    {
        EvmTestHarnessBuilder {
            db: None,
            chain_id: None,
            block_number: 0,
            timestamp: 0,
            base_fee: None,
            spec_id: SpecId::default(),
        }
    }

    /// Sets the database.
    pub fn with_db(self, db: InMemoryDB) -> (r: Self)
        ensures
            r == (EvmTestHarnessBuilder { db: Some(db), ..self }),
    {
        let mut r = self;
        r.db = Some(db);
        r
    }

    /// Sets the chain identifier.
    pub fn with_chain_id(self, chain_id: u64) -> (r: Self)
        ensures
            r == (EvmTestHarnessBuilder { chain_id: Some(chain_id), ..self }),
    {
        let mut r = self;
        r.chain_id = Some(chain_id);
        r
    }

    /// Sets the initial block number.
    pub fn with_block_number(self, block_number: u64) -> (r: Self)
        ensures
            r == (EvmTestHarnessBuilder { block_number, ..self }),
    {
        let mut r = self;
        r.block_number = block_number;
        r
    }

    /// Sets the initial timestamp.
    pub fn with_timestamp(self, timestamp: u64) -> (r: Self)
        ensures
            r == (EvmTestHarnessBuilder { timestamp, ..self }),
    {
        let mut r = self;
        r.timestamp = timestamp;
        r
    }

    /// Sets the base fee.
    pub fn with_base_fee(self, base_fee: u64) -> (r: Self)
        ensures
            r == (EvmTestHarnessBuilder { base_fee: Some(base_fee), ..self }),
    {
        let mut r = self;
        r.base_fee = Some(base_fee);
        r
    }

    /// Sets the rule set.
    pub fn with_spec_id(self, spec_id: SpecId) -> (r: Self)
        ensures
            r == (EvmTestHarnessBuilder { spec_id, ..self }),
    {
        let mut r = self;
        r.spec_id = spec_id;
        r
    }

    /// The harness: the chosen database (an empty one when none), chain (mainnet when
    /// none), block number, timestamp, base fee and rule set.
    pub fn build(self) -> (r: EvmTestHarness<InMemoryDB>)
        ensures
            match self.db {
                Some(db) => r.accounts() == db_accounts(db),
                None => r.accounts() == crate::backend::no_accounts(),
            },
            r.chain() == match self.chain_id {
                Some(id) => id,
                None => MAINNET_CHAIN_ID,
            },
            r.block().number == self.block_number,
            r.block().timestamp == self.timestamp,
            r.block().base_fee == self.base_fee,
            r.block().gas_limit == u64::MAX,
            r.spec() == self.spec_id,
    {
        let db = match self.db {
            Some(db) => db,
            None => new_db(),
        };
        let chain_id = match self.chain_id {
            Some(id) => id,
            None => MAINNET_CHAIN_ID,
        };
        let mut harness: EvmTestHarness<InMemoryDB> = EvmTestHarness::new(db, chain_id);
        harness.set_block_number(self.block_number);
        harness.set_timestamp(self.timestamp);
        if let Some(base_fee) = self.base_fee {
            harness.set_base_fee(base_fee);
        }
        harness.spec_id = self.spec_id;
        harness
    }
}

} // verus!
