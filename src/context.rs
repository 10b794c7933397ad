//! A test context holding the current block and the test options.
use vstd::prelude::*;
use crate::error::{Error, error_message};
use crate::types::{Address, B256};

verus! {

/// The block that transactions run in.
#[derive(Clone, Copy, Debug, PartialEq, Eq)]
pub struct BlockEnv {
    /// Block number.
    pub number: u64,
    /// Block timestamp, in seconds.
    pub timestamp: u64,
    /// Base fee per gas, when set.
    pub base_fee: Option<u64>,
    /// Block gas limit.
    pub gas_limit: u64,
    /// Beneficiary of the block's fees.
    pub coinbase: Address,
    /// Randomness beacon output of the previous block.
    pub prev_randao: B256,
}

/// Whether every byte of `s` is zero.
pub open spec fn all_zero(s: Seq<u8>) -> bool {
    forall|i: int| 0 <= i < s.len() ==> s[i] == 0u8
}

impl Default for BlockEnv {
    fn default() -> (r: Self)
        ensures
            r.number == 0,
            r.timestamp == 0,
            r.base_fee is None,
            r.gas_limit == 0,
            all_zero(r.coinbase.bytes@),
            all_zero(r.prev_randao.bytes@),
    {
        BlockEnv {
            number: 0,
            timestamp: 0,
            base_fee: None,
            gas_limit: 0,
            coinbase: Address::zero(),
            prev_randao: B256::zero(),
        }
    }
}

/// Test options.
#[derive(Clone, Copy, Debug)]
pub struct TestConfig {
    /// Verbose logging.
    pub verbose: bool,
    /// Stop at the first error.
    pub fail_fast: bool,
    /// Maximum gas per block.
    pub max_gas_limit: u64,
}

impl Default for TestConfig {
    fn default() -> (r: Self)
        ensures
            !r.verbose,
            r.fail_fast,
            r.max_gas_limit == 30_000_000,
    {
        TestConfig { verbose: false, fail_fast: true, max_gas_limit: 30_000_000 }
    }
}

/// Seconds between two blocks when advancing.
pub const BLOCK_TIME: u64 = 12;

/// Test context: the chain, the current block and the options.
pub struct TestContext {
    /// The chain identifier.
    pub chain_id: u64,
    /// The current block.
    pub current_block: BlockEnv,
    /// Test options.
    pub config: TestConfig,
}

impl TestContext {
    /// A context at the default block, with default options.
    pub fn new(chain_id: u64) -> (r: Self)
        ensures
            r.chain_id == chain_id,
            r.current_block.number == 0,
            r.current_block.timestamp == 0,
            r.current_block.base_fee is None,
            r.current_block.gas_limit == 0,
            !r.config.verbose,
            r.config.fail_fast,
            r.config.max_gas_limit == 30_000_000,
    {
        TestContext { chain_id, current_block: BlockEnv::default(), config: TestConfig::default() }
    }

    /// The current block number.
    pub fn block_number(&self) -> (r: u64)
        ensures
            r == self.current_block.number,
    {
        self.current_block.number
    }

    /// Moves to the next block, one block time later. Fails, changing nothing, where
    /// the number or the timestamp would overflow.
    pub fn advance_block(&mut self) -> (r: Result<(), Error>)
        ensures
            old(self).current_block.number < u64::MAX && old(self).current_block.timestamp
                <= u64::MAX - BLOCK_TIME ==> r is Ok && final(self).current_block == (BlockEnv {
                number: (old(self).current_block.number + 1) as u64,
                timestamp: (old(self).current_block.timestamp + BLOCK_TIME) as u64,
                ..old(self).current_block
            }),
            !(old(self).current_block.number < u64::MAX && old(self).current_block.timestamp
                <= u64::MAX - BLOCK_TIME) ==> (r matches Err(e) && e is Generic
                && final(self).current_block == old(self).current_block),
            final(self).chain_id == old(self).chain_id,
            final(self).config == old(self).config,
    {
        if self.current_block.number < u64::MAX && self.current_block.timestamp <= u64::MAX
            - BLOCK_TIME {
            self.current_block.number = self.current_block.number + 1;
            self.current_block.timestamp = self.current_block.timestamp + BLOCK_TIME;
            Ok(())
        } else {
            Err(Error::Generic(String::from_str("Block number or timestamp overflow")))
        }
    }

    /// Sets the current block number; any value is accepted.
    pub fn set_block_number(&mut self, number: u64)
        ensures
            final(self).current_block == (BlockEnv { number, ..old(self).current_block }),
            final(self).chain_id == old(self).chain_id,
            final(self).config == old(self).config,
    {
        self.current_block.number = number;
    }

    /// Sets the current block timestamp; any value is accepted.
    pub fn set_timestamp(&mut self, timestamp: u64)
        ensures
            final(self).current_block == (BlockEnv { timestamp, ..old(self).current_block }),
            final(self).chain_id == old(self).chain_id,
            final(self).config == old(self).config,
    {
        self.current_block.timestamp = timestamp;
    }

    /// The chain identifier.
    pub fn chain_id(&self) -> (r: u64)
        ensures
            r == self.chain_id,
    {
        self.chain_id
    }

    /// The context with verbose logging set to `verbose`.
    pub fn with_verbose(self, verbose: bool) -> (r: Self)
        ensures
            r.config == (TestConfig { verbose, ..self.config }),
            r.current_block == self.current_block,
            r.chain_id == self.chain_id,
    {
        let mut r = self;
        r.config.verbose = verbose;
        r
    }

    /// The context with fail-fast set to `fail_fast`.
    pub fn with_fail_fast(self, fail_fast: bool) -> (r: Self)
        ensures
            r.config == (TestConfig { fail_fast, ..self.config }),
            r.current_block == self.current_block,
            r.chain_id == self.chain_id,
    {
        let mut r = self;
        r.config.fail_fast = fail_fast;
        r
    }
}

/// The chain identifier of Ethereum mainnet, used when none is given.
pub const MAINNET_CHAIN_ID: u64 = 1;

/// Builder of a `TestContext`.
pub struct TestContextBuilder {
    pub chain_id: Option<u64>,
    pub block_env: BlockEnv,
    pub config: TestConfig,
}

impl Default for TestContextBuilder {
    fn default() -> (r: Self)
        ensures
            r.chain_id is None,
            r.block_env.number == 0,
            r.block_env.timestamp == 0,
            r.block_env.base_fee is None,
            r.block_env.gas_limit == 0,
            !r.config.verbose,
            r.config.fail_fast,
    {
        TestContextBuilder::new()
    }
}

impl TestContextBuilder {
    /// A builder with the default block and options, on mainnet.
    pub fn new() -> (r: Self)
        ensures
            r.chain_id is None,
            r.block_env.number == 0,
            r.block_env.timestamp == 0,
            r.block_env.base_fee is None,
            r.block_env.gas_limit == 0,
            !r.config.verbose,
            r.config.fail_fast,
    {
        TestContextBuilder {
            chain_id: None,
            block_env: BlockEnv::default(),
            config: TestConfig::default(),
        }
    }

    /// Sets the chain identifier.
    pub fn with_chain_id(self, chain_id: u64) -> (r: Self)
        ensures
            r.chain_id == Some(chain_id),
            r.block_env == self.block_env,
            r.config == self.config,
    {
        let mut r = self;
        r.chain_id = Some(chain_id);
        r
    }

    /// Sets the initial block number.
    pub fn with_block_number(self, number: u64) -> (r: Self)
        ensures
            r.block_env == (BlockEnv { number, ..self.block_env }),
            r.chain_id == self.chain_id,
            r.config == self.config,
    {
        let mut r = self;
        r.block_env.number = number;
        r
    }

    /// Sets the initial block timestamp.
    pub fn with_timestamp(self, timestamp: u64) -> (r: Self)
        ensures
            r.block_env == (BlockEnv { timestamp, ..self.block_env }),
            r.chain_id == self.chain_id,
            r.config == self.config,
    {
        let mut r = self;
        r.block_env.timestamp = timestamp;
        r
    }

    /// Sets the base fee.
    pub fn with_base_fee(self, base_fee: u64) -> (r: Self)
        ensures
            r.block_env == (BlockEnv { base_fee: Some(base_fee), ..self.block_env }),
            r.chain_id == self.chain_id,
            r.config == self.config,
    {
        let mut r = self;
        r.block_env.base_fee = Some(base_fee);
        r
    }

    /// Sets the block gas limit.
    pub fn with_gas_limit(self, gas_limit: u64) -> (r: Self)
        ensures
            r.block_env == (BlockEnv { gas_limit, ..self.block_env }),
            r.chain_id == self.chain_id,
            r.config == self.config,
    {
        let mut r = self;
        r.block_env.gas_limit = gas_limit;
        r
    }

    /// Sets the coinbase address.
    pub fn with_coinbase(self, coinbase: Address) -> (r: Self)
        ensures
            r.block_env == (BlockEnv { coinbase, ..self.block_env }),
            r.chain_id == self.chain_id,
            r.config == self.config,
    {
        let mut r = self;
        r.block_env.coinbase = coinbase;
        r
    }

    /// Sets verbose logging.
    pub fn with_verbose(self, verbose: bool) -> (r: Self)
        ensures
            r.config == (TestConfig { verbose, ..self.config }),
            r.chain_id == self.chain_id,
            r.block_env == self.block_env,
    {
        let mut r = self;
        r.config.verbose = verbose;
        r
    }

    /// Sets fail-fast mode.
    pub fn with_fail_fast(self, fail_fast: bool) -> (r: Self)
        ensures
            r.config == (TestConfig { fail_fast, ..self.config }),
            r.chain_id == self.chain_id,
            r.block_env == self.block_env,
    {
        let mut r = self;
        r.config.fail_fast = fail_fast;
        r
    }

    /// The context: the chosen chain (mainnet when none), block and options.
    pub fn build(self) -> (r: Result<TestContext, Error>)
        ensures
            r matches Ok(c) && c.current_block == self.block_env && c.config == self.config
                && c.chain_id == match self.chain_id {
                Some(id) => id,
                None => MAINNET_CHAIN_ID,
            },
    {
        let chain_id = match self.chain_id {
            Some(id) => id,
            None => MAINNET_CHAIN_ID,
        };
        Ok(TestContext { chain_id, current_block: self.block_env, config: self.config })
    }
}

} // verus!
