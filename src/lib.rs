//! A test harness for EVM execution: deterministic pre-funded dev accounts, an in-memory
//! harness that runs transactions on a pluggable execution backend (revm by default) and
//! maps what the engine reports into a backend-independent result, a reconciler that
//! compares two results, and canned scenarios built on the harness.

pub mod backend;
pub mod consensus;
pub mod context;
pub mod dev;
pub mod engine;
pub mod error;
pub mod fixtures;
pub mod harness;
pub mod laws;
pub mod presets;
pub mod result;
pub mod rpc;
pub mod text;
pub mod traits;
pub mod types;

pub use context::{TestContext, TestContextBuilder};
pub use error::{Error, Result};
pub use fixtures::FixtureManager;
pub use harness::EvmTestHarness;
