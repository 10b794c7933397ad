//! Engine API testing without JSON-RPC. Payload building, validation and forkchoice
//! updates are not implemented: each reports so.
use vstd::prelude::*;
use crate::error::{Error, error_message};
use crate::types::B256;

verus! {

/// Payload validation status.
#[derive(Clone, Copy, Debug, PartialEq, Eq)]
pub enum PayloadStatus {
    /// The payload is valid.
    Valid,
    /// The payload is invalid.
    Invalid,
    /// Validation is pending.
    Syncing,
}

/// Forkchoice update.
#[derive(Clone, Copy, Debug)]
pub struct ForkchoiceUpdate {
    pub head_block_hash: B256,
    pub safe_block_hash: B256,
    pub finalized_block_hash: B256,
}

/// Whether `e` is the error of an operation that does not exist yet.
pub open spec fn not_implemented(e: Error) -> bool {
    e is EngineApi && error_message(e) == "Not yet implemented"@
}

/// Engine API test harness.
pub struct EngineApiTestHarness;

impl EngineApiTestHarness {
    /// Creates the harness.
    pub fn new() -> (r: Self)
        ensures
            r == EngineApiTestHarness,
    {
        EngineApiTestHarness
    }

    /// Builds a payload with the given attributes: not implemented.
    pub fn build_payload<Attrs>(&mut self, _attrs: Attrs) -> (r: Result<B256, Error>)
        ensures
            r matches Err(e) && not_implemented(e),
    {
        Err(Error::engine_api("Not yet implemented"))
    }

    /// Validates a payload: not implemented.
    pub fn validate_payload(&mut self, _payload: Vec<u8>) -> (r: Result<PayloadStatus, Error>)
        ensures
            r matches Err(e) && not_implemented(e),
    {
        Err(Error::engine_api("Not yet implemented"))
    }

    /// Updates the forkchoice: not implemented.
    pub fn update_forkchoice(&mut self, _update: ForkchoiceUpdate) -> (r: Result<(), Error>)
        ensures
            r matches Err(e) && not_implemented(e),
    {
        Err(Error::engine_api("Not yet implemented"))
    }
}

} // verus!
