//! RPC testing: a marker with no behavior yet.
use vstd::prelude::*;

verus! {

/// Placeholder for testing RPC endpoints without a network.
pub struct TestRpcClient;

impl TestRpcClient {
    /// Creates the client.
    pub fn new() -> (r: Self)
        ensures
            r == TestRpcClient,
    {
        TestRpcClient
    }
}

impl Default for TestRpcClient {
    fn default() -> (r: Self)
        ensures
            r == TestRpcClient,
    {
        TestRpcClient::new()
    }
}

} // verus!
