//! Consensus testing: a marker with no behavior yet.
use vstd::prelude::*;

verus! {

/// Placeholder for consensus rule, block validation and hardfork transition tests.
pub struct ConsensusTestHarness;

impl ConsensusTestHarness {
    /// Creates the harness.
    pub fn new() -> (r: Self)
        ensures
            r == ConsensusTestHarness,
    {
        ConsensusTestHarness
    }
}

impl Default for ConsensusTestHarness {
    fn default() -> (r: Self)
        ensures
            r == ConsensusTestHarness,
    {
        ConsensusTestHarness::new()
    }
}

} // verus!
