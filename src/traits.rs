//! Traits for the components that users plug into tests.
use vstd::prelude::*;

verus! {

/// A chain specification that tests can instantiate.
pub trait TestableChainSpec: Sized {
    /// A test instance of this chain specification.
    fn test_spec() -> Self;
}

/// A node that can be tested with this harness.
pub trait TestNode: Sized {
    /// The chain specification of the node.
    type ChainSpec: TestableChainSpec;

    /// A node instance for testing.
    fn test_instance() -> Self;
}

} // verus!
