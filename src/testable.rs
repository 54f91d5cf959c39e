//! Contracts that tests can instantiate directly.
use vstd::prelude::*;

verus! {

/// Implemented by contracts so that tests can create them without a host: the
/// constructor becomes an ordinary function that returns the contract.
pub trait InstantiateTestable: Sized {
    /// The test wrapper for the contract, which gives access to it.
    type Wrapped: core::ops::Deref<Target = Self> + core::ops::DerefMut<Target = Self>;

    /// Creates a testable instance of the contract.
    fn instantiate() -> Self::Wrapped;
}

} // verus!
