//! What a contract asks of the host it runs on, and the errors of outbound calls.
use vstd::prelude::*;

use crate::call::{CallParams, ReturnType};
use crate::create::CreateParams;

verus! {

/// The address of a contract account.
pub type AccountId = [u8; 32];

/// The hash that identifies uploaded contract code.
pub type CodeHash = [u8; 32];

/// An amount of the chain's currency.
pub type Balance = u128;

/// Why the host could not complete an outbound call or instantiation.
#[derive(Clone, Copy, Debug, PartialEq, Eq, Structural)]
pub enum HostError {
    CalleeTrapped,
    CalleeReverted,
    CalleeDidNotExist,
    InsufficientBalance,
}

/// An outbound call failed; the cause is not told apart.
#[derive(Clone, Copy, Debug, PartialEq, Eq, Structural)]
pub struct CallError;

/// An instantiation failed before or at the host.
#[derive(Clone, Copy, Debug, PartialEq, Eq, Structural)]
pub enum CreateError {
    /// The builder was fired before a code hash was given.
    CodeHashMissing,
    /// The host could not instantiate the contract, or gave back no address.
    Failed,
}

/// The primitives of the host that carry out outbound calls.
///
/// The host is outside this library: nothing is assumed of what it gives back.
pub trait Env {
    /// Calls a contract and hands back the bytes that it returned.
    fn eval_contract(&mut self, params: &CallParams<ReturnType>) -> Result<Vec<u8>, HostError>;

    /// Calls a contract that returns nothing.
    fn invoke_contract(&mut self, params: &CallParams<()>) -> Result<(), HostError>;

    /// Instantiates a contract and hands back the encoded address of the new account.
    fn create_contract(&mut self, params: &CreateParams) -> Result<Vec<u8>, HostError>;
}

} // verus!
