//! Building and firing the instantiation of other contracts.
use vstd::prelude::*;

use crate::call::{Sealed, Unsealed};
use crate::codec::{encoding, scale_decode_bytes32, Value};
use crate::env::{AccountId, Balance, CreateError, Env, CodeHash, HostError};
use crate::selector::{CallData, Selector};

verus! {

/// What the parameters of an instantiation are, as values.
pub ghost struct CreateParamsView {
    /// The code to instantiate, once it is given.
    pub code_hash: Option<Seq<u8>>,
    pub gas_limit: u64,
    pub value: Balance,
    pub selector: Seq<u8>,
    pub args: Seq<u8>,
}

/// The parameters of the instantiation of a contract.
pub struct CreateParams {
    /// The code to instantiate; `None` until it is given.
    code_hash: Option<CodeHash>,
    /// The most gas that the instantiation may use; 0 leaves it to the host.
    gas_limit: u64,
    /// The value that the new contract is endowed with.
    value: Balance,
    /// The constructor's selector and encoded arguments.
    call_data: CallData,
}

pub open spec fn hash_view(h: Option<CodeHash>) -> Option<Seq<u8>> {
    match h {
        Some(x) => Some(x@),
        None => None,
    }
}

impl View for CreateParams {
    type V = CreateParamsView;

    closed spec fn view(&self) -> CreateParamsView {
        CreateParamsView {
            code_hash: hash_view(self.code_hash),
            gas_limit: self.gas_limit,
            value: self.value,
            selector: self.call_data.selector_view(),
            args: self.call_data.args_view(),
        }
    }
}

/// Builds up an instantiation; `S` tells whether it still takes arguments.
pub struct CreateBuilder<S> {
    params: CreateParams,
    seal: S,
}

impl<S> View for CreateBuilder<S> {
    type V = CreateParamsView;

    closed spec fn view(&self) -> CreateParamsView {
        self.params@
    }
}

/// The account that an instantiation gives its caller, given the host's reply: the
/// first 32 bytes of the reply, else an error.
pub open spec fn create_outcome(reply: Result<Seq<u8>, HostError>) -> Result<Seq<u8>, CreateError> {
    match reply {
        Err(_) => Err(CreateError::Failed),
        Ok(b) => if b.len() >= 32 {
            Ok(b.subrange(0, 32))
        } else {
            Err(CreateError::Failed)
        },
    }
}

pub open spec fn account_view(r: Result<AccountId, CreateError>) -> Result<Seq<u8>, CreateError> {
    match r {
        Ok(a) => Ok(a@),
        Err(e) => Err(e),
    }
}

impl CreateParams {
    /// The code to instantiate, once it is given.
    pub fn code_hash(&self) -> (r: Option<CodeHash>)
        ensures
            hash_view(r) == self@.code_hash,
    {
        self.code_hash
    }

    /// The most gas that the instantiation may use.
    pub fn gas_limit(&self) -> (r: u64)
        ensures
            r == self@.gas_limit,
    {
        self.gas_limit
    }

    /// The value that the new contract is endowed with.
    pub fn endowment(&self) -> (r: &Balance)
        ensures
            *r == self@.value,
    {
        &self.value
    }

    /// The constructor's selector and encoded arguments.
    pub fn input_data(&self) -> (r: &CallData)
        ensures
            r.selector_view() == self@.selector,
            r.args_view() == self@.args,
    {
        &self.call_data
    }

    /// A builder for the instantiation through the constructor at `selector`, with no
    /// code hash, gas limit, value or arguments yet.
    pub fn build(selector: Selector) -> (r: CreateBuilder<Unsealed>)
        ensures
            r@ == (CreateParamsView {
                code_hash: None,
                gas_limit: 0,
                value: 0,
                selector: selector@,
                args: Seq::empty(),
            }),
    {
        CreateBuilder {
            params: CreateParams { code_hash: None, gas_limit: 0, value: 0, call_data: CallData::new(selector) },
            seal: Unsealed,
        }
    }
}

impl<S> CreateBuilder<S> {
    /// Sets the most gas that the instantiation may use.
    pub fn gas_limit(self, gas_limit: u64) -> (r: Self)
        ensures
            r@ == (CreateParamsView { gas_limit, ..self@ }),
    {
        let mut b = self;
        b.params.gas_limit = gas_limit;
        b
    }

    /// Sets the value that the new contract is endowed with.
    pub fn value(self, value: Balance) -> (r: Self)
        ensures
            r@ == (CreateParamsView { value, ..self@ }),
    {
        let mut b = self;
        b.params.value = value;
        b
    }

    /// Gives the code to instantiate; from then on the builder can fire.
    pub fn using_code(self, code_hash: CodeHash) -> (r: Self)
        ensures
            r@ == (CreateParamsView { code_hash: Some(code_hash@), ..self@ }),
    {
        let mut b = self;
        b.params.code_hash = Some(code_hash);
        b
    }

    /// The parameters built up so far.
    pub fn params(&self) -> (r: &CreateParams)
        ensures
            r@ == self@,
    {
        &self.params
    }
}

impl CreateBuilder<Unsealed> {
    /// Appends an argument to the constructor's inputs.
    pub fn push_arg(self, arg: &Value) -> (r: Self)
        ensures
            r@ == (CreateParamsView { args: self@.args + encoding(*arg), ..self@ }),
    {
        let mut b = self;
        b.params.call_data.push_arg(arg);
        b
    }

    /// Seals the builder: it takes no more arguments, and its parameters stay as they are.
    pub fn seal(self) -> (r: CreateBuilder<Sealed>)
        ensures
            r@ == self@,
    {
        CreateBuilder { params: self.params, seal: Sealed }
    }
}

impl CreateBuilder<Sealed> {
    /// Completes the instantiation with the reply that the host gave for `self.params()`.
    /// Without a code hash it fails with `CodeHashMissing`, whatever the reply.
    pub fn fire(self, reply: Result<Vec<u8>, HostError>) -> (r: Result<AccountId, CreateError>)
        ensures
            self@.code_hash is None ==> r == Err::<AccountId, CreateError>(CreateError::CodeHashMissing),
            self@.code_hash is Some ==> account_view(r) == create_outcome(crate::call::reply_view(reply)),
    {
        if self.params.code_hash.is_none() {
            return Err(CreateError::CodeHashMissing);
        }
        match reply {
            Err(_) => Err(CreateError::Failed),
            Ok(b) => match scale_decode_bytes32(b.as_slice()) {
                Ok(a) => Ok(a),
                Err(_) => Err(CreateError::Failed),
            },
        }
    }

    /// Instantiates the contract through the host and hands back the new account.
    /// Without a code hash it fails with `CodeHashMissing` and leaves the host alone.
    pub fn fire_using<E: Env>(self, env: &mut E) -> (r: Result<AccountId, CreateError>)
        ensures
            self@.code_hash is None ==> r == Err::<AccountId, CreateError>(CreateError::CodeHashMissing)
                && *final(env) == *old(env),
            self@.code_hash is Some ==> exists|reply: Result<Seq<u8>, HostError>|
                account_view(r) == create_outcome(reply),
    {
        if self.params.code_hash.is_none() {
            return Err(CreateError::CodeHashMissing);
        }
        let reply = env.create_contract(&self.params);
        let r = self.fire(reply);
        assert(account_view(r) == create_outcome(crate::call::reply_view(reply)));
        r
    }
}

} // verus!
