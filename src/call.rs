//! Building and firing calls to other contracts.
use vstd::prelude::*;

use crate::codec::{
    decode_all, decode_value, decoding, encode_all, encoding, kind_of, kinds_of, lemma_encode_all_len, lemma_encode_all_push,
    lemma_values_round_trip, total_width, Value, ValueKind,
};
use crate::env::{AccountId, Balance, CallError, Env, HostError};
use crate::selector::{CallData, Selector};

verus! {

/// Marks a call whose callee hands back a value of the given kind.
#[derive(Clone, Copy, Debug, PartialEq, Eq, Structural)]
pub struct ReturnType {
    pub kind: ValueKind,
}

/// A builder that still takes arguments.
#[derive(Clone, Copy, Debug, PartialEq, Eq, Structural)]
pub struct Unsealed;

/// A builder that takes no more arguments.
#[derive(Clone, Copy, Debug, PartialEq, Eq, Structural)]
pub struct Sealed;

/// What the parameters of a call are, as values.
pub ghost struct CallParamsView<R> {
    pub callee: Seq<u8>,
    pub gas_limit: u64,
    pub value: Balance,
    pub return_type: R,
    pub selector: Seq<u8>,
    pub args: Seq<u8>,
}

/// The final parameters of a call to another contract.
pub struct CallParams<R> {
    /// The account of the contract to call.
    callee: AccountId,
    /// The most gas that the call may use; 0 leaves it to the host.
    gas_limit: u64,
    /// The value that the call transfers.
    value: Balance,
    /// What the call hands back.
    return_type: R,
    /// The selector and encoded arguments.
    call_data: CallData,
}

impl<R> View for CallParams<R> {
    type V = CallParamsView<R>;

    closed spec fn view(&self) -> CallParamsView<R> {
        CallParamsView {
            callee: self.callee@,
            gas_limit: self.gas_limit,
            value: self.value,
            return_type: self.return_type,
            selector: self.call_data.selector_view(),
            args: self.call_data.args_view(),
        }
    }
}

/// Builds up a call; `S` tells whether it still takes arguments.
pub struct CallBuilder<R, S> {
    params: CallParams<R>,
    seal: S,
}

impl<R, S> View for CallBuilder<R, S> {
    type V = CallParamsView<R>;

    closed spec fn view(&self) -> CallParamsView<R> {
        self.params@
    }
}

/// What a value-returning call gives its caller, given the host's reply:
/// the value decoded from the front of the returned bytes, else an error.
pub open spec fn eval_outcome(kind: ValueKind, reply: Result<Seq<u8>, HostError>) -> Result<Value, CallError> {
    match reply {
        Err(_) => Err(CallError),
        Ok(b) => match decoding(kind, b) {
            Some(v) => Ok(v),
            None => Err(CallError),
        },
    }
}

pub open spec fn reply_view(reply: Result<Vec<u8>, HostError>) -> Result<Seq<u8>, HostError> {
    match reply {
        Ok(b) => Ok(b@),
        Err(e) => Err(e),
    }
}

/// The wire bytes of a call whose arguments are the values `vs`, pushed in order (as
/// `push_args` or one `push_arg` after another leave them), are the selector followed by
/// bytes that decode back to exactly `vs`, in order, with no byte left over.
pub proof fn lemma_pushed_args_round_trip<R>(params: CallParamsView<R>, vs: Seq<Value>)
    requires
        params.selector.len() == 4,
        params.args == encode_all(vs),
    ensures
        (params.selector + params.args).subrange(0, 4) == params.selector,
        decode_all(kinds_of(vs), (params.selector + params.args).subrange(4, (params.selector + params.args).len() as int)) == Some(vs),
        (params.selector + params.args).len() == 4 + total_width(kinds_of(vs)),
{
    let bytes = params.selector + params.args;
    assert(bytes.subrange(0, 4) =~= params.selector);
    assert(bytes.subrange(4, bytes.len() as int) =~= encode_all(vs) + Seq::<u8>::empty());
    lemma_values_round_trip(vs, Seq::<u8>::empty());
    lemma_encode_all_len(vs);
}

impl<R> CallParams<R> {
    /// The account of the contract to call.
    pub fn callee(&self) -> (r: &AccountId)
        ensures
            r@ == self@.callee,
    {
        &self.callee
    }

    /// The most gas that the call may use.
    pub fn gas_limit(&self) -> (r: u64)
        ensures
            r == self@.gas_limit,
    {
        self.gas_limit
    }

    /// The value that the call transfers.
    pub fn endowment(&self) -> (r: &Balance)
        ensures
            *r == self@.value,
    {
        &self.value
    }

    /// The selector and encoded arguments.
    pub fn input_data(&self) -> (r: &CallData)
        ensures
            r.selector_view() == self@.selector,
            r.args_view() == self@.args,
    {
        &self.call_data
    }

    /// What the call hands back.
    pub fn return_type(&self) -> (r: &R)
        ensures
            *r == self@.return_type,
    {
        &self.return_type
    }

    /// Parameters with no gas limit, no value and no arguments.
    fn new(callee: AccountId, selector: Selector, return_type: R) -> (r: Self)
        ensures
            r@ == (CallParamsView {
                callee: callee@,
                gas_limit: 0,
                value: 0,
                return_type,
                selector: selector@,
                args: Seq::empty(),
            }),
    {
        CallParams { callee, gas_limit: 0, value: 0, return_type, call_data: CallData::new(selector) }
    }
}

impl CallParams<ReturnType> {
    /// A builder for a call whose callee hands back a value of kind `returns`.
    pub fn eval(callee: AccountId, selector: Selector, returns: ValueKind) -> (r: CallBuilder<
        ReturnType,
        Unsealed,
    >)
        ensures
            r@ == (CallParamsView {
                callee: callee@,
                gas_limit: 0,
                value: 0,
                return_type: ReturnType { kind: returns },
                selector: selector@,
                args: Seq::empty(),
            }),
    {
        CallBuilder { params: CallParams::new(callee, selector, ReturnType { kind: returns }), seal: Unsealed }
    }
}

impl CallParams<()> {
    /// A builder for a call whose callee hands back nothing.
    pub fn invoke(callee: AccountId, selector: Selector) -> (r: CallBuilder<(), Unsealed>)
        ensures
            r@ == (CallParamsView {
                callee: callee@,
                gas_limit: 0,
                value: 0,
                return_type: (),
                selector: selector@,
                args: Seq::empty(),
            }),
    {
        CallBuilder { params: CallParams::new(callee, selector, ()), seal: Unsealed }
    }
}

impl<R, S> CallBuilder<R, S> {
    /// Sets the most gas that the call may use.
    pub fn gas_limit(self, gas_limit: u64) -> (r: Self)
        ensures
            r@ == (CallParamsView { gas_limit, ..self@ }),
    {
        let mut b = self;
        b.params.gas_limit = gas_limit;
        b
    }

    /// Sets the value that the call transfers.
    pub fn value(self, value: Balance) -> (r: Self)
        ensures
            r@ == (CallParamsView { value, ..self@ }),
    {
        let mut b = self;
        b.params.value = value;
        b
    }

    /// The parameters built up so far.
    pub fn params(&self) -> (r: &CallParams<R>)
        ensures
            r@ == self@,
    {
        &self.params
    }
}

impl<R> CallBuilder<R, Unsealed> {
    /// Appends an argument to the call's inputs.
    pub fn push_arg(self, arg: &Value) -> (r: Self)
        ensures
            r@ == (CallParamsView { args: self@.args + encoding(*arg), ..self@ }),
    {
        let mut b = self;
        b.params.call_data.push_arg(arg);
        b
    }

    /// Appends the arguments `args` to the call's inputs, in order.
    pub fn push_args(self, args: &Vec<Value>) -> (r: Self)
        ensures
            r@ == (CallParamsView { args: self@.args + encode_all(args@), ..self@ }),
    {
        let mut b = self;
        let mut i: usize = 0;
        assert(self@.args + encode_all(args@.subrange(0, 0)) =~= self@.args);
        while i < args.len()
            invariant
                i <= args@.len(),
                b@ == (CallParamsView { args: self@.args + encode_all(args@.subrange(0, i as int)), ..self@ }),
            decreases args@.len() - i,
        {
            proof {
                lemma_encode_all_push(args@.subrange(0, i as int), args@[i as int]);
                assert(args@.subrange(0, i + 1) =~= args@.subrange(0, i as int).push(args@[i as int]));
                assert(self@.args + encode_all(args@.subrange(0, i + 1)) =~= (self@.args + encode_all(
                    args@.subrange(0, i as int),
                )) + encoding(args@[i as int]));
            }
            b = b.push_arg(&args[i]);
            i = i + 1;
        }
        assert(args@.subrange(0, i as int) =~= args@);
        b
    }

    /// Seals the builder: it takes no more arguments, and its parameters stay as they are.
    pub fn seal(self) -> (r: CallBuilder<R, Sealed>)
        ensures
            r@ == self@,
    {
        CallBuilder { params: self.params, seal: Sealed }
    }
}

impl CallBuilder<ReturnType, Sealed> {
    /// Fires the call with the reply that the host gave for `self.params()`, and hands
    /// back the value decoded from it.
    pub fn fire(self, reply: Result<Vec<u8>, HostError>) -> (r: Result<Value, CallError>)
        ensures
            r == eval_outcome(self@.return_type.kind, reply_view(reply)),
    {
        match reply {
            Err(_) => Err(CallError),
            Ok(bytes) => match decode_value(self.params.return_type.kind, bytes.as_slice()) {
                Some(v) => Ok(v),
                None => Err(CallError),
            },
        }
    }

    /// Fires the call through the host and hands back the value that the callee returned.
    pub fn fire_using<E: Env>(self, env: &mut E) -> (r: Result<Value, CallError>)
        ensures
            exists|reply: Result<Seq<u8>, HostError>| r == eval_outcome(self@.return_type.kind, reply),
            r is Ok ==> kind_of(r->Ok_0) == self@.return_type.kind,
    {
        let ghost kind = self@.return_type.kind;
        let reply = env.eval_contract(&self.params);
        let r = self.fire(reply);
        assert(r == eval_outcome(kind, reply_view(reply)));
        r
    }
}

impl CallBuilder<(), Sealed> {
    /// Fires the call with the reply that the host gave for `self.params()`.
    pub fn fire(self, reply: Result<(), HostError>) -> (r: Result<(), CallError>)
        ensures
            r is Ok <==> reply is Ok,
    {
        match reply {
            Ok(()) => Ok(()),
            Err(_) => Err(CallError),
        }
    }

    /// Fires the call through the host.
    pub fn fire_using<E: Env>(self, env: &mut E) -> (r: Result<(), CallError>) {
        let reply = env.invoke_contract(&self.params);
        self.fire(reply)
    }
}

} // verus!
