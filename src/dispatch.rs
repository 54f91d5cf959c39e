//! Routing of inbound call data to the entry point that its selector addresses.
use vstd::prelude::*;

use crate::codec::{
    decode_all, decode_values, encode_all, encode_value, encoding, kind, kind_of, kinds_of, lemma_values_round_trip, Value,
    ValueKind,
};
use crate::decl::{input_kinds, ContractDecl, EntryKind, FunctionDecl, FunctionView};
use crate::selector::Selector;

verus! {

/// Whether the contract is being instantiated or called.
#[derive(Clone, Copy, Debug, PartialEq, Eq, Structural)]
pub enum DispatchMode {
    Instantiate,
    Call,
}

/// Why inbound call data did not reach a handler.
#[derive(Clone, Copy, Debug, PartialEq, Eq, Structural)]
pub enum DispatchError {
    /// Fewer than four bytes came in: there is no selector.
    DataTooShort,
    /// No entry point of the mode has the selector.
    UnknownSelector,
    /// The bytes after the selector are not the entry point's arguments.
    InvalidArgs,
    /// The handler returned something other than the entry point's declared output.
    InvalidOutput,
}

/// Why a contract's declarations cannot be dispatched.
#[derive(Clone, Copy, Debug, PartialEq, Eq, Structural)]
pub enum BuildError {
    /// Two entry points have the same selector.
    SelectorCollision,
}

/// The handlers of a contract's entry points, which the contract's author writes along
/// with spec functions that say what each handler returns and does to the contract.
/// What dispatch is proved to do holds of an implementation whose handlers meet these
/// spec functions. The defaults describe handlers that return nothing and leave the
/// contract as it was; an implementation whose handlers do more overrides them.
///
/// `entry` is the position of the entry point among the contract's declared functions.
pub trait Handlers: Sized {
    /// The contract after constructor `entry` ran on `args`.
    closed spec fn after_deploy(&self, entry: int, args: Seq<Value>) -> Self {
        *self
    }

    /// What the mutating message `entry` returns on `args`.
    closed spec fn call_mut_reply(&self, entry: int, args: Seq<Value>) -> Option<Value> {
        None
    }

    /// The contract after the mutating message `entry` ran on `args`.
    closed spec fn after_call_mut(&self, entry: int, args: Seq<Value>) -> Self {
        *self
    }

    /// What the message `entry`, which leaves the contract alone, returns on `args`.
    closed spec fn call_reply(&self, entry: int, args: Seq<Value>) -> Option<Value> {
        None
    }

    /// Runs a constructor.
    fn deploy(&mut self, entry: usize, args: &Vec<Value>)
        ensures
            *final(self) == old(self).after_deploy(entry as int, args@),
    ;

    /// Runs a message that may change the contract's state.
    fn call_mut(&mut self, entry: usize, args: &Vec<Value>) -> (r: Option<Value>)
        ensures
            r == old(self).call_mut_reply(entry as int, args@),
            *final(self) == old(self).after_call_mut(entry as int, args@),
    ;

    /// Runs a message that leaves the contract's state alone.
    fn call(&self, entry: usize, args: &Vec<Value>) -> (r: Option<Value>)
        ensures
            r == self.call_reply(entry as int, args@),
    ;
}

/// The bytes handed back for a message declared to return `out`, given what its
/// handler returned: the encoding of a value of the declared kind, nothing for a
/// message that returns nothing, else an error.
pub open spec fn output_outcome(out: Option<ValueKind>, reply: Option<Value>) -> Result<Seq<u8>, DispatchError> {
    match out {
        None => if reply is None {
            Ok(Seq::empty())
        } else {
            Err(DispatchError::InvalidOutput)
        },
        Some(k) => match reply {
            Some(v) => if kind_of(v) == k {
                Ok(encoding(v))
            } else {
                Err(DispatchError::InvalidOutput)
            },
            None => Err(DispatchError::InvalidOutput),
        },
    }
}

pub open spec fn bytes_result(r: Result<Vec<u8>, DispatchError>) -> Result<Seq<u8>, DispatchError> {
    match r {
        Ok(b) => Ok(b@),
        Err(e) => Err(e),
    }
}

/// Checks what a handler returned against the declared kind and encodes it.
pub fn reply_bytes(out: Option<ValueKind>, reply: Option<Value>) -> (r: Result<Vec<u8>, DispatchError>)
    ensures
        bytes_result(r) == output_outcome(out, reply),
{
    match out {
        None => match reply {
            None => {
                let b: Vec<u8> = Vec::new();
                assert(b@ =~= Seq::<u8>::empty());
                Ok(b)
            },
            Some(_) => Err(DispatchError::InvalidOutput),
        },
        Some(k) => match reply {
            Some(v) => if kind(&v) == k {
                Ok(encode_value(&v))
            } else {
                Err(DispatchError::InvalidOutput)
            },
            None => Err(DispatchError::InvalidOutput),
        },
    }
}

/// How one entry point is reached.
pub struct Entry {
    pub selector: Selector,
    pub kind: EntryKind,
    /// The kinds of its arguments, in order.
    pub inputs: Vec<ValueKind>,
    pub output: Option<ValueKind>,
    pub mutates: bool,
}

/// The entry point that inbound call data addresses, and its decoded arguments.
pub struct Route {
    pub entry: usize,
    pub args: Vec<Value>,
}

/// The routing table of a contract: one entry per declared constructor or message, in
/// the order of declaration, no two with the same selector.
pub struct Dispatch {
    entries: Vec<Entry>,
}

pub open spec fn function_views(decl: ContractDecl) -> Seq<FunctionView> {
    decl.functions@.map_values(|f: FunctionDecl| f@)
}

/// No two entry points have the same selector.
pub open spec fn selectors_distinct(fns: Seq<FunctionView>) -> bool {
    forall|i: int, j: int| 0 <= i < j < fns.len() ==> fns[i].selector != fns[j].selector
}

/// `e` reaches the entry point `f`.
pub open spec fn entry_of(e: Entry, f: FunctionView) -> bool {
    &&& e.selector@ == f.selector
    &&& e.kind == f.kind
    &&& e.inputs@ == input_kinds(f)
    &&& e.output == f.output
    &&& e.mutates == f.mutates
}

pub open spec fn mode_kind(mode: DispatchMode) -> EntryKind {
    match mode {
        DispatchMode::Instantiate => EntryKind::Constructor,
        DispatchMode::Call => EntryKind::Message,
    }
}

/// `e` is reached in `mode` by call data that starts with `prefix`.
pub open spec fn addressed(e: Entry, mode: DispatchMode, prefix: Seq<u8>) -> bool {
    e.kind == mode_kind(mode) && e.selector@ == prefix
}

impl Dispatch {
    pub closed spec fn entries(&self) -> Seq<Entry> {
        self.entries@
    }

    /// No two entries of the table have the same selector. Every table keeps this: verified
    /// code learns it of any table through `use_type_invariant`.
    #[verifier::type_invariant]
    pub open spec fn selectors_unique(&self) -> bool {
        forall|i: int, j: int|
            0 <= i < self.entries().len() && 0 <= j < self.entries().len() && i != j
                ==> self.entries()[i].selector@ != self.entries()[j].selector@
    }

    /// The table has an entry for each of `fns`, in order.
    pub open spec fn built_from(&self, fns: Seq<FunctionView>) -> bool {
        &&& self.entries().len() == fns.len()
        &&& forall|i: int| 0 <= i < fns.len() ==> entry_of(#[trigger] self.entries()[i], fns[i])
    }

    /// The selectors that the table routes calls with.
    pub open spec fn message_selectors(&self) -> Set<Seq<u8>> {
        Set::new(
            |s: Seq<u8>|
                exists|i: int|
                    0 <= i < self.entries().len() && self.entries()[i].kind == EntryKind::Message
                        && self.entries()[i].selector@ == s,
        )
    }

    /// The position of the entry that call data starting with `prefix` reaches in `mode`.
    pub open spec fn lookup(&self, mode: DispatchMode, prefix: Seq<u8>) -> Option<int> {
        if exists|i: int| 0 <= i < self.entries().len() && addressed(self.entries()[i], mode, prefix) {
            Some(choose|i: int| 0 <= i < self.entries().len() && addressed(self.entries()[i], mode, prefix))
        } else {
            None
        }
    }

    /// Where inbound call data `input` goes in `mode`, with the decoded arguments.
    pub open spec fn route_spec(&self, mode: DispatchMode, input: Seq<u8>) -> Result<(int, Seq<Value>), DispatchError> {
        if input.len() < 4 {
            Err(DispatchError::DataTooShort)
        } else {
            match self.lookup(mode, input.subrange(0, 4)) {
                None => Err(DispatchError::UnknownSelector),
                Some(i) => match decode_all(self.entries()[i].inputs@, input.subrange(4, input.len() as int)) {
                    None => Err(DispatchError::InvalidArgs),
                    Some(vs) => Ok((i, vs)),
                },
            }
        }
    }

    /// The table of a contract's constructors and messages; it fails exactly when two of
    /// them have the same selector.
    pub fn new(decl: &ContractDecl) -> (r: Result<Dispatch, BuildError>)
        ensures
            r is Err <==> !selectors_distinct(function_views(*decl)),
            r is Err ==> r == Err::<Dispatch, BuildError>(BuildError::SelectorCollision),
            r is Ok ==> r->Ok_0.built_from(function_views(*decl)),
            r is Ok ==> r->Ok_0.selectors_unique(),
    {
        let fns = &decl.functions;
        let ghost views = function_views(*decl);
        let mut entries: Vec<Entry> = Vec::new();
        let mut i: usize = 0;
        while i < fns.len()
            invariant
                i <= fns@.len(),
                views == function_views(*decl),
                fns@ == decl.functions@,
                entries@.len() == i,
                forall|a: int, b: int| 0 <= a < b < i ==> views[a].selector != views[b].selector,
                forall|a: int| 0 <= a < i ==> entry_of(#[trigger] entries@[a], views[a]),
            decreases fns@.len() - i,
        {
            let mut j: usize = 0;
            while j < i
                invariant
                    j <= i < fns@.len(),
                    views == function_views(*decl),
                    fns@ == decl.functions@,
                    forall|a: int| 0 <= a < j ==> views[a].selector != views[i as int].selector,
                decreases i - j,
            {
                if fns[j].selector.same_as(&fns[i].selector) {
                    assert(views[j as int].selector == views[i as int].selector);
                    return Err(BuildError::SelectorCollision);
                }
                j = j + 1;
            }
            let f = &fns[i];
            let e = Entry {
                selector: f.selector,
                kind: f.kind,
                inputs: f.input_kinds(),
                output: f.output,
                mutates: f.mutates,
            };
            entries.push(e);
            i = i + 1;
        }
        let d = Dispatch { entries };
        Ok(d)
    }

    /// The entries of the table, in the order of declaration.
    pub fn entry_list(&self) -> (r: &Vec<Entry>)
        ensures
            r@ == self.entries(),
    {
        &self.entries
    }

    /// Whether the table routes calls with the selector `sel` to a message.
    pub fn routes_message(&self, sel: &Selector) -> (r: bool)
        ensures
            r == self.message_selectors().contains(sel@),
    {
        let mut k: usize = 0;
        while k < self.entries.len()
            invariant
                k <= self.entries@.len(),
                forall|a: int|
                    0 <= a < k ==> !(self.entries@[a].kind == EntryKind::Message && self.entries@[a].selector@ == sel@),
            decreases self.entries@.len() - k,
        {
            if self.entries[k].kind == EntryKind::Message && self.entries[k].selector.same_as(sel) {
                assert(self.entries()[k as int].kind == EntryKind::Message && self.entries()[k as int].selector@ == sel@);
                return true;
            }
            k = k + 1;
        }
        false
    }

    /// Finds the entry point that `input` addresses in `mode` and decodes its arguments.
    pub fn route(&self, mode: DispatchMode, input: &[u8]) -> (r: Result<Route, DispatchError>)
        ensures
            match r {
                Ok(rt) => self.route_spec(mode, input@) == Ok::<(int, Seq<Value>), DispatchError>(
                    (rt.entry as int, rt.args@),
                ),
                Err(e) => self.route_spec(mode, input@) == Err::<(int, Seq<Value>), DispatchError>(e),
            },
    {
        proof {
            use_type_invariant(self);
        }
        if input.len() < 4 {
            return Err(DispatchError::DataTooShort);
        }
        let sel = Selector::new([input[0], input[1], input[2], input[3]]);
        let ghost prefix = input@.subrange(0, 4);
        assert(sel@ =~= prefix);
        let want = match mode {
            DispatchMode::Instantiate => EntryKind::Constructor,
            DispatchMode::Call => EntryKind::Message,
        };
        let mut k: usize = 0;
        while k < self.entries.len()
            invariant
                k <= self.entries@.len(),
                want == mode_kind(mode),
                sel@ == prefix,
                forall|a: int| 0 <= a < k ==> !addressed(self.entries@[a], mode, prefix),
            ensures
                k <= self.entries@.len(),
                forall|a: int| 0 <= a < k ==> !addressed(self.entries@[a], mode, prefix),
                k < self.entries@.len() ==> addressed(self.entries@[k as int], mode, prefix),
            decreases self.entries@.len() - k,
        {
            let e = &self.entries[k];
            if e.kind == want && e.selector.same_as(&sel) {
                break;
            }
            k = k + 1;
        }
        if k == self.entries.len() {
            assert(self.lookup(mode, prefix) is None);
            return Err(DispatchError::UnknownSelector);
        }
        proof {
            assert(0 <= k < self.entries().len() && addressed(self.entries()[k as int], mode, prefix));
            let c = choose|i: int| 0 <= i < self.entries().len() && addressed(self.entries()[i], mode, prefix);
            if c != k {
                assert(self.entries@[c].selector@ == self.entries@[k as int].selector@);
            }
            assert(self.lookup(mode, prefix) == Some(k as int));
        }
        let args = vstd::slice::slice_subrange(input, 4, input.len());
        match decode_values(&self.entries[k].inputs, args) {
            None => Err(DispatchError::InvalidArgs),
            Some(vs) => Ok(Route { entry: k, args: vs }),
        }
    }

    /// What dispatching `input` in `mode` on `contract` hands back, and the contract after.
    pub open spec fn dispatch_spec<C: Handlers>(&self, mode: DispatchMode, input: Seq<u8>, contract: C) -> (
        Result<Seq<u8>, DispatchError>,
        C,
    ) {
        match self.route_spec(mode, input) {
            Err(e) => (Err(e), contract),
            Ok((i, vs)) => {
                let e = self.entries()[i];
                if e.kind == EntryKind::Constructor {
                    (Ok(Seq::empty()), contract.after_deploy(i, vs))
                } else if e.mutates {
                    (output_outcome(e.output, contract.call_mut_reply(i, vs)), contract.after_call_mut(i, vs))
                } else {
                    (output_outcome(e.output, contract.call_reply(i, vs)), contract)
                }
            },
        }
    }

    /// Routes `input` in `mode` to its handler on `contract`, runs it, and hands back the
    /// encoding of what it returned. When routing fails no handler runs; a message that is
    /// not marked as mutating runs on a shared reference and leaves the contract alone.
    pub fn dispatch_using_mode<C: Handlers>(
        &self,
        mode: DispatchMode,
        input: &[u8],
        contract: &mut C,
    ) -> (r: Result<Vec<u8>, DispatchError>)
        ensures
            bytes_result(r) == self.dispatch_spec(mode, input@, *old(contract)).0,
            *final(contract) == self.dispatch_spec(mode, input@, *old(contract)).1,
    {
        match self.route(mode, input) {
            Err(e) => Err(e),
            Ok(rt) => {
                let e = &self.entries[rt.entry];
                if e.kind == EntryKind::Constructor {
                    contract.deploy(rt.entry, &rt.args);
                    let b: Vec<u8> = Vec::new();
                    assert(b@ =~= Seq::<u8>::empty());
                    Ok(b)
                } else if e.mutates {
                    let out = contract.call_mut(rt.entry, &rt.args);
                    reply_bytes(e.output, out)
                } else {
                    let out = contract.call(rt.entry, &rt.args);
                    reply_bytes(e.output, out)
                }
            },
        }
    }

    /// The instantiation entry point: routes `input` to a constructor and hands the host
    /// the status code of the outcome.
    pub fn deploy<C: Handlers>(&self, input: &[u8], contract: &mut C) -> (r: u32)
        ensures
            r == status_code(self.dispatch_spec(DispatchMode::Instantiate, input@, *old(contract)).0),
            *final(contract) == self.dispatch_spec(DispatchMode::Instantiate, input@, *old(contract)).1,
    {
        let out = self.dispatch_using_mode(DispatchMode::Instantiate, input, contract);
        ret_code(&out)
    }

    /// The call entry point: routes `input` to a message and hands the host the status
    /// code of the outcome.
    pub fn call<C: Handlers>(&self, input: &[u8], contract: &mut C) -> (r: u32)
        ensures
            r == status_code(self.dispatch_spec(DispatchMode::Call, input@, *old(contract)).0),
            *final(contract) == self.dispatch_spec(DispatchMode::Call, input@, *old(contract)).1,
    {
        let out = self.dispatch_using_mode(DispatchMode::Call, input, contract);
        ret_code(&out)
    }
}

/// Call data made of a selector and encoded arguments routes to the entry point that the
/// selector addresses, with exactly those arguments: the bytes after the selector decode
/// back to the values that were encoded, in order.
pub proof fn lemma_call_data_round_trip(table: Dispatch, mode: DispatchMode, selector: Seq<u8>, args: Seq<Value>)
    requires
        selector.len() == 4,
        table.lookup(mode, selector) is Some,
        table.entries()[table.lookup(mode, selector)->Some_0].inputs@ == kinds_of(args),
    ensures
        table.route_spec(mode, selector + encode_all(args)) == Ok::<(int, Seq<Value>), DispatchError>(
            (table.lookup(mode, selector)->Some_0, args),
        ),
{
    let bytes = selector + encode_all(args);
    assert(bytes.subrange(0, 4) =~= selector);
    assert(bytes.subrange(4, bytes.len() as int) =~= encode_all(args) + Seq::<u8>::empty());
    lemma_values_round_trip(args, Seq::<u8>::empty());
}

/// The status code that the host receives for an outcome: 0 for success.
pub open spec fn status_code<T>(r: Result<T, DispatchError>) -> u32 {
    match r {
        Ok(_) => 0,
        Err(DispatchError::DataTooShort) => 1,
        Err(DispatchError::UnknownSelector) => 2,
        Err(DispatchError::InvalidArgs) => 3,
        Err(DispatchError::InvalidOutput) => 4,
    }
}

/// The status code of a dispatch outcome.
pub fn ret_code(r: &Result<Vec<u8>, DispatchError>) -> (c: u32)
    ensures
        c == status_code(bytes_result(*r)),
{
    match r {
        Ok(_) => 0,
        Err(DispatchError::DataTooShort) => 1,
        Err(DispatchError::UnknownSelector) => 2,
        Err(DispatchError::InvalidArgs) => 3,
        Err(DispatchError::InvalidOutput) => 4,
    }
}

} // verus!
