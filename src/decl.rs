//! The declarations of a contract's entry points and events, from which its dispatch
//! table and its ABI description are both derived.
use vstd::prelude::*;

use crate::codec::ValueKind;
use crate::selector::Selector;

verus! {

/// Whether an entry point instantiates the contract or is called on it.
#[derive(Clone, Copy, Debug, PartialEq, Eq, Structural)]
pub enum EntryKind {
    Constructor,
    Message,
}

/// A named, typed argument.
pub struct Param {
    pub name: String,
    pub kind: ValueKind,
}

/// One constructor or message of a contract.
pub struct FunctionDecl {
    pub name: String,
    pub kind: EntryKind,
    pub selector: Selector,
    pub inputs: Vec<Param>,
    /// The kind of value handed back, if any.
    pub output: Option<ValueKind>,
    /// Whether the entry point may change the contract's state.
    pub mutates: bool,
    pub docs: Vec<String>,
}

/// An argument of an event; indexed ones become topics.
pub struct EventParam {
    pub name: String,
    pub kind: ValueKind,
    pub indexed: bool,
}

/// An event that the contract may emit.
pub struct EventDecl {
    pub name: String,
    pub args: Vec<EventParam>,
    pub docs: Vec<String>,
}

/// Everything that a contract declares.
pub struct ContractDecl {
    pub name: String,
    pub functions: Vec<FunctionDecl>,
    pub events: Vec<EventDecl>,
}

pub ghost struct FunctionView {
    pub name: Seq<char>,
    pub kind: EntryKind,
    pub selector: Seq<u8>,
    pub inputs: Seq<(Seq<char>, ValueKind)>,
    pub output: Option<ValueKind>,
    pub mutates: bool,
    pub docs: Seq<Seq<char>>,
}

pub ghost struct EventView {
    pub name: Seq<char>,
    pub args: Seq<(Seq<char>, ValueKind, bool)>,
    pub docs: Seq<Seq<char>>,
}

pub open spec fn texts_view(v: Seq<String>) -> Seq<Seq<char>> {
    v.map_values(|s: String| s@)
}

impl View for Param {
    type V = (Seq<char>, ValueKind);

    open spec fn view(&self) -> (Seq<char>, ValueKind) {
        (self.name@, self.kind)
    }
}

impl View for EventParam {
    type V = (Seq<char>, ValueKind, bool);

    open spec fn view(&self) -> (Seq<char>, ValueKind, bool) {
        (self.name@, self.kind, self.indexed)
    }
}

impl View for FunctionDecl {
    type V = FunctionView;

    open spec fn view(&self) -> FunctionView {
        FunctionView {
            name: self.name@,
            kind: self.kind,
            selector: self.selector@,
            inputs: self.inputs@.map_values(|p: Param| p@),
            output: self.output,
            mutates: self.mutates,
            docs: texts_view(self.docs@),
        }
    }
}

impl View for EventDecl {
    type V = EventView;

    open spec fn view(&self) -> EventView {
        EventView {
            name: self.name@,
            args: self.args@.map_values(|p: EventParam| p@),
            docs: texts_view(self.docs@),
        }
    }
}

/// The argument kinds of an entry point, in order.
pub open spec fn input_kinds(f: FunctionView) -> Seq<ValueKind> {
    f.inputs.map_values(|p: (Seq<char>, ValueKind)| p.1)
}

/// A copy of a list of texts.
pub fn copy_texts(v: &Vec<String>) -> (r: Vec<String>)
    ensures
        texts_view(r@) == texts_view(v@),
{
    let mut out: Vec<String> = Vec::new();
    let mut i: usize = 0;
    while i < v.len()
        invariant
            i <= v@.len(),
            texts_view(out@) == texts_view(v@.subrange(0, i as int)),
        decreases v@.len() - i,
    {
        let ghost prev = out@;
        let s = v[i].clone();
        out.push(s);
        proof {
            assert(texts_view(v@.subrange(0, i + 1)) =~= texts_view(v@.subrange(0, i as int)).push(v@[i as int]@));
            assert(texts_view(out@) =~= texts_view(prev).push(s@));
        }
        i = i + 1;
    }
    assert(v@.subrange(0, i as int) =~= v@);
    out
}

/// A copy of a list of arguments.
pub fn copy_params(v: &Vec<Param>) -> (r: Vec<Param>)
    ensures
        r@.map_values(|p: Param| p@) == v@.map_values(|p: Param| p@),
{
    let mut out: Vec<Param> = Vec::new();
    let mut i: usize = 0;
    while i < v.len()
        invariant
            i <= v@.len(),
            out@.map_values(|p: Param| p@) == v@.subrange(0, i as int).map_values(|p: Param| p@),
        decreases v@.len() - i,
    {
        let ghost prev = out@;
        let p = Param { name: v[i].name.clone(), kind: v[i].kind };
        out.push(p);
        proof {
            assert(v@.subrange(0, i + 1).map_values(|p: Param| p@) =~= v@.subrange(0, i as int).map_values(
                |p: Param| p@,
            ).push(v@[i as int]@));
            assert(out@.map_values(|p: Param| p@) =~= prev.map_values(|p: Param| p@).push(p@));
        }
        i = i + 1;
    }
    assert(v@.subrange(0, i as int) =~= v@);
    out
}

/// A copy of a list of event arguments.
pub fn copy_event_params(v: &Vec<EventParam>) -> (r: Vec<EventParam>)
    ensures
        r@.map_values(|p: EventParam| p@) == v@.map_values(|p: EventParam| p@),
{
    let mut out: Vec<EventParam> = Vec::new();
    let mut i: usize = 0;
    while i < v.len()
        invariant
            i <= v@.len(),
            out@.map_values(|p: EventParam| p@) == v@.subrange(0, i as int).map_values(
                |p: EventParam| p@,
            ),
        decreases v@.len() - i,
    {
        let ghost prev = out@;
        let p = EventParam { name: v[i].name.clone(), kind: v[i].kind, indexed: v[i].indexed };
        out.push(p);
        proof {
            assert(v@.subrange(0, i + 1).map_values(|p: EventParam| p@) =~= v@.subrange(
                0,
                i as int,
            ).map_values(|p: EventParam| p@).push(v@[i as int]@));
            assert(out@.map_values(|p: EventParam| p@) =~= prev.map_values(|p: EventParam| p@).push(
                p@,
            ));
        }
        i = i + 1;
    }
    assert(v@.subrange(0, i as int) =~= v@);
    out
}

impl FunctionDecl {
    /// A copy of this declaration.
    pub fn copy(&self) -> (r: FunctionDecl)
        ensures
            r@ == self@,
    {
        FunctionDecl {
            name: self.name.clone(),
            kind: self.kind,
            selector: self.selector,
            inputs: copy_params(&self.inputs),
            output: self.output,
            mutates: self.mutates,
            docs: copy_texts(&self.docs),
        }
    }

    /// The argument kinds, in order.
    pub fn input_kinds(&self) -> (r: Vec<ValueKind>)
        ensures
            r@ == input_kinds(self@),
    {
        let mut out: Vec<ValueKind> = Vec::new();
        let mut i: usize = 0;
        while i < self.inputs.len()
            invariant
                i <= self.inputs@.len(),
                out@ == input_kinds(self@).subrange(0, i as int),
            decreases self.inputs@.len() - i,
        {
            out.push(self.inputs[i].kind);
            i = i + 1;
            assert(out@ =~= input_kinds(self@).subrange(0, i as int));
        }
        assert(out@ =~= input_kinds(self@));
        out
    }
}

impl EventDecl {
    /// A copy of this declaration.
    pub fn copy(&self) -> (r: EventDecl)
        ensures
            r@ == self@,
    {
        EventDecl { name: self.name.clone(), args: copy_event_params(&self.args), docs: copy_texts(&self.docs) }
    }
}

} // verus!
