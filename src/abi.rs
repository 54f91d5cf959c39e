//! The ABI description of a contract: what off-chain tools read to call it.
use vstd::prelude::*;

use crate::decl::{texts_view, ContractDecl, EntryKind, EventDecl, EventView, FunctionDecl, FunctionView};
use crate::dispatch::{function_views, Dispatch};
use crate::selector::Selector;

verus! {

/// The constructors, messages and events of a contract, with their selectors,
/// arguments, return kinds and documentation.
pub struct ContractSpec {
    pub name: String,
    pub constructors: Vec<FunctionDecl>,
    pub messages: Vec<FunctionDecl>,
    pub events: Vec<EventDecl>,
    pub docs: Vec<String>,
}

/// The entry points of kind `kind` among `fns`, in order.
pub open spec fn declared(fns: Seq<FunctionView>, kind: EntryKind) -> Seq<FunctionView> {
    fns.filter(|f: FunctionView| f.kind == kind)
}

pub open spec fn functions_view(v: Seq<FunctionDecl>) -> Seq<FunctionView> {
    v.map_values(|f: FunctionDecl| f@)
}

pub open spec fn events_view(v: Seq<EventDecl>) -> Seq<EventView> {
    v.map_values(|e: EventDecl| e@)
}

impl ContractSpec {
    /// This description is the one of `decl`.
    pub open spec fn describes(&self, decl: ContractDecl) -> bool {
        &&& self.name@ == decl.name@
        &&& functions_view(self.constructors@) == declared(function_views(decl), EntryKind::Constructor)
        &&& functions_view(self.messages@) == declared(function_views(decl), EntryKind::Message)
        &&& events_view(self.events@) == events_view(decl.events@)
        &&& texts_view(self.docs@) == Seq::<Seq<char>>::empty()
    }

    /// The selectors of the messages that the description lists.
    pub open spec fn message_selectors(&self) -> Set<Seq<u8>> {
        Set::new(|s: Seq<u8>| exists|j: int| 0 <= j < self.messages@.len() && self.messages@[j]@.selector == s)
    }
}

/// The entry points of kind `kind` among `fns`, copied in order.
fn select_functions(fns: &Vec<FunctionDecl>, kind: EntryKind) -> (r: Vec<FunctionDecl>)
    ensures
        functions_view(r@) == declared(functions_view(fns@), kind),
{
    let ghost views = functions_view(fns@);
    let mut out: Vec<FunctionDecl> = Vec::new();
    let mut i: usize = 0;
    while i < fns.len()
        invariant
            i <= fns@.len(),
            views == functions_view(fns@),
            functions_view(out@) == declared(views.subrange(0, i as int), kind),
        decreases fns@.len() - i,
    {
        let ghost prev = out@;
        let ghost upto = views.subrange(0, i + 1);
        assert(upto.drop_last() =~= views.subrange(0, i as int));
        assert(upto.last() == fns@[i as int]@);
        reveal(Seq::filter);
        assert(declared(upto, kind) == if upto.last().kind == kind {
            declared(upto.drop_last(), kind).push(upto.last())
        } else {
            declared(upto.drop_last(), kind)
        });
        if fns[i].kind == kind {
            let f = fns[i].copy();
            out.push(f);
            assert(functions_view(out@) =~= functions_view(prev).push(f@));
        }
        i = i + 1;
    }
    assert(views.subrange(0, i as int) =~= views);
    out
}

/// A copy of a list of events.
fn copy_events(v: &Vec<EventDecl>) -> (r: Vec<EventDecl>)
    ensures
        events_view(r@) == events_view(v@),
{
    let mut out: Vec<EventDecl> = Vec::new();
    let mut i: usize = 0;
    while i < v.len()
        invariant
            i <= v@.len(),
            events_view(out@) == events_view(v@.subrange(0, i as int)),
        decreases v@.len() - i,
    {
        let ghost prev = out@;
        let e = v[i].copy();
        out.push(e);
        proof {
            assert(events_view(v@.subrange(0, i + 1)) =~= events_view(v@.subrange(0, i as int)).push(v@[i as int]@));
            assert(events_view(out@) =~= events_view(prev).push(e@));
        }
        i = i + 1;
    }
    assert(v@.subrange(0, i as int) =~= v@);
    out
}

/// The ABI description of a contract, derived from the same declarations as its
/// dispatch table.
pub fn reflect(decl: &ContractDecl) -> (r: ContractSpec)
    ensures
        r.describes(*decl),
{
    let docs: Vec<String> = Vec::new();
    assert(texts_view(docs@) =~= Seq::<Seq<char>>::empty());
    ContractSpec {
        name: decl.name.clone(),
        constructors: select_functions(&decl.functions, EntryKind::Constructor),
        messages: select_functions(&decl.functions, EntryKind::Message),
        events: copy_events(&decl.events),
        docs,
    }
}

/// Whether the description lists a message with the selector `sel`.
fn lists_message(abi: &ContractSpec, sel: &Selector) -> (r: bool)
    ensures
        r == abi.message_selectors().contains(sel@),
{
    let mut j: usize = 0;
    while j < abi.messages.len()
        invariant
            j <= abi.messages@.len(),
            forall|a: int| 0 <= a < j ==> abi.messages@[a]@.selector != sel@,
        decreases abi.messages@.len() - j,
    {
        if abi.messages[j].selector.same_as(sel) {
            assert(abi.messages@[j as int]@.selector == sel@);
            return true;
        }
        j = j + 1;
    }
    false
}

/// Whether a description and a dispatch table that were built apart agree on the
/// messages: the description lists a message with a selector exactly when the table
/// routes calls with it.
pub fn consistent(abi: &ContractSpec, table: &Dispatch) -> (r: bool)
    ensures
        r == (abi.message_selectors() == table.message_selectors()),
{
    let mut j: usize = 0;
    while j < abi.messages.len()
        invariant
            j <= abi.messages@.len(),
            forall|a: int| 0 <= a < j ==> table.message_selectors().contains(#[trigger] abi.messages@[a]@.selector),
        decreases abi.messages@.len() - j,
    {
        if !table.routes_message(&abi.messages[j].selector) {
            assert(abi.message_selectors().contains(abi.messages@[j as int]@.selector));
            return false;
        }
        j = j + 1;
    }
    let entries = table.entry_list();
    let mut k: usize = 0;
    while k < entries.len()
        invariant
            k <= entries@.len(),
            entries@ == table.entries(),
            forall|a: int|
                0 <= a < k && (#[trigger] entries@[a]).kind == EntryKind::Message ==> abi.message_selectors().contains(
                    entries@[a].selector@,
                ),
        decreases entries@.len() - k,
    {
        if entries[k].kind == EntryKind::Message && !lists_message(abi, &entries[k].selector) {
            assert(table.message_selectors().contains(entries@[k as int].selector@));
            return false;
        }
        k = k + 1;
    }
    proof {
        assert forall|s: Seq<u8>| abi.message_selectors().contains(s) implies table.message_selectors().contains(s) by {
            let a = choose|a: int| 0 <= a < abi.messages@.len() && abi.messages@[a]@.selector == s;
            assert(table.message_selectors().contains(abi.messages@[a]@.selector));
        }
        assert forall|s: Seq<u8>| table.message_selectors().contains(s) implies abi.message_selectors().contains(s) by {
            let a = choose|a: int|
                0 <= a < table.entries().len() && table.entries()[a].kind == EntryKind::Message
                    && table.entries()[a].selector@ == s;
            assert(entries@[a].kind == EntryKind::Message);
        }
        assert(abi.message_selectors() =~= table.message_selectors());
    }
    true
}

/// The ABI description of a contract lists a message with a selector exactly when its
/// dispatch table routes calls with that selector, for any declarations from which both
/// were derived.
pub proof fn lemma_abi_matches_dispatch(decl: ContractDecl, table: Dispatch, abi: ContractSpec)
    requires
        table.built_from(function_views(decl)),
        abi.describes(decl),
    ensures
        abi.message_selectors() == table.message_selectors(),
{
    let views = function_views(decl);
    let pred = |f: FunctionView| f.kind == EntryKind::Message;
    let msgs = declared(views, EntryKind::Message);
    assert(msgs == views.filter(pred));
    assert forall|s: Seq<u8>| abi.message_selectors().contains(s) implies table.message_selectors().contains(s) by {
        let j = choose|j: int| 0 <= j < abi.messages@.len() && abi.messages@[j]@.selector == s;
        assert(functions_view(abi.messages@)[j] == msgs[j]);
        assert(msgs.contains(msgs[j]));
        views.lemma_filter_contains_rev(pred, msgs[j]);
        assert(views.contains(msgs[j]));
        let i = choose|i: int| 0 <= i < views.len() && views[i] == msgs[j];
        assert(pred(msgs[j]));
        assert(table.entries()[i].kind == EntryKind::Message && table.entries()[i].selector@ == s);
    }
    assert forall|s: Seq<u8>| table.message_selectors().contains(s) implies abi.message_selectors().contains(s) by {
        let i = choose|i: int|
            0 <= i < table.entries().len() && table.entries()[i].kind == EntryKind::Message
                && table.entries()[i].selector@ == s;
        assert(pred(views[i]));
        views.lemma_filter_contains(pred, i);
        assert(msgs.contains(views[i]));
        let j = choose|j: int| 0 <= j < msgs.len() && msgs[j] == views[i];
        assert(functions_view(abi.messages@)[j] == msgs[j]);
        assert(abi.messages@[j]@.selector == s);
    }
    assert(abi.message_selectors() =~= table.message_selectors());
}

} // verus!
