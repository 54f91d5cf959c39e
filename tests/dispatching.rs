use ink_call::abi::{consistent, reflect};
use ink_call::codec::{encode_value, Value, ValueKind};
use ink_call::decl::{ContractDecl, EntryKind, EventDecl, EventParam, FunctionDecl, Param};
use ink_call::dispatch::{ret_code, BuildError, Dispatch, DispatchError, DispatchMode, Handlers};
use ink_call::selector::Selector;

/// A counter contract: constructor `new(init)`, message `increment(by)` that mutates,
/// message `get()` that does not.
struct Counter {
    value: u32,
    handled: u32,
    last_entry: Option<usize>,
}

impl Handlers for Counter {
    fn deploy(&mut self, entry: usize, args: &Vec<Value>) {
        self.handled += 1;
        self.last_entry = Some(entry);
        if let Some(Value::U32(init)) = args.first() {
            self.value = *init;
        }
    }

    fn call_mut(&mut self, entry: usize, args: &Vec<Value>) -> Option<Value> {
        self.handled += 1;
        self.last_entry = Some(entry);
        if let Some(Value::U32(by)) = args.first() {
            self.value += *by;
        }
        None
    }

    fn call(&self, _entry: usize, _args: &Vec<Value>) -> Option<Value> {
        Some(Value::U32(self.value))
    }
}

fn counter() -> Counter {
    Counter { value: 0, handled: 0, last_entry: None }
}

fn function(name: &str, kind: EntryKind, selector: [u8; 4], inputs: Vec<(&str, ValueKind)>, output: Option<ValueKind>, mutates: bool) -> FunctionDecl {
    FunctionDecl {
        name: name.to_string(),
        kind,
        selector: Selector::new(selector),
        inputs: inputs.into_iter().map(|(n, k)| Param { name: n.to_string(), kind: k }).collect(),
        output,
        mutates,
        docs: vec![format!("The `{}` entry point.", name)],
    }
}

fn counter_decl() -> ContractDecl {
    ContractDecl {
        name: "Counter".to_string(),
        functions: vec![
            function("new", EntryKind::Constructor, [0, 0, 0, 0], vec![("init", ValueKind::U32)], None, true),
            function("increment", EntryKind::Message, [0xAA, 0xBB, 0xCC, 0xDD], vec![("by", ValueKind::U32)], None, true),
            function("get", EntryKind::Message, [1, 2, 3, 4], vec![], Some(ValueKind::U32), false),
        ],
        events: vec![EventDecl {
            name: "Incremented".to_string(),
            args: vec![EventParam { name: "by".to_string(), kind: ValueKind::U32, indexed: true }],
            docs: vec![],
        }],
    }
}

fn input(selector: [u8; 4], args: &[Value]) -> Vec<u8> {
    let mut v = selector.to_vec();
    for a in args {
        v.extend(encode_value(a));
    }
    v
}

#[test]
fn increment_is_dispatched_once_with_success() {
    let table = Dispatch::new(&counter_decl()).unwrap();
    let mut c = counter();
    let status = table.call(&input([0xAA, 0xBB, 0xCC, 0xDD], &[Value::U32(5)]), &mut c);
    assert_eq!(status, 0);
    assert_eq!(c.handled, 1);
    assert_eq!(c.value, 5);
    assert_eq!(c.last_entry, Some(1));
}

#[test]
fn short_input_is_data_too_short_and_runs_nothing() {
    let table = Dispatch::new(&counter_decl()).unwrap();
    let mut c = counter();
    for n in 0..4 {
        let bytes = vec![0xAA, 0xBB, 0xCC][..n.min(3)].to_vec();
        assert_eq!(
            table.dispatch_using_mode(DispatchMode::Call, &bytes, &mut c),
            Err(DispatchError::DataTooShort)
        );
        assert_eq!(table.deploy(&bytes, &mut c), 1);
    }
    assert_eq!(c.handled, 0);
}

#[test]
fn unregistered_selector_is_unknown() {
    let table = Dispatch::new(&counter_decl()).unwrap();
    let mut c = counter();
    let bytes = input([9, 9, 9, 9], &[Value::U32(5)]);
    assert_eq!(
        table.dispatch_using_mode(DispatchMode::Call, &bytes, &mut c),
        Err(DispatchError::UnknownSelector)
    );
    assert_eq!(table.call(&bytes, &mut c), 2);
    assert_eq!(c.handled, 0);
}

#[test]
fn modes_only_reach_their_own_entry_points() {
    let table = Dispatch::new(&counter_decl()).unwrap();
    let mut c = counter();
    let deploy_bytes = input([0, 0, 0, 0], &[Value::U32(10)]);
    assert_eq!(
        table.dispatch_using_mode(DispatchMode::Call, &deploy_bytes, &mut c),
        Err(DispatchError::UnknownSelector)
    );
    let inc = input([0xAA, 0xBB, 0xCC, 0xDD], &[Value::U32(1)]);
    assert_eq!(
        table.dispatch_using_mode(DispatchMode::Instantiate, &inc, &mut c),
        Err(DispatchError::UnknownSelector)
    );
    assert_eq!(table.deploy(&deploy_bytes, &mut c), 0);
    assert_eq!(c.value, 10);
    assert_eq!(c.last_entry, Some(0));
}

#[test]
fn malformed_arguments_are_invalid_args() {
    let table = Dispatch::new(&counter_decl()).unwrap();
    let mut c = counter();
    let bytes = vec![0xAA, 0xBB, 0xCC, 0xDD, 5, 0, 0];
    assert_eq!(
        table.dispatch_using_mode(DispatchMode::Call, &bytes, &mut c),
        Err(DispatchError::InvalidArgs)
    );
    assert_eq!(table.call(&bytes, &mut c), 3);
    assert_eq!(c.handled, 0);
}

#[test]
fn returned_values_are_encoded() {
    let table = Dispatch::new(&counter_decl()).unwrap();
    let mut c = counter();
    c.value = 258;
    let r = table.dispatch_using_mode(DispatchMode::Call, &[1, 2, 3, 4], &mut c);
    assert_eq!(r, Ok(vec![2, 1, 0, 0]));
    let r = table.dispatch_using_mode(DispatchMode::Call, &input([0xAA, 0xBB, 0xCC, 0xDD], &[Value::U32(2)]), &mut c);
    assert_eq!(r, Ok(vec![]));
    assert_eq!(c.value, 260);
}

#[test]
fn route_finds_entry_and_arguments() {
    let table = Dispatch::new(&counter_decl()).unwrap();
    let rt = table.route(DispatchMode::Call, &input([0xAA, 0xBB, 0xCC, 0xDD], &[Value::U32(77)])).ok().unwrap();
    assert_eq!(rt.entry, 1);
    assert_eq!(rt.args, vec![Value::U32(77)]);
}

#[test]
fn colliding_selectors_are_rejected() {
    let mut decl = counter_decl();
    decl.functions.push(function("other", EntryKind::Message, [0xAA, 0xBB, 0xCC, 0xDD], vec![], None, false));
    assert!(matches!(Dispatch::new(&decl), Err(BuildError::SelectorCollision)));
    let mut decl = counter_decl();
    decl.functions.push(function("again", EntryKind::Message, [0, 0, 0, 0], vec![], None, false));
    assert!(matches!(Dispatch::new(&decl), Err(BuildError::SelectorCollision)));
}

#[test]
fn distinct_selectors_from_names_build() {
    let names = ["inc", "dec", "get", "set", "reset", "transfer", "approve", "balance_of"];
    let decl = ContractDecl {
        name: "Many".to_string(),
        functions: names
            .iter()
            .map(|n| {
                let mut f = function(n, EntryKind::Message, [0, 0, 0, 0], vec![], None, false);
                f.selector = Selector::from_name(n);
                f
            })
            .collect(),
        events: vec![],
    };
    assert!(Dispatch::new(&decl).is_ok());
    let mut dup = decl;
    let mut f = function("inc", EntryKind::Message, [0, 0, 0, 0], vec![], None, true);
    f.selector = Selector::from_name("inc");
    dup.functions.push(f);
    assert!(matches!(Dispatch::new(&dup), Err(BuildError::SelectorCollision)));
}

#[test]
fn empty_contract_builds_and_knows_no_selector() {
    let decl = ContractDecl { name: "Empty".to_string(), functions: vec![], events: vec![] };
    let table = Dispatch::new(&decl).unwrap();
    let mut c = counter();
    assert_eq!(table.call(&[1, 2, 3, 4], &mut c), 2);
}

#[test]
fn abi_lists_what_the_table_routes() {
    let decl = counter_decl();
    let abi = reflect(&decl);
    let table = Dispatch::new(&decl).unwrap();
    assert_eq!(abi.name, "Counter");
    assert_eq!(abi.constructors.len(), 1);
    assert_eq!(abi.constructors[0].name, "new");
    let names: Vec<&str> = abi.messages.iter().map(|m| m.name.as_str()).collect();
    assert_eq!(names, vec!["increment", "get"]);
    assert!(abi.messages[0].mutates);
    assert!(!abi.messages[1].mutates);
    assert_eq!(abi.messages[1].output, Some(ValueKind::U32));
    assert_eq!(abi.messages[0].inputs[0].name, "by");
    assert_eq!(abi.messages[0].docs, vec!["The `increment` entry point.".to_string()]);
    assert_eq!(abi.events.len(), 1);
    assert!(abi.events[0].args[0].indexed);
    let mut c = counter();
    for m in &abi.messages {
        let rt = table.route(DispatchMode::Call, &m.selector.to_bytes());
        assert!(!matches!(rt, Err(DispatchError::UnknownSelector)));
    }
    for f in &decl.functions {
        if f.kind == EntryKind::Message {
            assert!(abi.messages.iter().any(|m| m.selector == f.selector));
        }
    }
    assert_eq!(table.call(&[0, 0, 0, 0], &mut c), 2);
}

#[test]
fn status_codes() {
    assert_eq!(ret_code(&Ok(vec![])), 0);
    assert_eq!(ret_code(&Err(DispatchError::DataTooShort)), 1);
    assert_eq!(ret_code(&Err(DispatchError::UnknownSelector)), 2);
    assert_eq!(ret_code(&Err(DispatchError::InvalidArgs)), 3);
}

#[test]
fn abi_and_table_from_same_declarations_agree() {
    let decl = counter_decl();
    assert!(consistent(&reflect(&decl), &Dispatch::new(&decl).unwrap()));
}

#[test]
fn abi_and_table_from_different_declarations_disagree() {
    let decl = counter_decl();
    let mut more = counter_decl();
    more.functions.push(function("reset", EntryKind::Message, [5, 5, 5, 5], vec![], None, true));
    assert!(!consistent(&reflect(&decl), &Dispatch::new(&more).unwrap()));
    assert!(!consistent(&reflect(&more), &Dispatch::new(&decl).unwrap()));
    let mut renamed = counter_decl();
    renamed.functions[2].selector = Selector::new([4, 3, 2, 1]);
    assert!(!consistent(&reflect(&renamed), &Dispatch::new(&decl).unwrap()));
    // A constructor's selector is not a message selector.
    let mut ctor = counter_decl();
    ctor.functions.push(function("default", EntryKind::Constructor, [6, 6, 6, 6], vec![], None, true));
    assert!(consistent(&reflect(&ctor), &Dispatch::new(&decl).unwrap()));
}

#[test]
fn table_reports_message_selectors() {
    let table = Dispatch::new(&counter_decl()).unwrap();
    assert!(table.routes_message(&Selector::new([0xAA, 0xBB, 0xCC, 0xDD])));
    assert!(!table.routes_message(&Selector::new([0, 0, 0, 0])));
    assert_eq!(table.entry_list().len(), 3);
    assert_eq!(table.entry_list()[1].inputs, vec![ValueKind::U32]);
}

/// A contract whose only message is declared to return a `u32` but hands back a `bool`,
/// or nothing at all.
struct Faulty {
    give: Option<Value>,
}

impl Handlers for Faulty {
    fn deploy(&mut self, _entry: usize, _args: &Vec<Value>) {}

    fn call_mut(&mut self, _entry: usize, _args: &Vec<Value>) -> Option<Value> {
        self.give
    }

    fn call(&self, _entry: usize, _args: &Vec<Value>) -> Option<Value> {
        self.give
    }
}

#[test]
fn replies_of_the_wrong_kind_are_invalid_output() {
    let table = Dispatch::new(&counter_decl()).unwrap();
    let mut f = Faulty { give: Some(Value::Bool(true)) };
    assert_eq!(
        table.dispatch_using_mode(DispatchMode::Call, &[1, 2, 3, 4], &mut f),
        Err(DispatchError::InvalidOutput)
    );
    assert_eq!(table.call(&[1, 2, 3, 4], &mut f), 4);
    let mut f = Faulty { give: None };
    assert_eq!(table.call(&[1, 2, 3, 4], &mut f), 4);
    // `increment` is declared to return nothing.
    let mut f = Faulty { give: Some(Value::U32(1)) };
    let inc = input([0xAA, 0xBB, 0xCC, 0xDD], &[Value::U32(1)]);
    assert_eq!(table.call(&inc, &mut f), 4);
    let mut f = Faulty { give: None };
    assert_eq!(table.call(&inc, &mut f), 0);
    assert_eq!(ret_code(&Err(DispatchError::InvalidOutput)), 4);
}
