use ink_call::call::{CallParams, ReturnType};
use ink_call::codec::{decode_value, decode_values, encode_value, Value, ValueKind};
use ink_call::create::{CreateParams, CreateParams as Create};
use ink_call::env::{CallError, CreateError, Env, HostError};
use ink_call::selector::{CallData, Selector};

/// A host that records what it was asked and answers with fixed replies.
struct StubHost {
    eval_reply: Result<Vec<u8>, HostError>,
    create_reply: Result<Vec<u8>, HostError>,
    contacted: u32,
    last_callee: Option<[u8; 32]>,
    last_input: Vec<u8>,
}

impl StubHost {
    fn new(eval_reply: Result<Vec<u8>, HostError>) -> StubHost {
        StubHost {
            eval_reply,
            create_reply: Err(HostError::CalleeTrapped),
            contacted: 0,
            last_callee: None,
            last_input: Vec::new(),
        }
    }
}

impl Env for StubHost {
    fn eval_contract(&mut self, params: &CallParams<ReturnType>) -> Result<Vec<u8>, HostError> {
        self.contacted += 1;
        self.last_callee = Some(*params.callee());
        self.last_input = params.input_data().to_bytes();
        self.eval_reply.clone()
    }

    fn invoke_contract(&mut self, params: &CallParams<()>) -> Result<(), HostError> {
        self.contacted += 1;
        self.last_callee = Some(*params.callee());
        self.last_input = params.input_data().to_bytes();
        self.eval_reply.clone().map(|_| ())
    }

    fn create_contract(&mut self, params: &CreateParams) -> Result<Vec<u8>, HostError> {
        self.contacted += 1;
        self.last_input = params.input_data().to_bytes();
        self.create_reply.clone()
    }
}

const CALLEE: [u8; 32] = [7u8; 32];

fn sel() -> Selector {
    Selector::new([0x01, 0x02, 0x03, 0x04])
}

#[test]
fn sealed_call_with_two_args_decodes_i32_reply() {
    let mut host = StubHost::new(Ok(encode_value(&Value::I32(42))));
    let builder = CallParams::eval(CALLEE, sel(), ValueKind::I32)
        .push_arg(&Value::U32(5))
        .push_arg(&Value::Bool(true))
        .seal();
    let r = builder.fire_using(&mut host);
    assert_eq!(r, Ok(Value::I32(42)));
    assert_eq!(host.contacted, 1);
    assert_eq!(host.last_callee, Some(CALLEE));
    assert_eq!(host.last_input, vec![1, 2, 3, 4, 5, 0, 0, 0, 1]);
}

#[test]
fn fire_with_reply_decodes_front_of_bytes() {
    let b = CallParams::eval(CALLEE, sel(), ValueKind::U32).seal();
    assert_eq!(b.fire(Ok(vec![0x2a, 0, 0, 0, 9])), Ok(Value::U32(42)));
}

#[test]
fn fire_collapses_host_errors() {
    let b = CallParams::eval(CALLEE, sel(), ValueKind::I32).seal();
    assert_eq!(b.fire(Err(HostError::CalleeReverted)), Err(CallError));
    let mut host = StubHost::new(Err(HostError::InsufficientBalance));
    let b = CallParams::eval(CALLEE, sel(), ValueKind::I32).seal();
    assert_eq!(b.fire_using(&mut host), Err(CallError));
}

#[test]
fn fire_fails_when_reply_does_not_decode() {
    let b = CallParams::eval(CALLEE, sel(), ValueKind::I32).seal();
    assert_eq!(b.fire(Ok(vec![1, 2, 3])), Err(CallError));
    let b = CallParams::eval(CALLEE, sel(), ValueKind::Bool).seal();
    assert_eq!(b.fire(Ok(vec![2])), Err(CallError));
}

#[test]
fn invoke_builder_reports_only_success() {
    let mut host = StubHost::new(Ok(vec![]));
    let b = CallParams::invoke(CALLEE, sel()).push_arg(&Value::U64(1)).seal();
    assert_eq!(b.fire_using(&mut host), Ok(()));
    assert_eq!(host.last_input, vec![1, 2, 3, 4, 1, 0, 0, 0, 0, 0, 0, 0]);
    let b = CallParams::invoke(CALLEE, sel()).seal();
    assert_eq!(b.fire(Err(HostError::CalleeDidNotExist)), Err(CallError));
}

#[test]
fn builder_defaults_and_setters() {
    let b = CallParams::eval(CALLEE, sel(), ValueKind::U32);
    assert_eq!(b.params().gas_limit(), 0);
    assert_eq!(*b.params().endowment(), 0);
    assert_eq!(b.params().return_type().kind, ValueKind::U32);
    let b = b.gas_limit(5000).value(1_000_000_000_000u128);
    assert_eq!(b.params().gas_limit(), 5000);
    assert_eq!(*b.params().endowment(), 1_000_000_000_000u128);
    assert_eq!(*b.params().callee(), CALLEE);
    let sealed = b.seal().gas_limit(7);
    assert_eq!(sealed.params().gas_limit(), 7);
    assert_eq!(sealed.params().input_data().to_bytes(), vec![1, 2, 3, 4]);
}

#[test]
fn encodings_are_little_endian() {
    assert_eq!(encode_value(&Value::U32(5)), vec![5, 0, 0, 0]);
    assert_eq!(encode_value(&Value::U32(0x0102_0304)), vec![4, 3, 2, 1]);
    assert_eq!(encode_value(&Value::I32(-1)), vec![255, 255, 255, 255]);
    assert_eq!(encode_value(&Value::I32(42)), vec![42, 0, 0, 0]);
    assert_eq!(encode_value(&Value::U64(256)), vec![0, 1, 0, 0, 0, 0, 0, 0]);
    assert_eq!(encode_value(&Value::Bool(true)), vec![1]);
    assert_eq!(encode_value(&Value::Bool(false)), vec![0]);
}

#[test]
fn decoding_reads_the_front_and_rejects_short_or_invalid_bytes() {
    assert_eq!(decode_value(ValueKind::U32, &[4, 3, 2, 1, 99]), Some(Value::U32(0x0102_0304)));
    assert_eq!(decode_value(ValueKind::I32, &[0xfe, 0xff, 0xff, 0xff]), Some(Value::I32(-2)));
    assert_eq!(decode_value(ValueKind::U64, &[1, 0, 0, 0, 0, 0, 0]), None);
    assert_eq!(decode_value(ValueKind::U32, &[]), None);
    assert_eq!(decode_value(ValueKind::Bool, &[1]), Some(Value::Bool(true)));
    assert_eq!(decode_value(ValueKind::Bool, &[2]), None);
}

#[test]
fn values_round_trip_through_call_data() {
    let args = vec![Value::U32(7), Value::Bool(false), Value::I32(-300), Value::U64(u64::MAX)];
    let data = CallData::with_args(sel(), &args);
    let bytes = data.to_bytes();
    assert_eq!(&bytes[0..4], &[1, 2, 3, 4]);
    let kinds = vec![ValueKind::U32, ValueKind::Bool, ValueKind::I32, ValueKind::U64];
    assert_eq!(decode_values(&kinds, &bytes[4..]), Some(args));
    assert_eq!(decode_values(&kinds, &bytes[4..bytes.len() - 1]), None);
}

#[test]
fn call_data_push_appends_in_order() {
    let mut data = CallData::new(sel());
    assert!(data.args().is_empty());
    data.push_arg(&Value::Bool(true));
    data.push_arg(&Value::U32(2));
    assert_eq!(data.args(), &vec![1, 2, 0, 0, 0]);
    assert_eq!(data.selector(), sel());
}

#[test]
fn selector_from_name_is_first_four_keccak_bytes() {
    // Keccak-256 of the empty string starts with c5 d2 46 01.
    assert_eq!(Selector::from_name("").to_bytes(), [0xc5, 0xd2, 0x46, 0x01]);
    assert_eq!(Selector::from_name("inc"), Selector::from_name("inc"));
    assert_ne!(Selector::from_name("inc"), Selector::from_name("dec"));
}

#[test]
fn selector_from_digest_and_comparison() {
    let mut digest = [0u8; 32];
    digest[0] = 9;
    digest[3] = 8;
    digest[4] = 7;
    let s = Selector::from_digest(&digest);
    assert_eq!(s.to_bytes(), [9, 0, 0, 8]);
    assert!(s.same_as(&Selector::new([9, 0, 0, 8])));
    assert!(!s.same_as(&Selector::new([9, 0, 0, 7])));
}

#[test]
fn unassigned_create_builder_fails_without_contacting_host() {
    let mut host = StubHost::new(Ok(vec![]));
    host.create_reply = Ok(vec![3u8; 32]);
    let b = Create::build(sel()).push_arg(&Value::U32(1)).seal();
    assert_eq!(b.fire_using(&mut host), Err(CreateError::CodeHashMissing));
    assert_eq!(host.contacted, 0);
}

#[test]
fn assigned_create_builder_returns_new_account() {
    let mut host = StubHost::new(Ok(vec![]));
    let mut reply = vec![3u8; 32];
    reply.push(0);
    host.create_reply = Ok(reply);
    let b = Create::build(sel()).gas_limit(10).value(500).using_code([1u8; 32]);
    assert_eq!(b.params().code_hash(), Some([1u8; 32]));
    assert_eq!(b.params().gas_limit(), 10);
    assert_eq!(*b.params().endowment(), 500);
    let b = b.push_arg(&Value::Bool(true)).seal();
    assert_eq!(b.fire_using(&mut host), Ok([3u8; 32]));
    assert_eq!(host.contacted, 1);
    assert_eq!(host.last_input, vec![1, 2, 3, 4, 1]);
}

#[test]
fn create_fails_on_host_error_or_short_address() {
    let b = Create::build(sel()).using_code([1u8; 32]).seal();
    assert_eq!(b.fire(Err(HostError::CalleeTrapped)), Err(CreateError::Failed));
    let b = Create::build(sel()).using_code([1u8; 32]).seal();
    assert_eq!(b.fire(Ok(vec![0u8; 31])), Err(CreateError::Failed));
    assert_eq!(Create::build(sel()).params().code_hash(), None);
}

#[test]
fn unassigned_create_builder_ignores_a_good_reply() {
    let b = Create::build(sel()).seal();
    assert_eq!(b.fire(Ok(vec![3u8; 32])), Err(CreateError::CodeHashMissing));
    let b = Create::build(sel()).using_code([2u8; 32]).seal();
    assert_eq!(b.fire(Ok(vec![3u8; 32])), Ok([3u8; 32]));
}

#[test]
fn push_args_appends_all_in_order() {
    let args = vec![Value::U32(1), Value::I32(-1), Value::Bool(false)];
    let b = CallParams::eval(CALLEE, sel(), ValueKind::U32).push_args(&args).seal();
    let bytes = b.params().input_data().to_bytes();
    assert_eq!(bytes, vec![1, 2, 3, 4, 1, 0, 0, 0, 255, 255, 255, 255, 0]);
    let kinds = vec![ValueKind::U32, ValueKind::I32, ValueKind::Bool];
    assert_eq!(decode_values(&kinds, &bytes[4..]), Some(args));
    let none = CallParams::invoke(CALLEE, sel()).push_args(&vec![]).seal();
    assert_eq!(none.params().input_data().to_bytes(), vec![1, 2, 3, 4]);
}
