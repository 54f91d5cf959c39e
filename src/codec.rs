//! Argument and return values as they travel on the wire, and their SCALE encoding.
use vstd::prelude::*;

verus! {

/// The type of a value that can be passed to or returned from an entry point.
#[derive(Clone, Copy, Debug, PartialEq, Eq, Structural)]
pub enum ValueKind {
    Bool,
    U32,
    I32,
    U64,
}

/// A value of one of the supported kinds.
#[derive(Clone, Copy, Debug, PartialEq, Eq, Structural)]
pub enum Value {
    Bool(bool),
    U32(u32),
    I32(i32),
    U64(u64),
}

/// Declares the error type of the codec so that it can be handed back from its calls.
#[verifier::external_type_specification]
#[verifier::external_body]
pub struct ExCodecError(parity_scale_codec::Error);

/// `256` raised to `n`.
pub open spec fn pow256(n: nat) -> nat
    decreases n,
{
    if n == 0 {
        1
    } else {
        256 * pow256((n - 1) as nat)
    }
}

/// The `n` least significant bytes of `v`, least significant first.
pub open spec fn le_bytes(v: nat, n: nat) -> Seq<u8>
    decreases n,
{
    if n == 0 {
        Seq::empty()
    } else {
        seq![(v % 256) as u8] + le_bytes(v / 256, (n - 1) as nat)
    }
}

/// The number whose little-endian bytes are `s`.
pub open spec fn le_value(s: Seq<u8>) -> nat
    decreases s.len(),
{
    if s.len() == 0 {
        0
    } else {
        s[0] as nat + 256 * le_value(s.drop_first())
    }
}

/// A 32-bit two's complement pattern read as a signed number.
pub open spec fn signed32(u: nat) -> int {
    if u < 0x8000_0000 {
        u as int
    } else {
        u - 0x1_0000_0000
    }
}

/// The 32-bit two's complement pattern of `i`.
pub open spec fn unsigned32(i: int) -> nat {
    if i >= 0 {
        i as nat
    } else {
        (i + 0x1_0000_0000) as nat
    }
}

/// Number of bytes that a value of kind `k` occupies on the wire.
pub open spec fn width(k: ValueKind) -> nat {
    match k {
        ValueKind::Bool => 1,
        ValueKind::U32 => 4,
        ValueKind::I32 => 4,
        ValueKind::U64 => 8,
    }
}

pub open spec fn kind_of(v: Value) -> ValueKind {
    match v {
        Value::Bool(_) => ValueKind::Bool,
        Value::U32(_) => ValueKind::U32,
        Value::I32(_) => ValueKind::I32,
        Value::U64(_) => ValueKind::U64,
    }
}

/// The wire bytes of a value.
pub open spec fn encoding(v: Value) -> Seq<u8> {
    match v {
        Value::Bool(b) => seq![if b { 1u8 } else { 0u8 }],
        Value::U32(x) => le_bytes(x as nat, 4),
        Value::I32(x) => le_bytes(unsigned32(x as int), 4),
        Value::U64(x) => le_bytes(x as nat, 8),
    }
}

/// The value of kind `k` that the front of `b` holds, if it holds one.
pub open spec fn decoding(k: ValueKind, b: Seq<u8>) -> Option<Value> {
    if b.len() < width(k) {
        None
    } else {
        match k {
            ValueKind::Bool => if b[0] == 0 {
                Some(Value::Bool(false))
            } else if b[0] == 1 {
                Some(Value::Bool(true))
            } else {
                None
            },
            ValueKind::U32 => Some(Value::U32(le_value(b.subrange(0, 4)) as u32)),
            ValueKind::I32 => Some(Value::I32(signed32(le_value(b.subrange(0, 4))) as i32)),
            ValueKind::U64 => Some(Value::U64(le_value(b.subrange(0, 8)) as u64)),
        }
    }
}

/// The concatenated encodings of `vs`, in order.
pub open spec fn encode_all(vs: Seq<Value>) -> Seq<u8>
    decreases vs.len(),
{
    if vs.len() == 0 {
        Seq::empty()
    } else {
        encoding(vs[0]) + encode_all(vs.drop_first())
    }
}

pub open spec fn kinds_of(vs: Seq<Value>) -> Seq<ValueKind> {
    vs.map_values(|v: Value| kind_of(v))
}

/// Values of kinds `ks`, read one after the other from the front of `b`.
pub open spec fn decode_all(ks: Seq<ValueKind>, b: Seq<u8>) -> Option<Seq<Value>>
    decreases ks.len(),
{
    if ks.len() == 0 {
        Some(Seq::empty())
    } else {
        match decoding(ks[0], b) {
            None => None,
            Some(v) => match decode_all(ks.drop_first(), b.subrange(width(ks[0]) as int, b.len() as int)) {
                None => None,
                Some(rest) => Some(seq![v] + rest),
            },
        }
    }
}

/// Relies on parity_scale_codec's `Encode` for `u32`: its little-endian bytes.
#[verifier::external_body]
fn scale_encode_u32(v: u32) -> (r: Vec<u8>)
    ensures
        r@ == le_bytes(v as nat, 4),
{
    parity_scale_codec::Encode::encode(&v)
}

/// Relies on parity_scale_codec's `Encode` for `i32`: its little-endian two's complement bytes.
#[verifier::external_body]
fn scale_encode_i32(v: i32) -> (r: Vec<u8>)
    ensures
        r@ == le_bytes(unsigned32(v as int), 4),
{
    parity_scale_codec::Encode::encode(&v)
}

/// Relies on parity_scale_codec's `Encode` for `u64`: its little-endian bytes.
#[verifier::external_body]
fn scale_encode_u64(v: u64) -> (r: Vec<u8>)
    ensures
        r@ == le_bytes(v as nat, 8),
{
    parity_scale_codec::Encode::encode(&v)
}

/// Relies on parity_scale_codec's `Encode` for `bool`: one byte, 1 or 0.
#[verifier::external_body]
fn scale_encode_bool(v: bool) -> (r: Vec<u8>)
    ensures
        r@ == seq![if v { 1u8 } else { 0u8 }],
{
    parity_scale_codec::Encode::encode(&v)
}

/// Relies on parity_scale_codec's `Decode` for `u32` on a byte slice: it fails when
/// fewer than four bytes are left, else reads the first four little-endian.
#[verifier::external_body]
fn scale_decode_u32(b: &[u8]) -> (r: Result<u32, parity_scale_codec::Error>)
    ensures
        r is Ok <==> b@.len() >= 4,
        r is Ok ==> r->Ok_0 as nat == le_value(b@.subrange(0, 4)),
{
    let mut input: &[u8] = b;
    <u32 as parity_scale_codec::Decode>::decode(&mut input)
}

/// Relies on parity_scale_codec's `Decode` for `i32` on a byte slice: it fails when
/// fewer than four bytes are left, else reads the first four as little-endian two's complement.
#[verifier::external_body]
fn scale_decode_i32(b: &[u8]) -> (r: Result<i32, parity_scale_codec::Error>)
    ensures
        r is Ok <==> b@.len() >= 4,
        r is Ok ==> r->Ok_0 as int == signed32(le_value(b@.subrange(0, 4))),
{
    let mut input: &[u8] = b;
    <i32 as parity_scale_codec::Decode>::decode(&mut input)
}

/// Relies on parity_scale_codec's `Decode` for `u64` on a byte slice: it fails when
/// fewer than eight bytes are left, else reads the first eight little-endian.
#[verifier::external_body]
fn scale_decode_u64(b: &[u8]) -> (r: Result<u64, parity_scale_codec::Error>)
    ensures
        r is Ok <==> b@.len() >= 8,
        r is Ok ==> r->Ok_0 as nat == le_value(b@.subrange(0, 8)),
{
    let mut input: &[u8] = b;
    <u64 as parity_scale_codec::Decode>::decode(&mut input)
}

/// Relies on parity_scale_codec's `Decode` for `bool` on a byte slice: it fails on an
/// empty slice or a first byte other than 0 and 1, else gives whether that byte is 1.
#[verifier::external_body]
fn scale_decode_bool(b: &[u8]) -> (r: Result<bool, parity_scale_codec::Error>)
    ensures
        r is Ok <==> (b@.len() >= 1 && (b@[0] == 0 || b@[0] == 1)),
        r is Ok ==> r->Ok_0 == (b@[0] == 1),
{
    let mut input: &[u8] = b;
    <bool as parity_scale_codec::Decode>::decode(&mut input)
}

/// Relies on parity_scale_codec's `Decode` for `[u8; 32]` on a byte slice: it fails when
/// fewer than 32 bytes are left, else copies the first 32.
#[verifier::external_body]
pub(crate) fn scale_decode_bytes32(b: &[u8]) -> (r: Result<[u8; 32], parity_scale_codec::Error>)
    ensures
        r is Ok <==> b@.len() >= 32,
        r is Ok ==> r->Ok_0@ == b@.subrange(0, 32),
{
    let mut input: &[u8] = b;
    <[u8; 32] as parity_scale_codec::Decode>::decode(&mut input)
}

proof fn lemma_pow256_widths()
    ensures
        pow256(4) == 0x1_0000_0000,
        pow256(8) == 0x1_0000_0000_0000_0000,
{
    reveal_with_fuel(pow256, 9);
}

pub proof fn lemma_le_round_trip(v: nat, n: nat)
    requires
        v < pow256(n),
    ensures
        le_bytes(v, n).len() == n,
        le_value(le_bytes(v, n)) == v,
    decreases n,
{
    if n > 0 {
        let p = pow256((n - 1) as nat);
        assert(v / 256 < p) by (nonlinear_arith)
            requires
                v < 256 * p,
        ;
        lemma_le_round_trip(v / 256, (n - 1) as nat);
        let s = le_bytes(v, n);
        assert(s.drop_first() =~= le_bytes(v / 256, (n - 1) as nat));
        assert(v == v % 256 + 256 * (v / 256)) by (nonlinear_arith);
    }
}

/// Decoding the encoding of a value, with any bytes after it, gives the value back.
pub proof fn lemma_value_round_trip(v: Value, tail: Seq<u8>)
    ensures
        encoding(v).len() == width(kind_of(v)),
        decoding(kind_of(v), encoding(v) + tail) == Some(v),
{
    let b = encoding(v) + tail;
    lemma_pow256_widths();
    match v {
        Value::Bool(x) => {},
        Value::U32(x) => {
            lemma_le_round_trip(x as nat, 4);
            assert(b.subrange(0, 4) =~= encoding(v));
        },
        Value::I32(x) => {
            lemma_le_round_trip(unsigned32(x as int), 4);
            assert(b.subrange(0, 4) =~= encoding(v));
        },
        Value::U64(x) => {
            lemma_le_round_trip(x as nat, 8);
            assert(b.subrange(0, 8) =~= encoding(v));
        },
    }
}

/// Encodes one value.
pub fn encode_value(v: &Value) -> (r: Vec<u8>)
    ensures
        r@ == encoding(*v),
{
    match v {
        Value::Bool(x) => scale_encode_bool(*x),
        Value::U32(x) => scale_encode_u32(*x),
        Value::I32(x) => scale_encode_i32(*x),
        Value::U64(x) => scale_encode_u64(*x),
    }
}

/// Decodes a value of kind `k` from the front of `b`.
pub fn decode_value(k: ValueKind, b: &[u8]) -> (r: Option<Value>)
    ensures
        r == decoding(k, b@),
{
    match k {
        ValueKind::Bool => match scale_decode_bool(b) {
            Ok(x) => Some(Value::Bool(x)),
            Err(_) => None,
        },
        ValueKind::U32 => match scale_decode_u32(b) {
            Ok(x) => Some(Value::U32(x)),
            Err(_) => None,
        },
        ValueKind::I32 => match scale_decode_i32(b) {
            Ok(x) => Some(Value::I32(x)),
            Err(_) => None,
        },
        ValueKind::U64 => match scale_decode_u64(b) {
            Ok(x) => Some(Value::U64(x)),
            Err(_) => None,
        },
    }
}

pub fn width_of(k: ValueKind) -> (r: usize)
    ensures
        r == width(k),
{
    match k {
        ValueKind::Bool => 1,
        ValueKind::U32 => 4,
        ValueKind::I32 => 4,
        ValueKind::U64 => 8,
    }
}

/// The kind of a value.
pub fn kind(v: &Value) -> (r: ValueKind)
    ensures
        r == kind_of(*v),
{
    match v {
        Value::Bool(_) => ValueKind::Bool,
        Value::U32(_) => ValueKind::U32,
        Value::I32(_) => ValueKind::I32,
        Value::U64(_) => ValueKind::U64,
    }
}

/// Decodes values of kinds `ks`, one after the other, from the front of `b`.
pub fn decode_values(ks: &Vec<ValueKind>, b: &[u8]) -> (r: Option<Vec<Value>>)
    ensures
        match r {
            Some(vs) => decode_all(ks@, b@) == Some(vs@),
            None => decode_all(ks@, b@) is None,
        },
{
    let mut out: Vec<Value> = Vec::new();
    let mut pos: usize = 0;
    let mut i: usize = 0;
    proof {
        assert(ks@.subrange(0, ks@.len() as int) =~= ks@);
        assert(b@.subrange(0, b@.len() as int) =~= b@);
        if let Some(all) = decode_all(ks@, b@) {
            assert(out@ + all =~= all);
        }
    }
    while i < ks.len()
        invariant
            i <= ks@.len(),
            pos <= b@.len(),
            decode_all(ks@, b@) == match decode_all(
                ks@.subrange(i as int, ks@.len() as int),
                b@.subrange(pos as int, b@.len() as int),
            ) {
                Some(rest) => Some(out@ + rest),
                None => None::<Seq<Value>>,
            },
        decreases ks@.len() - i,
    {
        let k = ks[i];
        let rest = vstd::slice::slice_subrange(b, pos, b.len());
        let ghost kr = ks@.subrange(i as int, ks@.len() as int);
        assert(kr[0] == k);
        assert(kr.drop_first() =~= ks@.subrange(i + 1, ks@.len() as int));
        match decode_value(k, rest) {
            None => {
                return None;
            },
            Some(v) => {
                let w = width_of(k);
                assert(rest@.subrange(w as int, rest@.len() as int) =~= b@.subrange(
                    pos + w,
                    b@.len() as int,
                ));
                proof {
                    let tail = decode_all(ks@.subrange(i + 1, ks@.len() as int), b@.subrange(pos + w, b@.len() as int));
                    if let Some(t) = tail {
                        assert(out@ + (seq![v] + t) =~= out@.push(v) + t);
                    }
                }
                out.push(v);
                pos = pos + w;
                i = i + 1;
            },
        }
    }
    assert(ks@.subrange(i as int, ks@.len() as int).len() == 0);
    assert(out@ + Seq::<Value>::empty() =~= out@);
    Some(out)
}

/// Encoding values one after the other and decoding them by their kinds gives them back,
/// whatever bytes follow.
pub proof fn lemma_values_round_trip(vs: Seq<Value>, tail: Seq<u8>)
    ensures
        decode_all(kinds_of(vs), encode_all(vs) + tail) == Some(vs),
    decreases vs.len(),
{
    if vs.len() > 0 {
        let rest = vs.drop_first();
        let b = encode_all(vs) + tail;
        lemma_value_round_trip(vs[0], encode_all(rest) + tail);
        assert(b =~= encoding(vs[0]) + (encode_all(rest) + tail));
        assert(kinds_of(vs).drop_first() =~= kinds_of(rest));
        let w = width(kind_of(vs[0]));
        assert(b.subrange(w as int, b.len() as int) =~= encode_all(rest) + tail);
        lemma_values_round_trip(rest, tail);
        assert(seq![vs[0]] + rest =~= vs);
    }
}

/// Number of bytes that values of kinds `ks` occupy together.
pub open spec fn total_width(ks: Seq<ValueKind>) -> nat
    decreases ks.len(),
{
    if ks.len() == 0 {
        0
    } else {
        width(ks[0]) + total_width(ks.drop_first())
    }
}

/// The encoding of values takes exactly the widths of their kinds.
pub proof fn lemma_encode_all_len(vs: Seq<Value>)
    ensures
        encode_all(vs).len() == total_width(kinds_of(vs)),
    decreases vs.len(),
{
    if vs.len() > 0 {
        lemma_value_round_trip(vs[0], Seq::empty());
        assert(kinds_of(vs).drop_first() =~= kinds_of(vs.drop_first()));
        lemma_encode_all_len(vs.drop_first());
    }
}

/// Encoding a further value appends its encoding.
pub proof fn lemma_encode_all_push(vs: Seq<Value>, v: Value)
    ensures
        encode_all(vs.push(v)) == encode_all(vs) + encoding(v),
    decreases vs.len(),
{
    if vs.len() == 0 {
        assert(vs.push(v).drop_first() =~= Seq::<Value>::empty());
        assert(vs.push(v)[0] == v);
        assert(encode_all(Seq::<Value>::empty()) == Seq::<u8>::empty());
        assert(encode_all(vs) == Seq::<u8>::empty());
        assert(encoding(v) + Seq::<u8>::empty() =~= encoding(v));
        assert(Seq::<u8>::empty() + encoding(v) =~= encoding(v));
    } else {
        assert(vs.push(v).drop_first() =~= vs.drop_first().push(v));
        lemma_encode_all_push(vs.drop_first(), v);
        assert(vs.push(v)[0] == vs[0]);
        assert(encode_all(vs.push(v)) =~= encode_all(vs) + encoding(v));
    }
}

} // verus!
