//! Selectors, the 4-byte addresses of entry points, and the call data that starts with one.
use vstd::prelude::*;

use vstd::string::StringSliceAdditionalSpecFns;

use crate::codec::{encode_all, encoding, encode_value, lemma_encode_all_push, Value};

verus! {

/// The Keccak-256 digest of a byte string.
pub uninterp spec fn keccak256_of(b: Seq<u8>) -> Seq<u8>;

/// Relies on tiny_keccak's `Keccak::v256`: the 32-byte Keccak-256 digest of `b`,
/// which depends on `b` alone.
#[verifier::external_body]
fn keccak256(b: &[u8]) -> (r: [u8; 32])
    ensures
        r@ == keccak256_of(b@),
{
    let mut hasher = tiny_keccak::Keccak::v256();
    tiny_keccak::Hasher::update(&mut hasher, b);
    let mut out = [0u8; 32];
    tiny_keccak::Hasher::finalize(hasher, &mut out);
    out
}

/// The four bytes that address one constructor or message.
#[derive(Clone, Copy, Debug, PartialEq, Eq)]
pub struct Selector {
    bytes: [u8; 4],
}

impl View for Selector {
    type V = Seq<u8>;

    closed spec fn view(&self) -> Seq<u8> {
        self.bytes@
    }
}

/// The selector of an entry point whose name hashes to `digest`: its first four bytes.
pub open spec fn selector_of_digest(digest: Seq<u8>) -> Seq<u8> {
    digest.subrange(0, 4)
}

impl Selector {
    /// A selector has four bytes.
    pub proof fn lemma_len(&self)
        ensures
            self@.len() == 4,
    {
    }

    /// The selector with the given bytes.
    pub fn new(bytes: [u8; 4]) -> (r: Selector)
        ensures
            r@ == bytes@,
    {
        Selector { bytes }
    }

    /// The selector taken from a 32-byte digest of an entry point's name.
    pub fn from_digest(digest: &[u8; 32]) -> (r: Selector)
        ensures
            r@ == selector_of_digest(digest@),
    {
        let r = Selector { bytes: [digest[0], digest[1], digest[2], digest[3]] };
        assert(r@ =~= selector_of_digest(digest@));
        r
    }

    /// The selector of the entry point called `name`: the first four bytes of the
    /// Keccak-256 digest of the name.
    pub fn from_name(name: &str) -> (r: Selector)
        ensures
            r@ == selector_of_digest(keccak256_of(name.spec_bytes())),
    {
        let digest = keccak256(name.as_bytes());
        Selector::from_digest(&digest)
    }

    /// The selector's bytes.
    pub fn to_bytes(&self) -> (r: [u8; 4])
        ensures
            r@ == self@,
    {
        self.bytes
    }

    /// Whether two selectors have the same bytes.
    pub fn same_as(&self, other: &Selector) -> (r: bool)
        ensures
            r == (self@ == other@),
    {
        let r = self.bytes[0] == other.bytes[0] && self.bytes[1] == other.bytes[1]
            && self.bytes[2] == other.bytes[2] && self.bytes[3] == other.bytes[3];
        if r {
            assert(self@ =~= other@);
        }
        r
    }
}

/// A selector followed by the encoded arguments of a call.
pub struct CallData {
    selector: Selector,
    args: Vec<u8>,
}

impl CallData {
    pub closed spec fn selector_view(&self) -> Seq<u8> {
        self.selector@
    }

    /// The encoded arguments pushed so far.
    pub closed spec fn args_view(&self) -> Seq<u8> {
        self.args@
    }

    /// Call data with the given selector and no arguments.
    pub fn new(selector: Selector) -> (r: CallData)
        ensures
            r.selector_view() == selector@,
            r.args_view() == Seq::<u8>::empty(),
    {
        CallData { selector, args: Vec::new() }
    }

    /// Call data with the given selector and the encodings of `args`, in order.
    pub fn with_args(selector: Selector, args: &Vec<Value>) -> (r: CallData)
        ensures
            r.selector_view() == selector@,
            r.args_view() == encode_all(args@),
    {
        let mut data = CallData::new(selector);
        let mut i: usize = 0;
        assert(encode_all(args@.subrange(0, 0)) =~= Seq::<u8>::empty());
        while i < args.len()
            invariant
                i <= args@.len(),
                data.selector_view() == selector@,
                data.args_view() == encode_all(args@.subrange(0, i as int)),
            decreases args@.len() - i,
        {
            proof {
                lemma_encode_all_push(args@.subrange(0, i as int), args@[i as int]);
                assert(args@.subrange(0, i + 1) =~= args@.subrange(0, i as int).push(args@[i as int]));
            }
            data.push_arg(&args[i]);
            i = i + 1;
        }
        assert(args@.subrange(0, i as int) =~= args@);
        data
    }

    /// Appends the encoding of `arg` to the arguments.
    pub fn push_arg(&mut self, arg: &Value)
        ensures
            final(self).selector_view() == old(self).selector_view(),
            final(self).args_view() == old(self).args_view() + encoding(*arg),
    {
        let mut enc = encode_value(arg);
        self.args.append(&mut enc);
    }

    pub fn selector(&self) -> (r: Selector)
        ensures
            r@ == self.selector_view(),
    {
        self.selector
    }

    /// The encoded arguments.
    pub fn args(&self) -> (r: &Vec<u8>)
        ensures
            r@ == self.args_view(),
    {
        &self.args
    }

    /// The wire payload: the selector's bytes, then the arguments.
    pub fn to_bytes(&self) -> (r: Vec<u8>)
        ensures
            r@ == self.selector_view() + self.args_view(),
    {
        let mut out: Vec<u8> = Vec::new();
        let sel = self.selector.to_bytes();
        out.push(sel[0]);
        out.push(sel[1]);
        out.push(sel[2]);
        out.push(sel[3]);
        let mut i: usize = 0;
        while i < self.args.len()
            invariant
                i <= self.args@.len(),
                out@ == self.selector@ + self.args@.subrange(0, i as int),
            decreases self.args@.len() - i,
        {
            proof {
                assert(self.args@.subrange(0, i + 1) =~= self.args@.subrange(0, i as int).push(self.args@[i as int]));
            }
            out.push(self.args[i]);
            i = i + 1;
        }
        assert(self.args@.subrange(0, i as int) =~= self.args@);
        out
    }
}

} // verus!
