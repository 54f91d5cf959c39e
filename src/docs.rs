//! Documentation text as it comes from a doc attribute's tokens.
use vstd::prelude::*;

use vstd::std_specs::iter::IteratorSpec;
use vstd::string::{axiom_spec_iter, next_postcondition};

verus! {

/// The characters with Unicode's `White_Space` property.
pub open spec fn white_space(c: char) -> bool {
    ||| '\u{9}' <= c <= '\u{d}'
    ||| c == ' '
    ||| c == '\u{85}'
    ||| c == '\u{a0}'
    ||| c == '\u{1680}'
    ||| '\u{2000}' <= c <= '\u{200a}'
    ||| c == '\u{2028}'
    ||| c == '\u{2029}'
    ||| c == '\u{202f}'
    ||| c == '\u{205f}'
    ||| c == '\u{3000}'
}

/// Whether `c` has Unicode's `White_Space` property, as `char::is_whitespace` tells.
fn is_white_space(c: char) -> (r: bool)
    ensures
        r == white_space(c),
{
    ('\u{9}' <= c && c <= '\u{d}') || c == ' ' || c == '\u{85}' || c == '\u{a0}' || c == '\u{1680}'
        || ('\u{2000}' <= c && c <= '\u{200a}') || c == '\u{2028}' || c == '\u{2029}' || c == '\u{202f}'
        || c == '\u{205f}' || c == '\u{3000}'
}

/// Relies on `String::push`: appends `c` to the end of `s`.
#[verifier::external_body]
fn push_char(s: &mut String, c: char)
    ensures
        final(s)@ == old(s)@.push(c),
{
    s.push(c)
}

/// Which characters a trimming step takes off.
#[derive(Clone, Copy, Debug, PartialEq, Eq, Structural)]
pub enum Strip {
    Char(char),
    WhiteSpace,
}

pub open spec fn strips(w: Strip, c: char) -> bool {
    match w {
        Strip::Char(x) => c == x,
        Strip::WhiteSpace => white_space(c),
    }
}

/// `s` without the characters that `w` strips at its front.
pub open spec fn skip_leading(s: Seq<char>, w: Strip) -> Seq<char>
    decreases s.len(),
{
    if s.len() > 0 && strips(w, s[0]) {
        skip_leading(s.drop_first(), w)
    } else {
        s
    }
}

/// `s` without the characters that `w` strips at its end.
pub open spec fn skip_trailing(s: Seq<char>, w: Strip) -> Seq<char>
    decreases s.len(),
{
    if s.len() > 0 && strips(w, s.last()) {
        skip_trailing(s.drop_last(), w)
    } else {
        s
    }
}

/// The text of a doc attribute's tokens `= "text"` (or `= r"text"`): leading `=`,
/// white space, `r` and `"` taken off, then trailing `"`, then white space at both ends.
pub open spec fn doc_text(s: Seq<char>) -> Seq<char> {
    let a = skip_leading(s, Strip::Char('='));
    let b = skip_leading(a, Strip::WhiteSpace);
    let c = skip_leading(b, Strip::Char('r'));
    let d = skip_leading(c, Strip::Char('"'));
    let e = skip_trailing(d, Strip::Char('"'));
    skip_trailing(skip_leading(e, Strip::WhiteSpace), Strip::WhiteSpace)
}

fn strips_exec(w: Strip, c: char) -> (r: bool)
    ensures
        r == strips(w, c),
{
    match w {
        Strip::Char(x) => c == x,
        Strip::WhiteSpace => is_white_space(c),
    }
}

/// The start of what is left of `v[lo..hi]` once `w` has stripped its front.
fn skip_front(v: &Vec<char>, lo: usize, hi: usize, w: Strip) -> (r: usize)
    requires
        lo <= hi <= v@.len(),
    ensures
        lo <= r <= hi,
        v@.subrange(r as int, hi as int) == skip_leading(v@.subrange(lo as int, hi as int), w),
{
    let mut i = lo;
    while i < hi && strips_exec(w, v[i])
        invariant
            lo <= i <= hi <= v@.len(),
            skip_leading(v@.subrange(lo as int, hi as int), w) == skip_leading(v@.subrange(i as int, hi as int), w),
        decreases hi - i,
    {
        assert(v@.subrange(i as int, hi as int).drop_first() =~= v@.subrange(i + 1, hi as int));
        i = i + 1;
    }
    i
}

/// The end of what is left of `v[lo..hi]` once `w` has stripped its end.
fn skip_back(v: &Vec<char>, lo: usize, hi: usize, w: Strip) -> (r: usize)
    requires
        lo <= hi <= v@.len(),
    ensures
        lo <= r <= hi,
        v@.subrange(lo as int, r as int) == skip_trailing(v@.subrange(lo as int, hi as int), w),
{
    let mut j = hi;
    while j > lo && strips_exec(w, v[j - 1])
        invariant
            lo <= j <= hi <= v@.len(),
            skip_trailing(v@.subrange(lo as int, hi as int), w) == skip_trailing(v@.subrange(lo as int, j as int), w),
        decreases j - lo,
    {
        assert(v@.subrange(lo as int, j as int).drop_last() =~= v@.subrange(lo as int, j - 1));
        j = j - 1;
    }
    j
}

/// The characters of `s`, in order.
fn chars_of(s: &str) -> (r: Vec<char>)
    ensures
        r@ == s@,
{
    broadcast use axiom_spec_iter, next_postcondition;

    let mut out: Vec<char> = Vec::new();
    let mut it = s.chars();
    loop
        invariant
            out@ + it.remaining() == s@,
            it.obeys_prophetic_iter_laws(),
            it.decrease() is Some,
        decreases it.decrease()->0,
    {
        let ghost before = it.remaining();
        match it.next() {
            Some(c) => {
                out.push(c);
                assert(out@ + it.remaining() =~= s@);
            },
            None => {
                assert(before.len() == 0);
                assert(out@ =~= s@);
                return out;
            },
        }
    }
}

/// The text of a doc attribute from the string form of its tokens: `= "text"` gives
/// `text`.
pub fn trim_doc_string(tokens: &str) -> (r: String)
    ensures
        r@ == doc_text(tokens@),
{
    let v = chars_of(tokens);
    let n = v.len();
    let a = skip_front(&v, 0, n, Strip::Char('='));
    let b = skip_front(&v, a, n, Strip::WhiteSpace);
    let c = skip_front(&v, b, n, Strip::Char('r'));
    let d = skip_front(&v, c, n, Strip::Char('"'));
    let e = skip_back(&v, d, n, Strip::Char('"'));
    let f = skip_front(&v, d, e, Strip::WhiteSpace);
    let g = skip_back(&v, f, e, Strip::WhiteSpace);
    assert(v@.subrange(0, n as int) =~= v@);
    let mut out = String::new();
    let mut i = f;
    while i < g
        invariant
            f <= i <= g <= v@.len(),
            out@ == v@.subrange(f as int, i as int),
        decreases g - i,
    {
        push_char(&mut out, v[i]);
        i = i + 1;
        assert(out@ =~= v@.subrange(f as int, i as int));
    }
    assert(out@ =~= v@.subrange(f as int, g as int));
    out
}

} // verus!
