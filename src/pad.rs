//! Padding a text on the left with copies of a fill character.

use std::borrow::Cow;
use vstd::prelude::*;
use vstd::string::StringExecFns;

use crate::codepoints::codepoint_count;

verus! {

/// `k` copies of the character `c`.
pub open spec fn fill(c: char, k: nat) -> Seq<char> {
    Seq::new(k, |_i: int| c)
}

/// The text `s` extended on the left with `c` until it holds `len`
/// codepoints; `s` itself when it already holds at least `len`.
pub open spec fn padded_with(s: Seq<char>, len: nat, c: char) -> Seq<char> {
    if len <= s.len() {
        s
    } else {
        fill(c, (len - s.len()) as nat) + s
    }
}

/// The text `s` extended on the left with spaces up to `len` codepoints.
pub open spec fn padded(s: Seq<char>, len: nat) -> Seq<char> {
    padded_with(s, len, ' ')
}

/// Relies on `String::push`: the character is appended at the end.
pub assume_specification[ String::push ](s: &mut String, ch: char)
    ensures
        final(s)@ == old(s)@.push(ch),
;

/// Pads `string` to `codepoints` Unicode codepoints by inserting `pad_char`
/// on the left.
///
/// A string that already holds `codepoints` or more codepoints is handed
/// back as it is, borrowed and not copied. Codepoints are not graphemes, so
/// the result need not look as wide as a reader might expect.
pub fn leftpad_with<'a>(string: &'a str, codepoints: usize, pad_char: char) -> (r: Cow<'a, str>)
    ensures
        r@ == padded_with(string@, codepoints as nat, pad_char),
        codepoints <= string@.len() <==> r is Borrowed,
{
    let current = codepoint_count(string);
    if codepoints <= current {
        return Cow::Borrowed(string);
    }
    let to_pad = codepoints - current;
    let mut out = String::new();
    let mut k: usize = 0;
    while k < to_pad
        invariant
            k <= to_pad,
            out@ == fill(pad_char, k as nat),
        decreases to_pad - k,
    {
        out.push(pad_char);
        proof {
            assert(fill(pad_char, (k + 1) as nat) =~= fill(pad_char, k as nat).push(pad_char));
        }
        k = k + 1;
    }
    out.append(string);
    Cow::Owned(out)
}

/// Pads `string` to `codepoints` Unicode codepoints by inserting spaces on
/// the left; the same as `leftpad_with(string, codepoints, ' ')`.
pub fn leftpad<'a>(string: &'a str, codepoints: usize) -> (r: Cow<'a, str>)
    ensures
        r@ == padded(string@, codepoints as nat),
        codepoints <= string@.len() <==> r is Borrowed,
{
    leftpad_with(string, codepoints, ' ')
}

} // verus!
