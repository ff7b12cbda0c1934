//! Properties of padding that hold for every text, length and fill character.

use vstd::prelude::*;
use vstd::utf8::*;

use crate::pad::{fill, padded, padded_with};

verus! {

/// The UTF-8 encoding of a concatenation is the concatenation of the encodings.
pub proof fn lemma_encode_utf8_concat(a: Seq<char>, b: Seq<char>)
    ensures
        encode_utf8(a + b) == encode_utf8(a) + encode_utf8(b),
    decreases a.len(),
{
    if a.len() == 0 {
        assert(a + b =~= b);
        assert(encode_utf8(a) + encode_utf8(b) =~= encode_utf8(b));
    } else {
        assert((a + b).drop_first() =~= a.drop_first() + b);
        assert((a + b)[0] == a[0]);
        lemma_encode_utf8_concat(a.drop_first(), b);
        assert(encode_utf8(a + b) =~= encode_utf8(a) + encode_utf8(b));
    }
}

/// A text that already holds at least `len` codepoints comes back unchanged,
/// whatever the fill character, and so also when padding with spaces.
pub proof fn lemma_long_enough_unchanged(s: Seq<char>, len: nat, c: char)
    requires
        len <= s.len(),
    ensures
        padded_with(s, len, c) == s,
        padded(s, len) == s,
{
}

/// The result holds the larger of `len` and the input's codepoint count;
/// in particular exactly `len` when the input is shorter than `len`.
pub proof fn lemma_padded_len(s: Seq<char>, len: nat, c: char)
    ensures
        padded_with(s, len, c).len() == if len > s.len() { len } else { s.len() },
        len > s.len() ==> padded_with(s, len, c).len() == len,
        len > s.len() ==> padded(s, len).len() == len,
{
}

/// The input is a suffix of the result, as codepoints and as UTF-8 bytes.
pub proof fn lemma_ends_with_input(s: Seq<char>, len: nat, c: char)
    ensures
        ({
            let r = padded_with(s, len, c);
            let k = r.len() - s.len();
            &&& r.len() >= s.len()
            &&& r.subrange(k, r.len() as int) == s
            &&& encode_utf8(r) == encode_utf8(r.take(k)) + encode_utf8(s)
        }),
{
    let r = padded_with(s, len, c);
    let k = r.len() - s.len();
    assert(r.subrange(k, r.len() as int) =~= s);
    assert(r =~= r.take(k) + s);
    lemma_encode_utf8_concat(r.take(k), s);
}

/// What stands before the input in the result is exactly
/// `max(0, len - codepoints of s)` copies of the fill character.
pub proof fn lemma_prefix_is_fill(s: Seq<char>, len: nat, c: char)
    ensures
        ({
            let r = padded_with(s, len, c);
            let missing: nat = if len > s.len() { (len - s.len()) as nat } else { 0 };
            &&& r.len() >= s.len()
            &&& r.take(r.len() - s.len()) == fill(c, missing)
        }),
{
    let r = padded_with(s, len, c);
    let missing: nat = if len > s.len() { (len - s.len()) as nat } else { 0 };
    assert(r.take(r.len() - s.len()) =~= fill(c, missing));
}

/// Padding with the default character is padding with a space.
pub proof fn lemma_default_is_space(s: Seq<char>, len: nat)
    ensures
        padded(s, len) == padded_with(s, len, ' '),
{
}

} // verus!
