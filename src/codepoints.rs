//! Counting the codepoints of a UTF-8 text by looking at its bytes.

use vstd::prelude::*;
use vstd::utf8::*;

verus! {

/// Number of bytes in `bytes` that are not UTF-8 continuation bytes
/// (that is, bytes which do not have the bit pattern `10xxxxxx`).
pub open spec fn leading_byte_count(bytes: Seq<u8>) -> nat
    decreases bytes.len(),
{
    if bytes.len() == 0 {
        0
    } else {
        leading_byte_count(bytes.drop_last()) + if is_continuation_byte(bytes.last()) {
            0nat
        } else {
            1nat
        }
    }
}

/// Leading bytes of a concatenation are those of each part.
pub proof fn lemma_leading_byte_count_concat(a: Seq<u8>, b: Seq<u8>)
    ensures
        leading_byte_count(a + b) == leading_byte_count(a) + leading_byte_count(b),
    decreases b.len(),
{
    if b.len() > 0 {
        assert((a + b).drop_last() =~= a + b.drop_last());
        lemma_leading_byte_count_concat(a, b.drop_last());
    } else {
        assert(a + b =~= a);
    }
}

/// The encoding of one scalar holds exactly one leading byte.
proof fn lemma_leading_byte_count_scalar(c: char)
    ensures
        leading_byte_count(encode_scalar(c as u32)) == 1,
{
    let v = c as u32;
    let enc = encode_scalar(v);
    char_is_scalar(c);
    if has_width_1_encoding(v) {
        assert(!is_continuation_byte(leading_byte_width_1(v))) by (bit_vector)
            requires
                v <= 0x7f,
        ;
    } else {
        assert(!is_continuation_byte(leading_byte_width_2(v))) by (bit_vector);
        assert(!is_continuation_byte(leading_byte_width_3(v))) by (bit_vector);
        assert(!is_continuation_byte(leading_byte_width_4(v))) by (bit_vector);
        assert(is_continuation_byte(last_continuation_byte(v))) by (bit_vector);
        assert(is_continuation_byte(second_last_continuation_byte(v))) by (bit_vector);
        assert(is_continuation_byte(third_last_continuation_byte(v))) by (bit_vector);
    }
    lemma_one_leading_then_continuations(enc);
}

/// A run of bytes that starts with a leading byte and goes on with
/// continuation bytes has one leading byte.
proof fn lemma_one_leading_then_continuations(bytes: Seq<u8>)
    requires
        bytes.len() >= 1,
        !is_continuation_byte(bytes[0]),
        forall|i: int| 1 <= i < bytes.len() ==> is_continuation_byte(#[trigger] bytes[i]),
    ensures
        leading_byte_count(bytes) == 1,
    decreases bytes.len(),
{
    if bytes.len() > 1 {
        assert(is_continuation_byte(bytes[bytes.len() - 1]));
        lemma_one_leading_then_continuations(bytes.drop_last());
    } else {
        assert(leading_byte_count(bytes.drop_last()) == 0);
    }
}

/// The UTF-8 encoding of a text holds one leading byte per codepoint.
pub proof fn lemma_leading_byte_count_encode(chars: Seq<char>)
    ensures
        leading_byte_count(encode_utf8(chars)) == chars.len(),
    decreases chars.len(),
{
    if chars.len() > 0 {
        lemma_leading_byte_count_scalar(chars[0]);
        lemma_leading_byte_count_encode(chars.drop_first());
        lemma_leading_byte_count_concat(
            encode_scalar(chars[0] as u32),
            encode_utf8(chars.drop_first()),
        );
    }
}

/// Number of codepoints in `s`, found by counting the bytes of its UTF-8
/// encoding that are not continuation bytes.
pub fn codepoint_count(s: &str) -> (n: usize)
    ensures
        n == s@.len(),
{
    let bytes = s.as_bytes();
    let mut count: usize = 0;
    let mut i: usize = 0;
    while i < bytes.len()
        invariant
            bytes@ == encode_utf8(s@),
            i <= bytes@.len(),
            count == leading_byte_count(bytes@.take(i as int)),
            count <= i,
        decreases bytes@.len() - i,
    {
        let b = bytes[i];
        assert(bytes@.take(i + 1).drop_last() =~= bytes@.take(i as int));
        assert((b >> 6u8 == 2u8) == is_continuation_byte(b)) by (bit_vector);
        if b >> 6u8 != 2u8 {
            count = count + 1;
        }
        i = i + 1;
    }
    proof {
        assert(bytes@.take(i as int) =~= bytes@);
        lemma_leading_byte_count_encode(s@);
    }
    count
}

} // verus!
