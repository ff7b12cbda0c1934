//! Left-padding of text to a length counted in Unicode codepoints.

mod codepoints;
mod laws;
mod pad;

pub use codepoints::{codepoint_count, leading_byte_count};
pub use pad::{fill, leftpad, leftpad_with, padded, padded_with};
pub use laws::{
    lemma_default_is_space, lemma_encode_utf8_concat, lemma_ends_with_input,
    lemma_long_enough_unchanged, lemma_padded_len, lemma_prefix_is_fill,
};
