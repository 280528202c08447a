//! Bounded collections that keep their elements in a fixed array.
//!
//! Each container owns an array of `N` slots and a length; only the slots
//! below the length hold elements, and no operation ever exposes the rest.

mod map;
mod set;
mod string;
mod vector;

pub use map::{
    distinct_keys, has_key, inserted, lemma_insert_present_overwrites, lemma_insert_then_get,
    lemma_insert_twice_overwrites, lemma_present_iff_found, lemma_remove_then_get,
    lemma_slot_is_unique, removed, slot_of, value_of, StackMap,
};
pub use set::{keys_of, set_inserted, set_removed, StackSet};
pub use string::{
    appended, hex_symbol, hex_text, lemma_append_no_hex, lemma_encode_concat,
    lemma_hex_text_is_ascii, utf8_len, StackString, HEX_ALPHABET,
};
pub use vector::{
    lemma_push_then_pop, lemma_push_when_full, lemma_pushes_fill_in_order, popped, pushed,
    pushed_all, StackVec,
};
