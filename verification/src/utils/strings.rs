//! Helpers for text and byte strings.

use crate::collections::{appended, StackString};
use vstd::prelude::*;

verus! {

/// Creates a StackString from a string slice: the text itself where it
/// fits in `N` bytes, the empty text where it does not.
pub fn stack_string<const N: usize>(s: &str) -> (r: StackString<N>)
    ensures
        r.wf(),
        r@ == match appended(Seq::<char>::empty(), N as nat, s@) {
            Some(text) => text,
            None => Seq::<char>::empty(),
        },
{
    let mut stack_str = StackString::new();
    let _ = stack_str.push_str(s);
    stack_str
}

/// Compares two byte slices as strings.
pub fn bytes_equal(a: &[u8], b: &[u8]) -> (r: bool)
    ensures
        r == (a@ == b@),
{
    crate::memory::compare_bytes(a, b)
}

/// Finds a byte in a slice: the position of its first occurrence.
pub fn find_byte(haystack: &[u8], needle: u8) -> (r: Option<usize>)
    ensures
        match r {
            Some(i) => i < haystack@.len() && haystack@[i as int] == needle && forall|j: int|
                0 <= j < i ==> haystack@[j] != needle,
            None => forall|j: int| 0 <= j < haystack@.len() ==> haystack@[j] != needle,
        },
{
    let mut i: usize = 0;
    while i < haystack.len()
        invariant
            i <= haystack@.len(),
            forall|j: int| 0 <= j < i ==> haystack@[j] != needle,
        decreases haystack@.len() - i,
    {
        if haystack[i] == needle {
            return Some(i);
        }
        i += 1;
    }
    None
}

} // verus!
