//! Verified string comparisons used by the access-control policy.

use vstd::prelude::*;
use vstd::string::StrSliceExecFns;

verus! {

/// `prefix` is a prefix of `text`, character by character.
pub open spec fn spec_starts_with(text: Seq<char>, prefix: Seq<char>) -> bool {
    prefix.len() <= text.len() && (forall|i: int|
        0 <= i < prefix.len() ==> text[i] == prefix[i])
}

/// Case-sensitive prefix test over the character views of two string slices.
pub fn str_starts_with(text: &str, prefix: &str) -> (r: bool)
    ensures
        r == spec_starts_with(text@, prefix@),
{
    let text_len = text.unicode_len();
    let prefix_len = prefix.unicode_len();
    if prefix_len > text_len {
        return false;
    }
    let mut i: usize = 0;
    while i < prefix_len
        invariant
            i <= prefix_len,
            prefix_len == prefix@.len(),
            text_len == text@.len(),
            prefix_len <= text_len,
            forall|j: int| 0 <= j < i ==> text@[j] == prefix@[j],
        decreases prefix_len - i,
    {
        if text.get_char(i) != prefix.get_char(i) {
            return false;
        }
        i = i + 1;
    }
    true
}

/// Character-for-character equality of two string slices.
pub fn str_eq(a: &str, b: &str) -> (r: bool)
    ensures
        r == (a@ == b@),
{
    let owned_a: String = a.to_owned();
    let owned_b: String = b.to_owned();
    owned_a == owned_b
}

} // verus!
