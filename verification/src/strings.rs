//! What the library assumes of the standard string operations it calls.

use vstd::prelude::*;
use vstd::string::StrSliceExecFns;

verus! {

/// `String::push` appends the given character to the end of the string.
pub assume_specification[ String::push ](text: &mut String, ch: char)
    ensures
        final(text)@ == old(text)@.push(ch),
;

/// `str` equality holds exactly when the two slices hold the same characters.
pub assume_specification[ <str as PartialEq>::eq ](left: &str, right: &str) -> (same: bool)
    ensures
        same == (left@ == right@),
;

/// Whether two string slices hold the same characters.
pub fn same_text(left: &str, right: &str) -> (same: bool)
    ensures
        same == (left@ == right@),
{
    *left == *right
}

/// Whether `text` begins with `prefix`. The two are compared character by
/// character, which takes time in the square of the length of `prefix`.
pub fn has_prefix(text: &str, prefix: &str) -> (found: bool)
    ensures
        found == prefix@.is_prefix_of(text@),
{
    let length = prefix.unicode_len();
    if text.unicode_len() < length {
        return false;
    }
    let mut index: usize = 0;
    while index < length
        invariant
            index <= length,
            length == prefix@.len(),
            length <= text@.len(),
            forall|i: int| 0 <= i < index ==> text@[i] == prefix@[i],
        decreases length - index,
    {
        if text.get_char(index) != prefix.get_char(index) {
            assert(text@.subrange(0, prefix@.len() as int)[index as int] != prefix@[index as int]);
            return false;
        }
        index = index + 1;
    }
    assert(prefix@ =~= text@.subrange(0, prefix@.len() as int));
    true
}

} // verus!
