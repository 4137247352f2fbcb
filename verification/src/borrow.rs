//! The three ways a text value is handed to a function: by giving it up, by
//! lending it for reading, and by lending it for writing.

use vstd::prelude::*;
use vstd::utf8::is_ascii_chars;
use crate::text::{byte_len, lemma_ascii_byte_len, lemma_with_suffix_len, with_suffix, SUFFIX};

verus! {

/// Takes ownership of a text and measures it. The value would end with this
/// call if it were not handed back, so it comes back beside its length: the
/// very value that went in.
pub fn calculate_length(s: String) -> (pair: (String, usize))
    ensures
        pair.0 == s,
        pair.1 == byte_len(s@),
        is_ascii_chars(s@) ==> pair.1 == s@.len(),
{
    let length = calculate_length_with_ref(&s);
    (s, length)
}

/// Measures a text through a shared borrow. The caller keeps the value, so
/// only the length comes back.
pub fn calculate_length_with_ref(s: &String) -> (length: usize)
    ensures
        length == byte_len(s@),
        is_ascii_chars(s@) ==> length == s@.len(),
{
    proof {
        if is_ascii_chars(s@) {
            lemma_ascii_byte_len(s@);
        }
    }
    s.as_str().as_bytes().len()
}

/// Appends [`SUFFIX`] to a text through an exclusive borrow. What was there
/// stays in front, unchanged, and the text is twenty bytes longer.
pub fn change_borrowed_mut_value(s: &mut String)
    ensures
        final(s)@ == with_suffix(old(s)@),
        byte_len(final(s)@) == byte_len(old(s)@) + 20,
{
    proof {
        lemma_with_suffix_len(s@);
    }
    s.append(SUFFIX);
}

} // verus!
