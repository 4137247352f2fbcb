//! The mathematical model of a text value: a sequence of characters, its
//! length in bytes, and the one change this library makes to a text.

use vstd::prelude::*;
use vstd::utf8::{encode_utf8, is_ascii_chars, is_ascii_chars_encode_utf8};

verus! {

/// What an exclusive borrower appends to the text it was lent.
pub const SUFFIX: &'static str = " and some more stuff";

/// The length of a text in bytes: the size of its UTF-8 encoding.
pub open spec fn byte_len(text: Seq<char>) -> nat {
    encode_utf8(text).len()
}

/// A text followed by [`SUFFIX`].
pub open spec fn with_suffix(text: Seq<char>) -> Seq<char> {
    text + SUFFIX@
}

/// An ASCII text is as many bytes long as it has characters.
pub proof fn lemma_ascii_byte_len(text: Seq<char>)
    requires
        is_ascii_chars(text),
    ensures
        byte_len(text) == text.len(),
{
    is_ascii_chars_encode_utf8(text);
}

/// The bytes of two texts joined are the bytes of the first followed by the
/// bytes of the second, so byte lengths add up.
pub proof fn lemma_byte_len_concat(head: Seq<char>, tail: Seq<char>)
    ensures
        encode_utf8(head + tail) == encode_utf8(head) + encode_utf8(tail),
        byte_len(head + tail) == byte_len(head) + byte_len(tail),
    decreases head.len(),
{
    if head.len() == 0 {
        assert(head + tail =~= tail);
        assert(encode_utf8(head) + encode_utf8(tail) =~= encode_utf8(tail));
    } else {
        lemma_byte_len_concat(head.drop_first(), tail);
        assert((head + tail).drop_first() =~= head.drop_first() + tail);
        assert(encode_utf8(head + tail) =~= encode_utf8(head) + encode_utf8(tail));
    }
}

/// The suffix is twenty ASCII characters, hence twenty bytes.
pub proof fn lemma_suffix_len()
    ensures
        SUFFIX@.len() == 20,
        is_ascii_chars(SUFFIX@),
        byte_len(SUFFIX@) == 20,
{
    reveal_strlit(" and some more stuff");
    lemma_ascii_byte_len(SUFFIX@);
}

/// Appending the suffix makes a text exactly twenty bytes longer.
pub proof fn lemma_with_suffix_len(text: Seq<char>)
    ensures
        byte_len(with_suffix(text)) == byte_len(text) + 20,
{
    lemma_suffix_len();
    lemma_byte_len_concat(text, SUFFIX@);
}

} // verus!
