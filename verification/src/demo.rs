//! Five short scenarios, each a straight line of moves and borrows on one
//! text value. A scenario returns what there is to show of it, in the order
//! in which it is shown; putting it on a screen is left to the caller.

use vstd::prelude::*;
use crate::borrow::{calculate_length, calculate_length_with_ref, change_borrowed_mut_value};

verus! {

/// A text is given away to be measured and taken back from the result.
/// Shows the text as it came back, and its length.
pub fn ownership_round_trip() -> (shown: (String, usize))
    ensures
        shown.0@ == "hello"@,
        shown.1 == 5,
{
    let s1 = "hello".to_owned();
    let (s2, len) = calculate_length(s1);
    proof {
        reveal_strlit("hello");
    }
    (s2, len)
}

/// A text is lent for reading and measured; its owner never lets go of it.
/// Shows the text, and its length.
pub fn shared_borrow() -> (shown: (String, usize))
    ensures
        shown.0@ == "Great"@,
        shown.1 == 5,
{
    let s2 = "Great".to_owned();
    let len = calculate_length_with_ref(&s2);
    proof {
        reveal_strlit("Great");
    }
    (s2, len)
}

/// A text is lent for writing and comes out longer.
/// Shows the text before the loan, and after it.
pub fn mutable_borrow() -> (shown: (String, String))
    ensures
        shown.0@ == "Incredible"@,
        shown.1@ == "Incredible and some more stuff"@,
{
    let mut s3 = "Incredible".to_owned();
    let before = s3.clone();
    change_borrowed_mut_value(&mut s3);
    proof {
        reveal_strlit("Incredible");
        reveal_strlit(" and some more stuff");
        reveal_strlit("Incredible and some more stuff");
        assert(s3@ =~= "Incredible and some more stuff"@);
    }
    (before, s3)
}

/// Two exclusive borrows of one text, the first ended by its scope before
/// the second begins.
/// Shows the text as read through the first, then through the second.
pub fn scoped_mutable_borrows() -> (shown: (String, String))
    ensures
        shown.0@ == "What what"@,
        shown.1@ == "What what"@,
{
    let mut s4 = "What what".to_owned();
    let first;
    {
        let r1 = &mut s4;
        first = r1.clone();
    }
    let r2 = &mut s4;
    let second = r2.clone();
    (first, second)
}

/// Two shared borrows of one text, read together; after their last use, an
/// exclusive borrow of the same text, which only reads.
/// Shows the text as read through each of the three, in that order.
pub fn shared_then_mutable() -> (shown: (String, String, String))
    ensures
        shown.0@ == "Hohoho"@,
        shown.1@ == "Hohoho"@,
        shown.2@ == "Hohoho"@,
{
    let mut s5 = "Hohoho".to_owned();
    let r3 = &s5;
    let r4 = &s5;
    let third = r3.clone();
    let fourth = r4.clone();
    let r5 = &mut s5;
    let fifth = r5.clone();
    (third, fourth, fifth)
}

} // verus!
