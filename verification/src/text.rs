//! Contracts for the string operations of the standard library that the crate
//! relies on.

use vstd::prelude::*;

verus! {

/// `str::eq` holds exactly when both slices spell the same characters.
pub assume_specification[ <str as PartialEq>::eq ](a: &str, b: &str) -> (r: bool)
    ensures
        r == (a@ == b@),
;

/// `String::push` appends the character at the end.
pub assume_specification[ String::push ](s: &mut String, c: char)
    ensures
        final(s)@ == old(s)@.push(c),
;

} // verus!
