//! What this library takes on trust about the standard library, where vstd
//! states nothing: nothing here is proved.

use vstd::prelude::*;

verus! {

/// Assumed of `String::push`: it puts `ch` at the end of the string and
/// leaves the characters that were there before as they were.
pub assume_specification[ String::push ](s: &mut String, ch: char)
    ensures
        final(s)@ == old(s)@.push(ch),
;

} // verus!
