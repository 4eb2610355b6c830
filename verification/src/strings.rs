//! The one string-building primitive the library takes on trust from std.

use vstd::prelude::*;

verus! {

/// Relies on std's `String::push`: it appends the given character to the end
/// of this string.
pub assume_specification[ String::push ](s: &mut String, c: char)
    ensures
        final(s)@ == old(s)@.push(c),
;

} // verus!
