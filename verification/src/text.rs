//! What this library assumes of the standard `String`.

use vstd::prelude::*;

verus! {

/// `String::push` of the standard library: the string afterwards holds the
/// characters it held before, followed by `ch`. This is taken from the
/// standard library's documentation and is not proved here.
pub assume_specification[ String::push ](s: &mut String, ch: char)
    ensures
        final(s)@ == old(s)@.push(ch),
;

} // verus!
