//! What `String` does where the verifier's library does not say.

use vstd::prelude::*;

verus! {

/// `String::push_str` appends the slice to the end of the string.
pub assume_specification[ String::push_str ](s: &mut String, text: &str)
    ensures
        final(s)@ == old(s)@ + text@,
;

} // verus!
