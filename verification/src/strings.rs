//! What the library uses of `String` and has no contract for elsewhere.

use vstd::prelude::*;

verus! {

/// The contract of `String::push`.
///
/// Trusted: the string afterwards is the string before with `ch` appended,
/// as the standard library documents.
pub assume_specification[ String::push ](text: &mut String, ch: char)
    ensures
        final(text)@ == old(text)@.push(ch),
;

} // verus!
