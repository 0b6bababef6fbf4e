//! Small helpers for building and inspecting strings in verified code.

use vstd::prelude::*;

verus! {

/// Relies on `String::push` from std: appends exactly one character to the
/// end of the string.
#[verifier::external_body]
pub fn push_char(s: &mut String, c: char)
    ensures
        final(s)@ == old(s)@.push(c),
{
    s.push(c);
}

} // verus!
