//! Small executable helpers over std strings that carry the contracts the
//! rest of the crate builds on.

use vstd::prelude::*;

verus! {

/// Relies on `String::push`: appends exactly the given character.
#[verifier::external_body]
pub(crate) fn string_push(s: &mut String, c: char)
    ensures
        final(s)@ == old(s)@.push(c),
{
    s.push(c)
}

/// Relies on `String::with_capacity`: a fresh, empty string.
#[verifier::external_body]
pub(crate) fn string_with_capacity(size_hint: usize) -> (s: String)
    ensures
        s@ == Seq::<char>::empty(),
{
    String::with_capacity(size_hint)
}

/// Relies on `String::clear`: removes all characters, keeping the
/// allocation.
#[verifier::external_body]
pub(crate) fn string_clear(s: &mut String)
    ensures
        final(s)@ == Seq::<char>::empty(),
{
    s.clear()
}

} // verus!
