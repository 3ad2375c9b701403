//! Output accumulation for the character-by-character transforms.

use vstd::prelude::*;

verus! {

/// Relies on String::push: it appends the given character to the end of the
/// string.
#[verifier::external_body]
pub(crate) fn push_char(destination: &mut String, c: char)
    ensures
        final(destination)@ == old(destination)@.push(c),
{
    destination.push(c);
}

} // verus!
