//! Small text helpers shared by the font and clock modules.

use vstd::prelude::*;

verus! {

/// Relies on `String`'s `FromIterator<char>` impl: collects the characters
/// into a string holding exactly that character sequence.
#[verifier::external_body]
pub(crate) fn chars_to_string(cs: &Vec<char>) -> (s: String)
    ensures
        s@ == cs@,
{
    cs.iter().collect()
}

} // verus!
