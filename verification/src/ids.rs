//! Identifiers for queued writes.

use vstd::prelude::*;

verus! {

/// The shape of a random identifier: 36 characters in five groups set apart
/// by hyphens, the third group starting with the version digit 4.
pub open spec fn is_hyphenated_id(text: Seq<char>) -> bool {
    &&& text.len() == 36
    &&& text[8] == '-'
    &&& text[13] == '-'
    &&& text[18] == '-'
    &&& text[23] == '-'
    &&& text[14] == '4'
}

/// Draws a random identifier with `uuid::Uuid::new_v4` and writes it in the
/// crate's default form, lower-case and hyphenated.
///
/// Not proved: the shape of the text. Nothing is claimed of which identifier
/// is drawn, and two calls may well differ. On a machine whose source of
/// randomness fails, `new_v4` does not return but panics; no argument
/// decides this, so nothing here can rule it out.
#[verifier::external_body]
pub(crate) fn fresh_id() -> (id: String)
    ensures
        is_hyphenated_id(id@),
{
    uuid::Uuid::new_v4().to_string()
}

} // verus!
