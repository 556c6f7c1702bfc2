//! Identifiers in their textual form.

use uuid::Uuid;
use vstd::prelude::*;

verus! {

/// The canonical text (lower case, hyphenated) of the identifier that `text`
/// spells in any of the accepted forms, or `None` where it spells none, as
/// `uuid::Uuid::parse_str` reads it.
pub uninterp spec fn uuid_canonical(text: Seq<char>) -> Option<Seq<char>>;

/// Reads `text` with `uuid::Uuid::parse_str` and writes the identifier back
/// out in its canonical form. The contract only names the result.
#[verifier::external_body]
pub(crate) fn parse_uuid(text: &str) -> (id: Option<String>)
    ensures
        match id {
            Some(canonical) => uuid_canonical(text@) == Some(canonical@),
            None => uuid_canonical(text@) is None,
        },
{
    match Uuid::parse_str(text) {
        Ok(id) => Some(id.to_string()),
        Err(_) => None,
    }
}

/// A new random identifier from `uuid::Uuid::new_v4`, in canonical text.
/// Nothing is claimed of the value.
#[verifier::external_body]
pub(crate) fn fresh_uuid() -> String {
    Uuid::new_v4().to_string()
}

} // verus!
