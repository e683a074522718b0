//! Identifiers that no one else has.
use vstd::prelude::*;

verus! {

/// `Uuid::new_v4` of the crate `uuid`, written out with `to_string`: a random
/// identifier in its hyphenated form of 36 characters. Which one it is, nothing says.
#[verifier::external_body]
pub(crate) fn random_id() -> (r: String)
    ensures
        r@.len() == 36,
{
    uuid::Uuid::new_v4().to_string()
}

} // verus!
