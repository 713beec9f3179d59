use vstd::prelude::*;

verus! {

/// Relies on `uuid::Uuid::new_v4` and its `Display` impl: a randomly drawn
/// identifier rendered in the hyphenated form, which is always 36 characters
/// of lowercase hexadecimal digits and hyphens. Randomness is no guarantee
/// of freshness, so nothing is claimed beyond the shape; callers that need
/// an unused id must check for themselves.
#[verifier::external_body]
pub(crate) fn random_id() -> (r: String)
    ensures
        r@.len() == 36,
{
    uuid::Uuid::new_v4().to_string()
}

} // verus!
