//! The words for a name that matches no choice, by `strum`.
use vstd::prelude::*;

verus! {

/// The `Display` text of `strum::ParseError::VariantNotFound`, the one
/// error with which a name is refused.
#[verifier::external_body]
pub(crate) fn variant_not_found() -> (r: String)
    ensures
        r@ == "Matching variant not found"@,
{
    strum::ParseError::VariantNotFound.to_string()
}

} // verus!
