//! The error type of the serializer.

use vstd::prelude::*;

verus! {

/// `postcard::Error`, the error type that a flavor has to return. The verifier
/// knows that the type exists and nothing of its values.
#[verifier::external_type_specification]
#[verifier::external_body]
pub struct ExPostcardError(postcard::Error);

/// The value `postcard::Error::SerializeBufferFull`, by which a flavor says
/// that a write did not fit. Nothing is claimed of the value returned: to the
/// verifier one error is like another.
#[verifier::external_body]
pub(crate) fn buffer_full() -> (e: postcard::Error) {
    postcard::Error::SerializeBufferFull
}

} // verus!
