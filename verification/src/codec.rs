//! Base64 text, decoded by the `base64` crate.

use base64::Engine;
use vstd::prelude::*;

verus! {

/// `base64::DecodeError`, the reason why a text is not base64. Opaque to
/// proofs.
#[verifier::external_type_specification]
#[verifier::external_body]
pub struct ExDecodeError(base64::DecodeError);

/// What the standard base64 alphabet with padding decodes `input` to, or
/// `None` where `input` is not such an encoding.
pub uninterp spec fn base64_decoded(input: Seq<u8>) -> Option<Seq<u8>>;

/// Calls `Engine::decode` on `base64::engine::general_purpose::STANDARD`. The
/// outcome depends on `input` alone: the decoded bytes where `input` is valid
/// base64, an error where it is not.
#[verifier::external_body]
fn standard_decode(input: &[u8]) -> (r: Result<Vec<u8>, base64::DecodeError>)
    ensures
        match r {
            Ok(bytes) => base64_decoded(input@) == Some(bytes@),
            Err(_) => base64_decoded(input@).is_none(),
        },
{
    base64::engine::general_purpose::STANDARD.decode(input)
}

/// Decodes `input` as base64 in the standard alphabet, with padding.
pub fn decode(input: &[u8]) -> (r: Option<Vec<u8>>)
    ensures
        match r {
            Some(bytes) => base64_decoded(input@) == Some(bytes@),
            None => base64_decoded(input@).is_none(),
        },
{
    match standard_decode(input) {
        Ok(bytes) => Some(bytes),
        Err(_) => None,
    }
}

} // verus!
