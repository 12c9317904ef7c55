//! Trusted interface to base64 transcoding.
//!
//! Points and evaluation outputs cross the wire base64-encoded.  The
//! encoding of a byte string is named by [`b64_of`]; the standard
//! engine used here pads and requires canonical padding on decode, so
//! a string decodes exactly when it is `b64_of` some byte string, and
//! then to exactly those bytes.

use base64::Engine;
use vstd::prelude::*;

verus! {

/// The base64 encoding (standard alphabet, padded) of a byte string.
pub uninterp spec fn b64_of(bytes: Seq<u8>) -> Seq<char>;

#[verifier::external_type_specification]
#[verifier::external_body]
pub struct ExDecodeError(base64::DecodeError);

/// Relies on `base64::prelude::BASE64_STANDARD`'s `Engine::encode`.
#[verifier::external_body]
pub(crate) fn b64_encode(bytes: &Vec<u8>) -> (r: String)
    ensures
        r@ == b64_of(bytes@),
{
    base64::prelude::BASE64_STANDARD.encode(bytes)
}

/// Relies on `base64::prelude::BASE64_STANDARD`'s `Engine::decode`:
/// the engine requires canonical padding and rejects nonzero trailing
/// bits, so decoding succeeds exactly on encodings, and inverts them.
#[verifier::external_body]
pub(crate) fn b64_decode(encoded: &String) -> (r: Result<Vec<u8>, base64::DecodeError>)
    ensures
        r is Ok ==> encoded@ == b64_of(r->Ok_0@),
        forall|b: Seq<u8>| encoded@ == #[trigger] b64_of(b) ==> r is Ok && r->Ok_0@ == b,
{
    base64::prelude::BASE64_STANDARD.decode(encoded.as_str())
}

/// Relies on `base64::DecodeError`'s `Display` impl, for a
/// human-readable message.
#[verifier::external_body]
pub(crate) fn decode_error_message(e: &base64::DecodeError) -> String {
    format!("{}", e)
}

} // verus!
