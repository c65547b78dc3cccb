//! Decoding of inline certificate material.
//!
//! Kubeconfig documents may carry certificate-authority and client
//! certificate/key material inline, as base64-encoded text whose
//! decoded form is PEM (UTF-8) text.  The two decoding steps live
//! behind named results: what a given input decodes to is a fixed
//! function of that input alone, stated here without writing the
//! algorithms out.

use vstd::prelude::*;

verus! {

/// What base64 decoding (standard alphabet, padded) yields for the
/// given text: `None` when the text is not valid base64, otherwise the
/// decoded bytes.
pub uninterp spec fn base64_decoded(s: Seq<char>) -> Option<Seq<u8>>;

/// What UTF-8 decoding yields for the given bytes: `None` when the
/// bytes are not valid UTF-8, otherwise the decoded characters.
pub uninterp spec fn utf8_decoded(bytes: Seq<u8>) -> Option<Seq<char>>;

/// Relies on `base64::Engine::decode` with the `STANDARD` engine
/// (standard alphabet, padding required): decoding depends on the
/// input text alone and fails exactly on inputs that are not base64.
#[verifier::external_body]
pub fn base64_decode(s: &str) -> (r: Option<Vec<u8>>)
    ensures
        r is Some <==> base64_decoded(s@) is Some,
        r matches Some(v) ==> base64_decoded(s@) == Some(v@),
{
    match base64::Engine::decode(&base64::engine::general_purpose::STANDARD, s) {
        Ok(v) => Some(v),
        Err(_) => None,
    }
}

/// Relies on `String::from_utf8`: the result depends on the input
/// bytes alone and fails exactly on byte sequences that are not
/// valid UTF-8.
#[verifier::external_body]
pub fn utf8_string(bytes: Vec<u8>) -> (r: Option<String>)
    ensures
        r is Some <==> utf8_decoded(bytes@) is Some,
        r matches Some(t) ==> utf8_decoded(bytes@) == Some(t@),
{
    match String::from_utf8(bytes) {
        Ok(t) => Some(t),
        Err(_) => None,
    }
}

} // verus!
