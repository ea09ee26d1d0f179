//! Decoding of base64 job-description payloads.

use vstd::prelude::*;

verus! {

/// What the standard-alphabet base64 decoder returns for a given input text:
/// the decoded bytes, or nothing when the text is not valid base64. Named,
/// not spelled out: the decoder's behaviour is a pure function of the input
/// characters alone.
pub uninterp spec fn base64_decode(s: Seq<char>) -> Option<Seq<u8>>;

/// Relies on base64's `Engine::decode` with the `STANDARD` engine: a pure
/// decode whose success and output depend on the input characters alone.
#[verifier::external_body]
pub(crate) fn decode_base64(s: &str) -> (r: Option<Vec<u8>>)
    ensures
        match r {
            Some(v) => base64_decode(s@) == Some(v@),
            None => base64_decode(s@) is None,
        },
{
    base64::Engine::decode(&base64::engine::general_purpose::STANDARD, s).ok()
}

} // verus!
