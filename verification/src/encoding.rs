//! Decoding of base64 text and of UTF-8 bytes, as the outside code does it.
use vstd::prelude::*;
use vstd::utf8::{decode_utf8, valid_utf8};
use base64::Engine;

verus! {

/// What `base64::engine::general_purpose::STANDARD.decode` gives for a
/// text: the decoded bytes, or `None` where it fails.
pub uninterp spec fn base64_decoded(s: Seq<char>) -> Option<Seq<u8>>;

/// `STANDARD.decode(s)` of the `base64` crate (standard alphabet, padding
/// required): the bytes, or `None` on a decode error. The result depends on
/// `s` alone; which texts decode, and to what, is not stated here.
#[verifier::external_body]
pub(crate) fn base64_standard_decode(s: &str) -> (r: Option<Vec<u8>>)
    ensures
        match r {
            Some(v) => base64_decoded(s@) == Some(v@),
            None => base64_decoded(s@) is None,
        },
{
    base64::engine::general_purpose::STANDARD.decode(s).ok()
}

/// `std::str::from_utf8`: the text of `bytes` when they are valid UTF-8,
/// else `None`.
#[verifier::external_body]
pub(crate) fn utf8_text(bytes: &[u8]) -> (r: Option<String>)
    ensures
        r is Some <==> valid_utf8(bytes@),
        r matches Some(t) ==> t@ == decode_utf8(bytes@),
{
    match std::str::from_utf8(bytes) {
        Ok(t) => Some(t.to_string()),
        Err(_) => None,
    }
}

} // verus!
