//! Trusted boundary to the `base64` crate and to `std`'s UTF-8 validation.
//!
//! The cursor codec (see `cursor_connection`) turns an item reference into an
//! opaque cursor string by base64-encoding its UTF-8 bytes, and back.  The
//! base64 alphabet itself is not re-specified here: the result of
//! `base64::encode` is only given a name, `b64_of`, and `base64::decode` is
//! described as its inverse, which is exactly what the crate documents.

use vstd::prelude::*;
use vstd::utf8::{decode_utf8, valid_utf8};

verus! {

/// The text that `base64::encode` produces for a given byte sequence
/// (standard alphabet, with padding).  Uninterpreted: the contracts below say
/// only that encoding is reversed exactly by decoding.
pub uninterp spec fn b64_of(bytes: Seq<u8>) -> Seq<char>;

/// Relies on `base64::encode`: encodes arbitrary octets with the standard,
/// padded alphabet; total, never fails.
#[verifier::external_body]
pub(crate) fn b64_encode_bytes(bytes: &[u8]) -> (encoded: String)
    ensures
        encoded@ == b64_of(bytes@),
{
    base64::encode(bytes)
}

/// Relies on `base64::decode`: every string `base64::encode` produces
/// decodes, and decodes back to the octets it encodes.  The decoder also
/// accepts some text outside the encoder's image (unpadded input, for one);
/// the contract claims nothing there.
#[verifier::external_body]
pub(crate) fn b64_decode_str(encoded: &str) -> (decoded: Option<Vec<u8>>)
    ensures
        decoded matches Some(bytes) ==> forall|original: Seq<u8>|
            encoded@ == b64_of(original) ==> bytes@ == original,
        (exists|original: Seq<u8>| encoded@ == b64_of(original)) ==> decoded is Some,
{
    base64::decode(encoded).ok()
}

/// Relies on `std::str::from_utf8`: succeeds exactly on valid UTF-8 and
/// returns the string those bytes spell.
#[verifier::external_body]
pub(crate) fn utf8_decode(bytes: &[u8]) -> (text: Option<String>)
    ensures
        text matches Some(s) ==> valid_utf8(bytes@) && s@ == decode_utf8(bytes@),
        text is None ==> !valid_utf8(bytes@),
{
    match std::str::from_utf8(bytes) {
        Ok(s) => Some(s.to_owned()),
        Err(_) => None,
    }
}

} // verus!
