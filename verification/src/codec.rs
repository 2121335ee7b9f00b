//! Base64 text and Curve25519 public-key material at the wire boundary.
//!
//! All keys and message bodies cross the library boundary as standard
//! unpadded base64 text.  The encoding itself is performed by vodozemac;
//! the trusted declarations below give it a name so that contracts can
//! speak about round trips and about which inputs parse.

use vstd::prelude::*;

verus! {

#[verifier::external_type_specification]
#[verifier::external_body]
pub struct ExCurve25519PublicKey(vodozemac::Curve25519PublicKey);

/// The bytes that standard unpadded base64 decoding yields for a string,
/// or nothing when the string is not valid base64.
pub uninterp spec fn b64_decoded(s: Seq<char>) -> Option<Seq<u8>>;

/// The standard unpadded base64 encoding of a byte sequence.
pub uninterp spec fn b64_of(b: Seq<u8>) -> Seq<char>;

/// Whether a string is the base64 form of exactly 32 bytes of Curve25519
/// key material.
pub uninterp spec fn curve_key_parses(s: Seq<char>) -> bool;

/// Relies on vodozemac::base64_encode: standard base64 without padding;
/// decoding the encoding of `b` yields `b` again.
#[verifier::external_body]
pub(crate) fn b64_encode(b: &[u8]) -> (r: String)
    ensures
        r@ == b64_of(b@),
        b64_decoded(r@) == Some(b@),
{
    vodozemac::base64_encode(b)
}

/// Relies on vodozemac::base64_decode: returns the decoded bytes exactly
/// when the input is valid standard unpadded base64.
#[verifier::external_body]
pub(crate) fn b64_decode(s: &str) -> (r: Option<Vec<u8>>)
    ensures
        match r {
            Some(b) => b64_decoded(s@) == Some(b@),
            None => b64_decoded(s@) is None,
        },
{
    vodozemac::base64_decode(s).ok()
}

/// Relies on Curve25519PublicKey::from_base64: succeeds exactly when the
/// input decodes to 32 bytes of key material.
#[verifier::external_body]
pub(crate) fn curve_key_from_b64(s: &str) -> (r: Option<vodozemac::Curve25519PublicKey>)
    ensures
        r is Some <==> curve_key_parses(s@),
{
    vodozemac::Curve25519PublicKey::from_base64(s).ok()
}

/// Relies on Curve25519PublicKey::to_base64: 43 characters of unpadded
/// base64 for the 32 key bytes.
#[verifier::external_body]
pub(crate) fn curve_key_to_b64(k: &vodozemac::Curve25519PublicKey) -> (r: String)
    ensures
        r@.len() == 43,
{
    k.to_base64()
}

} // verus!
