//! Trusted bridges to the digest and base64 crates.
//!
//! The fingerprint pipeline and the manual provisioner call SHA-256 and
//! base64 from outside crates.  Their results are functions of the input
//! alone, so each is given a name here and the wrappers state the result in
//! terms of that name; everything downstream is verified against the names.

use vstd::prelude::*;

use base64::Engine;
use sha2::Digest;

verus! {

/// A name for the SHA-256 digest of a byte sequence.
pub uninterp spec fn sha256_of(data: Seq<u8>) -> Seq<u8>;

/// A name for the standard base64 encoding (padded) of a byte sequence.
pub uninterp spec fn base64_of(data: Seq<u8>) -> Seq<char>;

/// A name for what standard base64 decoding yields on a string: the decoded
/// bytes, or `None` when the string is not valid base64.
pub uninterp spec fn base64_decode_of(s: Seq<char>) -> Option<Seq<u8>>;

/// Relies on sha2's `Sha256::digest`: the digest depends on the input bytes
/// alone and is 32 bytes long.
#[verifier::external_body]
pub(crate) fn sha256(data: &Vec<u8>) -> (r: Vec<u8>)
    ensures
        r@ == sha256_of(data@),
        r@.len() == 32,
{
    Vec::from(sha2::Sha256::digest(data.as_slice()).as_slice())
}

/// Relies on base64's `STANDARD` engine `encode`: the encoding depends on
/// the input bytes alone.
#[verifier::external_body]
pub(crate) fn base64_encode(data: &Vec<u8>) -> (r: String)
    ensures
        r@ == base64_of(data@),
{
    base64::engine::general_purpose::STANDARD.encode(data.as_slice())
}

/// Relies on base64's `STANDARD` engine `decode`: decoding depends on the
/// input string alone, and fails exactly on strings that are not valid
/// base64.
#[verifier::external_body]
pub(crate) fn base64_decode(s: &str) -> (r: Option<Vec<u8>>)
    ensures
        match r {
            Some(v) => base64_decode_of(s@) == Some(v@),
            None => base64_decode_of(s@) is None,
        },
{
    match base64::engine::general_purpose::STANDARD.decode(s.as_bytes()) {
        Ok(v) => Some(v),
        Err(_) => None,
    }
}

} // verus!
