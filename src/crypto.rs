//! ECDSA P-256 verification and SHA-256, through the p256 and sha2 crates.
//! Both results are functions of the bytes alone and are named here.

use vstd::prelude::*;
use p256::ecdsa::signature::Verifier;
use sha2::Digest;

verus! {

/// `sig` (r and s, 32 bytes each) is a valid ECDSA P-256 signature of the
/// SHA-256 digest of `msg` under the SEC1-encoded public key `key`.
pub uninterp spec fn p256_verifies(msg: Seq<u8>, sig: Seq<u8>, key: Seq<u8>) -> bool;

/// `sig` (ASN.1 DER) is a valid ECDSA P-256 signature of the SHA-256 digest
/// of `msg` under the SEC1-encoded public key `key`.
pub uninterp spec fn p256_der_verifies(msg: Seq<u8>, sig: Seq<u8>, key: Seq<u8>) -> bool;

/// The SHA-256 digest of `data`.
pub uninterp spec fn sha256_of(data: Seq<u8>) -> Seq<u8>;

/// Relies on p256's `VerifyingKey::from_sec1_bytes`, `Signature::from_slice`
/// and `Verifier::verify`: a key or signature that does not parse verifies
/// nothing.
#[verifier::external_body]
pub(crate) fn ecdsa_verify(msg: &[u8], sig: &[u8], key: &[u8]) -> (r: bool)
    ensures
        r == p256_verifies(msg@, sig@, key@),
{
    let Ok(k) = p256::ecdsa::VerifyingKey::from_sec1_bytes(key) else {
        return false;
    };
    let Ok(s) = p256::ecdsa::Signature::from_slice(sig) else {
        return false;
    };
    k.verify(msg, &s).is_ok()
}

/// Relies on p256's `VerifyingKey::from_sec1_bytes`, `Signature::from_der`
/// and `Verifier::verify`: a key or signature that does not parse verifies
/// nothing.
#[verifier::external_body]
pub(crate) fn ecdsa_verify_der(msg: &[u8], sig: &[u8], key: &[u8]) -> (r: bool)
    ensures
        r == p256_der_verifies(msg@, sig@, key@),
{
    let Ok(k) = p256::ecdsa::VerifyingKey::from_sec1_bytes(key) else {
        return false;
    };
    let Ok(s) = p256::ecdsa::Signature::from_der(sig) else {
        return false;
    };
    k.verify(msg, &s).is_ok()
}

/// Relies on sha2's `Sha256::digest`: a 32-byte digest.
#[verifier::external_body]
pub(crate) fn sha256(data: &[u8]) -> (r: Vec<u8>)
    ensures
        r@ == sha256_of(data@),
        r@.len() == 32,
{
    sha2::Sha256::digest(data).to_vec()
}

} // verus!
