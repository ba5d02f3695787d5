//! Trusted cryptographic primitives: the SHA-256 digest and Ed25519 signing,
//! each named by an uninterpreted function of its inputs alone.

use vstd::prelude::*;

use ed25519_dalek::Signer;
use sha2::Digest;

verus! {

/// The SHA-256 digest of a byte string. Uninterpreted: a digest is a pure
/// function of its input, and nothing more is assumed of it.
pub uninterp spec fn sha256_of(data: Seq<u8>) -> Seq<u8>;

/// The Ed25519 signature of a message under a 32-byte seed. Uninterpreted:
/// RFC 8032 signing is deterministic, so the signature is a pure function of
/// seed and message.
pub uninterp spec fn ed25519_sig_of(seed: Seq<u8>, message: Seq<u8>) -> Seq<u8>;

/// The Ed25519 public key derived from a 32-byte seed. Uninterpreted: key
/// derivation is a pure function of the seed.
pub uninterp spec fn ed25519_pub_of(seed: Seq<u8>) -> Seq<u8>;

/// Relies on sha2's `Sha256::digest`: a 32-byte digest computed from the
/// input bytes alone.
#[verifier::external_body]
pub fn sha256(data: &Vec<u8>) -> (r: Vec<u8>)
    ensures
        r@ == sha256_of(data@),
        r@.len() == 32,
{
    sha2::Sha256::digest(data.as_slice()).to_vec()
}

/// Relies on ed25519-dalek's `SigningKey::sign`: a 64-byte RFC 8032
/// signature, deterministic in the seed and message.
#[verifier::external_body]
pub fn ed25519_sign(seed: &Vec<u8>, message: &Vec<u8>) -> (r: Vec<u8>)
    requires
        seed@.len() == 32,
    ensures
        r@ == ed25519_sig_of(seed@, message@),
        r@.len() == 64,
{
    let mut key = [0u8; 32];
    key.copy_from_slice(seed.as_slice());
    let sk = ed25519_dalek::SigningKey::from_bytes(&key);
    sk.sign(message.as_slice()).to_bytes().to_vec()
}

/// Relies on ed25519-dalek's `SigningKey::verifying_key`: the 32-byte public
/// key derived from the seed alone.
#[verifier::external_body]
pub fn ed25519_public(seed: &Vec<u8>) -> (r: Vec<u8>)
    requires
        seed@.len() == 32,
    ensures
        r@ == ed25519_pub_of(seed@),
        r@.len() == 32,
{
    let mut key = [0u8; 32];
    key.copy_from_slice(seed.as_slice());
    let sk = ed25519_dalek::SigningKey::from_bytes(&key);
    sk.verifying_key().to_bytes().to_vec()
}

} // verus!
