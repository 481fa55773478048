//! Ed25519 keys and signatures, carried as plain bytes.
//!
//! A secret key is its 32-byte seed, a public key its 32-byte compressed
//! point, a signature its 64 bytes.

use ed25519_dalek::{Signature, Signer, SigningKey, Verifier, VerifyingKey};
use rand::rngs::OsRng;
use vstd::prelude::*;

verus! {

/// The public key that belongs to the secret key `secret`.
pub uninterp spec fn ed25519_public_key(secret: Seq<u8>) -> Seq<u8>;

/// The signature that the secret key `secret` gives to `message`.
pub uninterp spec fn ed25519_signature(secret: Seq<u8>, message: Seq<u8>) -> Seq<u8>;

/// Whether `public` is the encoding of a public key under which `signature`
/// is a valid signature of `message`.
pub uninterp spec fn ed25519_accepts(public: Seq<u8>, message: Seq<u8>, signature: Seq<u8>) -> bool;

/// Calls `SigningKey::generate` on the operating system's random source and
/// hands out the seed of the new key. Nothing is claimed of the bytes. A
/// system whose random source fails stops the program inside the call.
#[verifier::external_body]
pub(crate) fn fresh_secret_key() -> (secret: [u8; 32]) {
    SigningKey::generate(&mut OsRng).to_bytes()
}

/// Calls `SigningKey::verifying_key` on the key made from `secret`. The
/// public key depends on the seed alone; the contract gives it its name and
/// is taken on trust.
#[verifier::external_body]
pub(crate) fn public_key_of(secret: &[u8; 32]) -> (public: [u8; 32])
    ensures
        public@ == ed25519_public_key(secret@),
{
    SigningKey::from_bytes(secret).verifying_key().to_bytes()
}

/// Calls `Signer::sign` on the key made from `secret`. Ed25519 signing draws
/// no randomness, so the signature depends on the seed and the message
/// alone. The contract names it and adds what the scheme is for: a signature
/// made with a secret key is accepted under the public key of that secret
/// key. Both claims are taken on trust.
#[verifier::external_body]
pub(crate) fn sign_message(secret: &[u8; 32], message: &[u8]) -> (signature: [u8; 64])
    ensures
        signature@ == ed25519_signature(secret@, message@),
        ed25519_accepts(ed25519_public_key(secret@), message@, signature@),
{
    SigningKey::from_bytes(secret).sign(message).to_bytes()
}

/// Calls `Verifier::verify` on the key that `VerifyingKey::from_bytes` makes
/// of `public`; bytes that decode to no key accept nothing. The answer
/// depends on the three arguments alone; the contract gives it its name and
/// is taken on trust.
#[verifier::external_body]
pub(crate) fn verify_signature(
    public: &[u8; 32],
    message: &[u8],
    signature: &[u8; 64],
) -> (accepted: bool)
    ensures
        accepted == ed25519_accepts(public@, message@, signature@),
{
    match VerifyingKey::from_bytes(public) {
        Ok(key) => key.verify(message, &Signature::from_bytes(signature)).is_ok(),
        Err(_) => false,
    }
}

} // verus!
