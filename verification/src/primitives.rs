//! The cryptographic primitives, as the `blake3` and `ed25519-dalek` crates
//! compute them. Nothing in this file is proved: each function states what the
//! library takes on trust from the crate it calls.

use vstd::prelude::*;
use ed25519_dalek::Signer;
use ed25519_dalek::Verifier;
use rand::Rng;

verus! {

/// The keyed BLAKE3 digest of `content` under the 32-byte `key`.
pub uninterp spec fn blake3_keyed_hash(key: Seq<u8>, content: Seq<u8>) -> Seq<u8>;

/// The Ed25519 public key that belongs to the 32-byte private `seed`.
pub uninterp spec fn ed25519_public_key(seed: Seq<u8>) -> Seq<u8>;

/// The Ed25519 signature of `content` under the 32-byte private `seed`.
pub uninterp spec fn ed25519_signature(seed: Seq<u8>, content: Seq<u8>) -> Seq<u8>;

/// Whether the 32 bytes of `key` decode to a point of the curve.
pub uninterp spec fn ed25519_key_decodes(key: Seq<u8>) -> bool;

/// Whether the 64-byte `sig` passes Ed25519 verification for `content`
/// under the public `key`.
pub uninterp spec fn ed25519_verifies(key: Seq<u8>, content: Seq<u8>, sig: Seq<u8>) -> bool;

/// Calls `blake3::keyed_hash` and copies the digest out of the `Hash` it
/// returns. Trusted: the digest is a function of key and content alone.
#[verifier::external_body]
pub(crate) fn keyed_hash(key: &[u8; 32], content: &[u8]) -> (digest: [u8; 32])
    ensures
        digest@ == blake3_keyed_hash(key@, content@),
{
    *::blake3::keyed_hash(key, content).as_bytes()
}

/// Builds an `ed25519_dalek::SigningKey` from the seed and calls
/// `Signer::sign` on it. Trusted: signing is deterministic in seed and
/// content, and, as the crate documents of a signing key and its
/// `verifying_key()`, the signature passes verification under the public key
/// that belongs to the seed.
#[verifier::external_body]
pub(crate) fn ed25519_sign(seed: &[u8; 32], content: &[u8]) -> (sig: [u8; 64])
    ensures
        sig@ == ed25519_signature(seed@, content@),
        ed25519_verifies(ed25519_public_key(seed@), content@, sig@),
{
    ed25519_dalek::SigningKey::from_bytes(seed).sign(content).to_bytes()
}

/// Builds an `ed25519_dalek::SigningKey` from the seed and calls
/// `SigningKey::verifying_key` on it. Trusted: the public key is a function
/// of the seed alone, and its bytes decode to a point of the curve.
#[verifier::external_body]
pub(crate) fn ed25519_derive_public(seed: &[u8; 32]) -> (key: [u8; 32])
    ensures
        key@ == ed25519_public_key(seed@),
        ed25519_key_decodes(key@),
{
    ed25519_dalek::SigningKey::from_bytes(seed).verifying_key().to_bytes()
}

/// Calls `ed25519_dalek::VerifyingKey::from_bytes` and reports whether it
/// accepted the bytes. Trusted: acceptance depends on the bytes alone.
#[verifier::external_body]
pub(crate) fn ed25519_decodes(key: &[u8; 32]) -> (ok: bool)
    ensures
        ok == ed25519_key_decodes(key@),
{
    ed25519_dalek::VerifyingKey::from_bytes(key).is_ok()
}

/// Calls `Verifier::verify` on the `ed25519_dalek::VerifyingKey` made of
/// `key`, with the `ed25519_dalek::Signature` made of `sig`. Trusted: the
/// verdict depends on key, content and signature alone.
#[verifier::external_body]
pub(crate) fn ed25519_verify(key: &[u8; 32], content: &[u8], sig: &[u8; 64]) -> (ok: bool)
    requires
        ed25519_key_decodes(key@),
    ensures
        ok == ed25519_verifies(key@, content@, sig@),
{
    match ed25519_dalek::VerifyingKey::from_bytes(key) {
        Ok(point) => point.verify(content, &ed25519_dalek::Signature::from_bytes(sig)).is_ok(),
        Err(_) => false,
    }
}

/// Calls `Rng::gen_range` on `rand::thread_rng()` with the range from zero up
/// to, and without, `bound`. Trusted: the number drawn lies in that range.
/// Nothing is said of which number it is.
#[verifier::external_body]
pub(crate) fn random_below(bound: usize) -> (index: usize)
    requires
        bound > 0,
    ensures
        index < bound,
{
    rand::thread_rng().gen_range(0..bound)
}

/// Calls `ed25519_dalek::SigningKey::generate` with the operating system's
/// random source, `rand::rngs::OsRng`, and hands out the 32 bytes of the seed
/// it drew. Nothing is said of which bytes they are.
#[verifier::external_body]
pub(crate) fn random_seed() -> (seed: [u8; 32]) {
    ed25519_dalek::SigningKey::generate(&mut rand::rngs::OsRng).to_bytes()
}

} // verus!
