//! The asymmetric backend: Ed25519, with a signer that holds the private
//! seed and a verifier that holds only the public key.

use vstd::prelude::*;
use crate::bytes::head_array;
use crate::bytes::to_vec;
use crate::capability::TextSigner;
use crate::capability::TextVerifier;
use crate::error::TextError;
use crate::keyset::is_ed25519_key_pair;
use crate::keyset::is_ed25519_key_set;
use crate::keyset::KeyFile;
use crate::primitives::ed25519_decodes;
use crate::primitives::ed25519_derive_public;
use crate::primitives::ed25519_key_decodes;
use crate::primitives::ed25519_public_key;
use crate::primitives::ed25519_sign;
use crate::primitives::ed25519_signature;
use crate::primitives::ed25519_verifies;
use crate::primitives::ed25519_verify;
use crate::primitives::random_seed;

verus! {

/// Number of bytes in a private seed and in a public key.
pub const ED25519_KEY_LEN: usize = 32;

/// Number of bytes in a signature.
pub const ED25519_SIGNATURE_LEN: usize = 64;

/// An Ed25519 signer: a key pair, made of the 32-byte private seed and the
/// public key derived from it.
pub struct Ed25519Signer {
    seed: [u8; 32],
    public: [u8; 32],
}

/// An Ed25519 verifier: a 32-byte public key that decodes to a curve point.
pub struct Ed25519Verifier {
    key: [u8; 32],
}

impl Ed25519Signer {
    /// The 32 bytes of the private seed.
    pub closed spec fn seed(&self) -> Seq<u8> {
        self.seed@
    }

    /// The public key that verifies what this signer signs.
    pub open spec fn public_key(&self) -> Seq<u8> {
        ed25519_public_key(self.seed())
    }

    /// What holds of every signer: its public key is the one derived from
    /// its seed, and decodes to a curve point.
    #[verifier::type_invariant]
    pub closed spec fn well_formed(&self) -> bool {
        &&& self.public@ == ed25519_public_key(self.seed@)
        &&& ed25519_key_decodes(self.public@)
    }

    /// A signer from its private seed, which is expanded into the key pair.
    pub fn new(key: &[u8; 32]) -> (signer: Self)
        ensures
            signer.seed() == key@,
    {
        Ed25519Signer { seed: *key, public: ed25519_derive_public(key) }
    }

    /// A signer whose seed is the first 32 bytes of `key`; key material of
    /// fewer than 32 bytes is refused.
    pub fn try_new(key: &[u8]) -> (made: Result<Self, TextError>)
        ensures
            made is Err <==> key@.len() < 32,
            made is Err ==> made->Err_0 == TextError::KeyLength,
            made is Ok ==> made->Ok_0.seed() == key@.subrange(0, 32),
    {
        if key.len() < ED25519_KEY_LEN {
            return Err(TextError::KeyLength);
        }
        let seed = head_array::<32>(key);
        Ok(Ed25519Signer::new(&seed))
    }

    /// The bytes of the private seed.
    pub fn seed_bytes(&self) -> (seed: [u8; 32])
        ensures
            seed@ == self.seed(),
    {
        self.seed
    }

    /// The bytes of the public key derived from the seed. They always decode
    /// to a curve point, so a verifier can be made of them.
    pub fn public_key_bytes(&self) -> (key: [u8; 32])
        ensures
            key@ == self.public_key(),
            ed25519_key_decodes(key@),
    {
        proof {
            use_type_invariant(self);
        }
        self.public
    }

    /// The verifier for what this signer signs.
    pub fn to_verifier(&self) -> (made: Ed25519Verifier)
        ensures
            made.key() == self.public_key(),
    {
        Ed25519Verifier::new(self.public_key_bytes())
    }

    /// The key pair of this signer as key files: the private seed for
    /// `ed25519.sk`, the public key for `ed25519.pk`.
    pub fn key_files(&self) -> (files: Vec<KeyFile>)
        ensures
            is_ed25519_key_pair(files@, self.seed()),
            is_ed25519_key_set(files@),
    {
        let public = self.public_key_bytes();
        let mut files: Vec<KeyFile> = Vec::new();
        files.push(KeyFile { name: "ed25519.sk", bytes: to_vec(&self.seed) });
        files.push(KeyFile { name: "ed25519.pk", bytes: to_vec(&public) });
        files
    }

    /// A fresh key pair from a seed drawn from the operating system's random
    /// source.
    pub fn generate() -> (files: Vec<KeyFile>)
        ensures
            is_ed25519_key_set(files@),
    {
        let seed = random_seed();
        Ed25519Signer::new(&seed).key_files()
    }
}

impl TextSigner for Ed25519Signer {
    /// The Ed25519 signature of `content` under the seed.
    open spec fn signature_of(&self, content: Seq<u8>) -> Seq<u8> {
        ed25519_signature(self.seed(), content)
    }

    /// The 64-byte signature of the whole of `content`. It passes
    /// verification under this signer's public key, which is 32 bytes long
    /// and decodes to a curve point.
    fn sign(&self, content: &[u8]) -> (sig: Result<Vec<u8>, TextError>)
        ensures
            sig.unwrap()@.len() == 64,
            self.public_key().len() == 32,
            ed25519_key_decodes(self.public_key()),
            ed25519_verifies(self.public_key(), content@, sig.unwrap()@),
    {
        proof {
            use_type_invariant(self);
        }
        let signature = ed25519_sign(&self.seed, content);
        Ok(to_vec(&signature))
    }
}

impl Ed25519Verifier {
    /// The 32 bytes of the public key.
    pub closed spec fn key(&self) -> Seq<u8> {
        self.key@
    }

    /// What holds of every verifier: its key decodes to a curve point.
    #[verifier::type_invariant]
    pub closed spec fn well_formed(&self) -> bool {
        ed25519_key_decodes(self.key@)
    }

    /// A verifier from a public key that is known to decode.
    pub fn new(key: [u8; 32]) -> (verifier: Self)
        requires
            ed25519_key_decodes(key@),
        ensures
            verifier.key() == key@,
    {
        Ed25519Verifier { key }
    }

    /// A verifier from the bytes of a public key: exactly 32 bytes that
    /// decode to a curve point. Anything else is refused.
    pub fn try_new(key: &[u8]) -> (made: Result<Self, TextError>)
        ensures
            made is Ok <==> key@.len() == 32 && ed25519_key_decodes(key@),
            made is Err ==> made->Err_0 == TextError::KeyLength,
            made is Ok ==> made->Ok_0.key() == key@,
    {
        if key.len() != ED25519_KEY_LEN {
            return Err(TextError::KeyLength);
        }
        let bytes = head_array::<32>(key);
        assert(key@.subrange(0, 32) =~= key@);
        if !ed25519_decodes(&bytes) {
            return Err(TextError::KeyLength);
        }
        Ok(Ed25519Verifier::new(bytes))
    }

    /// The bytes of the public key. They decode to a curve point.
    pub fn key_bytes(&self) -> (key: [u8; 32])
        ensures
            key@ == self.key(),
            ed25519_key_decodes(key@),
    {
        proof {
            use_type_invariant(self);
        }
        self.key
    }
}

impl TextVerifier for Ed25519Verifier {
    /// A signature that is not 64 bytes long cannot be checked; any other
    /// passes or fails by the Ed25519 verification equation.
    open spec fn verdict(&self, content: Seq<u8>, sig: Seq<u8>) -> Result<bool, TextError> {
        if sig.len() != 64 {
            Err(TextError::SignatureLength)
        } else {
            Ok(ed25519_verifies(self.key(), content, sig))
        }
    }

    /// Checks `sig` against the whole of `content` under the public key.
    fn verify(&self, content: &[u8], sig: &[u8]) -> (outcome: Result<bool, TextError>) {
        if sig.len() != ED25519_SIGNATURE_LEN {
            return Err(TextError::SignatureLength);
        }
        let signature = head_array::<64>(sig);
        proof {
            use_type_invariant(self);
            assert(sig@.subrange(0, 64) =~= sig@);
        }
        Ok(ed25519_verify(&self.key, content, &signature))
    }
}

} // verus!
