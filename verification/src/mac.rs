//! The symmetric backend: a keyed BLAKE3 hash used as a MAC.

use vstd::prelude::*;
use crate::bytes::bytes_equal;
use crate::bytes::head_array;
use crate::bytes::to_vec;
use crate::capability::TextSigner;
use crate::capability::TextVerifier;
use crate::error::TextError;
use crate::genpass::process_genpass;
use crate::keyset::is_blake3_key_set;
use crate::keyset::KeyFile;
use crate::primitives::blake3_keyed_hash;
use crate::primitives::keyed_hash;

verus! {

/// Number of key bytes the MAC uses, and number of bytes in its output.
pub const BLAKE3_KEY_LEN: usize = 32;

/// A BLAKE3 MAC under a fixed 32-byte key: it both signs and verifies.
pub struct Blake3 {
    key: [u8; 32],
}

impl Blake3 {
    /// The 32 bytes of the key.
    pub closed spec fn key(&self) -> Seq<u8> {
        self.key@
    }

    /// A MAC under the given key.
    pub fn new(key: [u8; 32]) -> (mac: Self)
        ensures
            mac.key() == key@,
    {
        Blake3 { key }
    }

    /// A MAC under the first 32 bytes of `key`; key material of fewer than 32
    /// bytes is refused.
    pub fn try_new(key: &[u8]) -> (made: Result<Self, TextError>)
        ensures
            made is Err <==> key@.len() < 32,
            made is Err ==> made->Err_0 == TextError::KeyLength,
            made is Ok ==> made->Ok_0.key() == key@.subrange(0, 32),
    {
        if key.len() < BLAKE3_KEY_LEN {
            return Err(TextError::KeyLength);
        }
        Ok(Blake3::new(head_array::<32>(key)))
    }

    /// Fresh key material for the MAC: 32 random characters out of letters,
    /// digits and symbols, for the file `blake3.txt`.
    pub fn generate() -> (files: Vec<KeyFile>)
        ensures
            is_blake3_key_set(files@),
    {
        let key = process_genpass(32, true, true, true, true);
        let mut files: Vec<KeyFile> = Vec::new();
        files.push(KeyFile { name: "blake3.txt", bytes: key });
        files
    }
}

impl TextSigner for Blake3 {
    /// The keyed hash of `content` under this key.
    open spec fn signature_of(&self, content: Seq<u8>) -> Seq<u8> {
        blake3_keyed_hash(self.key(), content)
    }

    /// The 32-byte MAC of the whole of `content`.
    fn sign(&self, content: &[u8]) -> (sig: Result<Vec<u8>, TextError>)
        ensures
            sig.unwrap()@.len() == 32,
    {
        let digest = keyed_hash(&self.key, content);
        Ok(to_vec(&digest))
    }
}

impl TextVerifier for Blake3 {
    /// `sig` passes exactly if it is the keyed hash of `content`.
    open spec fn verdict(&self, content: Seq<u8>, sig: Seq<u8>) -> Result<bool, TextError> {
        Ok(sig == blake3_keyed_hash(self.key(), content))
    }

    /// Whether `sig` is the MAC of the whole of `content`. A signature of any
    /// other length than 32 is simply not it.
    fn verify(&self, content: &[u8], sig: &[u8]) -> (outcome: Result<bool, TextError>)
        ensures
            sig@.len() != 32 ==> outcome == Ok::<bool, TextError>(false),
    {
        let digest = keyed_hash(&self.key, content);
        Ok(bytes_equal(digest.as_slice(), sig))
    }
}

/// A MAC accepts what it has signed itself, and nothing else.
pub proof fn lemma_blake3_accepts_own_mac(mac: Blake3, content: Seq<u8>, sig: Seq<u8>)
    ensures
        mac.verdict(content, mac.signature_of(content)) == Ok::<bool, TextError>(true),
        mac.verdict(content, sig) == Ok::<bool, TextError>(sig == mac.signature_of(content)),
{
}

} // verus!
