//! The dispatcher: one request, one backend chosen by format, one answer.

use vstd::prelude::*;
use crate::capability::TextSigner;
use crate::capability::TextVerifier;
use crate::eddsa::Ed25519Signer;
use crate::eddsa::Ed25519Verifier;
use crate::error::TextError;
use crate::format::TextSignFormat;
use crate::keyset::is_blake3_key_set;
use crate::keyset::is_ed25519_key_set;
use crate::keyset::KeyFile;
use crate::mac::Blake3;
use crate::primitives::blake3_keyed_hash;
use crate::primitives::ed25519_key_decodes;
use crate::primitives::ed25519_public_key;
use crate::primitives::ed25519_signature;
use crate::primitives::ed25519_verifies;

verus! {

/// The part of the key material that signing uses: its first 32 bytes.
pub open spec fn signing_key_of(key: Seq<u8>) -> Seq<u8> {
    key.subrange(0, 32)
}

/// What signing `content` with `key` gives: key material of fewer than 32
/// bytes is refused; otherwise the signature of the whole content under
/// the first 32 bytes of the key.
pub open spec fn sign_outcome(
    format: TextSignFormat,
    key: Seq<u8>,
    content: Seq<u8>,
) -> Result<Seq<u8>, TextError> {
    if key.len() < 32 {
        Err(TextError::KeyLength)
    } else {
        match format {
            TextSignFormat::Blake3 => Ok(blake3_keyed_hash(signing_key_of(key), content)),
            TextSignFormat::Ed25519 => Ok(ed25519_signature(signing_key_of(key), content)),
        }
    }
}

/// What verifying `sig` against `content` with `key` gives. The MAC takes
/// the first 32 bytes of a key of at least 32, and accepts exactly the keyed
/// hash of the content. Ed25519 takes a public key of exactly 32 bytes that
/// decodes to a curve point and a signature of exactly 64 bytes, and accepts
/// by the verification equation.
pub open spec fn verify_outcome(
    format: TextSignFormat,
    key: Seq<u8>,
    content: Seq<u8>,
    sig: Seq<u8>,
) -> Result<bool, TextError> {
    match format {
        TextSignFormat::Blake3 => if key.len() < 32 {
            Err(TextError::KeyLength)
        } else {
            Ok(sig == blake3_keyed_hash(signing_key_of(key), content))
        },
        TextSignFormat::Ed25519 => if key.len() != 32 || !ed25519_key_decodes(key) {
            Err(TextError::KeyLength)
        } else if sig.len() != 64 {
            Err(TextError::SignatureLength)
        } else {
            Ok(ed25519_verifies(key, content, sig))
        },
    }
}

/// Whether an executable result is the outcome `expected`.
pub open spec fn is_outcome(
    got: Result<Vec<u8>, TextError>,
    expected: Result<Seq<u8>, TextError>,
) -> bool {
    match got {
        Ok(bytes) => expected == Ok::<Seq<u8>, TextError>(bytes@),
        Err(e) => expected == Err::<Seq<u8>, TextError>(e),
    }
}

/// Signs the whole of `content` with the backend that `format` names, made
/// of the key material `key`.
///
/// A MAC is 32 bytes long. An Ed25519 signature is 64 bytes long, and
/// verifying it against the same content with the public key that belongs
/// to the seed gives `true`.
pub fn process_text_sign(
    content: &[u8],
    key: &[u8],
    format: TextSignFormat,
) -> (signed: Result<Vec<u8>, TextError>)
    ensures
        is_outcome(signed, sign_outcome(format, key@, content@)),
        signed is Ok && format == TextSignFormat::Blake3 ==> signed->Ok_0@.len() == 32,
        signed is Ok && format == TextSignFormat::Ed25519 ==> signed->Ok_0@.len() == 64
            && verify_outcome(
            TextSignFormat::Ed25519,
            ed25519_public_key(signing_key_of(key@)),
            content@,
            signed->Ok_0@,
        ) == Ok::<bool, TextError>(true),
{
    match format {
        TextSignFormat::Blake3 => {
            match Blake3::try_new(key) {
                Ok(signer) => signer.sign(content),
                Err(e) => Err(e),
            }
        },
        TextSignFormat::Ed25519 => {
            match Ed25519Signer::try_new(key) {
                Ok(signer) => signer.sign(content),
                Err(e) => Err(e),
            }
        },
    }
}

/// Verifies `sig` against the whole of `content` with the backend that
/// `format` names, made of the key material `key`. A signature that does not
/// match is `Ok(false)`; only key material or a signature of the wrong shape
/// is an error.
pub fn process_text_verify(
    content: &[u8],
    key: &[u8],
    sig: &[u8],
    format: TextSignFormat,
) -> (outcome: Result<bool, TextError>)
    ensures
        outcome == verify_outcome(format, key@, content@, sig@),
{
    match format {
        TextSignFormat::Blake3 => {
            match Blake3::try_new(key) {
                Ok(verifier) => verifier.verify(content, sig),
                Err(e) => Err(e),
            }
        },
        TextSignFormat::Ed25519 => {
            match Ed25519Verifier::try_new(key) {
                Ok(verifier) => verifier.verify(content, sig),
                Err(e) => Err(e),
            }
        },
    }
}

/// Whether `files` is what key generation for `format` gives.
pub open spec fn is_key_set(format: TextSignFormat, files: Seq<KeyFile>) -> bool {
    match format {
        TextSignFormat::Blake3 => is_blake3_key_set(files),
        TextSignFormat::Ed25519 => is_ed25519_key_set(files),
    }
}

/// Fresh key material for `format`, as named key files. Generation never
/// fails.
pub fn process_key_generate(format: TextSignFormat) -> (made: Result<Vec<KeyFile>, TextError>)
    ensures
        made is Ok,
        is_key_set(format, made->Ok_0@),
{
    match format {
        TextSignFormat::Blake3 => Ok(Blake3::generate()),
        TextSignFormat::Ed25519 => Ok(Ed25519Signer::generate()),
    }
}

/// A MAC made with a key of at least 32 bytes is accepted under the same
/// key for the same content.
pub proof fn lemma_blake3_sign_then_verify(key: Seq<u8>, content: Seq<u8>)
    requires
        key.len() >= 32,
    ensures
        sign_outcome(TextSignFormat::Blake3, key, content) is Ok,
        verify_outcome(
            TextSignFormat::Blake3,
            key,
            content,
            sign_outcome(TextSignFormat::Blake3, key, content)->Ok_0,
        ) == Ok::<bool, TextError>(true),
{
}

/// Under the MAC, a signature is accepted for some content exactly if it is
/// what signing that content gives; so a MAC made for other content is
/// accepted only where the two keyed hashes collide.
pub proof fn lemma_blake3_accepts_only_own_mac(key: Seq<u8>, content: Seq<u8>, sig: Seq<u8>)
    requires
        key.len() >= 32,
    ensures
        verify_outcome(TextSignFormat::Blake3, key, content, sig) == Ok::<bool, TextError>(
            sign_outcome(TextSignFormat::Blake3, key, content) == Ok::<Seq<u8>, TextError>(sig),
        ),
{
}

/// The files of a generated key set have different names, so each can be
/// written to a file of its own.
pub proof fn lemma_key_names_differ(format: TextSignFormat, files: Seq<KeyFile>, i: int, j: int)
    requires
        is_key_set(format, files),
        0 <= i < j < files.len(),
    ensures
        files[i].name@ != files[j].name@,
{
    reveal_strlit("ed25519.sk");
    reveal_strlit("ed25519.pk");
    assert("ed25519.sk"@[8] != "ed25519.pk"@[8]);
}

/// Only the first 32 bytes of MAC key material count: two keys that agree
/// on them sign alike and verify alike.
pub proof fn lemma_blake3_key_tail_ignored(
    key: Seq<u8>,
    other: Seq<u8>,
    content: Seq<u8>,
    sig: Seq<u8>,
)
    requires
        key.len() >= 32,
        other.len() >= 32,
        key.subrange(0, 32) == other.subrange(0, 32),
    ensures
        sign_outcome(TextSignFormat::Blake3, key, content) == sign_outcome(
            TextSignFormat::Blake3,
            other,
            content,
        ),
        verify_outcome(TextSignFormat::Blake3, key, content, sig) == verify_outcome(
            TextSignFormat::Blake3,
            other,
            content,
            sig,
        ),
{
}

/// Key material of fewer than 32 bytes is refused: by both backends when
/// signing, and by both when verifying.
pub proof fn lemma_short_key_refused(
    format: TextSignFormat,
    key: Seq<u8>,
    content: Seq<u8>,
    sig: Seq<u8>,
)
    requires
        key.len() < 32,
    ensures
        sign_outcome(format, key, content) == Err::<Seq<u8>, TextError>(TextError::KeyLength),
        verify_outcome(format, key, content, sig) == Err::<bool, TextError>(TextError::KeyLength),
{
}

/// Generated key material is of the length its backend asks for: the MAC
/// key is accepted by signing and verifying, the Ed25519 seed by signing,
/// and the Ed25519 public key, which is the one derived from the seed, by
/// verifying.
pub proof fn lemma_generated_keys_usable(
    format: TextSignFormat,
    files: Seq<KeyFile>,
    content: Seq<u8>,
    sig: Seq<u8>,
)
    requires
        is_key_set(format, files),
    ensures
        sign_outcome(format, files[0].bytes@, content) is Ok,
        format == TextSignFormat::Blake3 ==> verify_outcome(format, files[0].bytes@, content, sig)
            is Ok,
        format == TextSignFormat::Ed25519 ==> files[1].bytes@ == ed25519_public_key(
            files[0].bytes@,
        ) && (verify_outcome(format, files[1].bytes@, content, sig) is Ok <==> sig.len() == 64),
{
}

} // verus!
