//! What key generation hands out: key files, each a name and its bytes.

use vstd::prelude::*;
use crate::genpass::charset_of;
use crate::primitives::ed25519_key_decodes;
use crate::primitives::ed25519_public_key;

verus! {

/// One generated key: the name of the file it belongs in, and its raw bytes.
#[derive(Debug)]
pub struct KeyFile {
    pub name: &'static str,
    pub bytes: Vec<u8>,
}

/// Whether `files` is what generating a MAC key gives: one file named
/// `blake3.txt` that holds 32 printable characters.
pub open spec fn is_blake3_key_set(files: Seq<KeyFile>) -> bool {
    &&& files.len() == 1
    &&& files[0].name@ == "blake3.txt"@
    &&& files[0].bytes@.len() == 32
    &&& forall|i: int|
        0 <= i < 32 ==> charset_of(true, true, true, true).contains(#[trigger] files[0].bytes@[i])
}

/// Whether `files` is the key pair that belongs to `seed`: the seed itself
/// under `ed25519.sk`, then its public key under `ed25519.pk`.
pub open spec fn is_ed25519_key_pair(files: Seq<KeyFile>, seed: Seq<u8>) -> bool {
    &&& files.len() == 2
    &&& files[0].name@ == "ed25519.sk"@
    &&& files[0].bytes@ == seed
    &&& files[1].name@ == "ed25519.pk"@
    &&& files[1].bytes@ == ed25519_public_key(seed)
}

/// Whether `files` is what generating an Ed25519 key pair gives: a 32-byte
/// private seed, and the 32-byte public key derived from it, which decodes
/// to a curve point.
pub open spec fn is_ed25519_key_set(files: Seq<KeyFile>) -> bool {
    &&& files.len() == 2
    &&& is_ed25519_key_pair(files, files[0].bytes@)
    &&& files[0].bytes@.len() == 32
    &&& files[1].bytes@.len() == 32
    &&& ed25519_key_decodes(files[1].bytes@)
}

} // verus!
