//! What every backend offers: signing a byte string, and verifying one
//! against a signature.

use vstd::prelude::*;
use crate::error::TextError;

verus! {

/// Something that signs the whole content it is given.
pub trait TextSigner {
    /// The signature this signer gives to `content`.
    spec fn signature_of(&self, content: Seq<u8>) -> Seq<u8>;

    /// Signs the whole of `content`. Signing never fails.
    fn sign(&self, content: &[u8]) -> (sig: Result<Vec<u8>, TextError>)
        ensures
            sig is Ok,
            sig.unwrap()@ == self.signature_of(content@),
    ;
}

/// Something that checks a signature against the whole content it is given.
pub trait TextVerifier {
    /// The outcome of checking `sig` against `content`: a verdict, or the
    /// reason why `sig` cannot be checked at all.
    spec fn verdict(&self, content: Seq<u8>, sig: Seq<u8>) -> Result<bool, TextError>;

    /// Checks `sig` against the whole of `content`. A signature that does not
    /// match is `Ok(false)`, never an error.
    fn verify(&self, content: &[u8], sig: &[u8]) -> (outcome: Result<bool, TextError>)
        ensures
            outcome == self.verdict(content@, sig@),
    ;
}

} // verus!
