use vstd::prelude::*;

verus! {

/// Why a request of this library was turned down.
#[derive(Debug, Clone, Copy, PartialEq, Eq)]
pub enum TextError {
    /// The format token is neither `blake3` nor `ed25519`.
    FormatParse,
    /// The key material is too short, has the wrong length, or is no curve point.
    KeyLength,
    /// The signature does not have the algorithm's fixed width.
    SignatureLength,
    /// A named file or directory is not there to be read or written.
    Io,
}

impl TextError {
    /// A short human-readable description of the error.
    pub fn message(&self) -> (text: &'static str)
        ensures
            text@ == match *self {
                TextError::FormatParse => "Invalid text sign format"@,
                TextError::KeyLength => "Invalid key length or key material"@,
                TextError::SignatureLength => "Invalid signature length"@,
                TextError::Io => "File or directory does not exist"@,
            },
    {
        match self {
            TextError::FormatParse => "Invalid text sign format",
            TextError::KeyLength => "Invalid key length or key material",
            TextError::SignatureLength => "Invalid signature length",
            TextError::Io => "File or directory does not exist",
        }
    }
}

} // verus!
