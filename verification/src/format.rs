//! The closed set of signing algorithms and their tokens.

use vstd::prelude::*;
use crate::error::TextError;

verus! {

/// The algorithm that signs or verifies.
#[derive(Debug, Clone, Copy, PartialEq, Eq)]
pub enum TextSignFormat {
    /// The keyed BLAKE3 hash, a symmetric MAC.
    Blake3,
    /// The Ed25519 signature scheme.
    Ed25519,
}

/// The canonical token of a format.
pub open spec fn token_of(format: TextSignFormat) -> Seq<char> {
    match format {
        TextSignFormat::Blake3 => "blake3"@,
        TextSignFormat::Ed25519 => "ed25519"@,
    }
}

/// The format that a token names. Tokens are case-sensitive and have no
/// aliases.
pub open spec fn parse_token(token: Seq<char>) -> Result<TextSignFormat, TextError> {
    if token == "blake3"@ {
        Ok(TextSignFormat::Blake3)
    } else if token == "ed25519"@ {
        Ok(TextSignFormat::Ed25519)
    } else {
        Err(TextError::FormatParse)
    }
}

/// Reads a format from its token.
pub fn parse_text_sign_format(format: &str) -> (parsed: Result<TextSignFormat, TextError>)
    ensures
        parsed == parse_token(format@),
{
    let token = format.to_owned();
    if token.eq(&"blake3".to_owned()) {
        Ok(TextSignFormat::Blake3)
    } else if token.eq(&"ed25519".to_owned()) {
        Ok(TextSignFormat::Ed25519)
    } else {
        Err(TextError::FormatParse)
    }
}

impl TextSignFormat {
    /// The canonical token of this format.
    pub fn as_str(&self) -> (token: &'static str)
        ensures
            token@ == token_of(*self),
    {
        match self {
            TextSignFormat::Blake3 => "blake3",
            TextSignFormat::Ed25519 => "ed25519",
        }
    }

    /// The canonical token of this format, as an owned string.
    pub fn to_string(&self) -> (token: String)
        ensures
            token@ == token_of(*self),
    {
        self.as_str().to_owned()
    }
}

impl From<TextSignFormat> for &'static str {
    /// The canonical token of the format.
    fn from(format: TextSignFormat) -> (token: Self) {
        match format {
            TextSignFormat::Blake3 => "blake3",
            TextSignFormat::Ed25519 => "ed25519",
        }
    }
}

impl vstd::std_specs::convert::FromSpecImpl<TextSignFormat> for &'static str {
    /// The conversion is specified.
    open spec fn obeys_from_spec() -> bool {
        true
    }

    /// The token that the conversion gives.
    open spec fn from_spec(format: TextSignFormat) -> Self {
        match format {
            TextSignFormat::Blake3 => "blake3",
            TextSignFormat::Ed25519 => "ed25519",
        }
    }
}

impl std::str::FromStr for TextSignFormat {
    type Err = TextError;

    /// Reads a format from its token, as `parse_text_sign_format` does.
    fn from_str(s: &str) -> (parsed: Result<Self, TextError>)
        ensures
            parsed == parse_token(s@),
    {
        parse_text_sign_format(s)
    }
}

/// Every format is read back from its own token.
pub proof fn lemma_token_round_trip(format: TextSignFormat)
    ensures
        parse_token(token_of(format)) == Ok::<TextSignFormat, TextError>(format),
{
    reveal_strlit("blake3");
    reveal_strlit("ed25519");
    assert("blake3"@.len() != "ed25519"@.len());
}

/// A token is accepted exactly if it is one of the two canonical tokens, and
/// then the format it names gives the same token back; any other token is a
/// format error.
pub proof fn lemma_parse_accepts_only_canonical(token: Seq<char>)
    ensures
        parse_token(token) is Ok <==> (token == "blake3"@ || token == "ed25519"@),
        parse_token(token) is Ok ==> token_of(parse_token(token).unwrap()) == token,
        parse_token(token) is Err ==> parse_token(token).unwrap_err() == TextError::FormatParse,
{
}

} // verus!
