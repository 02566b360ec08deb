//! The options of the command line, as plain values, and the checks that
//! accept or refuse them.

use vstd::prelude::*;
use crate::error::TextError;
use crate::format::TextSignFormat;

verus! {

/// The whole command line.
#[derive(Debug)]
pub struct Opts {
    pub cmd: SubCommand,
}

/// The commands.
#[derive(Debug)]
pub enum SubCommand {
    /// Generate a random password.
    GenPass(GenPassOpts),
    /// Sign, verify, or generate keys.
    Text(TextSubCommand),
}

/// Options of password generation.
#[derive(Debug)]
pub struct GenPassOpts {
    pub length: u8,
    pub uppercase: bool,
    pub lowercase: bool,
    pub numbers: bool,
    pub symbol: bool,
}

/// The commands on signed text.
#[derive(Debug)]
pub enum TextSubCommand {
    /// Sign a text with a private or shared key and give its signature.
    Sign(TextSignOpts),
    /// Verify a signature with a public or shared key.
    Verify(TextVerifyOpts),
    /// Generate a random MAC key or an Ed25519 key pair.
    Generate(KeyGenerateOpts),
}

/// Options of signing: where the content and the key are, and the algorithm.
#[derive(Debug)]
pub struct TextSignOpts {
    pub input: String,
    pub key: String,
    pub format: TextSignFormat,
}

/// Options of verifying: where the content and the key are, the signature
/// in its printed form, and the algorithm.
#[derive(Debug)]
pub struct TextVerifyOpts {
    pub input: String,
    pub key: String,
    pub sig: String,
    pub format: TextSignFormat,
}

/// Options of key generation: the algorithm, and the directory for the key
/// files.
#[derive(Debug)]
pub struct KeyGenerateOpts {
    pub format: TextSignFormat,
    pub output_path: String,
}

/// Accepts the name of an input: `-`, which stands for standard input, or
/// the name of a file that `exists`.
pub fn verify_file(filename: &str, exists: bool) -> (checked: Result<String, TextError>)
    ensures
        checked is Ok <==> (filename@ == "-"@ || exists),
        checked is Ok ==> checked->Ok_0@ == filename@,
        checked is Err ==> checked->Err_0 == TextError::Io,
{
    let name = filename.to_owned();
    if name.eq(&"-".to_owned()) || exists {
        Ok(name)
    } else {
        Err(TextError::Io)
    }
}

/// Accepts the name of an input file that `exists`; here `-` is a name like
/// any other.
pub fn verify_input_file(filename: &str, exists: bool) -> (checked: Result<String, TextError>)
    ensures
        checked is Ok <==> exists,
        checked is Ok ==> checked->Ok_0@ == filename@,
        checked is Err ==> checked->Err_0 == TextError::Io,
{
    if exists {
        Ok(filename.to_owned())
    } else {
        Err(TextError::Io)
    }
}

/// Accepts the name of an output directory: one that `exists` and is a
/// directory.
pub fn verify_path(path: &str, exists: bool, is_dir: bool) -> (checked: Result<String, TextError>)
    ensures
        checked is Ok <==> (exists && is_dir),
        checked is Ok ==> checked->Ok_0@ == path@,
        checked is Err ==> checked->Err_0 == TextError::Io,
{
    if exists && is_dir {
        Ok(path.to_owned())
    } else {
        Err(TextError::Io)
    }
}

} // verus!
