//! Text signing and verification with two interchangeable algorithms: a keyed
//! BLAKE3 hash used as a MAC, and Ed25519 signatures.

pub mod bytes;
pub mod capability;
pub mod cli;
pub mod eddsa;
pub mod error;
pub mod format;
pub mod genpass;
pub mod keyset;
pub mod mac;
pub mod primitives;
pub mod text;

pub use crate::capability::TextSigner;
pub use crate::capability::TextVerifier;
pub use crate::cli::verify_file;
pub use crate::cli::verify_input_file;
pub use crate::cli::verify_path;
pub use crate::cli::GenPassOpts;
pub use crate::cli::KeyGenerateOpts;
pub use crate::cli::Opts;
pub use crate::cli::SubCommand;
pub use crate::cli::TextSignOpts;
pub use crate::cli::TextSubCommand;
pub use crate::cli::TextVerifyOpts;
pub use crate::eddsa::Ed25519Signer;
pub use crate::eddsa::Ed25519Verifier;
pub use crate::error::TextError;
pub use crate::format::parse_text_sign_format;
pub use crate::format::TextSignFormat;
pub use crate::genpass::process_genpass;
pub use crate::keyset::KeyFile;
pub use crate::mac::Blake3;
pub use crate::text::process_key_generate;
pub use crate::text::process_text_sign;
pub use crate::text::process_text_verify;
