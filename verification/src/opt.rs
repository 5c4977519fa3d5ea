use vstd::prelude::*;
use core::str::FromStr;
use crate::error::CryptoError;

verus! {

/// The closed set of signing schemes: the format tag selects the
/// implementation, the key shape and the signature length.
#[derive(Clone, Copy, Debug, PartialEq, Eq, Structural)]
pub enum TextSignFormat {
    Blake3,
    Ed25519,
}

impl TextSignFormat {
    pub open spec fn as_str_spec(&self) -> Seq<char> {
        match self {
            TextSignFormat::Blake3 => "blake3"@,
            TextSignFormat::Ed25519 => "ed25519"@,
        }
    }

    /// The tag's name, as the command line spells it.
    pub fn as_str(&self) -> (r: &'static str)
        ensures
            r@ == self.as_str_spec(),
    {
        match self {
            TextSignFormat::Blake3 => "blake3",
            TextSignFormat::Ed25519 => "ed25519",
        }
    }
}

/// Relies on `str`'s `PartialEq`: two string slices are equal exactly
/// when they hold the same characters.
#[verifier::external_body]
fn str_eq(a: &str, b: &str) -> (r: bool)
    ensures
        r == (a@ == b@),
{
    a == b
}

pub open spec fn parse_format_spec(s: Seq<char>) -> Result<TextSignFormat, CryptoError> {
    if s == "blake3"@ {
        Ok(TextSignFormat::Blake3)
    } else if s == "ed25519"@ {
        Ok(TextSignFormat::Ed25519)
    } else {
        Err(CryptoError::InvalidFormat)
    }
}

/// Parse a format tag: `blake3` or `ed25519`.
pub fn parse_format(format: &str) -> (r: Result<TextSignFormat, CryptoError>)
    ensures
        r == parse_format_spec(format@),
{
    if str_eq(format, "blake3") {
        Ok(TextSignFormat::Blake3)
    } else if str_eq(format, "ed25519") {
        Ok(TextSignFormat::Ed25519)
    } else {
        Err(CryptoError::InvalidFormat)
    }
}

impl FromStr for TextSignFormat {
    type Err = CryptoError;

    fn from_str(value: &str) -> Result<Self, Self::Err> {
        parse_format(value)
    }
}

/// Relies on `std::path::Path::exists`: whether the path names an
/// existing file; what is on disk can change between calls, so nothing
/// is claimed of the result.
#[verifier::external_body]
fn path_exists(name: &str) -> (r: bool) {
    std::path::Path::new(name).exists()
}

/// Relies on `std::path::Path::{exists, is_dir}`: whether the path
/// names an existing directory; what is on disk can change between
/// calls, so nothing is claimed of the result.
#[verifier::external_body]
fn path_is_dir(name: &str) -> (r: bool) {
    let p = std::path::Path::new(name);
    p.exists() && p.is_dir()
}

/// Accept an input designator: `-` for standard input, else a path
/// that names an existing file.
pub fn verify_file(filename: &str) -> (r: Result<String, &'static str>)
    ensures
        r matches Ok(s) ==> s@ == filename@,
        r matches Err(e) ==> e@ == "File does not exist"@ && filename@ != "-"@,
        filename@ == "-"@ ==> r is Ok,
{
    if str_eq(filename, "-") || path_exists(filename) {
        Ok(filename.to_owned())
    } else {
        Err("File does not exist")
    }
}

/// Accept an output designator: a path that names an existing
/// directory.
pub fn verify_path(path: &str) -> (r: Result<String, &'static str>)
    ensures
        r matches Ok(s) ==> s@ == path@,
        r matches Err(e) ==> e@ == "Path does not exist or is not a directory"@,
{
    if path_is_dir(path) {
        Ok(path.to_owned())
    } else {
        Err("Path does not exist or is not a directory")
    }
}

/// Options of the `text sign` subcommand.
pub struct TextSignOpts {
    pub input: String,
    pub key: String,
    pub format: TextSignFormat,
}

/// Options of the `text verify` subcommand.
pub struct TextVerifyOpts {
    pub input: String,
    pub key: String,
    pub format: TextSignFormat,
    pub sig: String,
}

/// Options of the `text generate` subcommand.
pub struct TextKeyGenerateOpts {
    pub format: TextSignFormat,
    pub output: String,
}

/// Options of the `text encrypt` subcommand.
pub struct TextEncryptOpts {
    pub input: String,
    pub key: String,
}

/// Options of the `text decrypt` subcommand.
pub struct TextDecryptOpts {
    pub input: String,
    pub key: String,
}

/// The subcommands of the `text` command.
pub enum TextSubCommand {
    Sign(TextSignOpts),
    Verify(TextVerifyOpts),
    Generate(TextKeyGenerateOpts),
    Encrypt(TextEncryptOpts),
    Decrypt(TextDecryptOpts),
}

} // verus!
