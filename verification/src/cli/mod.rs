//! The options of each subcommand and the checks applied to their values.

mod base64;
mod csv;
mod genpass;
mod http;
mod jwt;
mod text;

use vstd::prelude::*;

use crate::strings::{joined, owned, str_same};

pub use self::base64::{
    parse_base64_format, parsed_base64_format, Base64DecodeOpts, Base64EncodeOpts, Base64Format,
    Base64SubCommand,
};
pub use self::csv::{CsvOpts, OutputFormat};
pub use self::genpass::{GenPassOpts, GeneratedPassword};
pub use self::http::{HttpServeOpts, HttpSubCommand};
pub use self::jwt::{
    duration_error_text, duration_number, duration_unit, has_unit, is_unit, parse_duration,
    parse_duration_bytes, parsed_duration, unit_seconds, JwtAlgorithm, JwtSubCommand, SignOpts,
    VerifyOpts,
};
pub use self::text::{
    parse_text_sign_format, parsed_text_sign_format, DecryptOpts, EncryptOpts, KeyGenerateOpts,
    TextSignFormat, TextSignOpts, TextSubCommand, TextVerifyOpts,
};

verus! {

/// The command line as a whole: one subcommand with its options.
#[derive(Debug, Clone, PartialEq, Eq)]
pub struct Opts {
    /// The subcommand to run.
    pub cmd: SubCommand,
}

/// The subcommands.
#[derive(Debug, Clone, PartialEq, Eq)]
pub enum SubCommand {
    /// Convert CSV to JSON or YAML.
    Csv(CsvOpts),
    /// Generate a random password.
    GenPass(GenPassOpts),
    /// Encode or decode base64.
    Base64(Base64SubCommand),
    /// Sign, verify, generate keys, encrypt or decrypt.
    Text(TextSubCommand),
    /// Serve a directory over HTTP.
    Http(HttpSubCommand),
}

/// The views of a result that carries text either way.
pub open spec fn checked_text(result: Result<String, String>) -> Result<Seq<char>, Seq<char>> {
    match result {
        Ok(text) => Ok(text@),
        Err(message) => Err(message@),
    }
}

/// Whether `filename` may serve as an input: `-`, which stands for standard
/// input, always may; any other name may if a file of that name exists.
pub open spec fn input_file_verdict(
    filename: Seq<char>,
    exists: bool,
) -> Result<Seq<char>, Seq<char>> {
    if filename == "-"@ || exists {
        Ok(filename)
    } else {
        Err("File not found: "@ + filename)
    }
}

/// Accepts `filename` as an input, given whether a file of that name exists:
/// `-`, which stands for standard input, is accepted in any case.
pub fn verify_input_file(filename: &str, exists: bool) -> (result: Result<String, String>)
    ensures
        checked_text(result) == input_file_verdict(filename@, exists),
{
    if str_same(filename, "-") || exists {
        Ok(owned(filename))
    } else {
        Err(joined("File not found: ", filename))
    }
}

/// Whether `path` may serve as a directory: it must exist and be one.
pub open spec fn path_verdict(
    path: Seq<char>,
    exists: bool,
    is_dir: bool,
) -> Result<Seq<char>, Seq<char>> {
    if exists && is_dir {
        Ok(path)
    } else {
        Err("Path not found: "@ + path)
    }
}

/// Accepts `path` as a directory, given whether it exists and whether it is
/// one.
pub fn verify_path(path: &str, exists: bool, is_dir: bool) -> (result: Result<String, String>)
    ensures
        checked_text(result) == path_verdict(path@, exists, is_dir),
{
    if exists && is_dir {
        Ok(owned(path))
    } else {
        Err(joined("Path not found: ", path))
    }
}

} // verus!
