//! Options of the base64 subcommands.

use std::str::FromStr;
use vstd::prelude::*;

use crate::error::ErrorKind;
use crate::process::b64::{bytes_outcome, decode_outcome, encoded, process_decode, process_encode};
use crate::strings::{lowercase, str_same, to_lowercase};

verus! {

/// The base64 subcommands.
#[derive(Debug, Clone, PartialEq, Eq)]
pub enum Base64SubCommand {
    /// Encode input as base64.
    Encode(Base64EncodeOpts),
    /// Decode base64 input.
    Decode(Base64DecodeOpts),
}

/// What to encode, and in which dialect.
#[derive(Debug, Clone, PartialEq, Eq)]
pub struct Base64EncodeOpts {
    /// The file to read, or `-` for standard input.
    pub input: String,
    /// The dialect to write.
    pub format: Base64Format,
}

/// What to decode, and from which dialect.
#[derive(Debug, Clone, PartialEq, Eq)]
pub struct Base64DecodeOpts {
    /// The file to read, or `-` for standard input.
    pub input: String,
    /// The dialect to read.
    pub format: Base64Format,
}

/// Which base64 dialect to read or write.
#[derive(Clone, Copy, Debug, PartialEq, Eq, Structural)]
pub enum Base64Format {
    /// The standard alphabet (`+`, `/`), padded with `=` to a multiple of four.
    Standard,
    /// The URL-safe alphabet (`-`, `_`), without padding.
    UrlSafe,
}

impl Base64Format {
    /// The format that a lower-case name stands for.
    pub open spec fn named(name: Seq<char>) -> Option<Base64Format> {
        if name == "standard"@ {
            Some(Base64Format::Standard)
        } else if name == "urlsafe"@ {
            Some(Base64Format::UrlSafe)
        } else {
            None
        }
    }

    /// Looks a format up by its exact lower-case name.
    pub fn from_name(name: &str) -> (format: Option<Base64Format>)
        ensures
            format == Base64Format::named(name@),
    {
        if str_same(name, "standard") {
            Some(Base64Format::Standard)
        } else if str_same(name, "urlsafe") {
            Some(Base64Format::UrlSafe)
        } else {
            None
        }
    }
}

/// What `parse_base64_format` answers for `text`: the format that its
/// lower-case form names, or `InvalidFormat`.
pub open spec fn parsed_base64_format(text: Seq<char>) -> Result<Base64Format, ErrorKind> {
    match Base64Format::named(lowercase(text)) {
        Some(format) => Ok(format),
        None => Err(ErrorKind::InvalidFormat),
    }
}

/// Reads a base64 format selector, in any letter case.
pub fn parse_base64_format(format: &str) -> (result: Result<Base64Format, ErrorKind>)
    ensures
        result == parsed_base64_format(format@),
{
    let lower = to_lowercase(format);
    match Base64Format::from_name(lower.as_str()) {
        Some(format) => Ok(format),
        None => Err(ErrorKind::InvalidFormat),
    }
}

impl FromStr for Base64Format {
    type Err = ErrorKind;

    /// Reads the selector as `parse_base64_format` does: in any letter case, with
    /// `InvalidFormat` for a name that is none of the formats.
    fn from_str(s: &str) -> (result: Result<Self, Self::Err>)
        ensures
            result == parsed_base64_format(s@),
    {
        parse_base64_format(s)
    }
}

impl Base64EncodeOpts {
    /// The base64 text of `content` in the chosen dialect.
    pub fn execute(&self, content: &[u8]) -> (text: String)
        ensures
            text@ == encoded(self.format, content@),
    {
        process_encode(content, self.format)
    }
}

impl Base64DecodeOpts {
    /// The bytes that `text` stands for in the chosen dialect, or
    /// `EncodingError`.
    pub fn execute(&self, text: &str) -> (result: Result<Vec<u8>, ErrorKind>)
        ensures
            bytes_outcome(result) == decode_outcome(self.format, text@),
    {
        process_decode(text, self.format)
    }
}

} // verus!
