//! The failures that the library reports.

use vstd::prelude::*;
use vstd::string::*;

verus! {

/// Why an operation was refused.
///
/// A signature that does not match is never an error: verification answers
/// `false`. Errors are kept for inputs that cannot be processed at all.
#[derive(Clone, Copy, Debug, PartialEq, Eq, Structural)]
pub enum ErrorKind {
    /// A source or destination could not be read or written. The library does
    /// no I/O itself; callers that load content or keys report this kind.
    IoError,
    /// The key does not have the length that the selected scheme demands.
    InvalidKeyLength,
    /// The format selector names no known format.
    InvalidFormat,
    /// Text handed in at a boundary is not well-formed base64.
    EncodingError,
    /// The cryptographic primitive refused its input, as for a ciphertext
    /// whose authentication tag does not match.
    CryptoError,
}

impl ErrorKind {
    /// The text that `message` returns for each kind.
    pub open spec fn message_spec(self) -> Seq<char> {
        match self {
            ErrorKind::IoError => "I/O error"@,
            ErrorKind::InvalidKeyLength => "invalid key length"@,
            ErrorKind::InvalidFormat => "invalid format"@,
            ErrorKind::EncodingError => "malformed base64 text"@,
            ErrorKind::CryptoError => "cryptographic operation failed"@,
        }
    }

    /// A short description for the error stream.
    pub fn message(&self) -> (text: String)
        ensures
            text@ == self.message_spec(),
    {
        match self {
            ErrorKind::IoError => String::from_str("I/O error"),
            ErrorKind::InvalidKeyLength => String::from_str("invalid key length"),
            ErrorKind::InvalidFormat => String::from_str("invalid format"),
            ErrorKind::EncodingError => String::from_str("malformed base64 text"),
            ErrorKind::CryptoError => String::from_str("cryptographic operation failed"),
        }
    }
}

} // verus!
