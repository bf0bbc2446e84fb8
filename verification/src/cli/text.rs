//! Options of the text subcommands: sign, verify, generate, encrypt, decrypt.

use std::str::FromStr;
use vstd::prelude::*;

use crate::error::ErrorKind;
use crate::process::b64::bytes_outcome;
use crate::process::text::{
    decrypt_text, decrypted_text, encrypt_text, encrypted_text_with, is_ed25519_key_pair,
    key_set_of, key_set_view, process_text_key_generate, sign_text, signed_text, text_outcome,
    verified_text, verify_text, GeneratedKeySet, KEY_LEN,
};
use crate::strings::{lowercase, str_same, to_lowercase};

verus! {

/// The text subcommands.
#[derive(Debug, Clone, PartialEq, Eq)]
pub enum TextSubCommand {
    /// Sign content and show the signature.
    Sign(TextSignOpts),
    /// Check a signature against content.
    Verify(TextVerifyOpts),
    /// Generate a key for the keyed hash, or an Ed25519 key pair.
    Generate(KeyGenerateOpts),
    /// Encrypt content and show the ciphertext.
    Encrypt(EncryptOpts),
    /// Decrypt a ciphertext and show the content.
    Decrypt(DecryptOpts),
}

/// What to sign, with which key, under which scheme.
#[derive(Debug, Clone, PartialEq, Eq)]
pub struct TextSignOpts {
    /// The file that holds the content, or `-` for standard input.
    pub input: String,
    /// The file that holds the key.
    pub key: String,
    /// The signing scheme.
    pub format: TextSignFormat,
}

/// What to verify, against which signature, with which key.
#[derive(Debug, Clone, PartialEq, Eq)]
pub struct TextVerifyOpts {
    /// The file that holds the content, or `-` for standard input.
    pub input: String,
    /// The file that holds the key.
    pub key: String,
    /// The signature, as URL-safe unpadded base64.
    pub sig: String,
    /// The signing scheme.
    pub format: TextSignFormat,
}

/// Which keys to generate, and where to put them.
#[derive(Debug, Clone, PartialEq, Eq)]
pub struct KeyGenerateOpts {
    /// The signing scheme that the keys are for.
    pub format: TextSignFormat,
    /// The directory that receives one file per key.
    pub output_path: String,
}

/// What to encrypt, with which key.
#[derive(Debug, Clone, PartialEq, Eq)]
pub struct EncryptOpts {
    /// The file that holds the content, or `-` for standard input.
    pub input: String,
    /// The file that holds the key.
    pub key: String,
}

/// What to decrypt, with which key.
#[derive(Debug, Clone, PartialEq, Eq)]
pub struct DecryptOpts {
    /// The file that holds the ciphertext text, or `-` for standard input.
    pub input: String,
    /// The file that holds the key.
    pub key: String,
}

/// The signing scheme of a text operation.
#[derive(Clone, Copy, Debug, PartialEq, Eq, Structural)]
pub enum TextSignFormat {
    /// A keyed BLAKE3 hash: one shared 32-byte key signs and verifies.
    Blake3,
    /// An Ed25519 signature: a 32-byte seed signs, the 32-byte public key verifies.
    Ed25519,
}

impl TextSignFormat {
    /// The scheme that a lower-case name stands for.
    pub open spec fn named(name: Seq<char>) -> Option<TextSignFormat> {
        if name == "blake3"@ {
            Some(TextSignFormat::Blake3)
        } else if name == "ed25519"@ {
            Some(TextSignFormat::Ed25519)
        } else {
            None
        }
    }

    /// Looks a scheme up by its exact lower-case name.
    pub fn from_name(name: &str) -> (format: Option<TextSignFormat>)
        ensures
            format == TextSignFormat::named(name@),
    {
        if str_same(name, "blake3") {
            Some(TextSignFormat::Blake3)
        } else if str_same(name, "ed25519") {
            Some(TextSignFormat::Ed25519)
        } else {
            None
        }
    }
}

/// What `parse_text_sign_format` answers for `text`: the scheme that its
/// lower-case form names, or `InvalidFormat`.
pub open spec fn parsed_text_sign_format(text: Seq<char>) -> Result<TextSignFormat, ErrorKind> {
    match TextSignFormat::named(lowercase(text)) {
        Some(format) => Ok(format),
        None => Err(ErrorKind::InvalidFormat),
    }
}

/// Reads a signing scheme selector, in any letter case.
pub fn parse_text_sign_format(format: &str) -> (result: Result<TextSignFormat, ErrorKind>)
    ensures
        result == parsed_text_sign_format(format@),
{
    let lower = to_lowercase(format);
    match TextSignFormat::from_name(lower.as_str()) {
        Some(format) => Ok(format),
        None => Err(ErrorKind::InvalidFormat),
    }
}

impl FromStr for TextSignFormat {
    type Err = ErrorKind;

    /// Reads the selector as `parse_text_sign_format` does: in any letter case, with
    /// `InvalidFormat` for a name that is none of the formats.
    fn from_str(s: &str) -> (result: Result<Self, Self::Err>)
        ensures
            result == parsed_text_sign_format(s@),
    {
        parse_text_sign_format(s)
    }
}

impl TextSignOpts {
    /// Signs `content` with `key` under the chosen scheme; the signature comes
    /// back as URL-safe unpadded base64.
    pub fn execute(&self, content: &[u8], key: &[u8]) -> (result: Result<String, ErrorKind>)
        ensures
            text_outcome(result) == signed_text(content@, key@, self.format),
    {
        sign_text(content, key, self.format)
    }
}

impl TextVerifyOpts {
    /// Checks the signature held in `sig` against `content` and `key`.
    pub fn execute(&self, content: &[u8], key: &[u8]) -> (result: Result<bool, ErrorKind>)
        ensures
            result == verified_text(content@, key@, self.sig@, self.format),
    {
        verify_text(content, key, self.sig.as_str(), self.format)
    }

    /// The line that reports the outcome of a verification.
    pub fn report(verified: bool) -> (line: &'static str)
        ensures
            line@ == if verified {
                "✓ Signature verified"@
            } else {
                "⚠ Signature not verified"@
            },
    {
        if verified {
            "✓ Signature verified"
        } else {
            "⚠ Signature not verified"
        }
    }
}

impl KeyGenerateOpts {
    /// Generates the keys of the chosen scheme, each with the file name to
    /// store it under.
    pub fn execute(&self) -> (result: Result<GeneratedKeySet, ErrorKind>)
        ensures
            match result {
                Ok(keys) => exists|seed: Seq<u8>|
                    seed.len() == KEY_LEN && key_set_view(keys) == #[trigger] key_set_of(
                        self.format,
                        seed,
                    ),
                Err(e) => e == ErrorKind::CryptoError,
            },
            result matches Ok(keys) ==> match self.format {
                TextSignFormat::Blake3 => keys@.len() == 1 && keys@[0].1@.len() == KEY_LEN,
                TextSignFormat::Ed25519 => keys@.len() == 2 && is_ed25519_key_pair(
                    keys@[0].1@,
                    keys@[1].1@,
                ),
            },
    {
        process_text_key_generate(self.format)
    }
}

impl EncryptOpts {
    /// Encrypts `content` under `key`; the ciphertext comes back as URL-safe
    /// unpadded base64, and decrypts to `content` under the same key.
    pub fn execute(&self, content: &[u8], key: &[u8]) -> (result: Result<String, ErrorKind>)
        ensures
            match result {
                Ok(text) => {
                    &&& exists|nonce: Seq<u8>| #[trigger]
                        encrypted_text_with(content@, key@, nonce) == Ok::<Seq<char>, ErrorKind>(
                            text@,
                        )
                    &&& decrypted_text(text@, key@) == Ok::<Seq<u8>, ErrorKind>(content@)
                },
                Err(e) => e == if key@.len() != KEY_LEN {
                    ErrorKind::InvalidKeyLength
                } else {
                    ErrorKind::CryptoError
                },
            },
            key@.len() != KEY_LEN || content@.len() / 64 >= 0xFFFF_FFFF ==> result is Err,
    {
        encrypt_text(content, key)
    }
}

impl DecryptOpts {
    /// Decrypts `ciphertext_text`, URL-safe unpadded base64, under `key`.
    pub fn execute(&self, ciphertext_text: &str, key: &[u8]) -> (result: Result<Vec<u8>, ErrorKind>)
        ensures
            bytes_outcome(result) == decrypted_text(ciphertext_text@, key@),
    {
        decrypt_text(ciphertext_text, key)
    }
}

} // verus!
