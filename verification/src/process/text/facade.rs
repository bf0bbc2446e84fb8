//! The operations at the text boundary: signatures and ciphertexts leave as
//! URL-safe unpadded base64, and are decoded from it before anything else is
//! looked at.

use vstd::prelude::*;

use super::cipher::{decrypted, encrypted_with, process_text_decrypt, process_text_encrypt};
use super::primitives::KEY_LEN;
use super::sign::{
    is_ed25519_key_pair, process_text_sign, process_text_verify, signature_len, signed, verified,
};
use crate::cli::{Base64Format, TextSignFormat};
use crate::error::ErrorKind;
use crate::process::b64::{
    bytes_outcome, decoded, encoded, encoded_len, lemma_decoded_encoded, lemma_encoded_len,
    process_decode, process_encode,
};

verus! {

/// The view of a result that carries text.
pub open spec fn text_outcome(result: Result<String, ErrorKind>) -> Result<Seq<char>, ErrorKind> {
    match result {
        Ok(text) => Ok(text@),
        Err(e) => Err(e),
    }
}

/// The signature of `content` as URL-safe unpadded base64.
pub open spec fn signed_text(
    content: Seq<u8>,
    key: Seq<u8>,
    format: TextSignFormat,
) -> Result<Seq<char>, ErrorKind> {
    match signed(content, key, format) {
        Ok(signature) => Ok(encoded(Base64Format::UrlSafe, signature)),
        Err(e) => Err(e),
    }
}

/// Whether `signature_text` verifies: `EncodingError` where it is not URL-safe
/// unpadded base64, else what `verified` says of the bytes it stands for.
pub open spec fn verified_text(
    content: Seq<u8>,
    key: Seq<u8>,
    signature_text: Seq<char>,
    format: TextSignFormat,
) -> Result<bool, ErrorKind> {
    match decoded(Base64Format::UrlSafe, signature_text) {
        Some(signature) => verified(content, key, signature, format),
        None => Err(ErrorKind::EncodingError),
    }
}

/// The content behind `ciphertext_text`: `EncodingError` where it is not
/// URL-safe unpadded base64, else what `decrypted` says of the bytes it
/// stands for.
pub open spec fn decrypted_text(
    ciphertext_text: Seq<char>,
    key: Seq<u8>,
) -> Result<Seq<u8>, ErrorKind> {
    match decoded(Base64Format::UrlSafe, ciphertext_text) {
        Some(ciphertext) => decrypted(ciphertext, key),
        None => Err(ErrorKind::EncodingError),
    }
}

/// The ciphertext of `content` with a given `nonce`, as URL-safe unpadded
/// base64.
pub open spec fn encrypted_text_with(
    content: Seq<u8>,
    key: Seq<u8>,
    nonce: Seq<u8>,
) -> Result<Seq<char>, ErrorKind> {
    match encrypted_with(content, key, nonce) {
        Ok(ciphertext) => Ok(encoded(Base64Format::UrlSafe, ciphertext)),
        Err(e) => Err(e),
    }
}

/// Signs `content` and returns the signature as URL-safe unpadded base64.
///
/// Fails with `InvalidKeyLength` exactly when `key` does not have 32 bytes. The
/// text has 43 characters for the keyed hash and 86 for Ed25519, and it
/// verifies: under `key` itself for the keyed hash, under every public key
/// paired with `key` for Ed25519.
pub fn sign_text(
    content: &[u8],
    key: &[u8],
    format: TextSignFormat,
) -> (result: Result<String, ErrorKind>)
    ensures
        text_outcome(result) == signed_text(content@, key@, format),
        result matches Ok(text) ==> text@.len() == encoded_len(
            Base64Format::UrlSafe,
            signature_len(format),
        ),
        result matches Ok(text) ==> format == TextSignFormat::Blake3 ==> verified_text(
            content@,
            key@,
            text@,
            format,
        ) == Ok::<bool, ErrorKind>(true),
        result matches Ok(text) ==> format == TextSignFormat::Ed25519 ==> forall|
            public_key: Seq<u8>,
        |
            is_ed25519_key_pair(key@, public_key) ==> #[trigger] verified_text(
                content@,
                public_key,
                text@,
                format,
            ) == Ok::<bool, ErrorKind>(true),
{
    match process_text_sign(content, key, format) {
        Ok(signature) => {
            proof {
                lemma_decoded_encoded(Base64Format::UrlSafe, signature@);
                lemma_encoded_len(Base64Format::UrlSafe, signature@);
            }
            Ok(process_encode(signature.as_slice(), Base64Format::UrlSafe))
        },
        Err(e) => Err(e),
    }
}

/// Tells whether `signature_text` is a valid signature of `content` under
/// `key`.
///
/// Fails with `EncodingError` when the text is not URL-safe unpadded base64,
/// and otherwise with `InvalidKeyLength` when `key` does not have 32 bytes. A
/// signature that decodes is answered with `true` or `false`, whatever its
/// length.
pub fn verify_text(
    content: &[u8],
    key: &[u8],
    signature_text: &str,
    format: TextSignFormat,
) -> (result: Result<bool, ErrorKind>)
    ensures
        result == verified_text(content@, key@, signature_text@, format),
{
    match process_decode(signature_text, Base64Format::UrlSafe) {
        Ok(signature) => process_text_verify(content, key, signature.as_slice(), format),
        Err(e) => Err(e),
    }
}

/// Encrypts `content` under `key` with a fresh nonce and returns the
/// ciphertext as URL-safe unpadded base64.
///
/// Fails with `InvalidKeyLength` exactly when `key` does not have 32 bytes,
/// and with `CryptoError` when the content reaches the cipher's limit or the
/// system's random source fails. A text that is returned decrypts to
/// `content` under the same key.
pub fn encrypt_text(content: &[u8], key: &[u8]) -> (result: Result<String, ErrorKind>)
    ensures
        match result {
            Ok(text) => {
                &&& exists|nonce: Seq<u8>| #[trigger]
                    encrypted_text_with(content@, key@, nonce) == Ok::<Seq<char>, ErrorKind>(text@)
                &&& decrypted_text(text@, key@) == Ok::<Seq<u8>, ErrorKind>(content@)
            },
            Err(e) => e == if key@.len() != KEY_LEN {
                ErrorKind::InvalidKeyLength
            } else {
                ErrorKind::CryptoError
            },
        },
        key@.len() != KEY_LEN || content@.len() / 64 >= 0xFFFF_FFFF ==> result is Err,
{
    match process_text_encrypt(content, key) {
        Ok(ciphertext) => {
            proof {
                lemma_decoded_encoded(Base64Format::UrlSafe, ciphertext@);
                let nonce = choose|nonce: Seq<u8>| #[trigger]
                    encrypted_with(content@, key@, nonce) == Ok::<Seq<u8>, ErrorKind>(ciphertext@);
                assert(encrypted_text_with(content@, key@, nonce) == Ok::<Seq<char>, ErrorKind>(
                    encoded(Base64Format::UrlSafe, ciphertext@),
                ));
            }
            Ok(process_encode(ciphertext.as_slice(), Base64Format::UrlSafe))
        },
        Err(e) => Err(e),
    }
}

/// Decrypts a ciphertext given as URL-safe unpadded base64.
///
/// Fails with `EncodingError` when the text is not URL-safe unpadded base64;
/// otherwise with `InvalidKeyLength` when `key` does not have 32 bytes;
/// otherwise with `CryptoError` when the bytes are fewer than a nonce and a
/// tag, or the tag is not authentic.
pub fn decrypt_text(ciphertext_text: &str, key: &[u8]) -> (result: Result<Vec<u8>, ErrorKind>)
    ensures
        bytes_outcome(result) == decrypted_text(ciphertext_text@, key@),
{
    match process_decode(ciphertext_text, Base64Format::UrlSafe) {
        Ok(ciphertext) => process_text_decrypt(ciphertext.as_slice(), key),
        Err(e) => Err(e),
    }
}

} // verus!
