//! What holds of the text operations whatever they are given.
//!
//! Two further laws rest on what the outside primitives promise of each call,
//! and so stand where the call is made: that an Ed25519 signature verifies
//! under the paired public key is stated by `sign_text` and
//! `process_text_sign`, and that decrypting inverts encrypting by
//! `encrypt_text` and `process_text_encrypt`.

use vstd::prelude::*;

use super::cipher::{decrypted, encrypted_with};
use super::facade::{decrypted_text, signed_text, verified_text};
use super::primitives::{blake3_keyed_hash, KEY_LEN, NONCE_LEN, TAG_LEN};
use super::sign::{signed, verified};
use crate::cli::{Base64Format, TextSignFormat};
use crate::error::ErrorKind;
use crate::process::b64::{encoded, lemma_decoded_encoded, lemma_decoded_is_inverse};

verus! {

/// A keyed-hash signature made with a 32-byte key verifies under that key,
/// whatever the content, as bytes and as text.
pub proof fn lemma_blake3_signature_verifies(content: Seq<u8>, key: Seq<u8>)
    requires
        key.len() == KEY_LEN,
    ensures
        signed(content, key, TextSignFormat::Blake3) matches Ok(signature) && verified(
            content,
            key,
            signature,
            TextSignFormat::Blake3,
        ) == Ok::<bool, ErrorKind>(true),
        signed_text(content, key, TextSignFormat::Blake3) matches Ok(text) && verified_text(
            content,
            key,
            text,
            TextSignFormat::Blake3,
        ) == Ok::<bool, ErrorKind>(true),
{
    lemma_decoded_encoded(Base64Format::UrlSafe, blake3_keyed_hash(key, content));
}

/// Under a 32-byte key, keyed-hash verification accepts the signature of the
/// content and no other byte string: a signature altered in any bit, or in
/// its length, is answered with `false`.
pub proof fn lemma_blake3_accepts_only_the_signature(
    content: Seq<u8>,
    key: Seq<u8>,
    signature: Seq<u8>,
)
    requires
        key.len() == KEY_LEN,
    ensures
        verified(content, key, signature, TextSignFormat::Blake3) == Ok::<bool, ErrorKind>(
            signed(content, key, TextSignFormat::Blake3) == Ok::<Seq<u8>, ErrorKind>(signature),
        ),
{
}

/// Under a 32-byte key, the one text that keyed-hash verification accepts is
/// the signature text of the content: any other text is answered with
/// `false`, or refused as no base64.
pub proof fn lemma_blake3_accepts_only_the_signature_text(
    content: Seq<u8>,
    key: Seq<u8>,
    text: Seq<char>,
)
    requires
        key.len() == KEY_LEN,
    ensures
        verified_text(content, key, text, TextSignFormat::Blake3) == Ok::<bool, ErrorKind>(true)
            <==> signed_text(content, key, TextSignFormat::Blake3) == Ok::<Seq<char>, ErrorKind>(
            text,
        ),
{
    let signature = blake3_keyed_hash(key, content);
    lemma_decoded_is_inverse(Base64Format::UrlSafe, text, signature);
}

/// With a key of valid length, verification always answers `true` or `false`:
/// neither a mismatch nor a signature of the wrong length is an error. The
/// same holds of a signature text, provided that it is well-formed base64.
pub proof fn lemma_verification_answers(
    content: Seq<u8>,
    key: Seq<u8>,
    signature: Seq<u8>,
    format: TextSignFormat,
)
    requires
        key.len() == KEY_LEN,
    ensures
        verified(content, key, signature, format) is Ok,
        verified_text(content, key, encoded(Base64Format::UrlSafe, signature), format) is Ok,
{
    lemma_decoded_encoded(Base64Format::UrlSafe, signature);
}

/// A key that does not have 32 bytes is refused with `InvalidKeyLength` by
/// every operation that takes one, whatever else it is given.
pub proof fn lemma_wrong_key_length_is_refused(
    content: Seq<u8>,
    key: Seq<u8>,
    other: Seq<u8>,
    format: TextSignFormat,
)
    requires
        key.len() != KEY_LEN,
    ensures
        signed(content, key, format) == Err::<Seq<u8>, ErrorKind>(ErrorKind::InvalidKeyLength),
        signed_text(content, key, format) == Err::<Seq<char>, ErrorKind>(
            ErrorKind::InvalidKeyLength,
        ),
        verified(content, key, other, format) == Err::<bool, ErrorKind>(
            ErrorKind::InvalidKeyLength,
        ),
        verified_text(content, key, encoded(Base64Format::UrlSafe, other), format) == Err::<
            bool,
            ErrorKind,
        >(ErrorKind::InvalidKeyLength),
        encrypted_with(content, key, other) == Err::<Seq<u8>, ErrorKind>(
            ErrorKind::InvalidKeyLength,
        ),
        decrypted(other, key) == Err::<Seq<u8>, ErrorKind>(ErrorKind::InvalidKeyLength),
        decrypted_text(encoded(Base64Format::UrlSafe, other), key) == Err::<Seq<u8>, ErrorKind>(
            ErrorKind::InvalidKeyLength,
        ),
{
    lemma_decoded_encoded(Base64Format::UrlSafe, other);
}

/// A ciphertext with fewer bytes than a nonce and a tag is refused with
/// `CryptoError`, as bytes and as text.
pub proof fn lemma_short_ciphertext_is_refused(ciphertext: Seq<u8>, key: Seq<u8>)
    requires
        key.len() == KEY_LEN,
        ciphertext.len() < NONCE_LEN + TAG_LEN,
    ensures
        decrypted(ciphertext, key) == Err::<Seq<u8>, ErrorKind>(ErrorKind::CryptoError),
        decrypted_text(encoded(Base64Format::UrlSafe, ciphertext), key) == Err::<
            Seq<u8>,
            ErrorKind,
        >(ErrorKind::CryptoError),
{
    lemma_decoded_encoded(Base64Format::UrlSafe, ciphertext);
}

} // verus!
