//! Encrypting and decrypting bytes under a shared key, with ChaCha20-Poly1305.
//!
//! A ciphertext is the nonce, 12 bytes, followed by the sealed content, which
//! ends in a tag of 16 bytes. Decrypting checks the tag before it returns
//! anything.

use vstd::prelude::*;
use vstd::slice::{slice_subrange, slice_to_vec};

use super::primitives::{
    chacha20poly1305_opened, chacha20poly1305_sealed, os_random, seal, unseal, KEY_LEN, NONCE_LEN,
    TAG_LEN,
};
use super::sign::KeyMaterial;
use crate::error::ErrorKind;
use crate::process::b64::bytes_outcome;

verus! {

/// The ciphertext of `content` under `key` with a given `nonce`: the nonce,
/// then the sealed bytes with their tag. `InvalidKeyLength` unless the key has
/// 32 bytes; `CryptoError` unless the nonce has 12 bytes and the content stays
/// below the cipher's limit of 2^32 - 1 blocks of 64 bytes.
pub open spec fn encrypted_with(
    content: Seq<u8>,
    key: Seq<u8>,
    nonce: Seq<u8>,
) -> Result<Seq<u8>, ErrorKind> {
    if key.len() != KEY_LEN {
        Err(ErrorKind::InvalidKeyLength)
    } else if nonce.len() != NONCE_LEN || content.len() / 64 >= 0xFFFF_FFFF {
        Err(ErrorKind::CryptoError)
    } else {
        Ok(nonce + chacha20poly1305_sealed(key, nonce, content))
    }
}

/// The content that `ciphertext` holds under `key`. `InvalidKeyLength` unless
/// the key has 32 bytes; `CryptoError` where the ciphertext is shorter than a
/// nonce and a tag, or where its tag is not authentic.
pub open spec fn decrypted(ciphertext: Seq<u8>, key: Seq<u8>) -> Result<Seq<u8>, ErrorKind> {
    if key.len() != KEY_LEN {
        Err(ErrorKind::InvalidKeyLength)
    } else if ciphertext.len() < NONCE_LEN + TAG_LEN {
        Err(ErrorKind::CryptoError)
    } else {
        match chacha20poly1305_opened(
            key,
            ciphertext.subrange(0, NONCE_LEN as int),
            ciphertext.subrange(NONCE_LEN as int, ciphertext.len() as int),
        ) {
            Some(content) => Ok(content),
            None => Err(ErrorKind::CryptoError),
        }
    }
}

/// The cipher under one shared key, which encrypts and decrypts.
pub struct TextCipher {
    /// The shared key.
    pub key: KeyMaterial,
}

impl TextCipher {
    /// The cipher under the key given.
    ///
    /// Fails with `InvalidKeyLength` exactly when `key` does not have 32
    /// bytes.
    pub fn try_new(key: &[u8]) -> (result: Result<TextCipher, ErrorKind>)
        ensures
            match result {
                Ok(cipher) => key@.len() == KEY_LEN && cipher.key@ == key@,
                Err(e) => key@.len() != KEY_LEN && e == ErrorKind::InvalidKeyLength,
            },
    {
        match KeyMaterial::try_new(key) {
            Ok(key) => Ok(TextCipher { key }),
            Err(e) => Err(e),
        }
    }

    /// Encrypts `content` with the nonce given, and returns the nonce
    /// followed by the sealed bytes.
    ///
    /// Fails with `CryptoError` exactly when the nonce does not have 12 bytes
    /// or the content reaches the cipher's limit. What it returns decrypts to
    /// `content`.
    pub fn encrypt_with_nonce(
        &self,
        content: &[u8],
        nonce: &[u8],
    ) -> (result: Result<Vec<u8>, ErrorKind>)
        ensures
            bytes_outcome(result) == encrypted_with(content@, self.key@, nonce@),
            result matches Ok(ciphertext) ==> {
                &&& ciphertext@.len() == NONCE_LEN + content@.len() + TAG_LEN
                &&& decrypted(ciphertext@, self.key@) == Ok::<Seq<u8>, ErrorKind>(content@)
            },
    {
        proof {
            use_type_invariant(&self.key);
        }
        if nonce.len() != NONCE_LEN {
            return Err(ErrorKind::CryptoError);
        }
        match seal(self.key.as_bytes(), nonce, content) {
            Some(sealed) => {
                let mut ciphertext = slice_to_vec(nonce);
                ciphertext.extend_from_slice(sealed.as_slice());
                assert(ciphertext@ =~= nonce@ + sealed@);
                assert(ciphertext@.subrange(0, NONCE_LEN as int) =~= nonce@);
                assert(ciphertext@.subrange(NONCE_LEN as int, ciphertext@.len() as int)
                    =~= sealed@);
                Ok(ciphertext)
            },
            None => Err(ErrorKind::CryptoError),
        }
    }

    /// Encrypts `content` with a fresh random nonce.
    ///
    /// Fails, with `CryptoError`, when the content reaches the cipher's limit
    /// or the system's random source fails. A ciphertext that is returned
    /// decrypts to `content`.
    pub fn encrypt(&self, content: &[u8]) -> (result: Result<Vec<u8>, ErrorKind>)
        ensures
            match result {
                Ok(ciphertext) => {
                    &&& exists|nonce: Seq<u8>| #[trigger]
                        encrypted_with(content@, self.key@, nonce) == Ok::<Seq<u8>, ErrorKind>(
                            ciphertext@,
                        )
                    &&& ciphertext@.len() == NONCE_LEN + content@.len() + TAG_LEN
                    &&& decrypted(ciphertext@, self.key@) == Ok::<Seq<u8>, ErrorKind>(content@)
                },
                Err(e) => e == ErrorKind::CryptoError,
            },
            content@.len() / 64 >= 0xFFFF_FFFF ==> result is Err,
    {
        proof {
            use_type_invariant(&self.key);
        }
        match os_random(NONCE_LEN) {
            Some(nonce) => self.encrypt_with_nonce(content, nonce.as_slice()),
            None => Err(ErrorKind::CryptoError),
        }
    }

    /// Decrypts a ciphertext: splits off the nonce and opens the rest.
    ///
    /// Fails, with `CryptoError`, exactly when the ciphertext is shorter than
    /// a nonce and a tag, or its tag is not authentic.
    pub fn decrypt(&self, ciphertext: &[u8]) -> (result: Result<Vec<u8>, ErrorKind>)
        ensures
            bytes_outcome(result) == decrypted(ciphertext@, self.key@),
    {
        proof {
            use_type_invariant(&self.key);
        }
        if ciphertext.len() < NONCE_LEN + TAG_LEN {
            return Err(ErrorKind::CryptoError);
        }
        let nonce = slice_subrange(ciphertext, 0, NONCE_LEN);
        let sealed = slice_subrange(ciphertext, NONCE_LEN, ciphertext.len());
        match unseal(self.key.as_bytes(), nonce, sealed) {
            Some(content) => Ok(content),
            None => Err(ErrorKind::CryptoError),
        }
    }
}

/// Encrypts `content` under `key` with the nonce given, and returns the nonce
/// followed by the sealed bytes. What it returns decrypts to `content` under
/// the same key.
pub fn encrypt_with_nonce(
    content: &[u8],
    key: &[u8],
    nonce: &[u8],
) -> (result: Result<Vec<u8>, ErrorKind>)
    ensures
        bytes_outcome(result) == encrypted_with(content@, key@, nonce@),
        result matches Ok(ciphertext) ==> {
            &&& ciphertext@.len() == NONCE_LEN + content@.len() + TAG_LEN
            &&& decrypted(ciphertext@, key@) == Ok::<Seq<u8>, ErrorKind>(content@)
        },
{
    match TextCipher::try_new(key) {
        Ok(cipher) => cipher.encrypt_with_nonce(content, nonce),
        Err(e) => Err(e),
    }
}

/// Encrypts `content` under `key` with a fresh random nonce.
///
/// Fails with `InvalidKeyLength` exactly when `key` does not have 32 bytes,
/// and with `CryptoError` when the content reaches the cipher's limit or the
/// system's random source fails. A ciphertext that is returned decrypts to
/// `content` under the same key.
pub fn process_text_encrypt(content: &[u8], key: &[u8]) -> (result: Result<Vec<u8>, ErrorKind>)
    ensures
        match result {
            Ok(ciphertext) => {
                &&& exists|nonce: Seq<u8>| #[trigger]
                    encrypted_with(content@, key@, nonce) == Ok::<Seq<u8>, ErrorKind>(ciphertext@)
                &&& ciphertext@.len() == NONCE_LEN + content@.len() + TAG_LEN
                &&& decrypted(ciphertext@, key@) == Ok::<Seq<u8>, ErrorKind>(content@)
            },
            Err(e) => e == if key@.len() != KEY_LEN {
                ErrorKind::InvalidKeyLength
            } else {
                ErrorKind::CryptoError
            },
        },
        key@.len() != KEY_LEN || content@.len() / 64 >= 0xFFFF_FFFF ==> result is Err,
{
    match TextCipher::try_new(key) {
        Ok(cipher) => cipher.encrypt(content),
        Err(e) => Err(e),
    }
}

/// Decrypts what `process_text_encrypt` produced.
///
/// Fails with `InvalidKeyLength` exactly when `key` does not have 32 bytes;
/// otherwise with `CryptoError` when the ciphertext is shorter than a nonce and
/// a tag, or when its tag is not authentic.
pub fn process_text_decrypt(ciphertext: &[u8], key: &[u8]) -> (result: Result<Vec<u8>, ErrorKind>)
    ensures
        bytes_outcome(result) == decrypted(ciphertext@, key@),
{
    match TextCipher::try_new(key) {
        Ok(cipher) => cipher.decrypt(ciphertext),
        Err(e) => Err(e),
    }
}

} // verus!
