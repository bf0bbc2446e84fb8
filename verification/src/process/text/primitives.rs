//! The outside primitives that the text operations rest on: a keyed hash, a
//! signature scheme, an authenticated cipher and the system's random source.
//!
//! Each primitive is reached through one function of this file, whose
//! contract is taken on trust. What a primitive computes is given a name;
//! the rest of the library reasons about the names.

use chacha20poly1305::aead::{Aead, KeyInit};
use chacha20poly1305::{ChaCha20Poly1305, Key, Nonce};
use ed25519_dalek::{Signature, Signer, SigningKey, Verifier, VerifyingKey};
use rand::rngs::OsRng;
use rand::RngCore;
use vstd::prelude::*;

verus! {

/// Bytes in every key: the shared key of the keyed hash and of the cipher, the
/// signing seed and the public key.
pub const KEY_LEN: usize = 32;

/// Bytes in a keyed-hash signature.
pub const BLAKE3_SIGNATURE_LEN: usize = 32;

/// Bytes in an Ed25519 signature.
pub const ED25519_SIGNATURE_LEN: usize = 64;

/// Bytes of nonce that open every ciphertext.
pub const NONCE_LEN: usize = 12;

/// Bytes of authentication tag that close every ciphertext.
pub const TAG_LEN: usize = 16;

/// The BLAKE3 keyed hash of `data` under a 32-byte `key`.
pub uninterp spec fn blake3_keyed_hash(key: Seq<u8>, data: Seq<u8>) -> Seq<u8>;

/// The Ed25519 signature of `message` by the signing key derived from `seed`.
pub uninterp spec fn ed25519_signature(seed: Seq<u8>, message: Seq<u8>) -> Seq<u8>;

/// The Ed25519 public key derived from `seed`.
pub uninterp spec fn ed25519_public_key(seed: Seq<u8>) -> Seq<u8>;

/// Whether Ed25519 verification under `public_key` accepts `signature` for
/// `message`. False where `public_key` is not the encoding of a curve point.
pub uninterp spec fn ed25519_accepts(
    public_key: Seq<u8>,
    message: Seq<u8>,
    signature: Seq<u8>,
) -> bool;

/// The ChaCha20-Poly1305 encryption of `plaintext` with its tag appended.
pub uninterp spec fn chacha20poly1305_sealed(
    key: Seq<u8>,
    nonce: Seq<u8>,
    plaintext: Seq<u8>,
) -> Seq<u8>;

/// The plaintext that ChaCha20-Poly1305 recovers from `sealed`, if its tag
/// is authentic.
pub uninterp spec fn chacha20poly1305_opened(
    key: Seq<u8>,
    nonce: Seq<u8>,
    sealed: Seq<u8>,
) -> Option<Seq<u8>>;

/// Calls `blake3::keyed_hash`. Trusted: the digest is a function of key and
/// data, and has 32 bytes.
#[verifier::external_body]
pub(crate) fn keyed_hash(key: &[u8], data: &[u8]) -> (digest: Vec<u8>)
    requires
        key@.len() == KEY_LEN,
    ensures
        digest@ == blake3_keyed_hash(key@, data@),
        digest@.len() == BLAKE3_SIGNATURE_LEN,
{
    let mut k = [0u8; 32];
    k.copy_from_slice(key);
    blake3::keyed_hash(&k, data).as_bytes().to_vec()
}

/// Calls `SigningKey::from_bytes` and `Signer::sign` of ed25519-dalek.
/// Trusted: the signature is a function of seed and message, has 64 bytes,
/// and is accepted under the public key that belongs to the seed.
#[verifier::external_body]
pub(crate) fn ed25519_sign(seed: &[u8], message: &[u8]) -> (signature: Vec<u8>)
    requires
        seed@.len() == KEY_LEN,
    ensures
        signature@ == ed25519_signature(seed@, message@),
        signature@.len() == ED25519_SIGNATURE_LEN,
        ed25519_accepts(ed25519_public_key(seed@), message@, signature@),
{
    let mut s = [0u8; 32];
    s.copy_from_slice(seed);
    SigningKey::from_bytes(&s).sign(message).to_bytes().to_vec()
}

/// Calls `SigningKey::from_bytes` and `SigningKey::verifying_key` of
/// ed25519-dalek. Trusted: the public key is a function of the seed, and has
/// 32 bytes.
#[verifier::external_body]
pub(crate) fn ed25519_verifying_key(seed: &[u8]) -> (public_key: Vec<u8>)
    requires
        seed@.len() == KEY_LEN,
    ensures
        public_key@ == ed25519_public_key(seed@),
        public_key@.len() == KEY_LEN,
{
    let mut s = [0u8; 32];
    s.copy_from_slice(seed);
    SigningKey::from_bytes(&s).verifying_key().to_bytes().to_vec()
}

/// Calls `VerifyingKey::from_bytes` and `Verifier::verify` of ed25519-dalek.
/// Trusted: the answer is a function of the three byte strings. A key that
/// does not decode to a curve point accepts nothing.
#[verifier::external_body]
pub(crate) fn ed25519_verify(
    public_key: &[u8],
    message: &[u8],
    signature: &[u8],
) -> (accepted: bool)
    requires
        public_key@.len() == KEY_LEN,
        signature@.len() == ED25519_SIGNATURE_LEN,
    ensures
        accepted == ed25519_accepts(public_key@, message@, signature@),
{
    let mut k = [0u8; 32];
    k.copy_from_slice(public_key);
    let mut s = [0u8; 64];
    s.copy_from_slice(signature);
    match VerifyingKey::from_bytes(&k) {
        Ok(key) => key.verify(message, &Signature::from_bytes(&s)).is_ok(),
        Err(_) => false,
    }
}

/// Calls `Aead::encrypt` of chacha20poly1305's `ChaCha20Poly1305`, with no
/// associated data. Trusted: it refuses exactly a plaintext of 2^32 - 1
/// blocks of 64 bytes or more; what it returns is a function of key, nonce
/// and plaintext, is 16 bytes longer than the plaintext, and is opened again
/// to the plaintext by the same key and nonce.
#[verifier::external_body]
pub(crate) fn seal(key: &[u8], nonce: &[u8], plaintext: &[u8]) -> (sealed: Option<Vec<u8>>)
    requires
        key@.len() == KEY_LEN,
        nonce@.len() == NONCE_LEN,
    ensures
        sealed is Some <==> plaintext@.len() / 64 < 0xFFFF_FFFF,
        sealed matches Some(s) ==> {
            &&& s@ == chacha20poly1305_sealed(key@, nonce@, plaintext@)
            &&& s@.len() == plaintext@.len() + TAG_LEN
            &&& chacha20poly1305_opened(key@, nonce@, s@) == Some(plaintext@)
        },
{
    let cipher = ChaCha20Poly1305::new(Key::from_slice(key));
    cipher.encrypt(Nonce::from_slice(nonce), plaintext).ok()
}

/// Calls `Aead::decrypt` of chacha20poly1305's `ChaCha20Poly1305`, with no
/// associated data. Trusted: the answer is a function of key, nonce and
/// sealed bytes; a plaintext comes back only where the tag is authentic.
#[verifier::external_body]
pub(crate) fn unseal(key: &[u8], nonce: &[u8], sealed: &[u8]) -> (plaintext: Option<Vec<u8>>)
    requires
        key@.len() == KEY_LEN,
        nonce@.len() == NONCE_LEN,
    ensures
        match plaintext {
            Some(p) => chacha20poly1305_opened(key@, nonce@, sealed@) == Some(p@),
            None => chacha20poly1305_opened(key@, nonce@, sealed@) is None,
        },
{
    let cipher = ChaCha20Poly1305::new(Key::from_slice(key));
    cipher.decrypt(Nonce::from_slice(nonce), sealed).ok()
}

/// Calls `RngCore::try_fill_bytes` on rand's `OsRng`, the operating system's
/// random source. Trusted: where it succeeds, `len` bytes come back. Nothing
/// is said of their values.
#[verifier::external_body]
pub(crate) fn os_random(len: usize) -> (bytes: Option<Vec<u8>>)
    ensures
        bytes matches Some(b) ==> b@.len() == len,
{
    let mut buffer = vec![0u8; len];
    match OsRng.try_fill_bytes(&mut buffer) {
        Ok(()) => Some(buffer),
        Err(_) => None,
    }
}

} // verus!
