//! Signing, verifying and encrypting text: a keyed hash and a public-key
//! signature behind one pair of operations, key generation for both, and an
//! authenticated cipher on the same kind of key.
//!
//! The byte-level operations work on raw signatures and ciphertexts. The
//! text-level operations add the URL-safe unpadded base64 used wherever a
//! signature or a ciphertext is shown or typed.

mod cipher;
mod facade;
mod keys;
mod laws;
mod primitives;
mod sign;

pub use cipher::{
    decrypted, encrypt_with_nonce, encrypted_with, process_text_decrypt, process_text_encrypt,
    TextCipher,
};
pub use facade::{
    decrypt_text, decrypted_text, encrypt_text, encrypted_text_with, sign_text, signed_text,
    text_outcome, verified_text, verify_text,
};
pub use keys::{
    key_set_from_seed, key_set_of, key_set_view, process_text_key_generate, GeneratedKeySet,
    BLAKE3_KEY_NAME, ED25519_PUBLIC_KEY_NAME, ED25519_SIGNING_KEY_NAME,
};
pub use laws::{
    lemma_blake3_accepts_only_the_signature, lemma_blake3_accepts_only_the_signature_text,
    lemma_blake3_signature_verifies,
    lemma_short_ciphertext_is_refused, lemma_verification_answers,
    lemma_wrong_key_length_is_refused,
};
pub use primitives::{
    blake3_keyed_hash, chacha20poly1305_opened, chacha20poly1305_sealed, ed25519_accepts,
    ed25519_public_key, ed25519_signature, BLAKE3_SIGNATURE_LEN, ED25519_SIGNATURE_LEN, KEY_LEN,
    NONCE_LEN, TAG_LEN,
};
pub use sign::{
    constant_time_eq, is_ed25519_key_pair, process_text_sign, process_text_verify, signature_len,
    signed, verified, KeyMaterial, TextSigner, TextVerifier,
};
