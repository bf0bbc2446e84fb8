//! Fresh key material for each scheme, as named artifacts ready to be stored.

use vstd::prelude::*;

use super::primitives::{ed25519_public_key, ed25519_verifying_key, os_random, KEY_LEN};
use super::sign::is_ed25519_key_pair;
use crate::cli::TextSignFormat;
use crate::error::ErrorKind;

verus! {

/// The name under which a keyed-hash key is stored.
pub const BLAKE3_KEY_NAME: &'static str = "blake3.txt";

/// The name under which an Ed25519 signing key is stored.
pub const ED25519_SIGNING_KEY_NAME: &'static str = "ed25519.sk";

/// The name under which an Ed25519 public key is stored.
pub const ED25519_PUBLIC_KEY_NAME: &'static str = "ed25519.pk";

/// Generated key material: each artifact with the file name to store it
/// under, in the order in which the scheme lists them.
pub type GeneratedKeySet = Vec<(&'static str, Vec<u8>)>;

/// The named artifacts that belong to `seed`: the key itself for the keyed
/// hash; the signing key and then its public key for Ed25519.
pub open spec fn key_set_of(format: TextSignFormat, seed: Seq<u8>) -> Seq<(Seq<char>, Seq<u8>)> {
    match format {
        TextSignFormat::Blake3 => seq![(BLAKE3_KEY_NAME@, seed)],
        TextSignFormat::Ed25519 => seq![
            (ED25519_SIGNING_KEY_NAME@, seed),
            (ED25519_PUBLIC_KEY_NAME@, ed25519_public_key(seed)),
        ],
    }
}

/// The names and bytes of a generated key set, in order.
pub open spec fn key_set_view(keys: GeneratedKeySet) -> Seq<(Seq<char>, Seq<u8>)> {
    Seq::new(keys@.len(), |i: int| (keys@[i].0@, keys@[i].1@))
}

/// Builds the key set of a scheme from 32 bytes of seed.
///
/// Fails with `InvalidKeyLength` exactly when `seed` does not have 32 bytes.
pub fn key_set_from_seed(format: TextSignFormat, seed: Vec<u8>) -> (result: Result<
    GeneratedKeySet,
    ErrorKind,
>)
    ensures
        match result {
            Ok(keys) => seed@.len() == KEY_LEN && key_set_view(keys) == key_set_of(format, seed@),
            Err(e) => seed@.len() != KEY_LEN && e == ErrorKind::InvalidKeyLength,
        },
        result matches Ok(keys) ==> match format {
            TextSignFormat::Blake3 => keys@.len() == 1 && keys@[0].1@.len() == KEY_LEN,
            TextSignFormat::Ed25519 => keys@.len() == 2 && is_ed25519_key_pair(
                keys@[0].1@,
                keys@[1].1@,
            ),
        },
{
    if seed.len() != KEY_LEN {
        return Err(ErrorKind::InvalidKeyLength);
    }
    let mut keys: GeneratedKeySet = Vec::new();
    match format {
        TextSignFormat::Blake3 => {
            keys.push((BLAKE3_KEY_NAME, seed));
        },
        TextSignFormat::Ed25519 => {
            let public_key = ed25519_verifying_key(seed.as_slice());
            keys.push((ED25519_SIGNING_KEY_NAME, seed));
            keys.push((ED25519_PUBLIC_KEY_NAME, public_key));
        },
    }
    assert(key_set_view(keys) =~= key_set_of(format, seed@));
    Ok(keys)
}

/// Generates fresh key material for a scheme from the system's random source:
/// one 32-byte key for the keyed hash; a 32-byte signing key and its 32-byte
/// public key, in that order, for Ed25519.
///
/// Fails, with `CryptoError`, only when the random source fails.
pub fn process_text_key_generate(format: TextSignFormat) -> (result: Result<
    GeneratedKeySet,
    ErrorKind,
>)
    ensures
        match result {
            Ok(keys) => exists|seed: Seq<u8>|
                seed.len() == KEY_LEN && key_set_view(keys) == #[trigger] key_set_of(format, seed),
            Err(e) => e == ErrorKind::CryptoError,
        },
        result matches Ok(keys) ==> match format {
            TextSignFormat::Blake3 => keys@.len() == 1 && keys@[0].1@.len() == KEY_LEN,
            TextSignFormat::Ed25519 => keys@.len() == 2 && is_ed25519_key_pair(
                keys@[0].1@,
                keys@[1].1@,
            ),
        },
{
    match os_random(KEY_LEN) {
        Some(seed) => key_set_from_seed(format, seed),
        None => Err(ErrorKind::CryptoError),
    }
}

} // verus!
