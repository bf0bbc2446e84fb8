//! Signing and verifying bytes: key material of the one valid length, and a
//! signer and a verifier that each come in two variants, one per scheme.

use vstd::prelude::*;
use vstd::slice::slice_to_vec;

use super::primitives::{
    blake3_keyed_hash, ed25519_accepts, ed25519_public_key, ed25519_sign, ed25519_signature,
    ed25519_verify, keyed_hash, BLAKE3_SIGNATURE_LEN, ED25519_SIGNATURE_LEN, KEY_LEN,
};
use crate::cli::TextSignFormat;
use crate::error::ErrorKind;
use crate::process::b64::bytes_outcome;

verus! {

/// Key material for one operation: exactly 32 bytes, never changed once made.
pub struct KeyMaterial {
    bytes: Vec<u8>,
}

impl View for KeyMaterial {
    type V = Seq<u8>;

    closed spec fn view(&self) -> Seq<u8> {
        self.bytes@
    }
}

impl KeyMaterial {
    /// What holds of every key: it has 32 bytes.
    #[verifier::type_invariant]
    pub open spec fn has_key_length(self) -> bool {
        self@.len() == KEY_LEN
    }

    /// Takes `bytes` as key material.
    ///
    /// Fails with `InvalidKeyLength` exactly when they are not 32.
    pub fn try_new(bytes: &[u8]) -> (result: Result<KeyMaterial, ErrorKind>)
        ensures
            match result {
                Ok(key) => bytes@.len() == KEY_LEN && key@ == bytes@,
                Err(e) => bytes@.len() != KEY_LEN && e == ErrorKind::InvalidKeyLength,
            },
    {
        if bytes.len() != KEY_LEN {
            Err(ErrorKind::InvalidKeyLength)
        } else {
            Ok(KeyMaterial { bytes: slice_to_vec(bytes) })
        }
    }

    /// The 32 bytes of the key.
    pub fn as_bytes(&self) -> (bytes: &[u8])
        ensures
            bytes@ == self@,
            bytes@.len() == KEY_LEN,
    {
        proof {
            use_type_invariant(self);
        }
        self.bytes.as_slice()
    }
}

/// How many bytes a signature of the scheme has.
pub open spec fn signature_len(format: TextSignFormat) -> nat {
    match format {
        TextSignFormat::Blake3 => BLAKE3_SIGNATURE_LEN as nat,
        TextSignFormat::Ed25519 => ED25519_SIGNATURE_LEN as nat,
    }
}

/// The signature of `content` under `key`, or the reason there is none.
pub open spec fn signed(
    content: Seq<u8>,
    key: Seq<u8>,
    format: TextSignFormat,
) -> Result<Seq<u8>, ErrorKind> {
    if key.len() != KEY_LEN {
        Err(ErrorKind::InvalidKeyLength)
    } else {
        match format {
            TextSignFormat::Blake3 => Ok(blake3_keyed_hash(key, content)),
            TextSignFormat::Ed25519 => Ok(ed25519_signature(key, content)),
        }
    }
}

/// Whether `signature` is a valid signature of `content` under `key`, or the
/// reason the question cannot be answered. A signature that does not match,
/// be it in one bit or in its length, is answered with `false`, never with an
/// error.
pub open spec fn verified(
    content: Seq<u8>,
    key: Seq<u8>,
    signature: Seq<u8>,
    format: TextSignFormat,
) -> Result<bool, ErrorKind> {
    if key.len() != KEY_LEN {
        Err(ErrorKind::InvalidKeyLength)
    } else {
        match format {
            TextSignFormat::Blake3 => Ok(signature == blake3_keyed_hash(key, content)),
            TextSignFormat::Ed25519 => Ok(
                signature.len() == ED25519_SIGNATURE_LEN && ed25519_accepts(
                    key,
                    content,
                    signature,
                ),
            ),
        }
    }
}

/// A signing key together with the public key that verifies its signatures.
pub open spec fn is_ed25519_key_pair(signing_key: Seq<u8>, public_key: Seq<u8>) -> bool {
    &&& signing_key.len() == KEY_LEN
    &&& public_key.len() == KEY_LEN
    &&& public_key == ed25519_public_key(signing_key)
}

/// Whether two byte strings are equal, in time that depends on their lengths
/// alone: every pair of bytes is visited, and no branch looks at a byte.
pub fn constant_time_eq(a: &[u8], b: &[u8]) -> (same: bool)
    ensures
        same == (a@ == b@),
{
    if a.len() != b.len() {
        return false;
    }
    let mut difference: u8 = 0;
    let mut i: usize = 0;
    while i < a.len()
        invariant
            i <= a.len(),
            a.len() == b.len(),
            (difference == 0) == (forall|j: int| 0 <= j < i ==> a@[j] == b@[j]),
        decreases a.len() - i,
    {
        let x: u8 = a[i];
        let y: u8 = b[i];
        assert(((difference | (x ^ y)) == 0) == (difference == 0 && x == y)) by (bit_vector);
        difference = difference | (x ^ y);
        i = i + 1;
    }
    assert((difference == 0) == (a@ =~= b@));
    difference == 0
}

/// What signs: a keyed hash under a shared key, or Ed25519 under a signing
/// key.
pub enum TextSigner {
    /// Signs with the BLAKE3 keyed hash.
    Blake3Mac(KeyMaterial),
    /// Signs with Ed25519; the key is the seed of the signing key.
    Ed25519(KeyMaterial),
}

/// What verifies: a keyed hash under the shared key, or Ed25519 under a
/// public key.
pub enum TextVerifier {
    /// Verifies with the BLAKE3 keyed hash.
    Blake3Mac(KeyMaterial),
    /// Verifies with Ed25519; the key is the public key.
    Ed25519(KeyMaterial),
}

impl TextSigner {
    /// The scheme of the signer.
    pub open spec fn format(&self) -> TextSignFormat {
        match self {
            TextSigner::Blake3Mac(_) => TextSignFormat::Blake3,
            TextSigner::Ed25519(_) => TextSignFormat::Ed25519,
        }
    }

    /// The key of the signer.
    pub open spec fn key(&self) -> Seq<u8> {
        match self {
            TextSigner::Blake3Mac(key) => key@,
            TextSigner::Ed25519(key) => key@,
        }
    }

    /// The signer of a scheme with the key given.
    ///
    /// Fails with `InvalidKeyLength` exactly when `key` does not have 32
    /// bytes.
    pub fn try_new(format: TextSignFormat, key: &[u8]) -> (result: Result<TextSigner, ErrorKind>)
        ensures
            match result {
                Ok(signer) => key@.len() == KEY_LEN && signer.format() == format && signer.key()
                    == key@,
                Err(e) => key@.len() != KEY_LEN && e == ErrorKind::InvalidKeyLength,
            },
    {
        match KeyMaterial::try_new(key) {
            Ok(key) => match format {
                TextSignFormat::Blake3 => Ok(TextSigner::Blake3Mac(key)),
                TextSignFormat::Ed25519 => Ok(TextSigner::Ed25519(key)),
            },
            Err(e) => Err(e),
        }
    }

    /// Signs `content`: the keyed hash of the whole content, or its Ed25519
    /// signature.
    ///
    /// A keyed-hash signature verifies under the same key, an Ed25519
    /// signature under every public key paired with the signing key.
    pub fn sign(&self, content: &[u8]) -> (signature: Vec<u8>)
        ensures
            signed(content@, self.key(), self.format()) == Ok::<Seq<u8>, ErrorKind>(signature@),
            signature@.len() == signature_len(self.format()),
            self.format() == TextSignFormat::Blake3 ==> verified(
                content@,
                self.key(),
                signature@,
                self.format(),
            ) == Ok::<bool, ErrorKind>(true),
            self.format() == TextSignFormat::Ed25519 ==> forall|public_key: Seq<u8>|
                is_ed25519_key_pair(self.key(), public_key) ==> #[trigger] verified(
                    content@,
                    public_key,
                    signature@,
                    self.format(),
                ) == Ok::<bool, ErrorKind>(true),
    {
        match self {
            TextSigner::Blake3Mac(key) => keyed_hash(key.as_bytes(), content),
            TextSigner::Ed25519(key) => ed25519_sign(key.as_bytes(), content),
        }
    }
}

impl TextVerifier {
    /// The scheme of the verifier.
    pub open spec fn format(&self) -> TextSignFormat {
        match self {
            TextVerifier::Blake3Mac(_) => TextSignFormat::Blake3,
            TextVerifier::Ed25519(_) => TextSignFormat::Ed25519,
        }
    }

    /// The key of the verifier.
    pub open spec fn key(&self) -> Seq<u8> {
        match self {
            TextVerifier::Blake3Mac(key) => key@,
            TextVerifier::Ed25519(key) => key@,
        }
    }

    /// The verifier of a scheme with the key given.
    ///
    /// Fails with `InvalidKeyLength` exactly when `key` does not have 32
    /// bytes.
    pub fn try_new(format: TextSignFormat, key: &[u8]) -> (result: Result<TextVerifier, ErrorKind>)
        ensures
            match result {
                Ok(verifier) => key@.len() == KEY_LEN && verifier.format() == format
                    && verifier.key() == key@,
                Err(e) => key@.len() != KEY_LEN && e == ErrorKind::InvalidKeyLength,
            },
    {
        match KeyMaterial::try_new(key) {
            Ok(key) => match format {
                TextSignFormat::Blake3 => Ok(TextVerifier::Blake3Mac(key)),
                TextSignFormat::Ed25519 => Ok(TextVerifier::Ed25519(key)),
            },
            Err(e) => Err(e),
        }
    }

    /// Tells whether `signature` is a valid signature of `content`.
    ///
    /// The keyed hash is computed anew and compared with the signature, the
    /// lengths first and then every byte. An Ed25519 signature of another
    /// length than 64 bytes is not looked at further. Either way a signature
    /// of the wrong length is answered with `false`.
    pub fn verify(&self, content: &[u8], signature: &[u8]) -> (accepted: bool)
        ensures
            verified(content@, self.key(), signature@, self.format()) == Ok::<bool, ErrorKind>(
                accepted,
            ),
            signature@.len() != signature_len(self.format()) ==> !accepted,
    {
        match self {
            TextVerifier::Blake3Mac(key) => {
                let digest = keyed_hash(key.as_bytes(), content);
                constant_time_eq(signature, digest.as_slice())
            },
            TextVerifier::Ed25519(key) => {
                proof {
                    use_type_invariant(key);
                }
                if signature.len() != ED25519_SIGNATURE_LEN {
                    false
                } else {
                    ed25519_verify(key.as_bytes(), content, signature)
                }
            },
        }
    }
}

/// Signs `content` with `key` under the chosen scheme and returns the raw
/// signature.
///
/// Fails with `InvalidKeyLength` exactly when `key` does not have 32 bytes. A
/// keyed-hash signature verifies under the same key, an Ed25519 signature
/// under every public key paired with `key`.
pub fn process_text_sign(content: &[u8], key: &[u8], format: TextSignFormat) -> (result: Result<
    Vec<u8>,
    ErrorKind,
>)
    ensures
        bytes_outcome(result) == signed(content@, key@, format),
        result matches Ok(signature) ==> signature@.len() == signature_len(format),
        result matches Ok(signature) ==> format == TextSignFormat::Blake3 ==> verified(
            content@,
            key@,
            signature@,
            format,
        ) == Ok::<bool, ErrorKind>(true),
        result matches Ok(signature) ==> format == TextSignFormat::Ed25519 ==> forall|
            public_key: Seq<u8>,
        |
            is_ed25519_key_pair(key@, public_key) ==> #[trigger] verified(
                content@,
                public_key,
                signature@,
                format,
            ) == Ok::<bool, ErrorKind>(true),
{
    match TextSigner::try_new(format, key) {
        Ok(signer) => Ok(signer.sign(content)),
        Err(e) => Err(e),
    }
}

/// Tells whether `signature` is a valid signature of `content` under `key`.
///
/// Fails with `InvalidKeyLength` exactly when `key` does not have 32 bytes.
/// Every other input is answered with `true` or `false`; a signature whose
/// length is not that of the scheme is answered with `false`.
pub fn process_text_verify(
    content: &[u8],
    key: &[u8],
    signature: &[u8],
    format: TextSignFormat,
) -> (result: Result<bool, ErrorKind>)
    ensures
        result == verified(content@, key@, signature@, format),
        key@.len() == KEY_LEN && signature@.len() != signature_len(format) ==> result == Ok::<
            bool,
            ErrorKind,
        >(false),
{
    match TextVerifier::try_new(format, key) {
        Ok(verifier) => Ok(verifier.verify(content, signature)),
        Err(e) => Err(e),
    }
}

} // verus!
