//! The transforms behind the subcommands.

pub mod b64;
pub mod csv_process;
pub mod gen_pass;
pub mod http_serve;
pub mod jwt;
pub mod text;

pub use b64::{process_decode, process_encode};
pub use csv_process::{process_csv, CsvError};
pub use gen_pass::{process_genpass, GenPassError};
pub use jwt::Claims;
pub use http_serve::{directory_listing, respond, DirectoryEntry, PathRead, PathResponse};
pub use text::{
    constant_time_eq, decrypt_text, encrypt_text, encrypt_with_nonce, key_set_from_seed,
    process_text_decrypt, process_text_encrypt, process_text_key_generate, process_text_sign,
    process_text_verify, sign_text, verify_text, KeyMaterial, TextCipher, TextSigner, TextVerifier,
};
