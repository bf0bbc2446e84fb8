//! A toolbox of small data transforms behind one command line: text signing,
//! verification and symmetric encryption, base64 coding, CSV conversion,
//! password generation, token lifetimes and the pages of a file server.
//!
//! Everything here works on in-memory values; reading and writing files,
//! asking the clock, printing and serving are left to the caller.
//!
//! - [`process::text`] signs, verifies, encrypts and decrypts, and generates
//!   keys; it is the heart of the library.
//! - [`process`] holds the other transforms.
//! - [`cli`] holds the options of each subcommand and the checks on their
//!   values; [`opts`] those of the CSV conversion on its own.
//! - [`decimal`] and [`strings`] hold what the checks share.

pub mod cli;
pub mod decimal;
pub mod error;
pub mod opts;
pub mod process;
pub mod strings;

pub use cli::{
    parse_base64_format, parse_duration, parse_text_sign_format, verify_input_file, verify_path,
    Base64DecodeOpts, Base64EncodeOpts, Base64Format, Base64SubCommand, CsvOpts, DecryptOpts,
    EncryptOpts, GenPassOpts, GeneratedPassword, HttpServeOpts, HttpSubCommand, JwtAlgorithm,
    JwtSubCommand, KeyGenerateOpts, Opts, OutputFormat, SignOpts, SubCommand, TextSignFormat,
    TextSignOpts, TextSubCommand, TextVerifyOpts, VerifyOpts,
};
pub use error::ErrorKind;
pub use process::{
    constant_time_eq, decrypt_text, directory_listing, encrypt_text, encrypt_with_nonce,
    key_set_from_seed, process_csv, process_decode, process_encode, process_genpass,
    process_text_decrypt, process_text_encrypt, process_text_key_generate, process_text_sign,
    process_text_verify, respond, sign_text, verify_text, Claims, CsvError, DirectoryEntry,
    GenPassError, KeyMaterial, PathRead, PathResponse, TextCipher, TextSigner, TextVerifier,
};
