use rcli::cli::TextVerifyOpts as VerifyOptions;
use rcli::decimal::{parse_number, NumberError};
use rcli::opts::{parse_format, verify_file_exists};
use rcli::{
    parse_base64_format, parse_duration, parse_text_sign_format, verify_path, Base64Format,
    CsvOpts, DecryptOpts, EncryptOpts, ErrorKind, KeyGenerateOpts, OutputFormat, TextSignFormat,
    TextSignOpts, TextVerifyOpts,
};

#[test]
fn text_sign_format_is_read_in_any_case() {
    assert_eq!(parse_text_sign_format("blake3"), Ok(TextSignFormat::Blake3));
    assert_eq!(parse_text_sign_format("BLAKE3"), Ok(TextSignFormat::Blake3));
    assert_eq!(parse_text_sign_format("Blake3"), Ok(TextSignFormat::Blake3));
    assert_eq!(parse_text_sign_format("ed25519"), Ok(TextSignFormat::Ed25519));
    assert_eq!(parse_text_sign_format("ED25519"), Ok(TextSignFormat::Ed25519));
    assert_eq!(parse_text_sign_format("bla\u{212A}e3"), Ok(TextSignFormat::Blake3));
    assert_eq!("Ed25519".parse::<TextSignFormat>(), Ok(TextSignFormat::Ed25519));
}

#[test]
fn unknown_text_sign_format_is_invalid() {
    for text in ["", "blake", "blake3 ", " blake3", "ed25519x", "rsa", "blake2"] {
        assert_eq!(parse_text_sign_format(text), Err(ErrorKind::InvalidFormat));
    }
    assert_eq!("sha".parse::<TextSignFormat>(), Err(ErrorKind::InvalidFormat));
}

#[test]
fn base64_format_is_read_in_any_case() {
    assert_eq!(parse_base64_format("standard"), Ok(Base64Format::Standard));
    assert_eq!(parse_base64_format("Standard"), Ok(Base64Format::Standard));
    assert_eq!(parse_base64_format("urlsafe"), Ok(Base64Format::UrlSafe));
    assert_eq!(parse_base64_format("URLSAFE"), Ok(Base64Format::UrlSafe));
    assert_eq!(parse_base64_format("url_safe"), Err(ErrorKind::InvalidFormat));
    assert_eq!(parse_base64_format(""), Err(ErrorKind::InvalidFormat));
    assert_eq!("UrlSafe".parse::<Base64Format>(), Ok(Base64Format::UrlSafe));
}

#[test]
fn output_format_is_read_in_any_case() {
    assert_eq!(parse_format("json"), Ok(rcli::opts::OutputFormat::Json));
    assert_eq!(parse_format("YAML"), Ok(rcli::opts::OutputFormat::Yaml));
    assert_eq!(parse_format("toml"), Err(ErrorKind::InvalidFormat));
    assert_eq!("Json".parse::<rcli::opts::OutputFormat>(), Ok(rcli::opts::OutputFormat::Json));
    assert_eq!(rcli::opts::OutputFormat::Json.as_str(), "json");
    assert_eq!(rcli::opts::OutputFormat::Yaml.as_str(), "yaml");
}

#[test]
fn verify_path_wants_an_existing_directory() {
    assert_eq!(verify_path("src", true, true), Ok("src".to_string()));
    assert_eq!(
        verify_path("Cargo.toml", true, false),
        Err("Path not found: Cargo.toml".to_string())
    );
    assert_eq!(
        verify_path("nowhere", false, false),
        Err("Path not found: nowhere".to_string())
    );
    assert_eq!(
        verify_path("odd", false, true),
        Err("Path not found: odd".to_string())
    );
}

#[test]
fn verify_file_exists_wants_an_existing_file() {
    assert_eq!(verify_file_exists("a.csv", true), Ok("a.csv".to_string()));
    assert_eq!(
        verify_file_exists("a.csv", false),
        Err("File not found: a.csv".to_string())
    );
    assert_eq!(
        verify_file_exists("-", false),
        Err("File not found: -".to_string())
    );
}

#[test]
fn durations_are_read_with_their_unit() {
    assert_eq!(parse_duration("0"), Ok(0));
    assert_eq!(parse_duration("10"), Ok(10));
    assert_eq!(parse_duration("5s"), Ok(5));
    assert_eq!(parse_duration("15m"), Ok(900));
    assert_eq!(parse_duration("2h"), Ok(7200));
    assert_eq!(parse_duration("1d"), Ok(86400));
    assert_eq!(parse_duration("14d"), Ok(1209600));
    assert_eq!(parse_duration("+5m"), Ok(300));
    assert_eq!(parse_duration("007"), Ok(7));
    assert_eq!(parse_duration(&usize::MAX.to_string()), Ok(usize::MAX));
    assert_eq!(parse_duration(&format!("{}s", usize::MAX)), Ok(usize::MAX));
}

#[test]
fn durations_that_cannot_be_read_say_why() {
    let empty = "".parse::<usize>().unwrap_err().to_string();
    let invalid = "x".parse::<usize>().unwrap_err().to_string();
    let large = "99999999999999999999999999".parse::<usize>().unwrap_err().to_string();
    assert_eq!(empty, "cannot parse integer from empty string");
    assert_eq!(invalid, "invalid digit found in string");
    assert_eq!(large, "number too large to fit in target type");
    for text in ["", "s", "m", "h", "d"] {
        assert_eq!(
            parse_duration(text),
            Err(format!("Invalid duration number: {}", empty))
        );
    }
    for text in ["abc", "-5", "+", "+s", "1.5h", "1 d", "d1", "1dd", "12x", "١", "1é", "++1"] {
        assert_eq!(
            parse_duration(text),
            Err(format!("Invalid duration number: {}", invalid))
        );
    }
    for text in [
        "99999999999999999999999999",
        "99999999999999999999999999d",
        "99999999999999999999999999x",
    ] {
        assert_eq!(
            parse_duration(text),
            Err(format!("Invalid duration number: {}", large))
        );
    }
    assert_eq!(
        parse_duration(&format!("{}m", usize::MAX)),
        Err(format!("Invalid duration number: {}", large))
    );
    assert_eq!(
        parse_duration(&format!("{}d", usize::MAX / 86400 + 1)),
        Err(format!("Invalid duration number: {}", large))
    );
    assert_eq!(
        parse_duration(&format!("{}d", usize::MAX / 86400)),
        Ok(usize::MAX / 86400 * 86400)
    );
}

#[test]
fn numbers_are_read_as_the_standard_library_reads_them() {
    let samples = [
        "", "0", "1", "+1", "-1", "+", "-", "++1", "12345", "18446744073709551615",
        "18446744073709551616", "184467440737095516150", "4294967295", "4294967296", "00000000000000000000000001",
        "1a", "a1", "99999999999999999999a", "9999999999999999999a9999", " 1", "1 ", "１",
    ];
    for text in samples {
        let expected = text.parse::<usize>().map_err(|e| e.to_string());
        let got = parse_number(text.as_bytes()).map_err(|e| e.as_str().to_string());
        assert_eq!(got, expected, "for {:?}", text);
    }
    assert_eq!(parse_number(b""), Err(NumberError::Empty));
    assert_eq!(parse_number(b"x"), Err(NumberError::InvalidDigit));
    assert_eq!(parse_number(b"99999999999999999999999"), Err(NumberError::TooLarge));
}

#[test]
fn csv_output_name_defaults_to_the_format() {
    let mut options = CsvOpts {
        input: "in.csv".to_string(),
        output: None,
        format: OutputFormat::Json,
        delimiter: ',',
        header: true,
    };
    assert_eq!(options.output_name(), "output.json");
    options.format = OutputFormat::Yaml;
    assert_eq!(options.output_name(), "output.yaml");
    options.output = Some("players.txt".to_string());
    assert_eq!(options.output_name(), "players.txt");
    assert_eq!(OutputFormat::Json.as_str(), "json");
    assert_eq!(OutputFormat::Yaml.as_str(), "yaml");
}

#[test]
fn text_options_run_their_operation() {
    let key = vec![0u8; 32];
    let sign = TextSignOpts {
        input: "-".to_string(),
        key: "key.txt".to_string(),
        format: TextSignFormat::Blake3,
    };
    let sig = sign.execute(b"hello world", &key).unwrap();
    let verify = TextVerifyOpts {
        input: "-".to_string(),
        key: "key.txt".to_string(),
        sig: sig.clone(),
        format: TextSignFormat::Blake3,
    };
    assert_eq!(verify.execute(b"hello world", &key), Ok(true));
    assert_eq!(verify.execute(b"hello world?", &key), Ok(false));
    assert_eq!(verify.execute(b"hello world", &key[..31]), Err(ErrorKind::InvalidKeyLength));
    let broken = TextVerifyOpts {
        sig: "???".to_string(),
        ..verify
    };
    assert_eq!(broken.execute(b"hello world", &key), Err(ErrorKind::EncodingError));
    assert_eq!(VerifyOptions::report(true), "✓ Signature verified");
    assert_eq!(VerifyOptions::report(false), "⚠ Signature not verified");

    let generate = KeyGenerateOpts {
        format: TextSignFormat::Ed25519,
        output_path: ".".to_string(),
    };
    let keys = generate.execute().unwrap();
    assert_eq!(keys.len(), 2);

    let encrypt = EncryptOpts {
        input: "-".to_string(),
        key: "key.txt".to_string(),
    };
    let decrypt = DecryptOpts {
        input: "-".to_string(),
        key: "key.txt".to_string(),
    };
    let text = encrypt.execute(b"hello world", &key).unwrap();
    assert_eq!(decrypt.execute(&text, &key), Ok(b"hello world".to_vec()));
    assert_eq!(decrypt.execute(&text, &key[..5]), Err(ErrorKind::InvalidKeyLength));
}

#[test]
fn error_kinds_describe_themselves() {
    assert_eq!(ErrorKind::IoError.message(), "I/O error");
    assert_eq!(ErrorKind::InvalidKeyLength.message(), "invalid key length");
    assert_eq!(ErrorKind::InvalidFormat.message(), "invalid format");
    assert_eq!(ErrorKind::EncodingError.message(), "malformed base64 text");
    assert_eq!(ErrorKind::CryptoError.message(), "cryptographic operation failed");
}

#[test]
fn token_options_issue_claims() {
    let options = rcli::SignOpts {
        sub: "test".to_string(),
        alg: rcli::JwtAlgorithm::HS256,
        exp: 86400,
        aud: "rcli".to_string(),
    };
    let claims = options.claims(1_000).unwrap();
    assert_eq!(claims.sub(), "test");
    assert_eq!(claims.aud(), "rcli");
    assert_eq!(claims.exp(), 87_400);
    assert_eq!(options.claims(usize::MAX), None);
    assert_eq!(claims, rcli::Claims::new("test".to_string(), "rcli".to_string(), 87_400));
}

#[test]
fn token_verification_is_reported() {
    assert_eq!(rcli::VerifyOpts::report(&Ok(true)), "JWT token is valid");
    assert_eq!(rcli::VerifyOpts::report(&Ok(false)), "JWT token is invalid");
    assert_eq!(
        rcli::VerifyOpts::report(&Err("ExpiredSignature".to_string())),
        "JWT token is invalid, Error: ExpiredSignature"
    );
}

#[test]
fn output_format_names_itself() {
    let name: &'static str = OutputFormat::Json.into();
    assert_eq!(name, "json");
    let name: &'static str = OutputFormat::Yaml.into();
    assert_eq!(name, "yaml");
    let name: &'static str = rcli::opts::OutputFormat::Yaml.into();
    assert_eq!(name, "yaml");
}
