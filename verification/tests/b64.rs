use rcli::{process_decode, process_encode, Base64DecodeOpts, Base64EncodeOpts, Base64Format, ErrorKind};

#[test]
fn encode_standard_pads_to_four() {
    assert_eq!(process_encode(b"", Base64Format::Standard), "");
    assert_eq!(process_encode(b"f", Base64Format::Standard), "Zg==");
    assert_eq!(process_encode(b"fo", Base64Format::Standard), "Zm8=");
    assert_eq!(process_encode(b"foo", Base64Format::Standard), "Zm9v");
    assert_eq!(process_encode(b"foob", Base64Format::Standard), "Zm9vYg==");
    assert_eq!(process_encode(b"fooba", Base64Format::Standard), "Zm9vYmE=");
    assert_eq!(process_encode(b"foobar", Base64Format::Standard), "Zm9vYmFy");
    assert_eq!(process_encode(&[0xfb, 0xff], Base64Format::Standard), "+/8=");
}

#[test]
fn encode_url_safe_has_no_padding() {
    assert_eq!(process_encode(b"", Base64Format::UrlSafe), "");
    assert_eq!(process_encode(b"f", Base64Format::UrlSafe), "Zg");
    assert_eq!(process_encode(b"fo", Base64Format::UrlSafe), "Zm8");
    assert_eq!(process_encode(b"foo", Base64Format::UrlSafe), "Zm9v");
    assert_eq!(process_encode(b"hello", Base64Format::UrlSafe), "aGVsbG8");
    assert_eq!(process_encode(&[0xfb, 0xff], Base64Format::UrlSafe), "-_8");
    assert_eq!(process_encode(&[0xff, 0xff, 0xff], Base64Format::UrlSafe), "____");
}

#[test]
fn decode_inverts_encode() {
    for format in [Base64Format::Standard, Base64Format::UrlSafe] {
        for len in 0usize..70 {
            let data: Vec<u8> = (0..len).map(|i| (i * 37 % 256) as u8).collect();
            let text = process_encode(&data, format);
            assert_eq!(process_decode(&text, format), Ok(data));
        }
    }
}

#[test]
fn decode_reads_each_dialect() {
    assert_eq!(process_decode("Zm9vYg==", Base64Format::Standard), Ok(b"foob".to_vec()));
    assert_eq!(process_decode("+/8=", Base64Format::Standard), Ok(vec![0xfb, 0xff]));
    assert_eq!(process_decode("aGVsbG8", Base64Format::UrlSafe), Ok(b"hello".to_vec()));
    assert_eq!(process_decode("-_8", Base64Format::UrlSafe), Ok(vec![0xfb, 0xff]));
    assert_eq!(process_decode("", Base64Format::UrlSafe), Ok(vec![]));
    assert_eq!(process_decode("", Base64Format::Standard), Ok(vec![]));
}

#[test]
fn decode_refuses_what_is_no_encoding() {
    let refused_by_url_safe = [
        "Zg==", "Zm8=", "+/8", "Z", "Zm9vY", "Zh", "Zm9", "aGVsbG8\n", " aGVsbG8", "aGV sbG8",
        "aGVsbG9", "é",
    ];
    for text in refused_by_url_safe {
        assert_eq!(
            process_decode(text, Base64Format::UrlSafe),
            Err(ErrorKind::EncodingError)
        );
    }
    let refused_by_standard = [
        "Zg", "Zg=", "Zm8", "-_8=", "Z", "Zh==", "Zm9=", "Zg==Zg==", "=", "Zm9v\n",
    ];
    for text in refused_by_standard {
        assert_eq!(
            process_decode(text, Base64Format::Standard),
            Err(ErrorKind::EncodingError)
        );
    }
}

#[test]
fn base64_options_use_their_format() {
    let encode = Base64EncodeOpts {
        input: "-".to_string(),
        format: Base64Format::UrlSafe,
    };
    assert_eq!(encode.execute(&[0xfb, 0xff]), "-_8");
    let encode = Base64EncodeOpts {
        input: "-".to_string(),
        format: Base64Format::Standard,
    };
    assert_eq!(encode.execute(&[0xfb, 0xff]), "+/8=");
    let decode = Base64DecodeOpts {
        input: "-".to_string(),
        format: Base64Format::Standard,
    };
    assert_eq!(decode.execute("+/8="), Ok(vec![0xfb, 0xff]));
    assert_eq!(decode.execute("-_8"), Err(ErrorKind::EncodingError));
}
