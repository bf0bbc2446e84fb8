use rcli::process::gen_pass::{LOWER, NUMBER, SYMBOL, UPPER};
use rcli::{
    directory_listing, process_csv, process_genpass, respond, Claims, CsvError, DirectoryEntry,
    GenPassError, GenPassOpts, OutputFormat, PathRead,
};

#[test]
fn csv_becomes_json_objects() {
    let data = b"Name,Position,DOB\nAlice,Forward,1990\nBob,Keeper,1985\n";
    let text = process_csv(data, OutputFormat::Json).unwrap();
    let value: serde_json::Value = serde_json::from_str(&text).unwrap();
    let rows = value.as_array().unwrap();
    assert_eq!(rows.len(), 2);
    assert_eq!(rows[0]["Name"], "Alice");
    assert_eq!(rows[0]["Position"], "Forward");
    assert_eq!(rows[0]["DOB"], "1990");
    assert_eq!(rows[1]["Name"], "Bob");
    assert_eq!(rows[1]["Position"], "Keeper");
    assert_eq!(rows[1].as_object().unwrap().len(), 3);
    assert_eq!(
        text,
        "[\n  {\n    \"DOB\": \"1990\",\n    \"Name\": \"Alice\",\n    \"Position\": \"Forward\"\n  },\n  {\n    \"DOB\": \"1985\",\n    \"Name\": \"Bob\",\n    \"Position\": \"Keeper\"\n  }\n]"
    );
}

#[test]
fn csv_becomes_yaml_objects() {
    let data = b"a,b\n1,2\n3,4\n";
    let text = process_csv(data, OutputFormat::Yaml).unwrap();
    assert_eq!(text, "- a: '1'\n  b: '2'\n- a: '3'\n  b: '4'\n");
}

#[test]
fn csv_with_only_a_header_has_no_objects() {
    assert_eq!(process_csv(b"a,b\n", OutputFormat::Json), Ok("[]".to_string()));
    assert_eq!(process_csv(b"", OutputFormat::Json), Ok("[]".to_string()));
    assert_eq!(process_csv(b"a,b\n", OutputFormat::Yaml), Ok("[]\n".to_string()));
}

#[test]
fn csv_with_uneven_records_is_malformed() {
    assert_eq!(
        process_csv(b"a,b\n1,2,3\n", OutputFormat::Json),
        Err(CsvError::Malformed)
    );
    assert_eq!(
        process_csv(b"a,b\n1\n", OutputFormat::Yaml),
        Err(CsvError::Malformed)
    );
    assert_eq!(
        process_csv(b"a,b\n\xff,2\n", OutputFormat::Json),
        Err(CsvError::Malformed)
    );
}

#[test]
fn password_has_the_length_and_the_classes() {
    for length in 4u8..40 {
        let password = process_genpass(length, true, true, true, true).unwrap();
        assert_eq!(password.len(), length as usize);
        let bytes = password.as_bytes();
        assert!(bytes.iter().any(|b| UPPER.contains(b)));
        assert!(bytes.iter().any(|b| LOWER.contains(b)));
        assert!(bytes.iter().any(|b| NUMBER.contains(b)));
        assert!(bytes.iter().any(|b| SYMBOL.contains(b)));
        assert!(bytes.iter().all(|b| UPPER.contains(b)
            || LOWER.contains(b)
            || NUMBER.contains(b)
            || SYMBOL.contains(b)));
    }
}

#[test]
fn password_stays_within_the_chosen_classes() {
    for _ in 0..20 {
        let password = process_genpass(16, false, true, false, false).unwrap();
        assert_eq!(password.len(), 16);
        assert!(password.bytes().all(|b| LOWER.contains(&b)));
        let password = process_genpass(16, true, false, true, false).unwrap();
        assert!(password.bytes().all(|b| UPPER.contains(&b) || NUMBER.contains(&b)));
        assert!(password.bytes().any(|b| UPPER.contains(&b)));
        assert!(password.bytes().any(|b| NUMBER.contains(&b)));
        let password = process_genpass(2, false, false, true, true).unwrap();
        assert!(password.bytes().any(|b| SYMBOL.contains(&b)));
        assert!(password.bytes().any(|b| NUMBER.contains(&b)));
    }
}

#[test]
fn password_pools_leave_out_lookalikes() {
    assert_eq!(&UPPER[..], &b"ABCDEFGHJKLMNPQRSTUVWXYZ"[..]);
    assert_eq!(&LOWER[..], &b"abcdefghijkmnopqrstuvwxyz"[..]);
    assert_eq!(&NUMBER[..], &b"123456789"[..]);
    assert_eq!(&SYMBOL[..], &b"!@#$%^&*_"[..]);
}

#[test]
fn password_that_cannot_be_made_is_refused() {
    assert_eq!(
        process_genpass(8, false, false, false, false),
        Err(GenPassError::NoCharacterClass)
    );
    assert_eq!(process_genpass(0, false, false, false, false), Ok(String::new()));
    assert_eq!(
        process_genpass(3, true, true, true, true),
        Err(GenPassError::TooShort)
    );
    assert_eq!(
        process_genpass(0, true, false, false, false),
        Err(GenPassError::TooShort)
    );
    assert_eq!(process_genpass(1, true, false, false, false).unwrap().len(), 1);
}

#[test]
fn passwords_differ_from_call_to_call() {
    let first = process_genpass(32, true, true, true, true).unwrap();
    let second = process_genpass(32, true, true, true, true).unwrap();
    assert_ne!(first, second);
}

#[test]
fn password_options_estimate_strength() {
    let options = GenPassOpts {
        length: 24,
        uppercase: true,
        lowercase: true,
        number: true,
        symbol: true,
    };
    let generated = options.execute().unwrap();
    assert_eq!(generated.password.len(), 24);
    assert_eq!(generated.strength, Some(4));
    let options = GenPassOpts {
        length: 0,
        uppercase: false,
        lowercase: false,
        number: false,
        symbol: false,
    };
    let generated = options.execute().unwrap();
    assert_eq!(generated.password, "");
    assert_eq!(generated.strength, None);
    let options = GenPassOpts {
        length: 1,
        uppercase: false,
        lowercase: false,
        number: true,
        symbol: false,
    };
    let generated = options.execute().unwrap();
    assert_eq!(generated.strength, Some(0));
}

#[test]
fn directory_listing_links_each_entry() {
    let entries = vec![
        DirectoryEntry {
            path: "src/lib.rs".to_string(),
            name: "lib.rs".to_string(),
        },
        DirectoryEntry {
            path: "src/cli".to_string(),
            name: "cli".to_string(),
        },
    ];
    assert_eq!(
        directory_listing(&entries),
        "<html><body><ul><li><a href=\"/static/src/lib.rs\">lib.rs</a></li><li><a href=\"/static/src/cli\">cli</a></li></ul></body></html>"
    );
    assert_eq!(directory_listing(&vec![]), "<html><body><ul></ul></body></html>");
}

#[test]
fn responses_follow_what_was_read() {
    let response = respond(&PathRead::Missing("\"./nothing\"".to_string()));
    assert_eq!(response.status, 404);
    assert!(!response.html);
    assert_eq!(response.body, "File \"./nothing\" not found");

    let response = respond(&PathRead::File("<p>hello</p>".to_string()));
    assert_eq!(response.status, 200);
    assert!(response.html);
    assert_eq!(response.body, "<p>hello</p>");

    let response = respond(&PathRead::Directory(vec![DirectoryEntry {
        path: "a.txt".to_string(),
        name: "a.txt".to_string(),
    }]));
    assert_eq!(response.status, 200);
    assert!(response.html);
    assert_eq!(
        response.body,
        "<html><body><ul><li><a href=\"/static/a.txt\">a.txt</a></li></ul></body></html>"
    );

    let response = respond(&PathRead::UnreadableDirectory("denied".to_string()));
    assert_eq!(response.status, 500);
    assert!(!response.html);
    assert_eq!(response.body, "Failed to read directory: denied");

    let response = respond(&PathRead::UnreadableFile("not text".to_string()));
    assert_eq!(response.status, 500);
    assert!(!response.html);
    assert_eq!(response.body, "Failed to read file: not text");
}

#[test]
fn claims_expire_after_their_lifetime() {
    let claims = Claims::issue("test".to_string(), "rcli".to_string(), 1_700_000_000, 3600).unwrap();
    assert_eq!(claims.sub(), "test");
    assert_eq!(claims.aud(), "rcli");
    assert_eq!(claims.exp(), 1_700_003_600);
    assert_eq!(
        Claims::issue("a".to_string(), "b".to_string(), usize::MAX, 1),
        None
    );
    assert_eq!(
        Claims::issue("a".to_string(), "b".to_string(), usize::MAX - 1, 1)
            .unwrap()
            .exp(),
        usize::MAX
    );
}
