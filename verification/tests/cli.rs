use rcli::verify_input_file;

#[test]
fn test_verify_input_file() {
    assert_eq!(verify_input_file("-", false), Ok("-".into()));
    assert_eq!(
        verify_input_file("Cargo.toml", true),
        Ok("Cargo.toml".into())
    );
    assert_eq!(
        verify_input_file("*", false),
        Err(format!("File not found: {}", "*"))
    );
    assert_eq!(
        verify_input_file("not-exist", false),
        Err(format!("File not found: {}", "not-exist"))
    );
}
