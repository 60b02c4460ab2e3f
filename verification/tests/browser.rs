use herdr::browser::{browser_command, normalize_browser_url, BrowserCommand};

fn args(values: &[&str]) -> Vec<String> {
    values.iter().map(|value| (*value).to_string()).collect()
}

#[test]
fn normalize_browser_url_adds_http_scheme() {
    assert_eq!(
        normalize_browser_url("example.com").unwrap(),
        "http://example.com"
    );
}

#[test]
fn normalize_browser_url_accepts_http_and_https_case_insensitively() {
    assert_eq!(
        normalize_browser_url("HTTPS://Example.COM/path").unwrap(),
        "https://Example.COM/path"
    );
    assert_eq!(
        normalize_browser_url("HTTP://localhost:8080").unwrap(),
        "http://localhost:8080"
    );
}

#[test]
fn normalize_browser_url_rejects_non_http_schemes() {
    assert!(normalize_browser_url("file:///etc/passwd")
        .unwrap_err()
        .contains("unsupported URL scheme"));
    assert!(normalize_browser_url("javascript:alert(1)")
        .unwrap_err()
        .contains("unsupported URL scheme"));
}

#[test]
fn normalize_browser_url_error_messages() {
    assert_eq!(normalize_browser_url("   ").unwrap_err(), "URL must not be empty");
    assert_eq!(normalize_browser_url("https://").unwrap_err(), "URL must include a host");
    assert_eq!(
        normalize_browser_url("FTP://x").unwrap_err(),
        "unsupported URL scheme: ftp (only http and https are allowed)"
    );
    assert_eq!(
        normalize_browser_url("Mailto:me").unwrap_err(),
        "unsupported URL scheme: mailto (only http and https are allowed)"
    );
    assert_eq!(normalize_browser_url("  [::1]:80 ").unwrap(), "http://[::1]:80");
}

#[test]
fn normalize_browser_url_is_idempotent_on_examples() {
    for raw in ["example.com", "HTTPS://Example.COM/path", " http://a.b/c "] {
        let once = normalize_browser_url(raw).unwrap();
        assert_eq!(normalize_browser_url(&once).unwrap(), once);
    }
}

#[test]
fn browser_command_decisions() {
    assert!(matches!(browser_command(&args(&["--help"])), BrowserCommand::Help));
    assert!(matches!(browser_command(&args(&["-h", "--bogus"])), BrowserCommand::Help));
    assert!(matches!(browser_command(&args(&[])), BrowserCommand::MissingUrl));
    assert!(matches!(browser_command(&args(&["--wait"])), BrowserCommand::MissingUrl));
    match browser_command(&args(&["--bogus"])) {
        BrowserCommand::UnknownOption(o) => assert_eq!(o, "--bogus"),
        _ => panic!("expected unknown option"),
    }
    match browser_command(&args(&["a.com", "b.com"])) {
        BrowserCommand::ExtraArgument(o) => assert_eq!(o, "b.com"),
        _ => panic!("expected extra argument"),
    }
    match browser_command(&args(&["file:///x"])) {
        BrowserCommand::InvalidUrl(m) => assert!(m.contains("unsupported URL scheme: file")),
        _ => panic!("expected invalid url"),
    }
    match browser_command(&args(&["example.com", "--wait"])) {
        BrowserCommand::Render { url, wait } => {
            assert_eq!(url, "http://example.com");
            assert!(wait);
        }
        _ => panic!("expected render"),
    }
}

#[test]
fn normalizing_a_normalized_url_changes_nothing() {
    for raw in ["example.com", "  HTTPS://Example.com/a?b=c ", "http:// spaced", "[::1]:8080"] {
        let once = normalize_browser_url(raw).unwrap();
        assert_eq!(normalize_browser_url(&once).unwrap(), once);
    }
}

#[test]
fn accepted_urls_carry_an_http_scheme_and_a_rest() {
    assert_eq!(normalize_browser_url(" Example.com/a "), Ok("http://Example.com/a".to_string()));
    assert_eq!(normalize_browser_url("HTTPS://x"), Ok("https://x".to_string()));
    assert!(normalize_browser_url("http:foo").is_err());
    assert!(normalize_browser_url("https://").is_err());
    assert!(normalize_browser_url("[::1]:8080").is_ok());
    assert!(normalize_browser_url("   ").is_err());
}
