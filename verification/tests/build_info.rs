use herdr::build_info::{build_id, channel, is_dev, is_prerelease, is_preview, version, BASE_VERSION};

#[test]
fn stable_version_defaults_to_cargo_version() {
    assert!(!version(None, None).is_empty());
}

#[test]
fn stable_channel_is_base_version() {
    assert_eq!(version(None, None), BASE_VERSION);
    assert_eq!(version(Some("  "), Some("123")), BASE_VERSION);
    assert_eq!(channel(None), "stable");
    assert_eq!(channel(Some("   ")), "stable");
    assert!(!is_prerelease(None));
}

#[test]
fn preview_channel_appends_channel_and_build_id() {
    assert_eq!(version(Some(" preview "), Some(" 42 ")), "0.7.5-preview.42");
    assert_eq!(version(Some("dev"), None), "0.7.5-dev");
    assert_eq!(version(Some("dev"), Some("")), "0.7.5-dev");
    assert!(is_preview(Some("preview")));
    assert!(is_dev(Some(" dev")));
    assert!(is_prerelease(Some("dev")));
    assert_eq!(build_id(Some(" abc ")), Some("abc".to_string()));
    assert_eq!(build_id(Some("\t")), None);
}
