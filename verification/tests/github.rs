use herdr::github::{
    github_owner_repo_from_git_config, is_valid_repo_path_segment, parse_github_com_oauth_token,
    parse_github_owner_repo,
};

#[test]
fn parses_github_com_token_and_skips_enterprise() {
    let content = r#"
github.example.com:
    oauth_token: enterprise-secret
github.com:
    user: alice
    oauth_token: "gho_github_token"
other.com:
    oauth_token: other-secret
"#;
    assert_eq!(
        parse_github_com_oauth_token(content).as_deref(),
        Some("gho_github_token")
    );
}

#[test]
fn ignores_enterprise_only_hosts_yml() {
    let content = r#"
github.example.com:
    oauth_token: enterprise-secret
"#;
    assert_eq!(parse_github_com_oauth_token(content), None);
}

#[test]
fn token_parsing_edge_cases() {
    assert_eq!(
        parse_github_com_oauth_token("github.com\r\n  # note\r\n  oauth_token: 'abc'\r\n").as_deref(),
        Some("abc")
    );
    assert_eq!(parse_github_com_oauth_token("github.com:\n  oauth_token: \"\"\n"), None);
    assert_eq!(parse_github_com_oauth_token("oauth_token: top\n"), None);
}

#[test]
fn validates_repo_path_segments() {
    assert!(is_valid_repo_path_segment("OnlineChefGroep"));
    assert!(is_valid_repo_path_segment("herdr"));
    assert!(is_valid_repo_path_segment("foo.bar_baz-1"));
    assert!(!is_valid_repo_path_segment(""));
    assert!(!is_valid_repo_path_segment("foo/bar"));
    assert!(!is_valid_repo_path_segment("foo bar"));
    assert!(!is_valid_repo_path_segment("../etc"));
}

#[test]
fn parses_https_and_ssh_github_urls() {
    assert_eq!(
        parse_github_owner_repo("https://github.com/acme/widgets.git"),
        Some(("acme".into(), "widgets".into()))
    );
    assert_eq!(
        parse_github_owner_repo("git@github.com:acme/widgets.git"),
        Some(("acme".into(), "widgets".into()))
    );
    assert_eq!(
        parse_github_owner_repo("https://github.com/acme/widgets/extra"),
        None
    );
    assert_eq!(
        parse_github_owner_repo("https://gitlab.com/acme/widgets.git"),
        None
    );
    assert_eq!(
        parse_github_owner_repo("https://github.com/acme/wid gets.git"),
        None
    );
}

#[test]
fn owner_repo_strips_trailing_slashes_and_git_suffixes() {
    assert_eq!(
        parse_github_owner_repo("  https://github.com/acme/widgets.git.git// "),
        Some(("acme".into(), "widgets".into()))
    );
    assert_eq!(parse_github_owner_repo("https://github.com/acme"), None);
}

#[test]
fn reads_origin_from_git_config() {
    let config = "[core]\n\turl = https://github.com/wrong/one\n[remote \"origin\"]\n\turl = git@github.com:acme/widgets.git\n[branch \"main\"]\n";
    assert_eq!(
        github_owner_repo_from_git_config(config),
        Some(("acme".into(), "widgets".into()))
    );
    assert_eq!(github_owner_repo_from_git_config("[remote \"upstream\"]\nurl=https://github.com/a/b\n"), None);
}

#[test]
fn dot_only_segments_are_rejected() {
    assert!(!is_valid_repo_path_segment("."));
    assert!(!is_valid_repo_path_segment(".."));
    assert!(!is_valid_repo_path_segment("..."));
    assert!(is_valid_repo_path_segment(".github"));
    assert!(is_valid_repo_path_segment("a.."));
    assert_eq!(parse_github_owner_repo("https://github.com/acme/.."), None);
}

#[test]
fn only_github_com_hosts_are_parsed() {
    assert_eq!(parse_github_owner_repo("https://notgithub.com/acme/widgets.git"), None);
    assert_eq!(parse_github_owner_repo("https://evil.example/github.com/acme/widgets"), None);
    assert_eq!(parse_github_owner_repo("git@evil.example:github.com/acme"), None);
    assert_eq!(
        parse_github_owner_repo("ssh://git@github.com/acme/widgets.git"),
        Some(("acme".to_string(), "widgets".to_string()))
    );
    assert_eq!(
        parse_github_owner_repo("https://github.com:443/acme/widgets"),
        Some(("acme".to_string(), "widgets".to_string()))
    );
}
