use herdr::fleet_ops::{
    format_duration, format_issue_label, fragments_fit_check, git_context_from, refresh_fleet_ops_cache, state_label,
    AgentMetadata, AgentState, CachedGitContext, CiStatus, FleetOpsBarKind, FleetOpsCache,
    FleetOpsMetadata, PluginFleetFragment, PluginIssueFragment, PluginPrFragment, TerminalState,
};
use herdr::timestamp::{chrono_lite_parse_rfc3339, timestamp_fits_check};

#[test]
fn test_state_labels() {
    assert_eq!(state_label(AgentState::Idle), "idle");
    assert_eq!(state_label(AgentState::Working), "working");
    assert_eq!(state_label(AgentState::Blocked), "blocked");
    assert_eq!(state_label(AgentState::Unknown), "unknown");
}

#[test]
fn test_format_duration() {
    assert_eq!(format_duration(30), "30s");
    assert_eq!(format_duration(90), "1m");
    assert_eq!(format_duration(3700), "1h1m");
}

#[test]
fn format_duration_boundaries() {
    assert_eq!(format_duration(0), "0s");
    assert_eq!(format_duration(59), "59s");
    assert_eq!(format_duration(60), "1m");
    assert_eq!(format_duration(3599), "59m");
    assert_eq!(format_duration(3600), "1h0m");
}

#[test]
fn format_issue_label_keeps_personalized_keys() {
    assert_eq!(format_issue_label("ENG-432"), "ENG-432");
    assert_eq!(format_issue_label("LIN-12"), "LIN-12");
    assert_eq!(format_issue_label("432"), "LIN-432");
}

#[test]
fn format_issue_label_edge_cases() {
    assert_eq!(format_issue_label("   "), "");
    assert_eq!(format_issue_label(" ENG-4-2 "), "ENG-4-2");
    assert_eq!(format_issue_label("ENG-"), "LIN-ENG-");
    assert_eq!(format_issue_label("-12"), "LIN--12");
    assert_eq!(format_issue_label("E1-2"), "LIN-E1-2");
}

#[test]
fn test_bar_parts_minimal() {
    let meta = FleetOpsMetadata {
        host: "sofie".to_string(),
        ..Default::default()
    };
    let texts: Vec<_> = meta
        .bar_parts("codex", AgentState::Idle, None)
        .into_iter()
        .map(|part| part.text)
        .collect();
    assert!(texts.iter().any(|t| t == "codex"));
    assert!(texts.iter().any(|t| t == "idle"));
    assert!(texts.iter().any(|t| t == "sofie"));
}

#[test]
fn test_bar_parts_full() {
    let meta = FleetOpsMetadata {
        repo: Some("herdr".to_string()),
        branch: Some("main".to_string()),
        worktree: Some("feature".to_string()),
        model: Some("glm-5.2".to_string()),
        provider: Some("zai".to_string()),
        host: "sofie".to_string(),
        elapsed: Some(300),
        github_pr: Some(42),
        ci_status: Some(CiStatus::Success),
        session_resume_available: true,
        ..Default::default()
    };
    let texts: Vec<_> = meta
        .bar_parts("codex", AgentState::Working, Some("chef-bot"))
        .into_iter()
        .map(|part| part.text)
        .collect();
    assert!(texts.iter().any(|t| t == "chef-bot"));
    assert!(texts.iter().any(|t| t == "working"));
    assert!(texts.iter().any(|t| t == "herdr:main (feature)"));
    assert!(texts.iter().any(|t| t == "zai/glm-5.2"));
    assert!(texts.iter().any(|t| t == "#42 OK"));
    assert!(texts.iter().any(|t| t == "5m"));
    assert!(texts.iter().any(|t| t == "resume"));
}

#[test]
fn test_bar_parts_include_resume() {
    let meta = FleetOpsMetadata {
        host: "local".to_string(),
        session_resume_available: true,
        ..Default::default()
    };
    let parts = meta.bar_parts("codex", AgentState::Idle, None);
    assert!(parts
        .iter()
        .any(|p| p.kind == FleetOpsBarKind::Resume && p.text == "resume"));
}

#[test]
fn bar_parts_exact_order() {
    let meta = FleetOpsMetadata {
        repo: Some("herdr".to_string()),
        branch: Some("main".to_string()),
        linear_issue: Some("7".to_string()),
        github_pr: Some(3),
        ci_status: Some(CiStatus::Running),
        model: Some("m".to_string()),
        provider: Some(String::new()),
        host: "h".to_string(),
        retry_count: 2,
        ..Default::default()
    };
    let parts: Vec<(FleetOpsBarKind, String)> = meta
        .bar_parts("agent", AgentState::Blocked, None)
        .into_iter()
        .map(|p| (p.kind, p.text))
        .collect();
    assert_eq!(
        parts,
        vec![
            (FleetOpsBarKind::Name, "agent".to_string()),
            (FleetOpsBarKind::State, "blocked".to_string()),
            (FleetOpsBarKind::Git, "herdr:main".to_string()),
            (FleetOpsBarKind::Linear, "LIN-7".to_string()),
            (FleetOpsBarKind::Pr, "#3 ...".to_string()),
            (FleetOpsBarKind::Model, "m".to_string()),
            (FleetOpsBarKind::Host, "h".to_string()),
            (FleetOpsBarKind::Retry, "retry:2".to_string()),
        ]
    );
}

#[test]
fn merge_plugin_fragments_fills_linear_and_pr() {
    let mut meta = FleetOpsMetadata {
        host: "sofie".into(),
        ..Default::default()
    };
    meta.merge_plugin_fragments(&[PluginFleetFragment {
        source: Some("linear-context".into()),
        ttl_seconds: Some(0),
        issue: Some(PluginIssueFragment {
            id: Some("ENG-432".into()),
            assignee: Some("joep".into()),
            cycle: Some("Sprint".into()),
            ..Default::default()
        }),
        pr: Some(PluginPrFragment {
            number: Some(42),
            checks: Some("passing".into()),
        }),
        ..Default::default()
    }]);
    assert_eq!(meta.linear_issue.as_deref(), Some("ENG-432"));
    assert_eq!(meta.linear_assignee.as_deref(), Some("joep"));
    assert_eq!(meta.github_pr, Some(42));
    assert!(matches!(meta.ci_status, Some(CiStatus::Success)));
    let summary = meta.summary_line();
    assert!(summary.contains("ENG-432"));
    assert!(summary.contains("joep"));
    assert!(summary.contains("Sprint"));
    assert!(summary.contains("PR #42"));
}

#[test]
fn summary_line_exact_and_idle() {
    let idle = FleetOpsMetadata::default();
    assert_eq!(idle.summary_line(), "fleet ops idle");
    let meta = FleetOpsMetadata {
        linear_issue: Some("ENG-1".into()),
        linear_assignee: Some(String::new()),
        github_pr: Some(9),
        ci_status: Some(CiStatus::Failed),
        host: "h".into(),
        ..Default::default()
    };
    assert_eq!(meta.summary_line(), "ENG-1 \u{b7} PR #9 \u{2717} \u{b7} h");
}

#[test]
fn expired_fragments_are_skipped() {
    let mut meta = FleetOpsMetadata::default();
    let stale = PluginFleetFragment {
        updated_at: Some("1970-01-01T00:00:10Z".into()),
        ttl_seconds: Some(5),
        issue: Some(PluginIssueFragment {
            id: Some("OLD-1".into()),
            ..Default::default()
        }),
        ..Default::default()
    };
    let fresh = PluginFleetFragment {
        updated_at: Some("100".into()),
        ttl_seconds: Some(50),
        pr: Some(PluginPrFragment {
            number: None,
            checks: Some("FAILED".into()),
        }),
        ..Default::default()
    };
    meta.merge_plugin_fragments_at(&[stale, fresh], 120);
    assert_eq!(meta.linear_issue, None);
    assert!(matches!(meta.ci_status, Some(CiStatus::Failed)));
    assert_eq!(meta.github_pr, None);
}

#[test]
fn from_terminal_uses_cache_without_disk_ids() {
    let term = TerminalState {
        cwd: "/tmp".to_string(),
        ..Default::default()
    };
    let mut cache = FleetOpsCache::default();
    cache.fragments.push(PluginFleetFragment {
        issue: Some(PluginIssueFragment {
            id: Some("ENG-7".into()),
            ..Default::default()
        }),
        ttl_seconds: Some(0),
        ..Default::default()
    });
    let meta = FleetOpsMetadata::from_terminal(&term, "local", &cache);
    assert_eq!(meta.linear_issue.as_deref(), Some("ENG-7"));
}

#[test]
fn from_terminal_reads_git_context_and_agents() {
    let term = TerminalState {
        cwd: "/w/feature".to_string(),
        persisted_agent_session: true,
        agent_metadata: vec![
            AgentMetadata { display_agent: None, source: "codex".into() },
            AgentMetadata { display_agent: Some("opus".into()), source: "other".into() },
        ],
    };
    let mut cache = FleetOpsCache::default();
    refresh_fleet_ops_cache(
        &mut cache,
        vec![],
        &vec![
            ("/w/feature".to_string(), git_context_from(true, Some("old"), None, None)),
            ("/w/feature".to_string(), git_context_from(true, Some("herdr.git"), Some("ref: refs/heads/main\n"), Some("feature"))),
        ],
    );
    let meta = FleetOpsMetadata::from_terminal_at(&term, "box", &cache, 0);
    assert_eq!(meta.repo.as_deref(), Some("herdr"));
    assert_eq!(meta.branch.as_deref(), Some("main"));
    assert_eq!(meta.worktree.as_deref(), Some("feature"));
    assert_eq!(meta.model.as_deref(), Some("opus"));
    assert_eq!(meta.provider.as_deref(), Some("codex"));
    assert!(meta.session_resume_available);
    assert_eq!(meta.host, "box");
}

#[test]
fn git_context_without_repo() {
    let ctx = git_context_from(false, None, Some("ref: refs/heads/x"), Some("dir"));
    assert_eq!(ctx, CachedGitContext { repo: None, worktree: None, branch: None });
    let detached = git_context_from(true, Some("r"), Some("0123abcd"), Some("dir"));
    assert_eq!(detached.branch, None);
    let at_root = git_context_from(true, None, Some("ref: refs/heads/main"), Some("work"));
    assert_eq!(
        at_root,
        CachedGitContext { repo: None, worktree: Some("work".into()), branch: Some("main".into()) }
    );
}

#[test]
fn parses_timestamps() {
    assert_eq!(chrono_lite_parse_rfc3339("1700000000"), Ok(1700000000));
    assert_eq!(chrono_lite_parse_rfc3339("1970-01-01T00:00:00Z"), Ok(0));
    assert_eq!(chrono_lite_parse_rfc3339("2024-03-05T12:30:45Z"), Ok(1709641845));
    assert_eq!(chrono_lite_parse_rfc3339("2000-02-29T23:59:59.123+02:00"), Ok(951868799));
    assert_eq!(chrono_lite_parse_rfc3339("2024-13-01T00:00:00Z"), Err(()));
    assert_eq!(chrono_lite_parse_rfc3339("2024-01-01"), Err(()));
    assert_eq!(chrono_lite_parse_rfc3339("2024-01-01T10"), Err(()));
    assert_eq!(chrono_lite_parse_rfc3339("2024-01-01T10:05"), Ok(1704103500));
    assert_eq!(
        chrono_lite_parse_rfc3339("1969-12-31T23:59:59Z"),
        Ok(u64::MAX)
    );
}

#[test]
fn merge_skips_expired_fragments_and_keeps_local_fields() {
    let mut meta = FleetOpsMetadata {
        host: "sofie".into(),
        repo: Some("herdr".into()),
        ..Default::default()
    };
    let stale = PluginFleetFragment {
        updated_at: Some("2024-01-01T00:00:00Z".into()),
        ttl_seconds: Some(60),
        issue: Some(PluginIssueFragment { id: Some("ENG-1".into()), ..Default::default() }),
        ..Default::default()
    };
    let live = PluginFleetFragment {
        pr: Some(PluginPrFragment { number: Some(7), checks: None }),
        ..Default::default()
    };
    meta.merge_plugin_fragments_at(&[stale, live], 1_704_067_200 + 3600);
    assert_eq!(meta.linear_issue, None);
    assert_eq!(meta.github_pr, Some(7));
    assert_eq!(meta.host, "sofie");
    assert_eq!(meta.repo.as_deref(), Some("herdr"));
}

fn issue_fragment(id: &str, assignee: Option<&str>) -> PluginFleetFragment {
    PluginFleetFragment {
        issue: Some(PluginIssueFragment {
            id: Some(id.into()),
            assignee: assignee.map(|a| a.into()),
            ..Default::default()
        }),
        ..Default::default()
    }
}

#[test]
fn merging_in_parts_or_twice_gives_the_same_metadata() {
    let f1 = issue_fragment("ENG-1", Some("ana"));
    let f2 = issue_fragment("ENG-2", None);
    let mut whole = FleetOpsMetadata { host: "h".into(), ..Default::default() };
    whole.merge_plugin_fragments_at(&[f1.clone(), f2.clone()], 500);
    let mut parts = FleetOpsMetadata { host: "h".into(), ..Default::default() };
    parts.merge_plugin_fragments_at(&[f1.clone()], 500);
    parts.merge_plugin_fragments_at(&[f2.clone()], 500);
    assert_eq!(whole.linear_issue.as_deref(), Some("ENG-2"));
    assert_eq!(whole.linear_assignee.as_deref(), Some("ana"));
    assert_eq!(parts.linear_issue, whole.linear_issue);
    assert_eq!(parts.linear_assignee, whole.linear_assignee);
    whole.merge_plugin_fragments_at(&[f1, f2], 500);
    assert_eq!(whole.linear_issue.as_deref(), Some("ENG-2"));
    assert_eq!(whole.linear_assignee.as_deref(), Some("ana"));
}

#[test]
fn overflowing_stamps_are_caught_before_merging() {
    assert!(timestamp_fits_check("2024-03-05T12:30:45Z"));
    assert!(timestamp_fits_check("1700000000"));
    assert!(timestamp_fits_check("not a stamp"));
    assert!(!timestamp_fits_check("9999999999999999-01-01T00:00:00Z"));
    let huge = PluginFleetFragment {
        updated_at: Some("9999999999999999-01-01T00:00:00Z".into()),
        ttl_seconds: Some(10),
        ..Default::default()
    };
    let no_ttl = PluginFleetFragment { ttl_seconds: Some(0), ..huge.clone() };
    assert!(!fragments_fit_check(&[huge]));
    assert!(fragments_fit_check(&[no_ttl, issue_fragment("ENG-3", None)]));
}
