use herdr::pi_sessions::{is_session_file, parse_ended_session, EventData, EventKind, PiSessionWatcher};

fn session_text(id: &str, stop: Option<&str>) -> String {
    let mut text = format!("{{\"type\":\"session\",\"id\":\"{id}\",\"cwd\":\"/home/joep\"}}\n");
    if let Some(s) = stop {
        text.push_str(&format!("{{\"type\":\"message\",\"message\":{{\"stopReason\":\"{s}\"}}}}\n"));
    }
    text
}

#[test]
fn emits_for_stale_session_and_not_again() {
    let path = "/root/--home-joep--/abc123.jsonl".to_string();
    let now = 10_000u64;
    let mut w = PiSessionWatcher::new();
    assert!(w.should_scan(5));
    w.record_scan(vec![(path.clone(), now - 180)], 5);
    let contents = vec![(path.clone(), session_text("abc123", Some("completed")))];

    let first = w.poll(now, &contents, "box");
    assert_eq!(first.len(), 1, "first poll emits the ended session");
    let second = w.poll(now, &contents, "box");
    assert!(second.is_empty(), "second poll does not re-emit");
}

#[test]
fn ignores_still_growing_session() {
    let path = "/root/--home-joep--/fresh.jsonl".to_string();
    let now = 10_000u64;
    let mut w = PiSessionWatcher::new();
    w.record_scan(vec![(path.clone(), now)], 1);
    let contents = vec![(path.clone(), "{\"type\":\"session\",\"id\":\"x\",\"cwd\":\"/h\"}\n".to_string())];
    assert!(w.poll(now, &contents, "box").is_empty(), "freshly-written session is not ended");
}

#[test]
fn parse_extracts_header_and_stop_reason() {
    let ended = parse_ended_session(
        &session_text("id-parse", Some("aborted")),
        "/root/--home-joep--/id-parse.jsonl",
        "box",
    )
    .unwrap();
    assert_eq!(ended.session_id, "id-parse");
    assert_eq!(ended.cwd, "/home/joep");
    assert_eq!(ended.last_stop_reason.as_deref(), Some("aborted"));
    assert_eq!(ended.event_count, 2);
}

#[test]
fn parse_falls_back_to_file_stem_and_rejects_other_headers() {
    let ended = parse_ended_session("\n{\"type\":\"session\"}\n\n", "/s/dir/stem-id.jsonl", "h").unwrap();
    assert_eq!(ended.session_id, "stem-id");
    assert_eq!(ended.cwd, "");
    assert_eq!(ended.last_stop_reason, None);
    assert_eq!(ended.event_count, 1);
    assert_eq!(ended.host, "h");
    assert!(parse_ended_session("{\"type\":\"message\"}\n", "/s/a.jsonl", "h").is_none());
    assert!(parse_ended_session("not json\n", "/s/a.jsonl", "h").is_none());
    assert!(parse_ended_session("", "/s/a.jsonl", "h").is_none());
    assert!(parse_ended_session("{\"type\":\"session\",\"id\":5}\n", "/s/a.jsonl", "h").is_none());
}

#[test]
fn sessions_are_reported_in_path_order_once() {
    let now = 10_000u64;
    let a = "/r/proj/a.jsonl".to_string();
    let b = "/r/proj-2/b.jsonl".to_string();
    let mut w = PiSessionWatcher::new();
    w.record_scan(vec![(b.clone(), 0), (a.clone(), 0)], 0);
    assert!(!w.should_scan(59));
    assert!(w.should_scan(60));
    let contents = vec![
        (a.clone(), session_text("a", None)),
        (b.clone(), session_text("b", Some("completed"))),
    ];
    let out = w.poll(now, &contents, "host");
    assert_eq!(out.len(), 2);
    assert_eq!(out[0].event, EventKind::PiSessionEnded);
    match &out[0].data {
        EventData::PiSessionEnded { session_id, session_file, .. } => {
            assert_eq!(session_id, "a");
            assert_eq!(session_file, &a);
        }
    }
    assert!(w.poll(now, &contents, "host").is_empty());
}

#[test]
fn scans_keep_session_files_once() {
    assert!(is_session_file("/r/p/a.jsonl"));
    assert!(!is_session_file("/r/p/a.json"));
    assert!(!is_session_file("/r/p/.jsonl"));
    assert!(!is_session_file("/r/p/jsonl"));
    let now = 10_000u64;
    let a = "/r/p/a.jsonl".to_string();
    let mut w = PiSessionWatcher::new();
    w.record_scan(
        vec![
            ("/r/p/notes.txt".to_string(), 0),
            (a.clone(), 0),
            (a.clone(), now),
        ],
        0,
    );
    assert_eq!(w.pending_paths(now), vec![a.clone()]);
    let contents = vec![
        (a.clone(), session_text("a", None)),
        ("/r/p/notes.txt".to_string(), session_text("n", None)),
    ];
    let out = w.poll(now, &contents, "h");
    assert_eq!(out.len(), 1);
}
