use herdr::clipboard_history::{
    clipboard_text, effective_max_entries, fits_at_char_boundary, keys_to_prune, newest_first,
    next_clipboard_seq, truncate_to_bytes, ClipboardEntry,
};

fn entry(seq: u64, text: &str) -> ClipboardEntry {
    ClipboardEntry { seq, timestamp: 1000 + seq, source: "pane".to_string(), text: text.to_string() }
}

#[test]
fn skips_non_utf8_and_blank_writes() {
    assert_eq!(clipboard_text(&[0xff, 0xfe]), None);
    assert_eq!(clipboard_text(b"   \n\t "), None);
    assert_eq!(clipboard_text(b"  first \n").as_deref(), Some("first"));
}

#[test]
fn lists_newest_first_and_limits() {
    let rows = vec![entry(0, "first"), entry(1, "second"), entry(2, "third")];
    let recent = newest_first(&rows, 10);
    assert_eq!(recent.len(), 3);
    assert_eq!(recent[0].text, "third");
    assert_eq!(recent[2].text, "first");
    let recent = newest_first(&rows, 1);
    assert_eq!(recent, vec![entry(2, "third")]);
}

#[test]
fn prunes_oldest_beyond_the_limit() {
    let keys: Vec<u64> = (0..5).collect();
    assert_eq!(keys_to_prune(&keys, 3), vec![0, 1]);
    assert!(keys_to_prune(&keys, 5).is_empty());
    assert_eq!(effective_max_entries(0), 1);
    assert_eq!(effective_max_entries(500), 500);
}

#[test]
fn truncates_on_character_boundaries() {
    assert_eq!(truncate_to_bytes("hello", 3), "hel");
    assert_eq!(truncate_to_bytes("hello", 10), "hello");
    assert!(fits_at_char_boundary("h\u{e9}llo", 3));
    assert!(!fits_at_char_boundary("h\u{e9}llo", 2));
    assert_eq!(truncate_to_bytes("h\u{e9}llo", 3), "h\u{e9}");
}

#[test]
fn truncation_stops_before_a_character_that_crosses_the_limit() {
    assert_eq!(truncate_to_bytes("a\u{e9}", 2), "a");
    assert_eq!(truncate_to_bytes("\u{e9}\u{e9}", 3), "\u{e9}");
    assert_eq!(truncate_to_bytes("\u{1f600}x", 3), "");
    assert_eq!(truncate_to_bytes("abc", 0), "");
}

#[test]
fn next_key_follows_the_largest_kept_key() {
    assert_eq!(next_clipboard_seq(&vec![]), Some(0));
    assert_eq!(next_clipboard_seq(&vec![2, 3, 4]), Some(5));
    assert_eq!(next_clipboard_seq(&vec![7, 1]), Some(8));
    assert_eq!(next_clipboard_seq(&vec![u64::MAX]), None);
}
