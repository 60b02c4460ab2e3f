//! Pi coding-agent session watcher.
//!
//! Reports a Pi session as ended once its JSONL file stops growing, so that
//! plugins can react the moment a session finishes. The watcher remembers
//! which session files it has reported and never reports one twice; the
//! caller scans the sessions directory, reads the files and supplies the
//! clock.
use vstd::prelude::*;

use crate::order::{as_ints, is_key_order, key_order, keys_distinct, sort_by_keys};
use crate::text::{lines, views};

verus! {

/// A session file whose modification time is older than this many seconds
/// is considered ended.
pub const STALE_AFTER_SECS: u64 = 120;

/// Minimum gap, in seconds, between directory rescans.
pub const RESCAN_EVERY_SECS: u64 = 60;

// ── what the JSON library and the path library return ──────────────────

/// What `serde_json` makes of `line` read as an object with an optional
/// string field `key`: `None` when the line is not a JSON object or the
/// field holds something other than a string or null, else the field's
/// string if it has one.
pub uninterp spec fn json_object_string_field(line: Seq<char>, key: Seq<char>) -> Option<
    Option<Seq<char>>,
>;

/// What `serde_json` makes of `line` read as an object whose field `outer`
/// is an object with a string field `inner`: that string, or `None` when
/// any part is missing or of another kind.
pub uninterp spec fn json_nested_string(line: Seq<char>, outer: Seq<char>, inner: Seq<char>) -> Option<
    Seq<char>,
>;

/// What `Path::file_stem` returns for a path: its file name without the
/// extension, when it has a file name.
pub uninterp spec fn path_file_stem(path: Seq<char>) -> Option<Seq<char>>;

/// Calls `serde_json::from_str` on the line and reads one field of the
/// object it holds; the result is named, not described.
#[verifier::external_body]
fn json_string_field(line: &str, key: &str) -> (r: Option<Option<String>>)
    ensures
        match r {
            None => json_object_string_field(line@, key@) is None,
            Some(None) => json_object_string_field(line@, key@) == Some(None::<Seq<char>>),
            Some(Some(s)) => json_object_string_field(line@, key@) == Some(Some(s@)),
        },
{
    let value: serde_json::Value = serde_json::from_str(line).ok()?;
    let object = value.as_object()?;
    match object.get(key) {
        None | Some(serde_json::Value::Null) => Some(None),
        Some(serde_json::Value::String(s)) => Some(Some(s.clone())),
        Some(_) => None,
    }
}

/// Calls `serde_json::from_str` on the line and reads a string two objects
/// deep; the result is named, not described.
#[verifier::external_body]
fn json_nested_string_field(line: &str, outer: &str, inner: &str) -> (r: Option<String>)
    ensures
        match r {
            None => json_nested_string(line@, outer@, inner@) is None,
            Some(s) => json_nested_string(line@, outer@, inner@) == Some(s@),
        },
{
    let value: serde_json::Value = serde_json::from_str(line).ok()?;
    let s = value.as_object()?.get(outer)?.as_object()?.get(inner)?.as_str()?;
    Some(s.to_string())
}

/// Calls `Path::file_stem` (and `OsStr::to_str`); the result is named, not
/// described.
#[verifier::external_body]
fn file_stem(path: &str) -> (r: Option<String>)
    ensures
        match r {
            None => path_file_stem(path@) is None,
            Some(s) => path_file_stem(path@) == Some(s@),
        },
{
    std::path::Path::new(path).file_stem().and_then(|s| s.to_str()).map(|s| s.to_string())
}

/// What `Path::extension` returns for a path: the part of its file name
/// after the last dot, when there is one.
pub uninterp spec fn path_extension(path: Seq<char>) -> Option<Seq<char>>;

/// Calls `Path::extension` (and `OsStr::to_str`); the result is named, not
/// described.
#[verifier::external_body]
fn file_extension(path: &str) -> (r: Option<String>)
    ensures
        match r {
            None => path_extension(path@) is None,
            Some(s) => path_extension(path@) == Some(s@),
        },
{
    std::path::Path::new(path).extension().and_then(|s| s.to_str()).map(|s| s.to_string())
}

/// Session files are the `*.jsonl` files.
pub open spec fn is_session_path(path: Seq<char>) -> bool {
    path_extension(path) == Some("jsonl"@)
}

/// Whether `path` names a session file: its extension is `jsonl`.
pub fn is_session_file(path: &str) -> (r: bool)
    ensures
        r == is_session_path(path@),
{
    match file_extension(path) {
        Some(e) => crate::text::eq_lit(&crate::text::chars_of(e.as_str()), "jsonl"),
        None => false,
    }
}

// ── one ended session ──────────────────────────────────────────────────

/// A Pi session whose file stopped growing.
#[derive(Debug, Clone)]
pub struct EndedSession {
    pub session_id: String,
    pub cwd: String,
    pub host: String,
    pub last_stop_reason: Option<String>,
    pub event_count: u64,
    pub session_file: String,
}

pub struct EndedView {
    pub session_id: Seq<char>,
    pub cwd: Seq<char>,
    pub host: Seq<char>,
    pub last_stop_reason: Option<Seq<char>>,
    pub event_count: int,
    pub session_file: Seq<char>,
}

pub open spec fn opt_seq(o: Option<String>) -> Option<Seq<char>> {
    match o {
        Some(s) => Some(s@),
        None => None,
    }
}

impl View for EndedSession {
    type V = EndedView;

    open spec fn view(&self) -> EndedView {
        EndedView {
            session_id: self.session_id@,
            cwd: self.cwd@,
            host: self.host@,
            last_stop_reason: opt_seq(self.last_stop_reason),
            event_count: self.event_count as int,
            session_file: self.session_file@,
        }
    }
}

/// The kind of an event sent to plugins.
#[derive(Debug, Clone, Copy, PartialEq, Eq, Structural)]
pub enum EventKind {
    PiSessionEnded,
}

/// The payload of an event sent to plugins.
#[derive(Debug, Clone)]
pub enum EventData {
    PiSessionEnded {
        session_id: String,
        cwd: String,
        host: String,
        last_stop_reason: Option<String>,
        event_count: u64,
        session_file: String,
    },
}

/// An event sent to plugins.
#[derive(Debug, Clone)]
pub struct EventEnvelope {
    pub event: EventKind,
    pub data: EventData,
}

/// The ended session an envelope announces.
pub open spec fn envelope_session(e: EventEnvelope) -> EndedView {
    match e.data {
        EventData::PiSessionEnded {
            session_id,
            cwd,
            host,
            last_stop_reason,
            event_count,
            session_file,
        } => EndedView {
            session_id: session_id@,
            cwd: cwd@,
            host: host@,
            last_stop_reason: opt_seq(last_stop_reason),
            event_count: event_count as int,
            session_file: session_file@,
        },
    }
}

impl EndedSession {
    /// The plugin event announcing this session's end.
    pub fn into_envelope(self) -> (r: EventEnvelope)
        ensures
            r.event == EventKind::PiSessionEnded,
            envelope_session(r) == self@,
    {
        EventEnvelope {
            event: EventKind::PiSessionEnded,
            data: EventData::PiSessionEnded {
                session_id: self.session_id,
                cwd: self.cwd,
                host: self.host,
                last_stop_reason: self.last_stop_reason,
                event_count: self.event_count,
                session_file: self.session_file,
            },
        }
    }
}

// ── reading a session file ─────────────────────────────────────────────

/// The lines of a file that are not empty, in order.
pub open spec fn non_empty_lines(text: Seq<char>) -> Seq<Seq<char>> {
    lines(text).filter(|l: Seq<char>| l.len() > 0)
}

/// The session header a first line holds: its `type`, `id` and `cwd`, when
/// the line is a JSON object whose three fields are strings or absent.
pub open spec fn session_header(line: Seq<char>) -> Option<
    (Option<Seq<char>>, Option<Seq<char>>, Option<Seq<char>>),
> {
    match (
        json_object_string_field(line, "type"@),
        json_object_string_field(line, "id"@),
        json_object_string_field(line, "cwd"@),
    ) {
        (Some(kind), Some(id), Some(cwd)) => Some((kind, id, cwd)),
        _ => None,
    }
}

/// The session a file with contents `text` at `path` describes: the first
/// non-empty line must be a header of type `session`; the id falls back to
/// the file's stem and then to `unknown`, the cwd to the empty string; the
/// stop reason is read from the last non-empty line; every non-empty line
/// counts as an event.
pub open spec fn ended_session_spec(text: Seq<char>, path: Seq<char>, host: Seq<char>) -> Option<
    EndedView,
> {
    let ls = non_empty_lines(text);
    if ls.len() == 0 {
        None
    } else {
        match session_header(ls[0]) {
            Some((kind, id, cwd)) => if kind == Some("session"@) {
                Some(
                    EndedView {
                        session_id: match id {
                            Some(i) => i,
                            None => match path_file_stem(path) {
                                Some(stem) => stem,
                                None => "unknown"@,
                            },
                        },
                        cwd: match cwd {
                            Some(c) => c,
                            None => Seq::empty(),
                        },
                        host,
                        last_stop_reason: json_nested_string(ls.last(), "message"@, "stopReason"@),
                        event_count: ls.len() as int,
                        session_file: path,
                    },
                )
            } else {
                None
            },
            None => None,
        }
    }
}

fn lit(s: &str) -> (r: String)
    ensures
        r@ == s@,
{
    crate::text::string_of(&crate::text::chars_of(s))
}

/// Reads an ended session from the contents of its file.
pub fn parse_ended_session(text: &str, path: &str, host: &str) -> (r: Option<EndedSession>)
    ensures
        match r {
            Some(e) => ended_session_spec(text@, path@, host@) == Some(e@),
            None => ended_session_spec(text@, path@, host@) is None,
        },
{
    let all = crate::text::split_lines(&crate::text::chars_of(text));
    let ghost ls = lines(text@);
    let ghost pred = |l: Seq<char>| l.len() > 0;
    let mut kept: Vec<Vec<char>> = Vec::new();
    let mut i: usize = 0;
    while i < all.len()
        invariant
            i <= all.len(),
            views(all@) == ls,
            ls == lines(text@),
            pred == (|l: Seq<char>| l.len() > 0),
            views(kept@) == ls.take(i as int).filter(pred),
            kept.len() <= i,
        decreases all.len() - i,
    {
        proof {
            reveal(Seq::filter);
        }
        assert(ls.take(i + 1).drop_last() =~= ls.take(i as int));
        assert(ls.take(i + 1).last() == ls[i as int]);
        if all[i].len() > 0 {
            let ghost before = kept@;
            let line = crate::text::slice_chars(&all[i], 0, all[i].len());
            assert(line@ =~= all@[i as int]@);
            kept.push(line);
            assert(views(kept@) =~= views(before).push(ls[i as int]));
        }
        i = i + 1;
    }
    assert(ls.take(all.len() as int) =~= ls);
    let ghost nl = non_empty_lines(text@);
    assert(views(kept@) == nl);
    if kept.len() == 0 {
        return None;
    }
    let first = crate::text::string_of(&kept[0]);
    let kind = match json_string_field(first.as_str(), "type") {
        Some(k) => k,
        None => return None,
    };
    let id = match json_string_field(first.as_str(), "id") {
        Some(v) => v,
        None => return None,
    };
    let cwd = match json_string_field(first.as_str(), "cwd") {
        Some(v) => v,
        None => return None,
    };
    let is_session = match &kind {
        Some(k) => crate::text::eq_lit(&crate::text::chars_of(k.as_str()), "session"),
        None => false,
    };
    if !is_session {
        return None;
    }
    let last = crate::text::string_of(&kept[kept.len() - 1]);
    let stop = json_nested_string_field(last.as_str(), "message", "stopReason");
    let session_id = match id {
        Some(v) => v,
        None => match file_stem(path) {
            Some(stem) => stem,
            None => lit("unknown"),
        },
    };
    let cwd_text = match cwd {
        Some(c) => c,
        None => String::new(),
    };
    Some(
        EndedSession {
            session_id,
            cwd: cwd_text,
            host: lit(host),
            last_stop_reason: stop,
            event_count: kept.len() as u64,
            session_file: lit(path),
        },
    )
}

// ── the watcher ────────────────────────────────────────────────────────

/// Remembers which session files were reported, which files the last scan
/// saw, and when it ran.
pub struct PiSessionWatcher {
    /// Session files already reported.
    emitted: Vec<String>,
    /// Files seen by the last scan, with their modification time in seconds
    /// since the epoch.
    seen: Vec<(String, u64)>,
    /// When the last scan ran, in seconds of a monotonic clock.
    last_scan: Option<u64>,
}

pub struct WatcherView {
    pub emitted: Seq<Seq<char>>,
    pub seen: Seq<(Seq<char>, u64)>,
    pub last_scan: Option<u64>,
}

pub open spec fn seen_view(s: Seq<(String, u64)>) -> Seq<(Seq<char>, u64)> {
    s.map_values(|e: (String, u64)| (e.0@, e.1))
}

impl View for PiSessionWatcher {
    type V = WatcherView;

    closed spec fn view(&self) -> WatcherView {
        WatcherView {
            emitted: crate::text::string_views(self.emitted@),
            seen: seen_view(self.seen@),
            last_scan: self.last_scan,
        }
    }
}

/// The key paths are ordered by: with `/` read as the smallest character,
/// text order on keys is the order of paths compared component by
/// component.
pub open spec fn path_key(p: Seq<char>) -> Seq<char> {
    p.map_values(|c: char| if c == '/' { '\0' } else { c })
}

pub open spec fn seen_keys(seen: Seq<(Seq<char>, u64)>) -> Seq<Seq<char>> {
    seen.map_values(|e: (Seq<char>, u64)| path_key(e.0))
}

/// The files of a scan are distinct paths.
pub open spec fn scan_wf(seen: Seq<(Seq<char>, u64)>) -> bool {
    keys_distinct(seen_keys(seen))
}

/// What a scan keeps of the files a directory listing gave: the session
/// files, each path once (its first entry).
pub open spec fn kept_scan(files: Seq<(Seq<char>, u64)>) -> Seq<(Seq<char>, u64)>
    decreases files.len(),
{
    if files.len() == 0 {
        Seq::empty()
    } else {
        let prev = kept_scan(files.drop_last());
        let f = files.last();
        if is_session_path(f.0) && !seen_keys(prev).contains(path_key(f.0)) {
            prev.push(f)
        } else {
            prev
        }
    }
}

/// Files whose modification time is at or before this point have stopped
/// growing: two minutes before now, or the epoch when now is earlier.
pub open spec fn stale_cutoff(now_unix: u64) -> int {
    if now_unix >= 120 {
        now_unix - 120
    } else {
        0
    }
}

/// The contents supplied for `path`: the first entry for it.
pub open spec fn content_from(contents: Seq<(Seq<char>, Seq<char>)>, path: Seq<char>, i: int) -> Option<
    Seq<char>,
>
    decreases contents.len() - i,
{
    if i < 0 || i >= contents.len() {
        None
    } else if contents[i].0 == path {
        Some(contents[i].1)
    } else {
        content_from(contents, path, i + 1)
    }
}

pub open spec fn contents_view(c: Seq<(String, String)>) -> Seq<(Seq<char>, Seq<char>)> {
    c.map_values(|e: (String, String)| (e.0@, e.1@))
}

/// Going through the seen files in path order, the first `n` of them: the
/// reported set grows by, and the result lists, each file that has stopped
/// growing, was not yet reported, could be read, and holds a session.
pub open spec fn poll_through(
    w: WatcherView,
    now_unix: u64,
    contents: Seq<(Seq<char>, Seq<char>)>,
    host: Seq<char>,
    n: int,
) -> (Seq<Seq<char>>, Seq<EndedView>)
    decreases n,
{
    if n <= 0 {
        (w.emitted, Seq::empty())
    } else {
        let (em, out) = poll_through(w, now_unix, contents, host, n - 1);
        let entry = w.seen[key_order(seen_keys(w.seen))[n - 1]];
        let path = entry.0;
        if entry.1 <= stale_cutoff(now_unix) && !em.contains(path) {
            match content_from(contents, path, 0) {
                Some(text) => match ended_session_spec(text, path, host) {
                    Some(e) => (em.push(path), out.push(e)),
                    None => (em, out),
                },
                None => (em, out),
            }
        } else {
            (em, out)
        }
    }
}

pub open spec fn poll_spec(
    w: WatcherView,
    now_unix: u64,
    contents: Seq<(Seq<char>, Seq<char>)>,
    host: Seq<char>,
) -> (Seq<Seq<char>>, Seq<EndedView>) {
    poll_through(w, now_unix, contents, host, w.seen.len() as int)
}

fn copy_string(s: &String) -> (r: String)
    ensures
        r@ == s@,
{
    crate::text::string_of(&crate::text::chars_of(s.as_str()))
}

fn path_key_exec(p: &str) -> (r: Vec<char>)
    ensures
        r@ == path_key(p@),
{
    let v = crate::text::chars_of(p);
    let mut out: Vec<char> = Vec::new();
    let mut i: usize = 0;
    while i < v.len()
        invariant
            i <= v.len(),
            v@ == p@,
            out@ == v@.take(i as int).map_values(|c: char| if c == '/' { '\0' } else { c }),
        decreases v.len() - i,
    {
        if v[i] == '/' {
            out.push('\0');
        } else {
            out.push(v[i]);
        }
        assert(v@.take(i + 1) =~= v@.take(i as int).push(v@[i as int]));
        assert(out@ =~= v@.take(i + 1).map_values(|c: char| if c == '/' { '\0' } else { c }));
        i = i + 1;
    }
    assert(v@.take(v.len() as int) =~= v@);
    out
}

fn contains_path(list: &Vec<String>, path: &String) -> (r: bool)
    ensures
        r == crate::text::string_views(list@).contains(path@),
{
    let want = crate::text::chars_of(path.as_str());
    let mut i: usize = 0;
    while i < list.len()
        invariant
            i <= list.len(),
            want@ == path@,
            forall|j: int| 0 <= j < i ==> (#[trigger] list@[j])@ != path@,
        decreases list.len() - i,
    {
        if crate::text::eq_chars(&crate::text::chars_of(list[i].as_str()), &want) {
            assert(crate::text::string_views(list@)[i as int] == path@);
            return true;
        }
        i = i + 1;
    }
    proof {
        if crate::text::string_views(list@).contains(path@) {
            let j = choose|j: int|
                0 <= j < crate::text::string_views(list@).len() && crate::text::string_views(
                    list@,
                )[j] == path@;
            assert(list@[j]@ == path@);
        }
    }
    false
}

fn lookup_content(contents: &Vec<(String, String)>, path: &String) -> (r: Option<String>)
    ensures
        opt_seq(r) == content_from(contents_view(contents@), path@, 0),
{
    let want = crate::text::chars_of(path.as_str());
    let ghost cv = contents_view(contents@);
    let mut i: usize = 0;
    while i < contents.len()
        invariant
            i <= contents.len(),
            want@ == path@,
            cv == contents_view(contents@),
            content_from(cv, path@, 0) == content_from(cv, path@, i as int),
        decreases contents.len() - i,
    {
        if crate::text::eq_chars(&crate::text::chars_of(contents[i].0.as_str()), &want) {
            return Some(copy_string(&contents[i].1));
        }
        i = i + 1;
    }
    None
}

fn contains_key(keys: &Vec<Vec<char>>, k: &Vec<char>) -> (r: bool)
    ensures
        r == views(keys@).contains(k@),
{
    let mut i: usize = 0;
    while i < keys.len()
        invariant
            i <= keys.len(),
            forall|j: int| 0 <= j < i ==> views(keys@)[j] != k@,
        decreases keys.len() - i,
    {
        if crate::text::eq_chars(&keys[i], k) {
            assert(views(keys@)[i as int] == k@);
            return true;
        }
        i = i + 1;
    }
    false
}

impl PiSessionWatcher {
    /// A watcher that has reported nothing and never scanned.
    pub fn new() -> (r: PiSessionWatcher)
        ensures
            r@.emitted.len() == 0,
            r@.seen.len() == 0,
            r@.last_scan is None,
    {
        PiSessionWatcher { emitted: Vec::new(), seen: Vec::new(), last_scan: None }
    }

    /// The session files already reported.
    pub closed spec fn reported(&self) -> Seq<Seq<char>> {
        self@.emitted
    }

    /// Whether the sessions directory is due for a rescan at `now`
    /// (monotonic seconds): never scanned, or scanned at least a minute ago.
    pub fn should_scan(&self, now: u64) -> (r: bool)
        ensures
            r == match self@.last_scan {
                None => true,
                Some(last) => now >= last && now - last >= 60,
            },
    {
        match self.last_scan {
            None => true,
            Some(last) => now >= last && now - last >= RESCAN_EVERY_SECS,
        }
    }

    /// Records the files a scan found (path and modification time in
    /// seconds since the epoch) and when it ran.
    /// Records a scan of the sessions directory made at `now` (monotonic
    /// seconds): of the listed files it keeps the session files, each path
    /// once.
    pub fn record_scan(&mut self, files: Vec<(String, u64)>, now: u64)
        ensures
            final(self)@.seen == kept_scan(seen_view(files@)),
            scan_wf(final(self)@.seen),
            forall|i: int| 0 <= i < final(self)@.seen.len() ==> is_session_path(
                (#[trigger] final(self)@.seen[i]).0,
            ),
            final(self)@.last_scan == Some(now),
            final(self)@.emitted == old(self)@.emitted,
    {
        let ghost fv = seen_view(files@);
        let mut kept: Vec<(String, u64)> = Vec::new();
        let mut keys: Vec<Vec<char>> = Vec::new();
        let mut i: usize = 0;
        while i < files.len()
            invariant
                i <= files.len(),
                fv == seen_view(files@),
                seen_view(kept@) == kept_scan(fv.take(i as int)),
                views(keys@) == seen_keys(seen_view(kept@)),
                keys_distinct(views(keys@)),
                forall|j: int| 0 <= j < kept.len() ==> is_session_path(
                    (#[trigger] seen_view(kept@)[j]).0,
                ),
            decreases files.len() - i,
        {
            let ghost before_kept = kept@;
            let ghost before_keys = keys@;
            assert(fv.take(i + 1).drop_last() =~= fv.take(i as int));
            assert(fv.take(i + 1).last() == fv[i as int]);
            assert(fv[i as int] == (files@[i as int].0@, files@[i as int].1));
            if is_session_file(files[i].0.as_str()) {
                let k = path_key_exec(files[i].0.as_str());
                if !contains_key(&keys, &k) {
                    kept.push((copy_string(&files[i].0), files[i].1));
                    keys.push(k);
                    assert(seen_view(kept@) =~= seen_view(before_kept).push(fv[i as int]));
                    assert forall|j: int| 0 <= j < kept.len() implies is_session_path(
                        (#[trigger] seen_view(kept@)[j]).0,
                    ) by {
                        if j < before_kept.len() {
                            assert(seen_view(kept@)[j] == seen_view(before_kept)[j]);
                        }
                    }
                    assert(views(keys@) =~= views(before_keys).push(k@));
                    assert(seen_keys(seen_view(kept@)) =~= seen_keys(seen_view(before_kept)).push(k@));
                    assert forall|a: int, b: int|
                        0 <= a < views(keys@).len() && 0 <= b < views(keys@).len() && a != b implies views(
                            keys@,
                        )[a] != views(keys@)[b] by {
                        if a == before_keys.len() {
                            assert(views(keys@)[b] == views(before_keys)[b]);
                        } else if b == before_keys.len() {
                            assert(views(keys@)[a] == views(before_keys)[a]);
                        } else {
                            assert(views(keys@)[a] == views(before_keys)[a]);
                            assert(views(keys@)[b] == views(before_keys)[b]);
                        }
                    }
                }
            }
            i = i + 1;
        }
        assert(fv.take(files.len() as int) =~= fv);
        self.seen = kept;
        self.last_scan = Some(now);
    }

    /// Reports every seen session that has ended and was not reported
    /// before, in path order, given the clock (seconds since the epoch),
    /// the contents of the files that could be read and this host's name.
    /// Each reported file is remembered, so a session is reported once.
    pub fn poll(&mut self, now_unix: u64, contents: &Vec<(String, String)>, host: &str) -> (r: Vec<
        EventEnvelope,
    >)
        requires
            scan_wf(old(self)@.seen),
        ensures
            final(self)@.emitted == poll_spec(
                old(self)@,
                now_unix,
                contents_view(contents@),
                host@,
            ).0,
            r@.map_values(|e: EventEnvelope| envelope_session(e)) == poll_spec(
                old(self)@,
                now_unix,
                contents_view(contents@),
                host@,
            ).1,
            forall|i: int| 0 <= i < r.len() ==> (#[trigger] r@[i]).event == EventKind::PiSessionEnded,
            forall|i: int|
                0 <= i < r.len() ==> reported_within(
                    old(self)@,
                    now_unix,
                    contents_view(contents@),
                    host@,
                    envelope_session(#[trigger] r@[i]),
                    old(self)@.seen.len() as int,
                ),
            forall|a: int, b: int|
                0 <= a < b < r.len() ==> crate::text::str_lt(
                    path_key(envelope_session(#[trigger] r@[a]).session_file),
                    path_key(envelope_session(#[trigger] r@[b]).session_file),
                ),
            final(self)@.seen == old(self)@.seen,
            final(self)@.last_scan == old(self)@.last_scan,
    {
        let ghost w0 = self@;
        let ghost cv = contents_view(contents@);
        let mut keys: Vec<Vec<char>> = Vec::new();
        let mut i: usize = 0;
        while i < self.seen.len()
            invariant
                i <= self.seen.len(),
                keys.len() == i,
                self@ == w0,
                views(keys@) == seen_keys(w0.seen).take(i as int),
            decreases self.seen.len() - i,
        {
            let key = path_key_exec(self.seen[i].0.as_str());
            let ghost before = keys@;
            keys.push(key);
            proof {
                assert(seen_view(self.seen@)[i as int] == (self.seen@[i as int].0@, self.seen@[i as int].1));
                assert forall|j: int| 0 <= j < i + 1 implies #[trigger] views(keys@)[j] == seen_keys(
                    w0.seen,
                ).take(i + 1)[j] by {
                    if j < i {
                        assert(views(keys@)[j] == views(before)[j]);
                    }
                }
                assert(views(keys@) =~= seen_keys(w0.seen).take(i + 1));
            }
            i = i + 1;
        }
        assert(seen_keys(w0.seen).take(self.seen.len() as int) =~= seen_keys(w0.seen));
        let order = sort_by_keys(&keys);
        let cutoff: u64 = if now_unix >= STALE_AFTER_SECS {
            now_unix - STALE_AFTER_SECS
        } else {
            0
        };
        let mut out: Vec<EventEnvelope> = Vec::new();
        let mut k: usize = 0;
        while k < order.len()
            invariant
                k <= order.len(),
                order.len() == w0.seen.len(),
                as_ints(order@) == key_order(seen_keys(w0.seen)),
                is_key_order(seen_keys(w0.seen), as_ints(order@)),
                self.seen@.len() == w0.seen.len(),
                seen_view(self.seen@) == w0.seen,
                self.last_scan == w0.last_scan,
                cutoff == stale_cutoff(now_unix),
                cv == contents_view(contents@),
                crate::text::string_views(self.emitted@) == poll_through(w0, now_unix, cv, host@, k as int).0,
                out@.map_values(|e: EventEnvelope| envelope_session(e)) == poll_through(
                    w0,
                    now_unix,
                    cv,
                    host@,
                    k as int,
                ).1,
                forall|j: int| 0 <= j < out.len() ==> (#[trigger] out@[j]).event == EventKind::PiSessionEnded,
            decreases order.len() - k,
        {
            assert(as_ints(order@)[k as int] == order@[k as int] as int);
            let idx = order[k];
            let path = &self.seen[idx].0;
            let mtime = self.seen[idx].1;
            assert(w0.seen[idx as int] == (path@, mtime));
            let ghost em_before = crate::text::string_views(self.emitted@);
            let ghost out_before = out@;
            if mtime <= cutoff && !contains_path(&self.emitted, path) {
                match lookup_content(contents, path) {
                    Some(text) => {
                        match parse_ended_session(text.as_str(), path.as_str(), host) {
                            Some(ended) => {
                                let p = copy_string(path);
                                out.push(ended.into_envelope());
                                self.emitted.push(p);
                                assert(crate::text::string_views(self.emitted@) =~= em_before.push(
                                    path@,
                                ));
                                assert(out@.map_values(|e: EventEnvelope| envelope_session(e))
                                    =~= out_before.map_values(|e: EventEnvelope| envelope_session(e)).push(
                                    ended@,
                                ));
                            },
                            None => {},
                        }
                    },
                    None => {},
                }
            }
            k = k + 1;
        }
        proof {
            let n = w0.seen.len() as int;
            law_poll_reports_ended_in_order(w0, now_unix, cv, host@, n);
            let res = poll_through(w0, now_unix, cv, host@, n).1;
            assert(out@.map_values(|e: EventEnvelope| envelope_session(e)) == res);
            assert forall|i: int| 0 <= i < out.len() implies reported_within(
                w0,
                now_unix,
                cv,
                host@,
                envelope_session(#[trigger] out@[i]),
                n,
            ) by {
                assert(envelope_session(out@[i]) == res[i]);
            }
            assert forall|a: int, b: int| 0 <= a < b < out.len() implies crate::text::str_lt(
                path_key(envelope_session(#[trigger] out@[a]).session_file),
                path_key(envelope_session(#[trigger] out@[b]).session_file),
            ) by {
                assert(envelope_session(out@[a]) == res[a]);
                assert(envelope_session(out@[b]) == res[b]);
            }
        }
        out
    }

    /// The seen files that have stopped growing and were not reported yet,
    /// in scan order: the files whose contents a poll needs.
    pub fn pending_paths(&self, now_unix: u64) -> (r: Vec<String>)
        ensures
            crate::text::string_views(r@) == pending_spec(self@, now_unix),
    {
        let cutoff: u64 = if now_unix >= STALE_AFTER_SECS {
            now_unix - STALE_AFTER_SECS
        } else {
            0
        };
        let ghost w = self@;
        let mut r: Vec<String> = Vec::new();
        let mut i: usize = 0;
        while i < self.seen.len()
            invariant
                i <= self.seen.len(),
                w == self@,
                cutoff == stale_cutoff(now_unix),
                crate::text::string_views(r@) == pending_prefix(w, now_unix, i as int),
            decreases self.seen.len() - i,
        {
            assert(w.seen[i as int] == (self.seen@[i as int].0@, self.seen@[i as int].1));
            if self.seen[i].1 <= cutoff && !contains_path(&self.emitted, &self.seen[i].0) {
                let p = copy_string(&self.seen[i].0);
                let ghost before = r@;
                r.push(p);
                assert(crate::text::string_views(r@) =~= crate::text::string_views(before).push(p@));
            }
            i = i + 1;
        }
        r
    }
}

/// The first `n` seen files that have stopped growing and were not
/// reported, in scan order.
pub open spec fn pending_prefix(w: WatcherView, now_unix: u64, n: int) -> Seq<Seq<char>>
    decreases n,
{
    if n <= 0 || n > w.seen.len() {
        Seq::empty()
    } else {
        let prev = pending_prefix(w, now_unix, n - 1);
        let e = w.seen[n - 1];
        if e.1 <= stale_cutoff(now_unix) && !w.emitted.contains(e.0) {
            prev.push(e.0)
        } else {
            prev
        }
    }
}

pub open spec fn pending_spec(w: WatcherView, now_unix: u64) -> Seq<Seq<char>> {
    pending_prefix(w, now_unix, w.seen.len() as int)
}

/// A file reported by one poll is reported by no later poll: whatever the
/// clock and the file contents, files already reported are not reported
/// again, and they stay reported.
pub proof fn law_reported_once(
    w: WatcherView,
    now_unix: u64,
    contents: Seq<(Seq<char>, Seq<char>)>,
    host: Seq<char>,
    n: int,
)
    requires
        0 <= n <= w.seen.len(),
        scan_wf(w.seen),
    ensures
        forall|i: int|
            0 <= i < w.emitted.len() ==> #[trigger] poll_through(w, now_unix, contents, host, n).0[i]
                == w.emitted[i],
        poll_through(w, now_unix, contents, host, n).0.len() == w.emitted.len()
            + poll_through(w, now_unix, contents, host, n).1.len(),
        forall|i: int|
            0 <= i < poll_through(w, now_unix, contents, host, n).1.len() ==> !w.emitted.contains(
                (#[trigger] poll_through(w, now_unix, contents, host, n).1[i]).session_file,
            ),
    decreases n,
{
    if n > 0 {
        law_reported_once(w, now_unix, contents, host, n - 1);
        let (em, out) = poll_through(w, now_unix, contents, host, n - 1);
        let entry = w.seen[key_order(seen_keys(w.seen))[n - 1]];
        let path = entry.0;
        if entry.1 <= stale_cutoff(now_unix) && !em.contains(path) {
            match content_from(contents, path, 0) {
                Some(text) => match ended_session_spec(text, path, host) {
                    Some(e) => {
                        assert(e.session_file == path);
                        if w.emitted.contains(path) {
                            let j = choose|j: int| 0 <= j < w.emitted.len() && w.emitted[j] == path;
                            assert(em[j] == path);
                        }
                    },
                    None => {},
                },
                None => {},
            }
        }
    }
}

pub open spec fn session_files(out: Seq<EndedView>) -> Seq<Seq<char>> {
    out.map_values(|e: EndedView| e.session_file)
}

/// Within one poll: the reported list grows by exactly the files reported,
/// in order, and those are new and distinct.
proof fn lemma_poll_appends(
    w: WatcherView,
    now_unix: u64,
    contents: Seq<(Seq<char>, Seq<char>)>,
    host: Seq<char>,
    n: int,
)
    requires
        0 <= n <= w.seen.len(),
    ensures
        poll_through(w, now_unix, contents, host, n).0 == w.emitted + session_files(
            poll_through(w, now_unix, contents, host, n).1,
        ),
    decreases n,
{
    if n > 0 {
        lemma_poll_appends(w, now_unix, contents, host, n - 1);
        let (em, out) = poll_through(w, now_unix, contents, host, n - 1);
        let entry = w.seen[key_order(seen_keys(w.seen))[n - 1]];
        let path = entry.0;
        if entry.1 <= stale_cutoff(now_unix) && !em.contains(path) {
            match content_from(contents, path, 0) {
                Some(text) => match ended_session_spec(text, path, host) {
                    Some(e) => {
                        assert(e.session_file == path);
                        assert(session_files(out.push(e)) =~= session_files(out).push(path));
                        assert(em.push(path) =~= w.emitted + session_files(out.push(e)));
                    },
                    None => {},
                },
                None => {},
            }
        }
    }
}

/// The reported list of a poll never repeats a file when the list it
/// started from did not.
proof fn lemma_poll_keeps_distinct(
    w: WatcherView,
    now_unix: u64,
    contents: Seq<(Seq<char>, Seq<char>)>,
    host: Seq<char>,
    n: int,
)
    requires
        0 <= n <= w.seen.len(),
        w.emitted.no_duplicates(),
    ensures
        poll_through(w, now_unix, contents, host, n).0.no_duplicates(),
    decreases n,
{
    if n > 0 {
        lemma_poll_keeps_distinct(w, now_unix, contents, host, n - 1);
        let (em, out) = poll_through(w, now_unix, contents, host, n - 1);
        let entry = w.seen[key_order(seen_keys(w.seen))[n - 1]];
        let path = entry.0;
        if entry.1 <= stale_cutoff(now_unix) && !em.contains(path) {
            match content_from(contents, path, 0) {
                Some(text) => match ended_session_spec(text, path, host) {
                    Some(e) => {
                        let em2 = em.push(path);
                        assert forall|a: int, b: int| 0 <= a < em2.len() && 0 <= b < em2.len() && a
                            != b implies em2[a] != em2[b] by {
                            if a == em.len() {
                                assert(em[b] == em2[b]);
                            } else if b == em.len() {
                                assert(em[a] == em2[a]);
                            }
                        }
                    },
                    None => {},
                },
                None => {},
            }
        }
    }
}

/// One round of the watcher: optionally a new scan of the directory (the
/// files it listed), then a poll with the clock, the readable contents and
/// the host name.
pub struct PollRound {
    pub scan: Option<Seq<(Seq<char>, u64)>>,
    pub now_unix: u64,
    pub contents: Seq<(Seq<char>, Seq<char>)>,
    pub host: Seq<char>,
}

pub open spec fn round_watcher(w: WatcherView, r: PollRound) -> WatcherView {
    match r.scan {
        Some(files) => WatcherView { seen: kept_scan(files), ..w },
        None => w,
    }
}

/// The watcher after a run of rounds, and everything the rounds reported,
/// in order.
pub open spec fn run_rounds(w: WatcherView, rounds: Seq<PollRound>) -> (WatcherView, Seq<EndedView>)
    decreases rounds.len(),
{
    if rounds.len() == 0 {
        (w, Seq::empty())
    } else {
        let (w0, out0) = run_rounds(w, rounds.drop_last());
        let r = rounds.last();
        let w1 = round_watcher(w0, r);
        let (em, out) = poll_spec(w1, r.now_unix, r.contents, r.host);
        (WatcherView { emitted: em, ..w1 }, out0 + out)
    }
}

/// Over any run of scans and polls of one watcher, whatever the clock and
/// the files say, no session file is reported twice, none that was
/// reported before the run is reported again, and the watcher remembers
/// exactly what it reported.
pub proof fn law_never_reported_twice(w: WatcherView, rounds: Seq<PollRound>)
    requires
        w.emitted.no_duplicates(),
    ensures
        run_rounds(w, rounds).0.emitted == w.emitted + session_files(run_rounds(w, rounds).1),
        (w.emitted + session_files(run_rounds(w, rounds).1)).no_duplicates(),
        forall|i: int, j: int|
            0 <= i < j < run_rounds(w, rounds).1.len() ==> (#[trigger] run_rounds(w, rounds).1[i]).session_file
                != (#[trigger] run_rounds(w, rounds).1[j]).session_file,
        forall|i: int|
            0 <= i < run_rounds(w, rounds).1.len() ==> !w.emitted.contains(
                (#[trigger] run_rounds(w, rounds).1[i]).session_file,
            ),
    decreases rounds.len(),
{
    let (wf, out) = run_rounds(w, rounds);
    if rounds.len() > 0 {
        let prev = rounds.drop_last();
        law_never_reported_twice(w, prev);
        let (w0, out0) = run_rounds(w, prev);
        let r = rounds.last();
        assert(rounds[rounds.len() - 1] == r);
        let w1 = round_watcher(w0, r);
        let n = w1.seen.len() as int;
        lemma_poll_appends(w1, r.now_unix, r.contents, r.host, n);
        lemma_poll_keeps_distinct(w1, r.now_unix, r.contents, r.host, n);
        let out1 = poll_spec(w1, r.now_unix, r.contents, r.host).1;
        assert(session_files(out0 + out1) =~= session_files(out0) + session_files(out1));
        assert(w.emitted + session_files(out) =~= w.emitted + session_files(out0) + session_files(
            out1,
        ));
    }
    let all = w.emitted + session_files(out);
    assert forall|i: int, j: int|
        0 <= i < j < out.len() implies (#[trigger] out[i]).session_file != (
        #[trigger] out[j]).session_file by {
        assert(all[w.emitted.len() + i] == out[i].session_file);
        assert(all[w.emitted.len() + j] == out[j].session_file);
    }
    assert forall|i: int| 0 <= i < out.len() implies !w.emitted.contains(
        (#[trigger] out[i]).session_file,
    ) by {
        assert(all[w.emitted.len() + i] == out[i].session_file);
        if w.emitted.contains(out[i].session_file) {
            let k = choose|k: int| 0 <= k < w.emitted.len() && w.emitted[k] == out[i].session_file;
            assert(all[k] == out[i].session_file);
        }
    }
}

/// Whether `e` is what the poll reports for the file at position `p` of the
/// scan taken in path order: that file has stopped growing, its contents
/// were supplied, and they describe `e`.
pub open spec fn reported_from(
    w: WatcherView,
    now_unix: u64,
    contents: Seq<(Seq<char>, Seq<char>)>,
    host: Seq<char>,
    e: EndedView,
    p: int,
) -> bool {
    let entry = w.seen[key_order(seen_keys(w.seen))[p]];
    &&& entry.0 == e.session_file
    &&& entry.1 <= stale_cutoff(now_unix)
    &&& content_from(contents, entry.0, 0) matches Some(text) && ended_session_spec(
        text,
        entry.0,
        host,
    ) == Some(e)
}

/// Whether `e` is what the poll reports for one of the first `n` files of
/// the scan taken in path order.
pub open spec fn reported_within(
    w: WatcherView,
    now_unix: u64,
    contents: Seq<(Seq<char>, Seq<char>)>,
    host: Seq<char>,
    e: EndedView,
    n: int,
) -> bool {
    exists|p: int| 0 <= p < n && reported_from(w, now_unix, contents, host, e, p)
}

/// What one poll reports: each report is a scanned file that has stopped
/// growing and whose contents describe an ended session, and the reports
/// come in increasing path order.
pub proof fn law_poll_reports_ended_in_order(
    w: WatcherView,
    now_unix: u64,
    contents: Seq<(Seq<char>, Seq<char>)>,
    host: Seq<char>,
    n: int,
)
    requires
        0 <= n <= w.seen.len(),
        is_key_order(seen_keys(w.seen), key_order(seen_keys(w.seen))),
    ensures
        forall|j: int|
            0 <= j < poll_through(w, now_unix, contents, host, n).1.len() ==> reported_within(
                w,
                now_unix,
                contents,
                host,
                #[trigger] poll_through(w, now_unix, contents, host, n).1[j],
                n,
            ),
        forall|a: int, b: int|
            0 <= a < b < poll_through(w, now_unix, contents, host, n).1.len()
                ==> crate::text::str_lt(
                path_key((#[trigger] poll_through(w, now_unix, contents, host, n).1[a]).session_file),
                path_key((#[trigger] poll_through(w, now_unix, contents, host, n).1[b]).session_file),
            ),
    decreases n,
{
    if n > 0 {
        law_poll_reports_ended_in_order(w, now_unix, contents, host, n - 1);
        let keys = seen_keys(w.seen);
        let ko = key_order(keys);
        let (em, out) = poll_through(w, now_unix, contents, host, n - 1);
        let entry = w.seen[ko[n - 1]];
        let path = entry.0;
        assert(0 <= ko[n - 1] < keys.len());
        assert(keys[ko[n - 1]] == path_key(path));
        if entry.1 <= stale_cutoff(now_unix) && !em.contains(path) {
            match content_from(contents, path, 0) {
                Some(text) => match ended_session_spec(text, path, host) {
                    Some(e) => {
                        let out2 = out.push(e);
                        assert(e.session_file == path);
                        assert(reported_from(w, now_unix, contents, host, e, n - 1));
                        assert forall|a: int, b: int| 0 <= a < b < out2.len() implies crate::text::str_lt(
                            path_key((#[trigger] out2[a]).session_file),
                            path_key((#[trigger] out2[b]).session_file),
                        ) by {
                            if b < out.len() {
                                assert(out2[a] == out[a]);
                                assert(out2[b] == out[b]);
                            } else {
                                assert(out2[a] == out[a]);
                                assert(reported_within(w, now_unix, contents, host, out[a], n - 1));
                                let p = choose|p: int|
                                    0 <= p < n - 1 && reported_from(
                                        w,
                                        now_unix,
                                        contents,
                                        host,
                                        out[a],
                                        p,
                                    );
                                assert(0 <= ko[p] < keys.len());
                                assert(keys[ko[p]] == path_key(w.seen[ko[p]].0));
                                assert(crate::text::str_lt(keys[ko[p]], keys[ko[n - 1]]));
                            }
                        }
                    },
                    None => {},
                },
                None => {},
            }
        }
        let res = poll_through(w, now_unix, contents, host, n).1;
        assert forall|j: int| 0 <= j < res.len() implies reported_within(
            w,
            now_unix,
            contents,
            host,
            #[trigger] res[j],
            n,
        ) by {
            if j < out.len() {
                assert(res[j] == out[j]);
                assert(reported_within(w, now_unix, contents, host, out[j], n - 1));
                let p = choose|p: int|
                    0 <= p < n - 1 && reported_from(w, now_unix, contents, host, out[j], p);
                assert(reported_from(w, now_unix, contents, host, res[j], p));
            } else {
                assert(reported_from(w, now_unix, contents, host, res[j], n - 1));
            }
        }
    }
}

/// A file counts as ended once it has not changed for two minutes: its
/// modification time is at least 120 seconds before now (before the first
/// two minutes of the clock, only a time of 0 counts).
pub proof fn law_ended_after_two_minutes(now_unix: u64, mtime: u64)
    ensures
        now_unix >= 120 ==> (mtime <= stale_cutoff(now_unix) <==> mtime + 120 <= now_unix),
        now_unix < 120 ==> (mtime <= stale_cutoff(now_unix) <==> mtime == 0),
{
}

} // verus!
