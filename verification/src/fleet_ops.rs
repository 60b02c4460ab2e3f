//! Fleet operations metadata: plugin `fleet_ops.json` fragments merged into
//! per-pane metadata, and the segments of the fleet ops bar.
use vstd::prelude::*;

use crate::assoc::{self, assoc_find, assoc_insert};
use crate::text::{
    self, chars_of, eq_lit, find_char_exec, is_ascii_alphabetic, is_ascii_digit,
    join_exec, lower_chars, push_all, push_dec, push_str, slice_chars, string_of, trim_chars,
};
use crate::timestamp::{self, chrono_lite_parse_rfc3339};

verus! {

/// Plugin-owned `fleet_ops.json` fragment.
///
/// Personalized issue keys (e.g. `ENG-432`) belong in `issue.id`; see
/// [`format_issue_label`].
#[derive(Debug, Clone, Default, PartialEq, Eq)]
pub struct PluginFleetFragment {
    pub source: Option<String>,
    pub updated_at: Option<String>,
    pub ttl_seconds: Option<u64>,
    pub issue: Option<PluginIssueFragment>,
    pub pr: Option<PluginPrFragment>,
    pub fleet: Option<PluginFleetSummary>,
    pub cloudflare: Option<PluginCloudflareSummary>,
    pub parked: Option<PluginParkedSummary>,
}

#[derive(Debug, Clone, Default, PartialEq, Eq)]
pub struct PluginIssueFragment {
    pub id: Option<String>,
    pub title: Option<String>,
    pub status: Option<String>,
    pub assignee: Option<String>,
    pub cycle: Option<String>,
}

#[derive(Debug, Clone, Default, PartialEq, Eq)]
pub struct PluginPrFragment {
    pub number: Option<u32>,
    pub checks: Option<String>,
}

#[derive(Debug, Clone, Default, PartialEq, Eq)]
pub struct PluginFleetSummary {
    pub online: Option<u32>,
    pub total: Option<u32>,
    pub summary: Option<String>,
}

#[derive(Debug, Clone, Default, PartialEq, Eq)]
pub struct PluginCloudflareSummary {
    pub tunnels_healthy: Option<u32>,
    pub summary: Option<String>,
}

#[derive(Debug, Clone, Default, PartialEq, Eq)]
pub struct PluginParkedSummary {
    pub count: Option<u32>,
    pub oldest_hours: Option<u32>,
}

/// Git context of a terminal working directory.
#[derive(Clone, Debug, Default, PartialEq, Eq)]
pub struct CachedGitContext {
    pub repo: Option<String>,
    pub worktree: Option<String>,
    pub branch: Option<String>,
}

/// Cached fleet-ops inputs refreshed off the render path.
#[derive(Clone, Debug, Default)]
pub struct FleetOpsCache {
    pub fragments: Vec<PluginFleetFragment>,
    /// Git context keyed by terminal cwd (a later entry for a cwd wins).
    pub git_by_cwd: Vec<(String, CachedGitContext)>,
}

/// Semantic agent state of a pane.
#[derive(Clone, Copy, Debug, PartialEq, Eq)]
pub enum AgentState {
    Idle,
    Working,
    Blocked,
    Unknown,
}

/// CI status values reserved for PR/CI wiring in the fleet ops bar.
#[derive(Clone, Copy, Debug, Default, PartialEq, Eq)]
pub enum CiStatus {
    #[default]
    Pending,
    Running,
    Success,
    Failed,
    Cancelled,
}

/// Fleet operations metadata for a single pane/agent.
/// Supplements (never overrides) the semantic agent state.
#[derive(Clone, Debug, Default)]
pub struct FleetOpsMetadata {
    pub repo: Option<String>,
    pub worktree: Option<String>,
    pub branch: Option<String>,
    pub linear_issue: Option<String>,
    pub linear_assignee: Option<String>,
    pub linear_cycle: Option<String>,
    pub github_pr: Option<u32>,
    pub ci_status: Option<CiStatus>,
    pub model: Option<String>,
    pub provider: Option<String>,
    pub host: String,
    /// Elapsed time in whole seconds.
    pub elapsed: Option<u64>,
    pub retry_count: u32,
    pub session_resume_available: bool,
}

/// Semantic segment kinds for fleet ops bar rendering.
#[derive(Clone, Copy, Debug, PartialEq, Eq)]
pub enum FleetOpsBarKind {
    Name,
    State,
    Git,
    Linear,
    Pr,
    Model,
    Host,
    Elapsed,
    Retry,
    Resume,
}

#[derive(Clone, Debug, PartialEq, Eq)]
pub struct FleetOpsBarPart {
    pub kind: FleetOpsBarKind,
    pub text: String,
}

/// Per-agent metadata of a terminal, as far as the fleet ops bar reads it.
#[derive(Clone, Debug, Default)]
pub struct AgentMetadata {
    pub display_agent: Option<String>,
    pub source: String,
}

/// The parts of a terminal's state the fleet ops bar reads.
#[derive(Clone, Debug, Default)]
pub struct TerminalState {
    pub cwd: String,
    pub persisted_agent_session: bool,
    pub agent_metadata: Vec<AgentMetadata>,
}

pub open spec fn ov(v: Option<String>) -> Option<Seq<char>> {
    match v {
        Some(s) => Some(s@),
        None => None,
    }
}

pub struct FleetOpsMetadataView {
    pub repo: Option<Seq<char>>,
    pub worktree: Option<Seq<char>>,
    pub branch: Option<Seq<char>>,
    pub linear_issue: Option<Seq<char>>,
    pub linear_assignee: Option<Seq<char>>,
    pub linear_cycle: Option<Seq<char>>,
    pub github_pr: Option<u32>,
    pub ci_status: Option<CiStatus>,
    pub model: Option<Seq<char>>,
    pub provider: Option<Seq<char>>,
    pub host: Seq<char>,
    pub elapsed: Option<u64>,
    pub retry_count: u32,
    pub session_resume_available: bool,
}

impl View for FleetOpsMetadata {
    type V = FleetOpsMetadataView;

    open spec fn view(&self) -> FleetOpsMetadataView {
        FleetOpsMetadataView {
            repo: ov(self.repo),
            worktree: ov(self.worktree),
            branch: ov(self.branch),
            linear_issue: ov(self.linear_issue),
            linear_assignee: ov(self.linear_assignee),
            linear_cycle: ov(self.linear_cycle),
            github_pr: self.github_pr,
            ci_status: self.ci_status,
            model: ov(self.model),
            provider: ov(self.provider),
            host: self.host@,
            elapsed: self.elapsed,
            retry_count: self.retry_count,
            session_resume_available: self.session_resume_available,
        }
    }
}

// ---------------------------------------------------------------------
// Issue labels, states, durations
// ---------------------------------------------------------------------
pub open spec fn is_key_tail_char(c: char) -> bool {
    text::is_digit(c) || c == '-'
}

/// `KEY-123`: letters, a dash, then digits (further dashes allowed).
pub open spec fn key_like(t: Seq<char>) -> bool {
    match text::split_once(t, '-') {
        Some(parts) => {
            &&& parts.0.len() > 0
            &&& forall|i: int| 0 <= i < parts.0.len() ==> text::is_alpha(#[trigger] parts.0[i])
            &&& parts.1.len() > 0
            &&& forall|i: int| 0 <= i < parts.1.len() ==> is_key_tail_char(#[trigger] parts.1[i])
        },
        None => false,
    }
}

/// Issue ids that already look like `KEY-123` are shown as-is; others get a
/// neutral `LIN-` prefix; blank ids show nothing.
pub open spec fn issue_label_spec(issue: Seq<char>) -> Seq<char> {
    let t = text::trim(issue);
    if t.len() == 0 {
        Seq::empty()
    } else if key_like(t) {
        t
    } else {
        "LIN-"@ + t
    }
}

fn all_alpha(v: &Vec<char>) -> (r: bool)
    ensures
        r == forall|i: int| 0 <= i < v@.len() ==> text::is_alpha(#[trigger] v@[i]),
{
    let mut i: usize = 0;
    while i < v.len()
        invariant
            i <= v.len(),
            forall|j: int| 0 <= j < i ==> text::is_alpha(#[trigger] v@[j]),
        decreases v.len() - i,
    {
        if !is_ascii_alphabetic(v[i]) {
            return false;
        }
        i += 1;
    }
    true
}

fn all_key_tail(v: &Vec<char>) -> (r: bool)
    ensures
        r == forall|i: int| 0 <= i < v@.len() ==> is_key_tail_char(#[trigger] v@[i]),
{
    let mut i: usize = 0;
    while i < v.len()
        invariant
            i <= v.len(),
            forall|j: int| 0 <= j < i ==> is_key_tail_char(#[trigger] v@[j]),
        decreases v.len() - i,
    {
        if !(is_ascii_digit(v[i]) || v[i] == '-') {
            return false;
        }
        i += 1;
    }
    true
}

fn issue_label_chars(issue: &Vec<char>) -> (r: Vec<char>)
    ensures
        r@ == issue_label_spec(issue@),
{
    let t = trim_chars(issue);
    if t.len() == 0 {
        return Vec::new();
    }
    match find_char_exec(&t, '-') {
        Some(k) => {
            let prefix = slice_chars(&t, 0, k);
            let rest = slice_chars(&t, k + 1, t.len());
            if prefix.len() > 0 && all_alpha(&prefix) && rest.len() > 0 && all_key_tail(&rest) {
                return t;
            }
        },
        None => {},
    }
    let mut out = chars_of("LIN-");
    push_all(&mut out, &t);
    out
}

/// Display issue ids that already look like `KEY-123` as-is; otherwise prefix `LIN-`.
pub fn format_issue_label(issue: &str) -> (r: String)
    ensures
        r@ == issue_label_spec(issue@),
{
    string_of(&issue_label_chars(&chars_of(issue)))
}

pub open spec fn state_label_spec(state: AgentState) -> Seq<char> {
    match state {
        AgentState::Idle => "idle"@,
        AgentState::Working => "working"@,
        AgentState::Blocked => "blocked"@,
        AgentState::Unknown => "unknown"@,
    }
}

pub fn state_label(state: AgentState) -> (r: &'static str)
    ensures
        r@ == state_label_spec(state),
{
    match state {
        AgentState::Idle => "idle",
        AgentState::Working => "working",
        AgentState::Blocked => "blocked",
        AgentState::Unknown => "unknown",
    }
}

/// `30s`, `5m`, `1h1m`: seconds below a minute, whole minutes below an
/// hour, otherwise hours and the remaining whole minutes.
pub open spec fn duration_spec(secs: u64) -> Seq<char> {
    if secs < 60 {
        text::dec(secs as nat) + "s"@
    } else if secs < 3600 {
        text::dec((secs / 60) as nat) + "m"@
    } else {
        text::dec((secs / 3600) as nat) + "h"@ + text::dec(((secs % 3600) / 60) as nat) + "m"@
    }
}

fn duration_chars(secs: u64) -> (r: Vec<char>)
    ensures
        r@ == duration_spec(secs),
{
    let mut out: Vec<char> = Vec::new();
    if secs < 60 {
        push_dec(&mut out, secs);
        push_str(&mut out, "s");
    } else if secs < 3600 {
        push_dec(&mut out, secs / 60);
        push_str(&mut out, "m");
    } else {
        push_dec(&mut out, secs / 3600);
        push_str(&mut out, "h");
        push_dec(&mut out, (secs % 3600) / 60);
        push_str(&mut out, "m");
    }
    out
}

/// Render an elapsed time given in whole seconds.
pub fn format_duration(secs: u64) -> (r: String)
    ensures
        r@ == duration_spec(secs),
{
    string_of(&duration_chars(secs))
}

// ---------------------------------------------------------------------
// Merging plugin fragments
// ---------------------------------------------------------------------
/// CI status named by a (lower-cased) `checks` value.
pub open spec fn ci_from_checks(c: Seq<char>) -> CiStatus {
    if c == "passing"@ || c == "success"@ || c == "ok"@ {
        CiStatus::Success
    } else if c == "failing"@ || c == "failed"@ || c == "fail"@ {
        CiStatus::Failed
    } else if c == "running"@ || c == "pending"@ {
        CiStatus::Running
    } else {
        CiStatus::Pending
    }
}

fn ci_from_checks_exec(checks: &String) -> (r: CiStatus)
    ensures
        r == ci_from_checks(text::lower_seq(checks@)),
{
    let c = lower_chars(&chars_of(checks.as_str()));
    if eq_lit(&c, "passing") || eq_lit(&c, "success") || eq_lit(&c, "ok") {
        CiStatus::Success
    } else if eq_lit(&c, "failing") || eq_lit(&c, "failed") || eq_lit(&c, "fail") {
        CiStatus::Failed
    } else if eq_lit(&c, "running") || eq_lit(&c, "pending") {
        CiStatus::Running
    } else {
        CiStatus::Pending
    }
}

/// A fragment with a positive TTL and a readable `updated_at` has expired
/// once more than the TTL has passed since then.
pub open spec fn expired_spec(f: PluginFleetFragment, now: u64) -> bool {
    match f.ttl_seconds {
        Some(ttl) => if ttl > 0 {
            match f.updated_at {
                Some(u) => match timestamp::parse_timestamp_spec(u@) {
                    Some(p) => (if now >= p {
                        now - p
                    } else {
                        0
                    }) > ttl,
                    None => false,
                },
                None => false,
            }
        } else {
            false
        },
        None => false,
    }
}

/// The fragment's `updated_at` is only read when its TTL is positive; it
/// must then be a stamp whose seconds can be computed.
pub open spec fn fragment_fits(f: PluginFleetFragment) -> bool {
    match (f.ttl_seconds, f.updated_at) {
        (Some(ttl), Some(u)) => ttl > 0 ==> timestamp::timestamp_fits(u@),
        _ => true,
    }
}

pub open spec fn fragments_fit(fs: Seq<PluginFleetFragment>) -> bool {
    forall|i: int| 0 <= i < fs.len() ==> fragment_fits(#[trigger] fs[i])
}

pub open spec fn nonblank(v: Option<String>) -> Option<Seq<char>> {
    match v {
        Some(s) => if s@.len() > 0 {
            Some(s@)
        } else {
            None
        },
        None => None,
    }
}

pub open spec fn or_keep<T>(new: Option<T>, old: Option<T>) -> Option<T> {
    match new {
        Some(x) => Some(x),
        None => old,
    }
}

/// One live fragment: non-empty issue id, assignee and cycle, a PR number
/// and a CI status from `checks` replace what was there; nothing else changes.
pub open spec fn merge_one(m: FleetOpsMetadataView, f: PluginFleetFragment) -> FleetOpsMetadataView {
    let m1 = match f.issue {
        Some(issue) => FleetOpsMetadataView {
            linear_issue: or_keep(nonblank(issue.id), m.linear_issue),
            linear_assignee: or_keep(nonblank(issue.assignee), m.linear_assignee),
            linear_cycle: or_keep(nonblank(issue.cycle), m.linear_cycle),
            ..m
        },
        None => m,
    };
    match f.pr {
        Some(pr) => FleetOpsMetadataView {
            github_pr: or_keep(pr.number, m1.github_pr),
            ci_status: match pr.checks {
                Some(c) => Some(ci_from_checks(text::lower_seq(c@))),
                None => m1.ci_status,
            },
            ..m1
        },
        None => m1,
    }
}

/// Fragments are applied in order, skipping expired ones.
pub open spec fn merge_all(m: FleetOpsMetadataView, fs: Seq<PluginFleetFragment>, now: u64) -> FleetOpsMetadataView
    decreases fs.len(),
{
    if fs.len() == 0 {
        m
    } else {
        let prev = merge_all(m, fs.drop_last(), now);
        if expired_spec(fs.last(), now) {
            prev
        } else {
            merge_one(prev, fs.last())
        }
    }
}

/// Whether a fragment's `updated_at` can be read without overflow where
/// its TTL makes it matter.
pub fn fragment_fits_check(f: &PluginFleetFragment) -> (r: bool)
    ensures
        r == fragment_fits(*f),
{
    match (f.ttl_seconds, &f.updated_at) {
        (Some(ttl), Some(u)) => ttl == 0 || timestamp::timestamp_fits_check(u.as_str()),
        _ => true,
    }
}

/// Whether every fragment of a list can be merged without overflow.
pub fn fragments_fit_check(fs: &[PluginFleetFragment]) -> (r: bool)
    ensures
        r == fragments_fit(fs@),
{
    let mut i: usize = 0;
    while i < fs.len()
        invariant
            i <= fs.len(),
            forall|j: int| 0 <= j < i ==> fragment_fits(#[trigger] fs@[j]),
        decreases fs.len() - i,
    {
        if !fragment_fits_check(&fs[i]) {
            return false;
        }
        i += 1;
    }
    true
}

/// Has the fragment expired at Unix time `now`?
pub fn fragment_expired_at(fragment: &PluginFleetFragment, now: u64) -> (r: bool)
    requires
        fragment_fits(*fragment),
    ensures
        r == expired_spec(*fragment, now),
{
    let ttl = match fragment.ttl_seconds {
        Some(t) => t,
        None => return false,
    };
    if ttl == 0 {
        return false;
    }
    let updated_at = match &fragment.updated_at {
        Some(u) => u,
        None => return false,
    };
    match chrono_lite_parse_rfc3339(updated_at.as_str()) {
        Ok(parsed) => {
            let age = if now >= parsed {
                now - parsed
            } else {
                0
            };
            age > ttl
        },
        Err(()) => false,
    }
}

/// The current Unix time in seconds (0 if the clock reads before 1970).
#[verifier::external_body]
fn now_unix_secs() -> u64 {
    std::time::SystemTime::now().duration_since(std::time::UNIX_EPOCH).map(|d| d.as_secs()).unwrap_or(0)
}

fn clone_opt(v: &Option<String>) -> (r: Option<String>)
    ensures
        ov(r) == ov(*v),
{
    match v {
        Some(s) => Some(s.clone()),
        None => None,
    }
}

impl FleetOpsMetadata {
    fn merge_fragment(&mut self, fragment: &PluginFleetFragment)
        ensures
            final(self)@ == merge_one(old(self)@, *fragment),
    {
        match &fragment.issue {
            Some(issue) => {
                match &issue.id {
                    Some(id) => {
                        if !id.as_str().is_empty() {
                            self.linear_issue = Some(id.clone());
                        }
                    },
                    None => {},
                }
                match &issue.assignee {
                    Some(a) => {
                        if !a.as_str().is_empty() {
                            self.linear_assignee = Some(a.clone());
                        }
                    },
                    None => {},
                }
                match &issue.cycle {
                    Some(c) => {
                        if !c.as_str().is_empty() {
                            self.linear_cycle = Some(c.clone());
                        }
                    },
                    None => {},
                }
            },
            None => {},
        }
        match &fragment.pr {
            Some(pr) => {
                match pr.number {
                    Some(n) => {
                        self.github_pr = Some(n);
                    },
                    None => {},
                }
                match &pr.checks {
                    Some(c) => {
                        self.ci_status = Some(ci_from_checks_exec(c));
                    },
                    None => {},
                }
            },
            None => {},
        }
    }

    /// Merge plugin fragments as seen at Unix time `now` (issue/PR fields).
    pub fn merge_plugin_fragments_at(&mut self, fragments: &[PluginFleetFragment], now: u64)
        requires
            fragments_fit(fragments@),
        ensures
            final(self)@ == merge_all(old(self)@, fragments@, now),
    {
        let ghost start = self@;
        let mut i: usize = 0;
        while i < fragments.len()
            invariant
                i <= fragments.len(),
                fragments_fit(fragments@),
                self@ == merge_all(start, fragments@.subrange(0, i as int), now),
            decreases fragments.len() - i,
        {
            proof {
                assert(fragments@.subrange(0, i + 1).drop_last() =~= fragments@.subrange(0, i as int));
                assert(fragments@.subrange(0, i + 1).last() == fragments@[i as int]);
            }
            if !fragment_expired_at(&fragments[i], now) {
                self.merge_fragment(&fragments[i]);
            }
            i += 1;
        }
        assert(fragments@.subrange(0, fragments.len() as int) =~= fragments@);
    }

    /// Merge plugin `fleet_ops.json` fragments (issue/PR fields) as of now.
    pub fn merge_plugin_fragments(&mut self, fragments: &[PluginFleetFragment])
        requires
            fragments_fit(fragments@),
        ensures
            exists|now: u64| final(self)@ == merge_all(old(self)@, fragments@, now),
    {
        let now = now_unix_secs();
        self.merge_plugin_fragments_at(fragments, now);
    }
}

// ---------------------------------------------------------------------
// Bar segments and summary
// ---------------------------------------------------------------------
pub open spec fn part_view(p: FleetOpsBarPart) -> (FleetOpsBarKind, Seq<char>) {
    (p.kind, p.text@)
}

pub open spec fn parts_view(v: Seq<FleetOpsBarPart>) -> Seq<(FleetOpsBarKind, Seq<char>)> {
    v.map_values(|p: FleetOpsBarPart| part_view(p))
}

/// `repo:branch (worktree)`, `repo:branch`, or just `repo`.
pub open spec fn git_text(repo: Seq<char>, branch: Option<Seq<char>>, worktree: Option<Seq<char>>) -> Seq<char> {
    match branch {
        Some(br) => match worktree {
            Some(wt) => repo + ":"@ + br + " ("@ + wt + ")"@,
            None => repo + ":"@ + br,
        },
        None => repo,
    }
}

pub open spec fn ci_bar_suffix(ci: Option<CiStatus>) -> Seq<char> {
    match ci {
        Some(CiStatus::Success) => " OK"@,
        Some(CiStatus::Failed) => " FAIL"@,
        Some(CiStatus::Running) => " ..."@,
        _ => Seq::empty(),
    }
}

/// `provider/model`, or the model alone when no provider is known.
pub open spec fn model_text(model: Seq<char>, provider: Option<Seq<char>>) -> Seq<char> {
    match provider {
        Some(p) => if p.len() == 0 {
            model
        } else {
            p + "/"@ + model
        },
        None => model,
    }
}

pub open spec fn opt_part(present: bool, kind: FleetOpsBarKind, text: Seq<char>) -> Seq<(FleetOpsBarKind, Seq<char>)> {
    if present {
        seq![(kind, text)]
    } else {
        Seq::empty()
    }
}

/// Name (label, else agent name), state, then git, issue, PR, model when
/// known, the host, then elapsed time, retries and resume when present.
pub open spec fn bar_parts_spec(
    m: FleetOpsMetadataView,
    agent_name: Seq<char>,
    state: AgentState,
    label: Option<Seq<char>>,
) -> Seq<(FleetOpsBarKind, Seq<char>)> {
    seq![
        (FleetOpsBarKind::Name, match label { Some(l) => l, None => agent_name }),
        (FleetOpsBarKind::State, state_label_spec(state)),
    ] + opt_part(
        m.repo is Some,
        FleetOpsBarKind::Git,
        git_text(m.repo.unwrap_or(Seq::empty()), m.branch, m.worktree),
    ) + opt_part(
        m.linear_issue is Some,
        FleetOpsBarKind::Linear,
        issue_label_spec(m.linear_issue.unwrap_or(Seq::empty())),
    ) + opt_part(
        m.github_pr is Some,
        FleetOpsBarKind::Pr,
        "#"@ + text::dec(m.github_pr.unwrap_or(0) as nat) + ci_bar_suffix(m.ci_status),
    ) + opt_part(
        m.model is Some,
        FleetOpsBarKind::Model,
        model_text(m.model.unwrap_or(Seq::empty()), m.provider),
    ) + seq![(FleetOpsBarKind::Host, m.host)] + opt_part(
        m.elapsed is Some,
        FleetOpsBarKind::Elapsed,
        duration_spec(m.elapsed.unwrap_or(0)),
    ) + opt_part(
        m.retry_count > 0,
        FleetOpsBarKind::Retry,
        "retry:"@ + text::dec(m.retry_count as nat),
    ) + opt_part(m.session_resume_available, FleetOpsBarKind::Resume, "resume"@)
}

fn push_part(parts: &mut Vec<FleetOpsBarPart>, kind: FleetOpsBarKind, t: &Vec<char>)
    ensures
        parts_view(final(parts)@) == parts_view(old(parts)@).push((kind, t@)),
{
    let ghost before = parts@;
    parts.push(FleetOpsBarPart { kind, text: string_of(t) });
    assert(parts_view(parts@) =~= parts_view(before).push((kind, t@)));
}

pub open spec fn summary_ci_suffix(ci: Option<CiStatus>) -> Seq<char> {
    match ci {
        Some(CiStatus::Success) => " \u{2713}"@,
        Some(CiStatus::Failed) => " \u{2717}"@,
        Some(CiStatus::Running) => " \u{2026}"@,
        _ => Seq::empty(),
    }
}

pub open spec fn opt_item(present: bool, text: Seq<char>) -> Seq<Seq<char>> {
    if present {
        seq![text]
    } else {
        Seq::empty()
    }
}

pub open spec fn summary_items(m: FleetOpsMetadataView) -> Seq<Seq<char>> {
    opt_item(m.linear_issue is Some, issue_label_spec(m.linear_issue.unwrap_or(Seq::empty())))
        + opt_item(
        m.linear_assignee is Some && m.linear_assignee.unwrap_or(Seq::empty()).len() > 0,
        m.linear_assignee.unwrap_or(Seq::empty()),
    ) + opt_item(
        m.linear_cycle is Some && m.linear_cycle.unwrap_or(Seq::empty()).len() > 0,
        m.linear_cycle.unwrap_or(Seq::empty()),
    ) + opt_item(
        m.github_pr is Some,
        "PR #"@ + text::dec(m.github_pr.unwrap_or(0) as nat) + summary_ci_suffix(m.ci_status),
    ) + opt_item(m.host.len() > 0, m.host)
}

/// Issue, assignee, cycle, PR and host joined by ` \u{b7} `, or
/// `fleet ops idle` when there is nothing to show.
pub open spec fn summary_line_spec(m: FleetOpsMetadataView) -> Seq<char> {
    let items = summary_items(m);
    if items.len() == 0 {
        "fleet ops idle"@
    } else {
        text::join(items, " \u{b7} "@)
    }
}

fn push_item(items: &mut Vec<Vec<char>>, t: Vec<char>)
    ensures
        text::views(final(items)@) == text::views(old(items)@).push(t@),
{
    let ghost before = items@;
    items.push(t);
    assert(text::views(items@) =~= text::views(before).push(t@));
}

impl FleetOpsMetadata {
    /// One-line summary for diagnostics / plugin-facing previews.
    pub fn summary_line(&self) -> (r: String)
        ensures
            r@ == summary_line_spec(self@),
    {
        let mut items: Vec<Vec<char>> = Vec::new();
        let ghost m = self@;
        match &self.linear_issue {
            Some(issue) => push_item(&mut items, issue_label_chars(&chars_of(issue.as_str()))),
            None => {},
        }
        let ghost s1 = text::views(items@);
        assert(s1 =~= opt_item(m.linear_issue is Some, issue_label_spec(m.linear_issue.unwrap_or(Seq::empty()))));
        match &self.linear_assignee {
            Some(a) => {
                if !a.as_str().is_empty() {
                    push_item(&mut items, chars_of(a.as_str()));
                }
            },
            None => {},
        }
        let ghost s2 = text::views(items@);
        assert(s2 =~= s1 + opt_item(
            m.linear_assignee is Some && m.linear_assignee.unwrap_or(Seq::empty()).len() > 0,
            m.linear_assignee.unwrap_or(Seq::empty()),
        ));
        match &self.linear_cycle {
            Some(c) => {
                if !c.as_str().is_empty() {
                    push_item(&mut items, chars_of(c.as_str()));
                }
            },
            None => {},
        }
        let ghost s3 = text::views(items@);
        assert(s3 =~= s2 + opt_item(
            m.linear_cycle is Some && m.linear_cycle.unwrap_or(Seq::empty()).len() > 0,
            m.linear_cycle.unwrap_or(Seq::empty()),
        ));
        match self.github_pr {
            Some(pr) => {
                let mut t = chars_of("PR #");
                push_dec(&mut t, pr as u64);
                match self.ci_status {
                    Some(CiStatus::Success) => push_str(&mut t, " \u{2713}"),
                    Some(CiStatus::Failed) => push_str(&mut t, " \u{2717}"),
                    Some(CiStatus::Running) => push_str(&mut t, " \u{2026}"),
                    _ => {},
                }
                assert(t@ =~= "PR #"@ + text::dec(pr as nat) + summary_ci_suffix(m.ci_status));
                push_item(&mut items, t);
            },
            None => {},
        }
        let ghost s4 = text::views(items@);
        assert(s4 =~= s3 + opt_item(
            m.github_pr is Some,
            "PR #"@ + text::dec(m.github_pr.unwrap_or(0) as nat) + summary_ci_suffix(m.ci_status),
        ));
        if !self.host.as_str().is_empty() {
            push_item(&mut items, chars_of(self.host.as_str()));
        }
        assert(text::views(items@) =~= summary_items(m));
        if items.len() == 0 {
            string_of(&chars_of("fleet ops idle"))
        } else {
            string_of(&join_exec(&items, &chars_of(" \u{b7} ")))
        }
    }

    fn git_part(&self) -> (r: Vec<FleetOpsBarPart>)
        ensures
            parts_view(r@) == opt_part(
                self@.repo is Some,
                FleetOpsBarKind::Git,
                git_text(self@.repo.unwrap_or(Seq::empty()), self@.branch, self@.worktree),
            ),
    {
        let mut parts: Vec<FleetOpsBarPart> = Vec::new();
        match &self.repo {
            Some(repo) => {
                let mut g = chars_of(repo.as_str());
                match &self.branch {
                    Some(br) => {
                        push_str(&mut g, ":");
                        push_str(&mut g, br.as_str());
                        match &self.worktree {
                            Some(wt) => {
                                push_str(&mut g, " (");
                                push_str(&mut g, wt.as_str());
                                push_str(&mut g, ")");
                            },
                            None => {},
                        }
                    },
                    None => {},
                }
                assert(g@ =~= git_text(repo@, self@.branch, self@.worktree));
                push_part(&mut parts, FleetOpsBarKind::Git, &g);
            },
            None => {},
        }
        assert(parts_view(parts@) =~= opt_part(
            self@.repo is Some,
            FleetOpsBarKind::Git,
            git_text(self@.repo.unwrap_or(Seq::empty()), self@.branch, self@.worktree),
        ));
        parts
    }

    fn issue_part(&self) -> (r: Vec<FleetOpsBarPart>)
        ensures
            parts_view(r@) == opt_part(
                self@.linear_issue is Some,
                FleetOpsBarKind::Linear,
                issue_label_spec(self@.linear_issue.unwrap_or(Seq::empty())),
            ),
    {
        let mut parts: Vec<FleetOpsBarPart> = Vec::new();
        match &self.linear_issue {
            Some(issue) => {
                let t = issue_label_chars(&chars_of(issue.as_str()));
                push_part(&mut parts, FleetOpsBarKind::Linear, &t);
            },
            None => {},
        }
        assert(parts_view(parts@) =~= opt_part(
            self@.linear_issue is Some,
            FleetOpsBarKind::Linear,
            issue_label_spec(self@.linear_issue.unwrap_or(Seq::empty())),
        ));
        parts
    }

    fn pr_part(&self) -> (r: Vec<FleetOpsBarPart>)
        ensures
            parts_view(r@) == opt_part(
                self@.github_pr is Some,
                FleetOpsBarKind::Pr,
                "#"@ + text::dec(self@.github_pr.unwrap_or(0) as nat) + ci_bar_suffix(
                    self@.ci_status,
                ),
            ),
    {
        let mut parts: Vec<FleetOpsBarPart> = Vec::new();
        match self.github_pr {
            Some(pr) => {
                let mut t = chars_of("#");
                push_dec(&mut t, pr as u64);
                match self.ci_status {
                    Some(CiStatus::Success) => push_str(&mut t, " OK"),
                    Some(CiStatus::Failed) => push_str(&mut t, " FAIL"),
                    Some(CiStatus::Running) => push_str(&mut t, " ..."),
                    _ => {},
                }
                assert(t@ =~= "#"@ + text::dec(pr as nat) + ci_bar_suffix(self@.ci_status));
                push_part(&mut parts, FleetOpsBarKind::Pr, &t);
            },
            None => {},
        }
        assert(parts_view(parts@) =~= opt_part(
            self@.github_pr is Some,
            FleetOpsBarKind::Pr,
            "#"@ + text::dec(self@.github_pr.unwrap_or(0) as nat) + ci_bar_suffix(self@.ci_status),
        ));
        parts
    }

    fn model_part(&self) -> (r: Vec<FleetOpsBarPart>)
        ensures
            parts_view(r@) == opt_part(
                self@.model is Some,
                FleetOpsBarKind::Model,
                model_text(self@.model.unwrap_or(Seq::empty()), self@.provider),
            ),
    {
        let mut parts: Vec<FleetOpsBarPart> = Vec::new();
        match &self.model {
            Some(model) => {
                let mc = chars_of(model.as_str());
                let t = match &self.provider {
                    Some(p) => {
                        if p.as_str().is_empty() {
                            mc
                        } else {
                            let mut t = chars_of(p.as_str());
                            push_str(&mut t, "/");
                            push_all(&mut t, &mc);
                            t
                        }
                    },
                    None => mc,
                };
                assert(t@ =~= model_text(model@, self@.provider));
                push_part(&mut parts, FleetOpsBarKind::Model, &t);
            },
            None => {},
        }
        assert(parts_view(parts@) =~= opt_part(
            self@.model is Some,
            FleetOpsBarKind::Model,
            model_text(self@.model.unwrap_or(Seq::empty()), self@.provider),
        ));
        parts
    }

    fn tail_parts(&self) -> (r: Vec<FleetOpsBarPart>)
        ensures
            parts_view(r@) == opt_part(
                self@.elapsed is Some,
                FleetOpsBarKind::Elapsed,
                duration_spec(self@.elapsed.unwrap_or(0)),
            ) + opt_part(
                self@.retry_count > 0,
                FleetOpsBarKind::Retry,
                "retry:"@ + text::dec(self@.retry_count as nat),
            ) + opt_part(self@.session_resume_available, FleetOpsBarKind::Resume, "resume"@),
    {
        let ghost m = self@;
        let mut parts: Vec<FleetOpsBarPart> = Vec::new();
        match self.elapsed {
            Some(e) => {
                let t = duration_chars(e);
                push_part(&mut parts, FleetOpsBarKind::Elapsed, &t);
            },
            None => {},
        }
        let ghost p1 = parts_view(parts@);
        assert(p1 =~= opt_part(
            m.elapsed is Some,
            FleetOpsBarKind::Elapsed,
            duration_spec(m.elapsed.unwrap_or(0)),
        ));
        if self.retry_count > 0 {
            let mut t = chars_of("retry:");
            push_dec(&mut t, self.retry_count as u64);
            push_part(&mut parts, FleetOpsBarKind::Retry, &t);
        }
        let ghost p2 = parts_view(parts@);
        assert(p2 =~= p1 + opt_part(
            m.retry_count > 0,
            FleetOpsBarKind::Retry,
            "retry:"@ + text::dec(m.retry_count as nat),
        ));
        if self.session_resume_available {
            push_part(&mut parts, FleetOpsBarKind::Resume, &chars_of("resume"));
        }
        assert(parts_view(parts@) =~= p2 + opt_part(
            m.session_resume_available,
            FleetOpsBarKind::Resume,
            "resume"@,
        ));
        parts
    }

    /// Structured bar segments shared by plain-text and styled UI renderers.
    pub fn bar_parts(&self, agent_name: &str, state: AgentState, label: Option<&str>) -> (r: Vec<
        FleetOpsBarPart,
    >)
        ensures
            parts_view(r@) == bar_parts_spec(
                self@,
                agent_name@,
                state,
                match label {
                    Some(l) => Some(l@),
                    None => None,
                },
            ),
    {
        let ghost m = self@;
        let mut parts: Vec<FleetOpsBarPart> = Vec::new();
        let name = match label {
            Some(l) => chars_of(l),
            None => chars_of(agent_name),
        };
        push_part(&mut parts, FleetOpsBarKind::Name, &name);
        push_part(&mut parts, FleetOpsBarKind::State, &chars_of(state_label(state)));
        let ghost p0 = parts_view(parts@);
        let ghost lab = match label {
            Some(l) => Some(l@),
            None => None,
        };
        assert(p0 =~= seq![
            (FleetOpsBarKind::Name, match lab { Some(l) => l, None => agent_name@ }),
            (FleetOpsBarKind::State, state_label_spec(state)),
        ]);
        let mut g = self.git_part();
        let ghost gv = parts_view(g@);
        append_parts(&mut parts, &mut g);
        let mut i = self.issue_part();
        let ghost iv = parts_view(i@);
        append_parts(&mut parts, &mut i);
        let mut pr = self.pr_part();
        let ghost prv = parts_view(pr@);
        append_parts(&mut parts, &mut pr);
        let mut mo = self.model_part();
        let ghost mov = parts_view(mo@);
        append_parts(&mut parts, &mut mo);
        assert(parts_view(parts@) == p0 + gv + iv + prv + mov);
        let host = chars_of(self.host.as_str());
        push_part(&mut parts, FleetOpsBarKind::Host, &host);
        assert(parts_view(parts@) =~= p0 + gv + iv + prv + mov + seq![(FleetOpsBarKind::Host, m.host)]);
        let mut t = self.tail_parts();
        let ghost tv = parts_view(t@);
        append_parts(&mut parts, &mut t);
        assert(parts_view(parts@) == p0 + gv + iv + prv + mov + seq![(FleetOpsBarKind::Host, m.host)] + tv);
        proof {
            lemma_bar_parts_shape(m, agent_name@, state, lab, p0, gv, iv, prv, mov, tv);
        }
        parts
    }
}

proof fn lemma_bar_parts_shape(
    m: FleetOpsMetadataView,
    agent_name: Seq<char>,
    state: AgentState,
    lab: Option<Seq<char>>,
    p0: Seq<(FleetOpsBarKind, Seq<char>)>,
    gv: Seq<(FleetOpsBarKind, Seq<char>)>,
    iv: Seq<(FleetOpsBarKind, Seq<char>)>,
    prv: Seq<(FleetOpsBarKind, Seq<char>)>,
    mov: Seq<(FleetOpsBarKind, Seq<char>)>,
    tv: Seq<(FleetOpsBarKind, Seq<char>)>,
)
    requires
        p0 == seq![
            (FleetOpsBarKind::Name, match lab { Some(l) => l, None => agent_name }),
            (FleetOpsBarKind::State, state_label_spec(state)),
        ],
        gv == opt_part(
            m.repo is Some,
            FleetOpsBarKind::Git,
            git_text(m.repo.unwrap_or(Seq::empty()), m.branch, m.worktree),
        ),
        iv == opt_part(
            m.linear_issue is Some,
            FleetOpsBarKind::Linear,
            issue_label_spec(m.linear_issue.unwrap_or(Seq::empty())),
        ),
        prv == opt_part(
            m.github_pr is Some,
            FleetOpsBarKind::Pr,
            "#"@ + text::dec(m.github_pr.unwrap_or(0) as nat) + ci_bar_suffix(m.ci_status),
        ),
        mov == opt_part(
            m.model is Some,
            FleetOpsBarKind::Model,
            model_text(m.model.unwrap_or(Seq::empty()), m.provider),
        ),
        tv == opt_part(
            m.elapsed is Some,
            FleetOpsBarKind::Elapsed,
            duration_spec(m.elapsed.unwrap_or(0)),
        ) + opt_part(
            m.retry_count > 0,
            FleetOpsBarKind::Retry,
            "retry:"@ + text::dec(m.retry_count as nat),
        ) + opt_part(m.session_resume_available, FleetOpsBarKind::Resume, "resume"@),
    ensures
        p0 + gv + iv + prv + mov + seq![(FleetOpsBarKind::Host, m.host)] + tv == bar_parts_spec(
            m,
            agent_name,
            state,
            lab,
        ),
{
    assert(p0 + gv + iv + prv + mov + seq![(FleetOpsBarKind::Host, m.host)] + tv =~= bar_parts_spec(
        m,
        agent_name,
        state,
        lab,
    ));
}

fn append_parts(parts: &mut Vec<FleetOpsBarPart>, more: &mut Vec<FleetOpsBarPart>)
    ensures
        parts_view(final(parts)@) == parts_view(old(parts)@) + parts_view(old(more)@),
{
    let ghost a = parts@;
    let ghost b = more@;
    parts.append(more);
    assert(parts_view(parts@) =~= parts_view(a) + parts_view(b));
}

// ---------------------------------------------------------------------
// Terminal metadata and the cache
// ---------------------------------------------------------------------
pub open spec fn ctx_view(c: CachedGitContext) -> (Option<Seq<char>>, Option<Seq<char>>, Option<Seq<char>>) {
    (ov(c.repo), ov(c.worktree), ov(c.branch))
}

/// The cache's git contexts as a map from cwd.
pub open spec fn git_view(entries: Seq<(String, CachedGitContext)>) -> Map<
    Seq<char>,
    (Option<Seq<char>>, Option<Seq<char>>, Option<Seq<char>>),
> {
    assoc::assoc_view(entries, |c: CachedGitContext| ctx_view(c))
}

/// The first agent display name, in metadata order.
pub open spec fn first_display(ms: Seq<AgentMetadata>) -> Option<Seq<char>>
    decreases ms.len(),
{
    if ms.len() == 0 {
        None
    } else {
        match ms[0].display_agent {
            Some(d) => Some(d@),
            None => first_display(ms.drop_first()),
        }
    }
}

pub open spec fn first_source(ms: Seq<AgentMetadata>) -> Option<Seq<char>> {
    if ms.len() == 0 {
        None
    } else {
        Some(ms[0].source@)
    }
}

/// Metadata read from the terminal and the cached git context of its cwd,
/// before plugin fragments are merged.
pub open spec fn base_metadata(term: TerminalState, host: Seq<char>, cache: FleetOpsCache) -> FleetOpsMetadataView {
    let g = git_view(cache.git_by_cwd@);
    let ctx = if g.contains_key(term.cwd@) {
        g[term.cwd@]
    } else {
        (None, None, None)
    };
    FleetOpsMetadataView {
        repo: ctx.0,
        worktree: ctx.1,
        branch: ctx.2,
        linear_issue: None,
        linear_assignee: None,
        linear_cycle: None,
        github_pr: None,
        ci_status: None,
        model: first_display(term.agent_metadata@),
        provider: first_source(term.agent_metadata@),
        host: host,
        elapsed: None,
        retry_count: 0,
        session_resume_available: term.persisted_agent_session,
    }
}

fn clone_context(c: &CachedGitContext) -> (r: CachedGitContext)
    ensures
        ctx_view(r) == ctx_view(*c),
{
    CachedGitContext {
        repo: clone_opt(&c.repo),
        worktree: clone_opt(&c.worktree),
        branch: clone_opt(&c.branch),
    }
}

fn first_display_exec(ms: &Vec<AgentMetadata>) -> (r: Option<String>)
    ensures
        ov(r) == first_display(ms@),
{
    let mut i: usize = 0;
    assert(ms@.subrange(0, ms.len() as int) =~= ms@);
    while i < ms.len()
        invariant
            i <= ms.len(),
            first_display(ms@) == first_display(ms@.subrange(i as int, ms.len() as int)),
        decreases ms.len() - i,
    {
        assert(ms@.subrange(i as int, ms.len() as int).drop_first() =~= ms@.subrange(
            i + 1,
            ms.len() as int,
        ));
        match &ms[i].display_agent {
            Some(d) => {
                return Some(d.clone());
            },
            None => {},
        }
        i += 1;
    }
    None
}

impl FleetOpsMetadata {
    /// Metadata of a terminal from its state, the host name and the cache,
    /// with the cached plugin fragments merged as seen at Unix time `now`.
    pub fn from_terminal_at(term: &TerminalState, host: &str, cache: &FleetOpsCache, now: u64) -> (r: Self)
        requires
            fragments_fit(cache.fragments@),
        ensures
            r@ == merge_all(base_metadata(*term, host@, *cache), cache.fragments@, now),
    {
        let (repo, worktree, branch) = match assoc_find(&cache.git_by_cwd, &term.cwd) {
            Some(i) => {
                proof {
                    assoc::lemma_assoc_last(
                        cache.git_by_cwd@,
                        term.cwd@,
                        i as int,
                        |c: CachedGitContext| ctx_view(c),
                    );
                }
                let c = clone_context(&cache.git_by_cwd[i].1);
                (c.repo, c.worktree, c.branch)
            },
            None => {
                proof {
                    assoc::lemma_assoc_absent(
                        cache.git_by_cwd@,
                        term.cwd@,
                        |c: CachedGitContext| ctx_view(c),
                    );
                }
                (None, None, None)
            },
        };
        let provider = if term.agent_metadata.len() > 0 {
            Some(term.agent_metadata[0].source.clone())
        } else {
            None
        };
        let mut meta = FleetOpsMetadata {
            repo,
            worktree,
            branch,
            linear_issue: None,
            linear_assignee: None,
            linear_cycle: None,
            github_pr: None,
            ci_status: None,
            model: first_display_exec(&term.agent_metadata),
            provider,
            host: string_of(&chars_of(host)),
            elapsed: None,
            retry_count: 0,
            session_resume_available: term.persisted_agent_session,
        };
        assert(meta@ == base_metadata(*term, host@, *cache));
        meta.merge_plugin_fragments_at(cache.fragments.as_slice(), now);
        meta
    }

    /// Build metadata from terminal state + cached plugin fragments.
    ///
    /// Does not touch the filesystem; callers refresh the cache.
    pub fn from_terminal(term: &TerminalState, host: &str, cache: &FleetOpsCache) -> (r: Self)
        requires
            fragments_fit(cache.fragments@),
        ensures
            exists|now: u64|
                r@ == merge_all(base_metadata(*term, host@, *cache), cache.fragments@, now),
    {
        let now = now_unix_secs();
        Self::from_terminal_at(term, host, cache, now)
    }
}

/// Store freshly loaded fragments and git contexts in the cache: the
/// fragments replace the old ones; each context is recorded for its cwd,
/// later ones winning.
pub fn refresh_fleet_ops_cache(
    cache: &mut FleetOpsCache,
    fragments: Vec<PluginFleetFragment>,
    contexts: &Vec<(String, CachedGitContext)>,
)
    ensures
        final(cache).fragments@ == fragments@,
        git_view(final(cache).git_by_cwd@) == git_view(old(cache).git_by_cwd@ + contexts@),
{
    cache.fragments = fragments;
    let ghost start = cache.git_by_cwd@;
    let mut i: usize = 0;
    while i < contexts.len()
        invariant
            i <= contexts.len(),
            cache.fragments@ == fragments@,
            git_view(cache.git_by_cwd@) == git_view(start + contexts@.subrange(0, i as int)),
        decreases contexts.len() - i,
    {
        let k = contexts[i].0.clone();
        let c = clone_context(&contexts[i].1);
        assoc_insert::<CachedGitContext, (Option<Seq<char>>, Option<Seq<char>>, Option<Seq<char>>)>(
            &mut cache.git_by_cwd,
            k,
            c,
            Ghost(|c: CachedGitContext| ctx_view(c)),
        );
        proof {
            let s1 = start + contexts@.subrange(0, i + 1);
            assert(s1.drop_last() =~= start + contexts@.subrange(0, i as int));
            assert(s1.last() == contexts@[i as int]);
        }
        i += 1;
    }
    assert(contexts@.subrange(0, contexts.len() as int) =~= contexts@);
}

/// Git context of a cwd from what the filesystem showed: when a repository
/// enclosing the cwd was found, the name of its directory (without a
/// trailing `.git`) when it has one, the branch named by its `.git/HEAD`
/// (`ref: refs/heads/<branch>`), and the cwd's own name as the worktree;
/// nothing when no repository was found.
pub open spec fn git_context_spec(
    repo_found: bool,
    repo_dir_name: Option<Seq<char>>,
    head: Option<Seq<char>>,
    cwd_name: Option<Seq<char>>,
) -> (Option<Seq<char>>, Option<Seq<char>>, Option<Seq<char>>) {
    if !repo_found {
        (None, None, None)
    } else {
        let repo = match repo_dir_name {
            Some(n) => Some(text::trim_end_matches(n, ".git"@)),
            None => None,
        };
        let branch = match head {
            Some(h) => if text::starts_with(h, "ref: refs/heads/"@) {
                Some(text::trim(h.subrange("ref: refs/heads/"@.len() as int, h.len() as int)))
            } else {
                None
            },
            None => None,
        };
        (repo, cwd_name, branch)
    }
}

pub open spec fn str_opt(v: Option<&str>) -> Option<Seq<char>> {
    match v {
        Some(s) => Some(s@),
        None => None,
    }
}

/// Build the git context of a cwd; `repo_found` says whether a repository
/// enclosing the cwd was found, `repo_dir_name` is that repository
/// directory's name when it has one, and `head` the content of its
/// `.git/HEAD` when it could be read.
pub fn git_context_from(
    repo_found: bool,
    repo_dir_name: Option<&str>,
    head: Option<&str>,
    cwd_name: Option<&str>,
) -> (r: CachedGitContext)
    ensures
        ctx_view(r) == git_context_spec(
            repo_found,
            str_opt(repo_dir_name),
            str_opt(head),
            str_opt(cwd_name),
        ),
{
    if !repo_found {
        return CachedGitContext { repo: None, worktree: None, branch: None };
    }
    let repo = match repo_dir_name {
        Some(n) => {
            let suffix = chars_of(".git");
            proof {
                reveal_strlit(".git");
            }
            Some(string_of(&text::trim_end_matches_exec(chars_of(n), &suffix)))
        },
        None => None,
    };
    let branch = match head {
        Some(h) => {
            let hv = chars_of(h);
            let p = chars_of("ref: refs/heads/");
            if text::starts_with_exec(&hv, &p) {
                Some(string_of(&trim_chars(&slice_chars(&hv, p.len(), hv.len()))))
            } else {
                None
            }
        },
        None => None,
    };
    let worktree = match cwd_name {
        Some(c) => Some(string_of(&chars_of(c))),
        None => None,
    };
    CachedGitContext { repo, worktree, branch }
}

/// Plugin fragments only fill in the issue and pull-request fields: the
/// git context, agent, host and timing fields come out of a merge as they
/// went in.
pub proof fn law_merge_keeps_local_fields(m: FleetOpsMetadataView, fs: Seq<PluginFleetFragment>, now: u64)
    ensures
        merge_all(m, fs, now).repo == m.repo,
        merge_all(m, fs, now).worktree == m.worktree,
        merge_all(m, fs, now).branch == m.branch,
        merge_all(m, fs, now).model == m.model,
        merge_all(m, fs, now).provider == m.provider,
        merge_all(m, fs, now).host == m.host,
        merge_all(m, fs, now).elapsed == m.elapsed,
        merge_all(m, fs, now).retry_count == m.retry_count,
        merge_all(m, fs, now).session_resume_available == m.session_resume_available,
    decreases fs.len(),
{
    if fs.len() > 0 {
        law_merge_keeps_local_fields(m, fs.drop_last(), now);
    }
}

/// Expired fragments change nothing: merging a list gives the same result
/// as merging only its live fragments.
pub proof fn law_merge_ignores_expired(m: FleetOpsMetadataView, fs: Seq<PluginFleetFragment>, now: u64)
    ensures
        merge_all(m, fs, now) == merge_all(m, fs.filter(|f: PluginFleetFragment| !expired_spec(f, now)), now),
    decreases fs.len(),
{
    reveal(Seq::filter);
    if fs.len() > 0 {
        law_merge_ignores_expired(m, fs.drop_last(), now);
        let live = fs.filter(|f: PluginFleetFragment| !expired_spec(f, now));
        let prev_live = fs.drop_last().filter(|f: PluginFleetFragment| !expired_spec(f, now));
        if !expired_spec(fs.last(), now) {
            assert(live == prev_live.push(fs.last()));
            assert(live.drop_last() =~= prev_live);
            assert(!expired_spec(live.last(), now));
        } else {
            assert(live == prev_live);
        }
    }
}

/// The fields a run of fragments overrides, each with the value that wins.
struct Overrides {
    issue: Option<Seq<char>>,
    assignee: Option<Seq<char>>,
    cycle: Option<Seq<char>>,
    pr: Option<u32>,
    ci: Option<CiStatus>,
}

spec fn fragment_overrides(f: PluginFleetFragment) -> Overrides {
    Overrides {
        issue: match f.issue {
            Some(i) => nonblank(i.id),
            None => None,
        },
        assignee: match f.issue {
            Some(i) => nonblank(i.assignee),
            None => None,
        },
        cycle: match f.issue {
            Some(i) => nonblank(i.cycle),
            None => None,
        },
        pr: match f.pr {
            Some(pr) => pr.number,
            None => None,
        },
        ci: match f.pr {
            Some(pr) => match pr.checks {
                Some(c) => Some(ci_from_checks(text::lower_seq(c@))),
                None => None,
            },
            None => None,
        },
    }
}

spec fn apply_overrides(m: FleetOpsMetadataView, o: Overrides) -> FleetOpsMetadataView {
    FleetOpsMetadataView {
        linear_issue: or_keep(o.issue, m.linear_issue),
        linear_assignee: or_keep(o.assignee, m.linear_assignee),
        linear_cycle: or_keep(o.cycle, m.linear_cycle),
        github_pr: or_keep(o.pr, m.github_pr),
        ci_status: or_keep(o.ci, m.ci_status),
        ..m
    }
}

/// `a` followed by `b`: what `b` sets wins.
spec fn then_overrides(a: Overrides, b: Overrides) -> Overrides {
    Overrides {
        issue: or_keep(b.issue, a.issue),
        assignee: or_keep(b.assignee, a.assignee),
        cycle: or_keep(b.cycle, a.cycle),
        pr: or_keep(b.pr, a.pr),
        ci: or_keep(b.ci, a.ci),
    }
}

spec fn merged_overrides(fs: Seq<PluginFleetFragment>, now: u64) -> Overrides
    decreases fs.len(),
{
    if fs.len() == 0 {
        Overrides { issue: None, assignee: None, cycle: None, pr: None, ci: None }
    } else {
        let prev = merged_overrides(fs.drop_last(), now);
        if expired_spec(fs.last(), now) {
            prev
        } else {
            then_overrides(prev, fragment_overrides(fs.last()))
        }
    }
}

proof fn lemma_merge_is_override(m: FleetOpsMetadataView, fs: Seq<PluginFleetFragment>, now: u64)
    ensures
        merge_all(m, fs, now) == apply_overrides(m, merged_overrides(fs, now)),
    decreases fs.len(),
{
    if fs.len() > 0 {
        lemma_merge_is_override(m, fs.drop_last(), now);
    }
}

/// Merging a list of fragments is merging its first part, then the rest.
pub proof fn law_merge_concat(
    m: FleetOpsMetadataView,
    fs1: Seq<PluginFleetFragment>,
    fs2: Seq<PluginFleetFragment>,
    now: u64,
)
    ensures
        merge_all(m, fs1 + fs2, now) == merge_all(merge_all(m, fs1, now), fs2, now),
    decreases fs2.len(),
{
    if fs2.len() == 0 {
        assert(fs1 + fs2 =~= fs1);
    } else {
        assert((fs1 + fs2).drop_last() =~= fs1 + fs2.drop_last());
        assert((fs1 + fs2).last() == fs2.last());
        law_merge_concat(m, fs1, fs2.drop_last(), now);
    }
}

/// Merging the same fragments again, at the same time, changes nothing.
pub proof fn law_merge_twice_is_once(m: FleetOpsMetadataView, fs: Seq<PluginFleetFragment>, now: u64)
    ensures
        merge_all(merge_all(m, fs, now), fs, now) == merge_all(m, fs, now),
{
    lemma_merge_is_override(m, fs, now);
    lemma_merge_is_override(merge_all(m, fs, now), fs, now);
}

/// The CI status a live fragment's `checks` sets, whatever its case:
/// `passing`, `success` or `ok` is a success; `failing`, `failed` or `fail`
/// a failure; `running` or `pending` still running; anything else pending.
/// Checks that differ only in case set the same status.
pub proof fn law_ci_status_from_checks(
    m: FleetOpsMetadataView,
    fs: Seq<PluginFleetFragment>,
    f: PluginFleetFragment,
    g: PluginFleetFragment,
    now: u64,
)
    requires
        !expired_spec(f, now),
        f.pr matches Some(pr) && pr.checks is Some,
    ensures
        ({
            let l = text::lower_seq(f.pr->0.checks->0@);
            let ci = merge_all(m, fs.push(f), now).ci_status;
            &&& (l == "passing"@ || l == "success"@ || l == "ok"@) ==> ci == Some(CiStatus::Success)
            &&& (l == "failing"@ || l == "failed"@ || l == "fail"@) ==> ci == Some(CiStatus::Failed)
            &&& (l == "running"@ || l == "pending"@) ==> ci == Some(CiStatus::Running)
            &&& !(l == "passing"@ || l == "success"@ || l == "ok"@ || l == "failing"@ || l
                == "failed"@ || l == "fail"@ || l == "running"@ || l == "pending"@) ==> ci == Some(
                CiStatus::Pending,
            )
        }),
        (g.pr matches Some(q) && q.checks matches Some(d) && text::lower_seq(d@) == text::lower_seq(
            f.pr->0.checks->0@,
        ) && !expired_spec(g, now)) ==> merge_all(m, fs.push(g), now).ci_status == merge_all(
            m,
            fs.push(f),
            now,
        ).ci_status,
{
    assert(fs.push(f).drop_last() =~= fs);
    assert(fs.push(f).last() == f);
    assert(fs.push(g).drop_last() =~= fs);
    assert(fs.push(g).last() == g);
    reveal_strlit("passing");
    reveal_strlit("success");
    reveal_strlit("ok");
    reveal_strlit("failing");
    reveal_strlit("failed");
    reveal_strlit("fail");
    reveal_strlit("running");
    reveal_strlit("pending");
    assert("failing"@[0] != "passing"@[0] && "failing"@[0] != "pending"@[0] && "failing"@[0]
        != "running"@[0] && "passing"@[0] != "running"@[0] && "passing"@[1] != "pending"@[1]
        && "success"@[0] != "running"@[0] && "success"@[0] != "pending"@[0] && "failed"@[0]
        != "success"@[0] && "failing"@[0] != "success"@[0]);
    let prev = merge_all(m, fs, now);
    assert(merge_all(m, fs.push(f), now) == merge_one(prev, f));
    assert(merge_one(prev, f).ci_status == Some(
        ci_from_checks(text::lower_seq(f.pr->0.checks->0@)),
    ));
    let l = text::lower_seq(f.pr->0.checks->0@);
    if l == "failing"@ {
        assert(l.len() == 7);
        assert(l != "passing"@);
        assert(l != "success"@);
        assert(l != "ok"@);
    }
    if l == "failed"@ {
        assert(l != "passing"@);
        assert(l != "success"@);
        assert(l != "ok"@);
    }
    if l == "fail"@ {
        assert("fail"@.len() == 4);
        assert("ok"@.len() == 2);
        assert(l != "passing"@);
        assert(l != "success"@);
        assert(l != "ok"@);
    }
    if g.pr matches Some(q) && q.checks matches Some(d) && !expired_spec(g, now) {
        assert(merge_all(m, fs.push(g), now) == merge_one(prev, g));
    }
}

} // verus!
