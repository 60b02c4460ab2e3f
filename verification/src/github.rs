//! GitHub credential and repository parsing used by the status refresh.
use vstd::prelude::*;

use crate::text::{
    self, chars_of, eq_lit, trim_end_matches_exec, find_char_exec, find_exec, is_ascii_alphabetic,
    is_ascii_digit, slice_chars, split_lines, starts_with_exec, string_of, trim_chars,
};

verus! {

/// Surrounding double or single quotes are removed from a YAML scalar.
pub open spec fn strip_yaml_quotes_spec(v: Seq<char>) -> Seq<char> {
    if v.len() >= 2 && ((v[0] == '"' && v.last() == '"') || (v[0] == '\'' && v.last() == '\'')) {
        v.subrange(1, v.len() - 1)
    } else {
        v
    }
}

/// Scan of the lines of a gh `hosts.yml`: blank and `#` lines are skipped;
/// an unindented line opens a section (the `github.com` one when it reads
/// `github.com:` or `github.com`); inside that section the first indented
/// `oauth_token:` with a non-empty (unquoted) value is the token.
pub open spec fn token_scan(ls: Seq<Seq<char>>, i: int, in_github: bool) -> Option<Seq<char>>
    decreases ls.len() - i,
{
    if i < 0 || i >= ls.len() {
        None
    } else {
        let line = ls[i];
        let t = text::trim(line);
        if t.len() == 0 || t[0] == '#' {
            token_scan(ls, i + 1, in_github)
        } else if !text::is_ws(line[0]) {
            token_scan(ls, i + 1, t == "github.com:"@ || t == "github.com"@)
        } else if !in_github {
            token_scan(ls, i + 1, in_github)
        } else if !text::starts_with(t, "oauth_token:"@) {
            token_scan(ls, i + 1, in_github)
        } else {
            let token = strip_yaml_quotes_spec(
                text::trim(t.subrange("oauth_token:"@.len() as int, t.len() as int)),
            );
            if token.len() > 0 {
                Some(token)
            } else {
                token_scan(ls, i + 1, in_github)
            }
        }
    }
}

pub open spec fn github_token_spec(content: Seq<char>) -> Option<Seq<char>> {
    token_scan(text::lines(content), 0, false)
}

pub open spec fn opt_string_view(v: Option<String>) -> Option<Seq<char>> {
    match v {
        Some(s) => Some(s@),
        None => None,
    }
}

pub fn strip_yaml_quotes(v: &Vec<char>) -> (r: Vec<char>)
    ensures
        r@ == strip_yaml_quotes_spec(v@),
{
    let n = v.len();
    if n >= 2 && ((v[0] == '"' && v[n - 1] == '"') || (v[0] == '\'' && v[n - 1] == '\'')) {
        slice_chars(v, 1, n - 1)
    } else {
        slice_chars(v, 0, n)
    }
}

/// Parse `oauth_token` from the `github.com:` section of a gh hosts.yml document.
pub fn parse_github_com_oauth_token(content: &str) -> (r: Option<String>)
    ensures
        opt_string_view(r) == github_token_spec(content@),
{
    let ls = split_lines(&chars_of(content));
    let ghost sl = text::views(ls@);
    let prefix = chars_of("oauth_token:");
    let mut in_github = false;
    let mut i: usize = 0;
    while i < ls.len()
        invariant
            i <= ls.len(),
            sl == text::views(ls@),
            sl == text::lines(content@),
            prefix@ == "oauth_token:"@,
            token_scan(sl, 0, false) == token_scan(sl, i as int, in_github),
        decreases ls.len() - i,
    {
        let line = &ls[i];
        assert(line@ == sl[i as int]);
        let t = trim_chars(line);
        if t.len() == 0 || t[0] == '#' {
            i += 1;
            continue;
        }
        proof {
            if line@.len() == 0 {
                assert(text::trim_start(line@) == line@);
                assert(text::trim_end(line@) == line@);
            }
        }
        if !text::is_whitespace(line[0]) {
            in_github = eq_lit(&t, "github.com:") || eq_lit(&t, "github.com");
            i += 1;
            continue;
        }
        if !in_github || !starts_with_exec(&t, &prefix) {
            i += 1;
            continue;
        }
        let value = trim_chars(&slice_chars(&t, prefix.len(), t.len()));
        let token = strip_yaml_quotes(&value);
        if token.len() > 0 {
            return Some(string_of(&token));
        }
        i += 1;
    }
    None
}

pub open spec fn is_segment_char(c: char) -> bool {
    text::is_alnum(c) || c == '.' || c == '_' || c == '-'
}

/// Whether `s` is made of dots only, like `.` and `..`, which a URL path
/// would read as "this directory" or "the parent directory".
pub open spec fn all_dots(s: Seq<char>) -> bool {
    forall|i: int| 0 <= i < s.len() ==> #[trigger] s[i] == '.'
}

/// A non-empty run of ASCII letters, digits, `.`, `_` and `-` that is not
/// made of dots only.
pub open spec fn valid_segment(s: Seq<char>) -> bool {
    &&& s.len() > 0
    &&& forall|i: int| 0 <= i < s.len() ==> is_segment_char(#[trigger] s[i])
    &&& !all_dots(s)
}

fn valid_segment_chars(s: &Vec<char>) -> (r: bool)
    ensures
        r == valid_segment(s@),
{
    if s.len() == 0 {
        return false;
    }
    let mut dots_only = true;
    let mut i: usize = 0;
    while i < s.len()
        invariant
            i <= s.len(),
            forall|j: int| 0 <= j < i ==> is_segment_char(#[trigger] s@[j]),
            dots_only == (forall|j: int| 0 <= j < i ==> #[trigger] s@[j] == '.'),
        decreases s.len() - i,
    {
        let c = s[i];
        if !(is_ascii_alphabetic(c) || is_ascii_digit(c) || c == '.' || c == '_' || c == '-') {
            assert(!is_segment_char(s@[i as int]));
            return false;
        }
        if c != '.' {
            dots_only = false;
        }
        i += 1;
    }
    !dots_only
}

/// Where a GitHub.com token is looked for, in order of preference.
#[derive(Debug, Clone, Copy, PartialEq, Eq, Structural)]
pub enum TokenSource {
    /// The `GH_TOKEN` environment variable.
    GhTokenEnv,
    /// The `GITHUB_TOKEN` environment variable.
    GithubTokenEnv,
    /// What `gh auth token` prints, when it succeeds.
    GhCli,
    /// The gh CLI's `hosts.yml` file.
    HostsFile,
}

/// What looking at one token source leads to.
#[derive(Debug, Clone, PartialEq, Eq)]
pub enum TokenStep {
    Found(String),
    TryNext(TokenSource),
    NotFound,
}

pub enum TokenStepView {
    Found(Seq<char>),
    TryNext(TokenSource),
    NotFound,
}

impl View for TokenStep {
    type V = TokenStepView;

    open spec fn view(&self) -> TokenStepView {
        match self {
            TokenStep::Found(t) => TokenStepView::Found(t@),
            TokenStep::TryNext(src) => TokenStepView::TryNext(*src),
            TokenStep::NotFound => TokenStepView::NotFound,
        }
    }
}

/// The source to look at first.
pub fn first_token_source() -> (r: TokenSource)
    ensures
        r == TokenSource::GhTokenEnv,
{
    TokenSource::GhTokenEnv
}

/// Looking at `source`, which gave `found` (the variable's value, the
/// command's output, or the file's content; `None` when there was none):
/// a variable or the command gives its trimmed value when that is not
/// empty, else the next source is tried; the hosts file gives the
/// `github.com` token it holds, or there is no token.
pub open spec fn token_step_spec(source: TokenSource, found: Option<Seq<char>>) -> TokenStepView {
    match source {
        TokenSource::HostsFile => match found {
            Some(content) => match github_token_spec(content) {
                Some(t) => TokenStepView::Found(t),
                None => TokenStepView::NotFound,
            },
            None => TokenStepView::NotFound,
        },
        _ => {
            let next = match source {
                TokenSource::GhTokenEnv => TokenSource::GithubTokenEnv,
                TokenSource::GithubTokenEnv => TokenSource::GhCli,
                _ => TokenSource::HostsFile,
            };
            match found {
                Some(v) => if text::trim(v).len() > 0 {
                    TokenStepView::Found(text::trim(v))
                } else {
                    TokenStepView::TryNext(next)
                },
                None => TokenStepView::TryNext(next),
            }
        },
    }
}

pub fn token_step(source: TokenSource, found: Option<&str>) -> (r: TokenStep)
    ensures
        r@ == token_step_spec(
            source,
            match found {
                Some(v) => Some(v@),
                None => None,
            },
        ),
{
    match source {
        TokenSource::HostsFile => match found {
            Some(content) => match parse_github_com_oauth_token(content) {
                Some(t) => TokenStep::Found(t),
                None => TokenStep::NotFound,
            },
            None => TokenStep::NotFound,
        },
        _ => {
            let next = match source {
                TokenSource::GhTokenEnv => TokenSource::GithubTokenEnv,
                TokenSource::GithubTokenEnv => TokenSource::GhCli,
                _ => TokenSource::HostsFile,
            };
            match found {
                Some(v) => {
                    let t = trim_chars(&chars_of(v));
                    if t.len() > 0 {
                        TokenStep::Found(string_of(&t))
                    } else {
                        TokenStep::TryNext(next)
                    }
                },
                None => TokenStep::TryNext(next),
            }
        },
    }
}

/// True when `segment` is a safe GitHub path segment for URL interpolation.
pub fn is_valid_repo_path_segment(segment: &str) -> (r: bool)
    ensures
        r == valid_segment(segment@),
{
    valid_segment_chars(&chars_of(segment))
}

/// The host named by a URL authority `[user@]host[:port]`.
pub open spec fn authority_host(a: Seq<char>) -> Seq<char> {
    let h = match text::split_once(a, '@') {
        Some(parts) => parts.1,
        None => a,
    };
    match text::split_once(h, ':') {
        Some(parts) => parts.0,
        None => h,
    }
}

/// The path of a remote URL whose host is `github.com`: for
/// `scheme://[user@]host[:port]/path` the part after the authority, for the
/// ssh form `[user@]host:path` the part after the colon; `None` for any
/// other host.
pub open spec fn after_host(u: Seq<char>) -> Option<Seq<char>> {
    match text::split_once_str(u, "://"@) {
        Some(parts) => match text::split_once(parts.1, '/') {
            Some(ap) => if authority_host(ap.0) == "github.com"@ {
                Some(ap.1)
            } else {
                None
            },
            None => None,
        },
        None => match text::split_once(u, ':') {
            Some(hp) => if !text::contains_char(hp.0, '/') && authority_host(hp.0) == "github.com"@ {
                Some(hp.1)
            } else {
                None
            },
            None => None,
        },
    }
}

/// `owner/repo` of a github.com remote URL: the URL is trimmed, trailing
/// `/` and `.git` are removed, its host must be `github.com`, the path
/// after the host must be exactly two `/`-separated segments, and both
/// (trimmed) must be valid path segments.
pub open spec fn owner_repo_spec(url: Seq<char>) -> Option<(Seq<char>, Seq<char>)> {
    let u = text::trim_end_matches(text::trim_end_matches(text::trim(url), "/"@), ".git"@);
    match after_host(u) {
        None => None,
        Some(path) => match text::split_once(path, '/') {
            None => None,
            Some(parts) => if text::contains_char(parts.1, '/') {
                None
            } else {
                let owner = text::trim(parts.0);
                let repo = text::trim(parts.1);
                if valid_segment(owner) && valid_segment(repo) {
                    Some((owner, repo))
                } else {
                    None
                }
            },
        },
    }
}

pub open spec fn pair_view(r: Option<(String, String)>) -> Option<(Seq<char>, Seq<char>)> {
    match r {
        Some(p) => Some((p.0@, p.1@)),
        None => None,
    }
}

fn split_at_char(u: &Vec<char>, c: char) -> (r: Option<(Vec<char>, Vec<char>)>)
    ensures
        match r {
            Some(parts) => text::split_once(u@, c) == Some((parts.0@, parts.1@)),
            None => text::split_once(u@, c) is None,
        },
{
    match find_char_exec(u, c) {
        Some(k) => Some((slice_chars(u, 0, k), slice_chars(u, k + 1, u.len()))),
        None => None,
    }
}

fn authority_host_exec(a: &Vec<char>) -> (r: Vec<char>)
    ensures
        r@ == authority_host(a@),
{
    let h = match split_at_char(a, '@') {
        Some(parts) => parts.1,
        None => slice_chars(a, 0, a.len()),
    };
    assert(a@.subrange(0, a@.len() as int) =~= a@);
    match split_at_char(&h, ':') {
        Some(parts) => parts.0,
        None => h,
    }
}

fn after_host_exec(u: &Vec<char>) -> (r: Option<Vec<char>>)
    ensures
        match r {
            Some(v) => after_host(u@) == Some(v@),
            None => after_host(u@) is None,
        },
{
    let sep = chars_of("://");
    match find_exec(u, &sep) {
        Some(i) => {
            proof {
                text::lemma_find_from_bounds(u@, sep@, 0);
                assert(text::occurs_at(u@, sep@, i as int));
                assert(i + sep@.len() <= u@.len());
                reveal_strlit("://");
            }
            let plen = sep.len();
            assert(i + plen <= u.len());
            let rest = slice_chars(u, i + plen, u.len());
            match split_at_char(&rest, '/') {
                Some(ap) => {
                    let host = authority_host_exec(&ap.0);
                    if eq_lit(&host, "github.com") {
                        Some(ap.1)
                    } else {
                        None
                    }
                },
                None => None,
            }
        },
        None => match split_at_char(u, ':') {
            Some(hp) => {
                let host = authority_host_exec(&hp.0);
                if find_char_exec(&hp.0, '/').is_none() && eq_lit(&host, "github.com") {
                    Some(hp.1)
                } else {
                    None
                }
            },
            None => None,
        },
    }
}

/// Parse `owner/repo` from a github.com remote URL (https or ssh).
pub fn parse_github_owner_repo(url: &str) -> (r: Option<(String, String)>)
    ensures
        pair_view(r) == owner_repo_spec(url@),
{
    let slash = chars_of("/");
    let dotgit = chars_of(".git");
    proof {
        reveal_strlit("/");
        reveal_strlit(".git");
    }
    let u = trim_end_matches_exec(
        trim_end_matches_exec(trim_chars(&chars_of(url)), &slash),
        &dotgit,
    );
    let path = match after_host_exec(&u) {
        Some(p) => p,
        None => return None,
    };
    let k = match find_char_exec(&path, '/') {
        Some(k) => k,
        None => return None,
    };
    let rest = slice_chars(&path, k + 1, path.len());
    match find_char_exec(&rest, '/') {
        Some(_) => return None,
        None => {},
    }
    let owner = trim_chars(&slice_chars(&path, 0, k));
    let repo = trim_chars(&rest);
    if !valid_segment_chars(&owner) || !valid_segment_chars(&repo) {
        return None;
    }
    Some((string_of(&owner), string_of(&repo)))
}

/// In a git config, the first `url` of the `[remote "origin"]` section.
pub open spec fn origin_scan(ls: Seq<Seq<char>>, i: int, in_origin: bool) -> Option<Seq<char>>
    decreases ls.len() - i,
{
    if i < 0 || i >= ls.len() {
        None
    } else {
        let line = text::trim(ls[i]);
        if line == "[remote \"origin\"]"@ {
            origin_scan(ls, i + 1, true)
        } else if text::starts_with(line, "["@) {
            origin_scan(ls, i + 1, false)
        } else if in_origin && text::starts_with(line, "url = "@) {
            Some(line.subrange("url = "@.len() as int, line.len() as int))
        } else if in_origin && text::starts_with(line, "url="@) {
            Some(line.subrange("url="@.len() as int, line.len() as int))
        } else {
            origin_scan(ls, i + 1, in_origin)
        }
    }
}

pub open spec fn config_owner_repo_spec(content: Seq<char>) -> Option<(Seq<char>, Seq<char>)> {
    match origin_scan(text::lines(content), 0, false) {
        Some(u) => owner_repo_spec(text::trim(u)),
        None => None,
    }
}

/// The first `url` of the `origin` remote in a git config, if any.
pub fn origin_url_from_git_config(content: &str) -> (r: Option<String>)
    ensures
        opt_string_view(r) == origin_scan(text::lines(content@), 0, false),
{
    let ls = split_lines(&chars_of(content));
    let ghost sl = text::views(ls@);
    let header = chars_of("[remote \"origin\"]");
    let bracket = chars_of("[");
    let url_sp = chars_of("url = ");
    let url_eq = chars_of("url=");
    let mut in_origin = false;
    let mut i: usize = 0;
    while i < ls.len()
        invariant
            i <= ls.len(),
            sl == text::views(ls@),
            sl == text::lines(content@),
            header@ == "[remote \"origin\"]"@,
            bracket@ == "["@,
            url_sp@ == "url = "@,
            url_eq@ == "url="@,
            origin_scan(sl, 0, false) == origin_scan(sl, i as int, in_origin),
        decreases ls.len() - i,
    {
        let line = trim_chars(&ls[i]);
        assert(ls@[i as int]@ == sl[i as int]);
        if text::eq_chars(&line, &header) {
            in_origin = true;
        } else if starts_with_exec(&line, &bracket) {
            in_origin = false;
        } else if in_origin && starts_with_exec(&line, &url_sp) {
            return Some(string_of(&slice_chars(&line, url_sp.len(), line.len())));
        } else if in_origin && starts_with_exec(&line, &url_eq) {
            return Some(string_of(&slice_chars(&line, url_eq.len(), line.len())));
        }
        i += 1;
    }
    None
}

/// `owner/repo` of the origin remote named in a git config document.
pub fn github_owner_repo_from_git_config(content: &str) -> (r: Option<(String, String)>)
    ensures
        pair_view(r) == config_owner_repo_spec(content@),
{
    match origin_url_from_git_config(content) {
        Some(url) => {
            let t = string_of(&trim_chars(&chars_of(url.as_str())));
            parse_github_owner_repo(t.as_str())
        },
        None => None,
    }
}

/// An owner/repo pair read from a URL is always two safe path segments,
/// never empty and never containing a `/`, so it can be put into an API
/// path as is.
pub proof fn law_parsed_owner_repo_is_safe(url: Seq<char>)
    ensures
        owner_repo_spec(url) matches Some((owner, repo)) ==> valid_segment(owner) && valid_segment(
            repo,
        ) && owner.len() > 0 && repo.len() > 0 && !owner.contains('/') && !repo.contains('/'),
{
    match owner_repo_spec(url) {
        Some((owner, repo)) => {
            if owner.contains('/') {
                let j = choose|j: int| 0 <= j < owner.len() && owner[j] == '/';
                assert(is_segment_char(owner[j]));
            }
            if repo.contains('/') {
                let j = choose|j: int| 0 <= j < repo.len() && repo[j] == '/';
                assert(is_segment_char(repo[j]));
            }
        },
        None => {},
    }
}

/// The token sources are tried in the order `GH_TOKEN`, `GITHUB_TOKEN`,
/// `gh auth token`, hosts file: a source that gave nothing, or only blanks,
/// leads to the next one; a source that gave a non-blank value yields that
/// value, trimmed; the hosts file, last, yields its `github.com` token or
/// ends the search.
pub proof fn law_token_sources_in_order(source: TokenSource, v: Seq<char>)
    ensures
        token_step_spec(TokenSource::GhTokenEnv, None) == TokenStepView::TryNext(
            TokenSource::GithubTokenEnv,
        ),
        token_step_spec(TokenSource::GithubTokenEnv, None) == TokenStepView::TryNext(
            TokenSource::GhCli,
        ),
        token_step_spec(TokenSource::GhCli, None) == TokenStepView::TryNext(TokenSource::HostsFile),
        token_step_spec(TokenSource::HostsFile, None) == TokenStepView::NotFound,
        source != TokenSource::HostsFile && text::trim(v).len() > 0 ==> token_step_spec(
            source,
            Some(v),
        ) == TokenStepView::Found(text::trim(v)),
        source != TokenSource::HostsFile && text::trim(v).len() == 0 ==> token_step_spec(
            source,
            Some(v),
        ) == token_step_spec(source, None),
        token_step_spec(TokenSource::HostsFile, Some(v)) == match github_token_spec(v) {
            Some(t) => TokenStepView::Found(t),
            None => TokenStepView::NotFound,
        },
{
}

} // verus!
