//! Argument handling and URL normalization for `herdr browser`.
use vstd::prelude::*;

use crate::text::{
    self, chars_of, eq_lit, find_char_exec, find_exec, lower_chars, push_all, push_str,
    slice_chars, string_of, trim_chars,
};

verus! {

pub open spec fn unsupported_scheme_message(scheme: Seq<char>) -> Seq<char> {
    "unsupported URL scheme: "@ + scheme + " (only http and https are allowed)"@
}

/// Accept `http`/`https` with a non-empty remainder.
pub open spec fn check_scheme(scheme: Seq<char>, rest: Seq<char>) -> Result<Seq<char>, Seq<char>> {
    if scheme == "http"@ || scheme == "https"@ {
        if rest.len() == 0 {
            Err("URL must include a host"@)
        } else {
            Ok(scheme + "://"@ + rest)
        }
    } else {
        Err(unsupported_scheme_message(scheme))
    }
}

/// A browser URL is trimmed; an explicit scheme (before the first `://`)
/// is lower-cased and must be `http` or `https`; text with a `:` but no
/// `://` (and not starting with `[`) names an unsupported scheme; anything
/// else gets `http://` in front.
pub open spec fn normalize_url_spec(raw: Seq<char>) -> Result<Seq<char>, Seq<char>> {
    let t = text::trim(raw);
    if t.len() == 0 {
        Err("URL must not be empty"@)
    } else {
        match text::find(t, "://"@) {
            Some(i) => check_scheme(
                text::lower_seq(t.subrange(0, i)),
                t.subrange(i + 3, t.len() as int),
            ),
            None => if text::contains_char(t, ':') && t[0] != '[' {
                match text::split_once(t, ':') {
                    Some(parts) => Err(unsupported_scheme_message(text::lower_seq(parts.0))),
                    None => Err(unsupported_scheme_message(Seq::empty())),
                }
            } else {
                check_scheme("http"@, t)
            },
        }
    }
}

pub open spec fn result_view(r: Result<String, String>) -> Result<Seq<char>, Seq<char>> {
    match r {
        Ok(s) => Ok(s@),
        Err(e) => Err(e@),
    }
}

fn check_scheme_exec(scheme: Vec<char>, rest: Vec<char>) -> (r: Result<String, String>)
    ensures
        result_view(r) == check_scheme(scheme@, rest@),
{
    if eq_lit(&scheme, "http") || eq_lit(&scheme, "https") {
        if rest.len() == 0 {
            Err(string_of(&chars_of("URL must include a host")))
        } else {
            let mut out = scheme;
            push_str(&mut out, "://");
            push_all(&mut out, &rest);
            Ok(string_of(&out))
        }
    } else {
        Err(unsupported_scheme_exec(&scheme))
    }
}

fn unsupported_scheme_exec(scheme: &Vec<char>) -> (r: String)
    ensures
        r@ == unsupported_scheme_message(scheme@),
{
    let mut out = chars_of("unsupported URL scheme: ");
    push_all(&mut out, scheme);
    push_str(&mut out, " (only http and https are allowed)");
    string_of(&out)
}

/// Normalize a URL given to `herdr browser`.
pub fn normalize_browser_url(raw: &str) -> (r: Result<String, String>)
    ensures
        result_view(r) == normalize_url_spec(raw@),
{
    let t = trim_chars(&chars_of(raw));
    if t.len() == 0 {
        return Err(string_of(&chars_of("URL must not be empty")));
    }
    let sep = chars_of("://");
    match find_exec(&t, &sep) {
        Some(i) => {
            proof {
                reveal_strlit("://");
                text::lemma_find_from_bounds(t@, sep@, 0);
            }
            let scheme = lower_chars(&slice_chars(&t, 0, i));
            let rest = slice_chars(&t, i + 3, t.len());
            check_scheme_exec(scheme, rest)
        },
        None => {
            match find_char_exec(&t, ':') {
                Some(k) => {
                    if t[0] != '[' {
                        let scheme = lower_chars(&slice_chars(&t, 0, k));
                        Err(unsupported_scheme_exec(&scheme))
                    } else {
                        check_scheme_exec(chars_of("http"), t)
                    }
                },
                None => check_scheme_exec(chars_of("http"), t),
            }
        },
    }
}

/// What `herdr browser <args>` is asked to do.
pub enum BrowserCommand {
    /// `--help` / `-h`: print usage, exit 0.
    Help,
    /// An option that is not known: report it, print usage, exit 2.
    UnknownOption(String),
    /// A second positional argument: report it, exit 2.
    ExtraArgument(String),
    /// No URL given: report it, print usage, exit 2.
    MissingUrl,
    /// The URL was rejected with this message: exit 1.
    InvalidUrl(String),
    /// Render this normalized URL, waiting for Enter afterwards if asked.
    Render { url: String, wait: bool },
}

pub enum BrowserCommandView {
    Help,
    UnknownOption(Seq<char>),
    ExtraArgument(Seq<char>),
    MissingUrl,
    InvalidUrl(Seq<char>),
    Render(Seq<char>, bool),
}

impl View for BrowserCommand {
    type V = BrowserCommandView;

    open spec fn view(&self) -> BrowserCommandView {
        match self {
            BrowserCommand::Help => BrowserCommandView::Help,
            BrowserCommand::UnknownOption(s) => BrowserCommandView::UnknownOption(s@),
            BrowserCommand::ExtraArgument(s) => BrowserCommandView::ExtraArgument(s@),
            BrowserCommand::MissingUrl => BrowserCommandView::MissingUrl,
            BrowserCommand::InvalidUrl(s) => BrowserCommandView::InvalidUrl(s@),
            BrowserCommand::Render { url, wait } => BrowserCommandView::Render(url@, *wait),
        }
    }
}

/// Arguments are read left to right: `--wait` sets waiting, `--help`/`-h`
/// stops with help, any other `-` argument is unknown, the first positional
/// argument is the URL and a second one is an error.
pub open spec fn browser_args_spec(
    args: Seq<Seq<char>>,
    i: int,
    wait: bool,
    url: Option<Seq<char>>,
) -> BrowserCommandView
    decreases args.len() - i,
{
    if i < 0 || i >= args.len() {
        match url {
            None => BrowserCommandView::MissingUrl,
            Some(u) => match normalize_url_spec(u) {
                Ok(n) => BrowserCommandView::Render(n, wait),
                Err(e) => BrowserCommandView::InvalidUrl(e),
            },
        }
    } else {
        let a = args[i];
        if a == "--wait"@ {
            browser_args_spec(args, i + 1, true, url)
        } else if a == "--help"@ || a == "-h"@ {
            BrowserCommandView::Help
        } else if text::starts_with(a, seq!['-']) {
            BrowserCommandView::UnknownOption(a)
        } else if url is Some {
            BrowserCommandView::ExtraArgument(a)
        } else {
            browser_args_spec(args, i + 1, wait, Some(a))
        }
    }
}

/// Decide what `herdr browser` does with its arguments.
pub fn browser_command(args: &Vec<String>) -> (r: BrowserCommand)
    ensures
        r@ == browser_args_spec(text::string_views(args@), 0, false, None),
{
    let ghost sargs = text::string_views(args@);
    let mut wait = false;
    let mut url: Option<Vec<char>> = None;
    let mut i: usize = 0;
    while i < args.len()
        invariant
            i <= args.len(),
            sargs == text::string_views(args@),
            browser_args_spec(sargs, 0, false, None) == browser_args_spec(
                sargs,
                i as int,
                wait,
                match url {
                    Some(u) => Some(u@),
                    None => None,
                },
            ),
        decreases args.len() - i,
    {
        let a = chars_of(args[i].as_str());
        assert(a@ == sargs[i as int]);
        if eq_lit(&a, "--wait") {
            wait = true;
            i += 1;
        } else if eq_lit(&a, "--help") || eq_lit(&a, "-h") {
            return BrowserCommand::Help;
        } else if a.len() > 0 && a[0] == '-' {
            assert(text::starts_with(a@, seq!['-'])) by {
                assert(a@.subrange(0, 1) =~= seq!['-']);
            }
            return BrowserCommand::UnknownOption(string_of(&a));
        } else {
            assert(!text::starts_with(a@, seq!['-'])) by {
                if a@.len() > 0 {
                    assert(a@.subrange(0, 1)[0] == a@[0]);
                }
            }
            if url.is_some() {
                return BrowserCommand::ExtraArgument(string_of(&a));
            }
            url = Some(a);
            i += 1;
        }
    }
    match url {
        None => BrowserCommand::MissingUrl,
        Some(u) => {
            let s = string_of(&u);
            match normalize_browser_url(s.as_str()) {
                Ok(n) => BrowserCommand::Render { url: n, wait },
                Err(e) => BrowserCommand::InvalidUrl(e),
            }
        },
    }
}

proof fn lemma_scheme_url(scheme: Seq<char>, rest: Seq<char>)
    requires
        scheme == "http"@ || scheme == "https"@,
        rest.len() > 0,
        !text::is_ws(rest.last()),
    ensures
        normalize_url_spec(scheme + "://"@ + rest) == Ok::<Seq<char>, Seq<char>>(scheme + "://"@ + rest),
{
    reveal_strlit("http");
    reveal_strlit("https");
    reveal_strlit("://");
    let n = scheme + "://"@ + rest;
    let k = scheme.len() as int;
    assert(n[0] == 'h');
    assert(n.last() == rest.last());
    text::lemma_trim_fixed(n);
    assert(n.subrange(k, k + 3) =~= "://"@);
    assert forall|j: int| 0 <= j < k implies !text::occurs_at(n, "://"@, j) by {
        assert(n[j] == scheme[j]);
        if text::occurs_at(n, "://"@, j) {
            assert(n.subrange(j, j + 3)[0] == ':');
        }
    }
    text::lemma_find_first(n, "://"@, k);
    assert(n.subrange(0, k) =~= scheme);
    assert(text::lower_seq(scheme) =~= scheme);
    assert(n.subrange(k + 3, n.len() as int) =~= rest);
}

/// Normalizing a normalized URL changes nothing.
pub proof fn law_normalize_idempotent(raw: Seq<char>)
    ensures
        normalize_url_spec(raw) matches Ok(n) ==> normalize_url_spec(n) == Ok::<Seq<char>, Seq<char>>(n),
{
    reveal_strlit("://");
    let t = text::trim(raw);
    text::lemma_trim_shape(raw);
    if t.len() > 0 {
        match text::find(t, "://"@) {
            Some(i) => {
                text::lemma_find_from_bounds(t, "://"@, 0);
                let scheme = text::lower_seq(t.subrange(0, i));
                let rest = t.subrange(i + 3, t.len() as int);
                if (scheme == "http"@ || scheme == "https"@) && rest.len() > 0 {
                    assert(rest.last() == t.last());
                    lemma_scheme_url(scheme, rest);
                }
            },
            None => {
                if !(text::contains_char(t, ':') && t[0] != '[') {
                    lemma_scheme_url("http"@, t);
                }
            },
        }
    }
}

/// A browser URL is accepted exactly when, once trimmed, it is not empty,
/// its scheme (the text before the first `://`, lower-cased) is `http` or
/// `https` with something after `://`, or it has no `://` and no `:` (or
/// starts with `[`); every accepted URL starts with `http://` or `https://`
/// followed by at least one character.
pub proof fn law_normalized_url_shape(raw: Seq<char>)
    ensures
        normalize_url_spec(raw) matches Ok(u) ==> (text::starts_with(u, "http://"@) && u.len() > 7)
            || (text::starts_with(u, "https://"@) && u.len() > 8),
        normalize_url_spec(raw) is Err <==> {
            let t = text::trim(raw);
            ||| t.len() == 0
            ||| text::find(t, "://"@) matches Some(i) && (!(text::lower_seq(t.subrange(0, i))
                == "http"@ || text::lower_seq(t.subrange(0, i)) == "https"@) || i + 3 == t.len())
            ||| text::find(t, "://"@) is None && text::contains_char(t, ':') && t[0] != '['
        },
{
    reveal_strlit("http");
    reveal_strlit("https");
    reveal_strlit("://");
    reveal_strlit("http://");
    reveal_strlit("https://");
    let t = text::trim(raw);
    if t.len() > 0 {
        match text::find(t, "://"@) {
            Some(i) => {
                text::lemma_find_from_bounds(t, "://"@, 0);
                let scheme = text::lower_seq(t.subrange(0, i));
                let rest = t.subrange(i + 3, t.len() as int);
                if scheme == "http"@ && rest.len() > 0 {
                    let u = scheme + "://"@ + rest;
                    assert(u.subrange(0, 7) =~= "http://"@);
                } else if scheme == "https"@ && rest.len() > 0 {
                    let u = scheme + "://"@ + rest;
                    assert(u.subrange(0, 8) =~= "https://"@);
                }
            },
            None => {
                if !(text::contains_char(t, ':') && t[0] != '[') {
                    let u = "http"@ + "://"@ + t;
                    assert(u.subrange(0, 7) =~= "http://"@);
                }
            },
        }
    }
}

} // verus!
