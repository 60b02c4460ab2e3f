//! Argument parsing for the `herdr tab` commands.
use vstd::prelude::*;

use crate::assoc::{self, assoc_insert};
use crate::text::{self, chars_of, eq_lit, find_char_exec, push_str, slice_chars, string_of};

verus! {

/// Parameters of `herdr tab create`.
#[derive(Debug, Clone, PartialEq, Eq)]
pub struct TabCreateParams {
    pub command: Option<Vec<String>>,
    pub workspace_id: Option<String>,
    pub cwd: Option<String>,
    pub focus: bool,
    pub label: Option<String>,
    /// Environment assignments; a key appears at most once in effect
    /// (a later assignment of the same key replaces the earlier one).
    pub env: Vec<(String, String)>,
}

pub open spec fn env_view(env: Seq<(String, String)>) -> Map<Seq<char>, Seq<char>> {
    assoc::assoc_view(env, |v: String| v@)
}

pub open spec fn opt_view(v: Option<String>) -> Option<Seq<char>> {
    match v {
        Some(s) => Some(s@),
        None => None,
    }
}

pub open spec fn opt_list_view(v: Option<Vec<String>>) -> Option<Seq<Seq<char>>> {
    match v {
        Some(l) => Some(text::string_views(l@)),
        None => None,
    }
}

pub struct TabCreateParamsView {
    pub command: Option<Seq<Seq<char>>>,
    pub workspace_id: Option<Seq<char>>,
    pub cwd: Option<Seq<char>>,
    pub focus: bool,
    pub label: Option<Seq<char>>,
    pub env: Map<Seq<char>, Seq<char>>,
}

impl View for TabCreateParams {
    type V = TabCreateParamsView;

    open spec fn view(&self) -> TabCreateParamsView {
        TabCreateParamsView {
            command: opt_list_view(self.command),
            workspace_id: opt_view(self.workspace_id),
            cwd: opt_view(self.cwd),
            focus: self.focus,
            label: opt_view(self.label),
            env: env_view(self.env@),
        }
    }
}

pub open spec fn is_tab_create_option_spec(a: Seq<char>) -> bool {
    ||| a == "--workspace"@
    ||| a == "--cwd"@
    ||| a == "--label"@
    ||| a == "--focus"@
    ||| a == "--no-focus"@
    ||| a == "--env"@
    ||| a == "--argv"@
    ||| a == "--command"@
}

/// True for the option names `tab create` understands.
pub fn is_tab_create_option(arg: &str) -> (r: bool)
    ensures
        r == is_tab_create_option_spec(arg@),
{
    let a = chars_of(arg);
    eq_lit(&a, "--workspace") || eq_lit(&a, "--cwd") || eq_lit(&a, "--label") || eq_lit(
        &a,
        "--focus",
    ) || eq_lit(&a, "--no-focus") || eq_lit(&a, "--env") || eq_lit(&a, "--argv") || eq_lit(
        &a,
        "--command",
    )
}

pub open spec fn env_error(value: Seq<char>) -> Seq<char> {
    "invalid --env value (expected KEY=VALUE): "@ + value
}

/// `KEY=VALUE`: split at the first `=`; the key must not be empty.
pub open spec fn env_assignment_spec(value: Seq<char>) -> Result<(Seq<char>, Seq<char>), Seq<char>> {
    match text::split_once(value, '=') {
        Some(parts) => if parts.0.len() == 0 {
            Err(env_error(value))
        } else {
            Ok(parts)
        },
        None => Err(env_error(value)),
    }
}

/// Split an `--env` value into key and value.
pub fn parse_env_assignment(value: &str) -> (r: Result<(String, String), String>)
    ensures
        r matches Ok(kv) ==> env_assignment_spec(value@) == Ok::<(Seq<char>, Seq<char>), Seq<char>>(
            (kv.0@, kv.1@),
        ),
        r matches Err(e) ==> env_assignment_spec(value@) == Err::<(Seq<char>, Seq<char>), Seq<char>>(
            e@,
        ),
{
    let v = chars_of(value);
    match find_char_exec(&v, '=') {
        Some(k) => {
            if k == 0 {
                let mut m = chars_of("invalid --env value (expected KEY=VALUE): ");
                text::push_all(&mut m, &v);
                return Err(string_of(&m));
            }
            let key = slice_chars(&v, 0, k);
            let val = slice_chars(&v, k + 1, v.len());
            Ok((string_of(&key), string_of(&val)))
        },
        None => {
            let mut m = chars_of("invalid --env value (expected KEY=VALUE): ");
            text::push_all(&mut m, &v);
            Err(string_of(&m))
        },
    }
}

/// Index of the first `--` argument, or the number of arguments.
pub open spec fn separator_from(args: Seq<Seq<char>>, i: int) -> int
    decreases args.len() - i,
{
    if i < 0 || i >= args.len() {
        args.len() as int
    } else if args[i] == "--"@ {
        i
    } else {
        separator_from(args, i + 1)
    }
}

/// End of the words of an `--argv` command starting at `j`: the next known
/// `--` option or the separator.
pub open spec fn argv_end(args: Seq<Seq<char>>, sep: int, j: int) -> int
    decreases sep - j,
{
    if j < 0 || j >= sep || j >= args.len() {
        j
    } else if text::starts_with(args[j], "--"@) && is_tab_create_option_spec(args[j]) {
        j
    } else {
        argv_end(args, sep, j + 1)
    }
}

pub open spec fn finish_spec(args: Seq<Seq<char>>, sep: int, st: TabCreateParamsView) -> Result<
    TabCreateParamsView,
    Seq<char>,
> {
    if sep < args.len() {
        if st.command is Some {
            Err("cannot combine --argv with '--' command separator"@)
        } else if sep + 1 >= args.len() {
            Err("missing command after --"@)
        } else {
            Ok(TabCreateParamsView { command: Some(args.subrange(sep + 1, args.len() as int)), ..st })
        }
    } else {
        Ok(st)
    }
}

/// Options are read left to right up to the separator; an option that takes
/// a value takes the next argument whatever it is.
pub open spec fn parse_opts_spec(
    args: Seq<Seq<char>>,
    sep: int,
    i: int,
    st: TabCreateParamsView,
) -> Result<TabCreateParamsView, Seq<char>>
    decreases args.len() - i,
{
    if i < 0 || i >= sep || i >= args.len() {
        finish_spec(args, sep, st)
    } else {
        let a = args[i];
        if a == "--workspace"@ {
            if i + 1 >= args.len() {
                Err("missing value for --workspace"@)
            } else {
                parse_opts_spec(
                    args,
                    sep,
                    i + 2,
                    TabCreateParamsView { workspace_id: Some(args[i + 1]), ..st },
                )
            }
        } else if a == "--cwd"@ {
            if i + 1 >= args.len() {
                Err("missing value for --cwd"@)
            } else {
                parse_opts_spec(args, sep, i + 2, TabCreateParamsView { cwd: Some(args[i + 1]), ..st })
            }
        } else if a == "--label"@ {
            if i + 1 >= args.len() {
                Err("missing value for --label"@)
            } else {
                parse_opts_spec(
                    args,
                    sep,
                    i + 2,
                    TabCreateParamsView { label: Some(args[i + 1]), ..st },
                )
            }
        } else if a == "--focus"@ {
            parse_opts_spec(args, sep, i + 1, TabCreateParamsView { focus: true, ..st })
        } else if a == "--no-focus"@ {
            parse_opts_spec(args, sep, i + 1, TabCreateParamsView { focus: false, ..st })
        } else if a == "--env"@ {
            if i + 1 >= args.len() {
                Err("missing value for --env"@)
            } else {
                match env_assignment_spec(args[i + 1]) {
                    Err(e) => Err(e),
                    Ok(kv) => parse_opts_spec(
                        args,
                        sep,
                        i + 2,
                        TabCreateParamsView { env: st.env.insert(kv.0, kv.1), ..st },
                    ),
                }
            }
        } else if a == "--argv"@ || a == "--command"@ {
            if st.command is Some {
                Err("command specified more than once"@)
            } else {
                let e = argv_end(args, sep, i + 1);
                proof {
                    lemma_argv_end_le_len(args, sep, i + 1);
                }
                if e <= i + 1 {
                    Err("missing value for --argv"@)
                } else {
                    parse_opts_spec(
                        args,
                        sep,
                        e,
                        TabCreateParamsView { command: Some(args.subrange(i + 1, e)), ..st },
                    )
                }
            }
        } else {
            Err("unknown option: "@ + a)
        }
    }
}

pub open spec fn initial_params() -> TabCreateParamsView {
    TabCreateParamsView {
        command: None,
        workspace_id: None,
        cwd: None,
        focus: false,
        label: None,
        env: Map::empty(),
    }
}

pub open spec fn parse_tab_create_spec(args: Seq<Seq<char>>) -> Result<
    TabCreateParamsView,
    Seq<char>,
> {
    parse_opts_spec(args, separator_from(args, 0), 0, initial_params())
}

pub open spec fn params_result_view(r: Result<TabCreateParams, String>) -> Result<
    TabCreateParamsView,
    Seq<char>,
> {
    match r {
        Ok(p) => Ok(p@),
        Err(e) => Err(e@),
    }
}

pub proof fn lemma_argv_end_le_len(args: Seq<Seq<char>>, sep: int, j: int)
    requires
        0 <= j <= args.len(),
    ensures
        argv_end(args, sep, j) <= args.len(),
    decreases sep - j,
{
    if j < sep && j < args.len() {
        if !(text::starts_with(args[j], "--"@) && is_tab_create_option_spec(args[j])) {
            lemma_argv_end_le_len(args, sep, j + 1);
        }
    }
}

proof fn lemma_argv_end_bounds(args: Seq<Seq<char>>, sep: int, j: int)
    requires
        0 <= j,
        sep <= args.len(),
    ensures
        j <= argv_end(args, sep, j),
        j <= sep ==> argv_end(args, sep, j) <= sep,
    decreases sep - j,
{
    if j < sep && j < args.len() {
        if !(text::starts_with(args[j], "--"@) && is_tab_create_option_spec(args[j])) {
            lemma_argv_end_bounds(args, sep, j + 1);
        }
    }
}

fn copy_strings(args: &Vec<String>, a: usize, b: usize) -> (r: Vec<String>)
    requires
        a <= b <= args.len(),
    ensures
        text::string_views(r@) == text::string_views(args@).subrange(a as int, b as int),
{
    let mut r: Vec<String> = Vec::new();
    let mut i: usize = a;
    while i < b
        invariant
            a <= i <= b <= args.len(),
            text::string_views(r@) == text::string_views(args@).subrange(a as int, i as int),
        decreases b - i,
    {
        let c = args[i].clone();
        assert(c@ == args@[i as int]@);
        let ghost old_r = r@;
        r.push(c);
        assert(text::string_views(r@) =~= text::string_views(old_r).push(c@));
        i += 1;
        assert(text::string_views(r@) =~= text::string_views(args@).subrange(a as int, i as int));
    }
    r
}

fn separator_index(args: &Vec<String>) -> (r: usize)
    ensures
        r == separator_from(text::string_views(args@), 0),
        r <= args.len(),
{
    let ghost sv = text::string_views(args@);
    let mut i: usize = 0;
    while i < args.len()
        invariant
            i <= args.len(),
            sv == text::string_views(args@),
            separator_from(sv, 0) == separator_from(sv, i as int),
        decreases args.len() - i,
    {
        let a = chars_of(args[i].as_str());
        if eq_lit(&a, "--") {
            return i;
        }
        i += 1;
    }
    i
}

fn argv_end_exec(args: &Vec<String>, sep: usize, j: usize) -> (r: usize)
    requires
        j <= sep <= args.len(),
    ensures
        r == argv_end(text::string_views(args@), sep as int, j as int),
        j <= r <= sep,
{
    let ghost sv = text::string_views(args@);
    let dd = chars_of("--");
    let mut k: usize = j;
    while k < sep
        invariant
            j <= k <= sep <= args.len(),
            sv == text::string_views(args@),
            dd@ == "--"@,
            argv_end(sv, sep as int, j as int) == argv_end(sv, sep as int, k as int),
        decreases sep - k,
    {
        let a = chars_of(args[k].as_str());
        if text::starts_with_exec(&a, &dd) && is_tab_create_option(args[k].as_str()) {
            return k;
        }
        k += 1;
    }
    k
}

/// Parse the arguments of `herdr tab create`.
pub fn parse_tab_create_args(args: &Vec<String>) -> (r: Result<TabCreateParams, String>)
    ensures
        params_result_view(r) == parse_tab_create_spec(text::string_views(args@)),
{
    let ghost sv = text::string_views(args@);
    let sep = separator_index(args);
    let mut params = TabCreateParams {
        command: None,
        workspace_id: None,
        cwd: None,
        focus: false,
        label: None,
        env: Vec::new(),
    };
    assert(params@ == initial_params()) by {
        assert(env_view(params.env@) =~= Map::<Seq<char>, Seq<char>>::empty());
    }
    let mut index: usize = 0;
    while index < sep
        invariant
            sep <= args.len(),
            sv == text::string_views(args@),
            sep == separator_from(sv, 0),
            parse_tab_create_spec(sv) == parse_opts_spec(sv, sep as int, index as int, params@),
        decreases args.len() - index,
    {
        let a = chars_of(args[index].as_str());
        assert(a@ == sv[index as int]);
        if eq_lit(&a, "--workspace") {
            if index + 1 >= args.len() {
                return Err(string_of(&chars_of("missing value for --workspace")));
            }
            params.workspace_id = Some(args[index + 1].clone());
            index += 2;
        } else if eq_lit(&a, "--cwd") {
            if index + 1 >= args.len() {
                return Err(string_of(&chars_of("missing value for --cwd")));
            }
            params.cwd = Some(args[index + 1].clone());
            index += 2;
        } else if eq_lit(&a, "--label") {
            if index + 1 >= args.len() {
                return Err(string_of(&chars_of("missing value for --label")));
            }
            params.label = Some(args[index + 1].clone());
            index += 2;
        } else if eq_lit(&a, "--focus") {
            params.focus = true;
            index += 1;
        } else if eq_lit(&a, "--no-focus") {
            params.focus = false;
            index += 1;
        } else if eq_lit(&a, "--env") {
            if index + 1 >= args.len() {
                return Err(string_of(&chars_of("missing value for --env")));
            }
            match parse_env_assignment(args[index + 1].as_str()) {
                Err(e) => {
                    return Err(e);
                },
                Ok(kv) => {
                    let (k, v) = kv;
                    assoc_insert::<String, Seq<char>>(&mut params.env, k, v, Ghost(|v: String| v@));
                },
            }
            index += 2;
        } else if eq_lit(&a, "--argv") || eq_lit(&a, "--command") {
            if params.command.is_some() {
                return Err(string_of(&chars_of("command specified more than once")));
            }
            let e = argv_end_exec(args, sep, index + 1);
            if e <= index + 1 {
                return Err(string_of(&chars_of("missing value for --argv")));
            }
            params.command = Some(copy_strings(args, index + 1, e));
            index = e;
        } else {
            let mut m = chars_of("unknown option: ");
            text::push_all(&mut m, &a);
            return Err(string_of(&m));
        }
    }
    if sep < args.len() {
        if params.command.is_some() {
            return Err(string_of(&chars_of("cannot combine --argv with '--' command separator")));
        }
        if sep + 1 >= args.len() {
            return Err(string_of(&chars_of("missing command after --")));
        }
        params.command = Some(copy_strings(args, sep + 1, args.len()));
    }
    Ok(params)
}

/// The `herdr tab` subcommand named by the first argument.
#[derive(Debug, Clone, Copy, PartialEq, Eq)]
pub enum TabSubcommand {
    /// No subcommand: print help, exit 2.
    Missing,
    /// `help`, `--help`, `-h`: print help, exit 0.
    Help,
    /// Anything else unknown: print help, exit 2.
    Unknown,
    List,
    Create,
    Get,
    Focus,
    Rename,
    Close,
}

pub open spec fn tab_subcommand_spec(first: Option<Seq<char>>) -> TabSubcommand {
    match first {
        None => TabSubcommand::Missing,
        Some(a) => if a == "list"@ {
            TabSubcommand::List
        } else if a == "create"@ {
            TabSubcommand::Create
        } else if a == "get"@ {
            TabSubcommand::Get
        } else if a == "focus"@ {
            TabSubcommand::Focus
        } else if a == "rename"@ {
            TabSubcommand::Rename
        } else if a == "close"@ {
            TabSubcommand::Close
        } else if a == "help"@ || a == "--help"@ || a == "-h"@ {
            TabSubcommand::Help
        } else {
            TabSubcommand::Unknown
        },
    }
}

/// Which `herdr tab` subcommand the arguments ask for.
pub fn tab_subcommand(args: &Vec<String>) -> (r: TabSubcommand)
    ensures
        r == tab_subcommand_spec(if args.len() == 0 {
            None
        } else {
            Some(args@[0]@)
        }),
{
    if args.len() == 0 {
        return TabSubcommand::Missing;
    }
    let a = chars_of(args[0].as_str());
    if eq_lit(&a, "list") {
        TabSubcommand::List
    } else if eq_lit(&a, "create") {
        TabSubcommand::Create
    } else if eq_lit(&a, "get") {
        TabSubcommand::Get
    } else if eq_lit(&a, "focus") {
        TabSubcommand::Focus
    } else if eq_lit(&a, "rename") {
        TabSubcommand::Rename
    } else if eq_lit(&a, "close") {
        TabSubcommand::Close
    } else if eq_lit(&a, "help") || eq_lit(&a, "--help") || eq_lit(&a, "-h") {
        TabSubcommand::Help
    } else {
        TabSubcommand::Unknown
    }
}

/// `tab list [--workspace ID]`: the last `--workspace` wins; a missing value
/// or any other argument is an error.
pub open spec fn tab_list_spec(args: Seq<Seq<char>>, i: int, ws: Option<Seq<char>>) -> Result<
    Option<Seq<char>>,
    Seq<char>,
>
    decreases args.len() - i,
{
    if i < 0 || i >= args.len() {
        Ok(ws)
    } else if args[i] == "--workspace"@ {
        if i + 1 >= args.len() {
            Err("missing value for --workspace"@)
        } else {
            tab_list_spec(args, i + 2, Some(args[i + 1]))
        }
    } else {
        Err("unknown option: "@ + args[i])
    }
}

pub open spec fn opt_result_view(r: Result<Option<String>, String>) -> Result<
    Option<Seq<char>>,
    Seq<char>,
> {
    match r {
        Ok(v) => Ok(opt_view(v)),
        Err(e) => Err(e@),
    }
}

/// Parse the arguments of `herdr tab list` into the workspace filter.
pub fn parse_tab_list_args(args: &Vec<String>) -> (r: Result<Option<String>, String>)
    ensures
        opt_result_view(r) == tab_list_spec(text::string_views(args@), 0, None),
{
    let ghost sv = text::string_views(args@);
    let mut ws: Option<String> = None;
    let mut i: usize = 0;
    while i < args.len()
        invariant
            i <= args.len(),
            sv == text::string_views(args@),
            tab_list_spec(sv, 0, None) == tab_list_spec(sv, i as int, opt_view(ws)),
        decreases args.len() - i,
    {
        let a = chars_of(args[i].as_str());
        assert(a@ == sv[i as int]);
        if eq_lit(&a, "--workspace") {
            if i + 1 >= args.len() {
                return Err(string_of(&chars_of("missing value for --workspace")));
            }
            ws = Some(args[i + 1].clone());
            i += 2;
        } else {
            let mut m = chars_of("unknown option: ");
            text::push_all(&mut m, &a);
            return Err(string_of(&m));
        }
    }
    Ok(ws)
}

/// `tab get|focus|close <tab_id>`: exactly one argument, the tab id.
pub fn single_tab_id(args: &Vec<String>) -> (r: Option<String>)
    ensures
        args.len() == 1 ==> opt_view(r) == Some(args@[0]@),
        args.len() != 1 ==> r is None,
{
    if args.len() != 1 {
        return None;
    }
    Some(args[0].clone())
}

/// Words joined with single spaces (`[String]::join(" ")`).
pub open spec fn join_words(words: Seq<Seq<char>>) -> Seq<char>
    decreases words.len(),
{
    if words.len() == 0 {
        Seq::empty()
    } else if words.len() == 1 {
        words[0]
    } else {
        join_words(words.drop_last()) + " "@ + words.last()
    }
}

/// `tab rename <tab_id> <label...>`: the id and the label words joined by
/// spaces; fewer than two arguments is a usage error.
pub fn tab_rename_args(args: &Vec<String>) -> (r: Option<(String, String)>)
    ensures
        args.len() < 2 ==> r is None,
        args.len() >= 2 ==> (r matches Some(p) && p.0@ == args@[0]@ && p.1@ == join_words(
            text::string_views(args@).subrange(1, args.len() as int),
        )),
{
    if args.len() < 2 {
        return None;
    }
    let ghost sv = text::string_views(args@);
    let mut label = chars_of(args[1].as_str());
    let mut i: usize = 2;
    assert(sv.subrange(1, 2) =~= seq![sv[1]]);
    while i < args.len()
        invariant
            2 <= i <= args.len(),
            sv == text::string_views(args@),
            label@ == join_words(sv.subrange(1, i as int)),
        decreases args.len() - i,
    {
        push_str(&mut label, " ");
        let w = chars_of(args[i].as_str());
        text::push_all(&mut label, &w);
        assert(sv.subrange(1, i + 1).drop_last() =~= sv.subrange(1, i as int));
        i += 1;
    }
    Some((args[0].clone(), string_of(&label)))
}

} // verus!
