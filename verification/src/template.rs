//! Workspace templates: where a template file is found, what makes a
//! template valid, and how each tab's panes are split.
use vstd::prelude::*;

use crate::text::{dec, starts_with};

verus! {

/// Settings of the workspace a template creates.
#[derive(Debug, Clone)]
pub struct TemplateWorkspace {
    pub label: Option<String>,
    pub cwd: Option<String>,
    pub focus: Option<bool>,
}

/// One pane of a template tab (its split ratio is kept by the caller).
#[derive(Debug, Clone)]
pub struct TemplatePane {
    pub split: Option<String>,
    pub label: Option<String>,
    pub cwd: Option<String>,
    pub command: Option<Vec<String>>,
    pub env: Option<Vec<(String, String)>>,
}

/// One tab of a template.
#[derive(Debug, Clone)]
pub struct TemplateTab {
    pub label: Option<String>,
    pub focus: Option<bool>,
    pub panes: Vec<TemplatePane>,
}

/// A workspace template.
#[derive(Debug, Clone)]
pub struct WorkspaceTemplate {
    pub name: String,
    pub description: Option<String>,
    pub version: Option<u32>,
    pub workspace: TemplateWorkspace,
    pub tabs: Vec<TemplateTab>,
}

/// Most panes a template tab may have.
pub const MAX_TEMPLATE_PANES: usize = 24;

/// The first problem with a template's tabs, checked tab by tab from `i`.
pub open spec fn tab_problem(tabs: Seq<TemplateTab>, i: int) -> Option<Seq<char>>
    decreases tabs.len() - i,
{
    if i < 0 || i >= tabs.len() {
        None
    } else if tabs[i].panes.len() == 0 {
        Some("tab "@ + dec(i as nat) + " must have at least one pane"@)
    } else if tabs[i].panes.len() > 24 {
        Some("tab "@ + dec(i as nat) + " has too many panes (max 24)"@)
    } else if tabs[i].panes@[0].split is Some {
        Some("tab "@ + dec(i as nat) + " first pane must not have a split"@)
    } else {
        tab_problem(tabs, i + 1)
    }
}

/// Why a template is invalid, if it is: it has no tab, or some tab has no
/// pane, more than 24 panes, or a split on its first pane.
pub open spec fn template_problem(t: WorkspaceTemplate) -> Option<Seq<char>> {
    if t.tabs.len() == 0 {
        Some("template must have at least one tab"@)
    } else {
        tab_problem(t.tabs@, 0)
    }
}

fn tab_message(i: usize, rest: &str) -> (r: String)
    ensures
        r@ == "tab "@ + dec(i as nat) + rest@,
{
    let mut out = crate::text::chars_of("tab ");
    crate::text::push_dec(&mut out, i as u64);
    crate::text::push_str(&mut out, rest);
    crate::text::string_of(&out)
}

/// Checks a template: `Err` with the first problem found, else `Ok`.
pub fn validate_template(tmpl: &WorkspaceTemplate) -> (r: Result<(), String>)
    ensures
        match r {
            Ok(()) => template_problem(*tmpl) is None,
            Err(e) => template_problem(*tmpl) == Some(e@),
        },
{
    if tmpl.tabs.len() == 0 {
        return Err(crate::text::string_of(&crate::text::chars_of("template must have at least one tab")));
    }
    let mut i: usize = 0;
    while i < tmpl.tabs.len()
        invariant
            i <= tmpl.tabs.len(),
            tmpl.tabs.len() > 0,
            tab_problem(tmpl.tabs@, 0) == tab_problem(tmpl.tabs@, i as int),
        decreases tmpl.tabs.len() - i,
    {
        let tab = &tmpl.tabs[i];
        if tab.panes.len() == 0 {
            return Err(tab_message(i, " must have at least one pane"));
        }
        if tab.panes.len() > MAX_TEMPLATE_PANES {
            return Err(tab_message(i, " has too many panes (max 24)"));
        }
        if tab.panes[0].split.is_some() {
            return Err(tab_message(i, " first pane must not have a split"));
        }
        i = i + 1;
    }
    Ok(())
}

/// Direction of a split between two panes.
#[derive(Debug, Clone, Copy, PartialEq, Eq, Structural)]
pub enum SplitDirection {
    Right,
    Down,
}

/// A pane's split: `down`, `below` and `vertical` stack it under the
/// panes before it; anything else, or no split, puts it to their right.
pub open spec fn split_direction_spec(split: Option<Seq<char>>) -> SplitDirection {
    match split {
        Some(s) => if s == "down"@ || s == "below"@ || s == "vertical"@ {
            SplitDirection::Down
        } else {
            SplitDirection::Right
        },
        None => SplitDirection::Right,
    }
}

pub open spec fn opt_seq(o: Option<String>) -> Option<Seq<char>> {
    match o {
        Some(s) => Some(s@),
        None => None,
    }
}

pub fn split_direction(split: &Option<String>) -> (r: SplitDirection)
    ensures
        r == split_direction_spec(opt_seq(*split)),
{
    match split {
        Some(s) => {
            let v = crate::text::chars_of(s.as_str());
            if crate::text::eq_lit(&v, "down") || crate::text::eq_lit(&v, "below")
                || crate::text::eq_lit(&v, "vertical") {
                SplitDirection::Down
            } else {
                SplitDirection::Right
            }
        },
        None => SplitDirection::Right,
    }
}

/// The split that adds each pane after the first to a tab's layout, in
/// order: every pane splits the layout built from the panes before it.
pub fn pane_split_directions(tab: &TemplateTab) -> (r: Vec<SplitDirection>)
    ensures
        r.len() == if tab.panes.len() > 0 {
            tab.panes.len() - 1
        } else {
            0
        },
        forall|i: int|
            0 <= i < r.len() ==> #[trigger] r@[i] == split_direction_spec(
                opt_seq(tab.panes@[i + 1].split),
            ),
{
    let mut r: Vec<SplitDirection> = Vec::new();
    if tab.panes.len() == 0 {
        return r;
    }
    let mut i: usize = 1;
    while i < tab.panes.len()
        invariant
            1 <= i <= tab.panes.len(),
            r.len() == i - 1,
            forall|k: int|
                0 <= k < r.len() ==> #[trigger] r@[k] == split_direction_spec(
                    opt_seq(tab.panes@[k + 1].split),
                ),
        decreases tab.panes.len() - i,
    {
        r.push(split_direction(&tab.panes[i].split));
        i = i + 1;
    }
    r
}

/// Where a named template lives: `<config dir>/templates/<name>.toml`; a
/// name that is an absolute path replaces the directory, as path joining
/// does.
pub open spec fn template_candidate_spec(name: Seq<char>, config_dir: Seq<char>) -> Seq<char> {
    if starts_with(name, "/"@) {
        name + ".toml"@
    } else {
        config_dir + "/templates/"@ + name + ".toml"@
    }
}

pub fn template_file_candidate(name_or_path: &str, config_dir: &str) -> (r: String)
    ensures
        r@ == template_candidate_spec(name_or_path@, config_dir@),
{
    let name = crate::text::chars_of(name_or_path);
    let mut out: Vec<char> = Vec::new();
    if !crate::text::starts_with_exec(&name, &crate::text::chars_of("/")) {
        crate::text::push_str(&mut out, config_dir);
        crate::text::push_str(&mut out, "/templates/");
    }
    crate::text::push_all(&mut out, &name);
    crate::text::push_str(&mut out, ".toml");
    crate::text::string_of(&out)
}

/// Calls `Path::is_file`. What it returns depends on the file system at
/// the time of the call, so nothing is promised of it.
#[verifier::external_body]
fn path_is_file(path: &str) -> bool {
    std::path::Path::new(path).is_file()
}

/// The template file to load: the argument itself when it is a file, else
/// the named template when that file exists, else none.
pub fn choose_template_path(
    name_or_path: &str,
    name_is_file: bool,
    candidate: &str,
    candidate_is_file: bool,
) -> (r: Option<String>)
    ensures
        match r {
            Some(p) => if name_is_file {
                p@ == name_or_path@
            } else {
                candidate_is_file && p@ == candidate@
            },
            None => !name_is_file && !candidate_is_file,
        },
{
    if name_is_file {
        Some(crate::text::string_of(&crate::text::chars_of(name_or_path)))
    } else if candidate_is_file {
        Some(crate::text::string_of(&crate::text::chars_of(candidate)))
    } else {
        None
    }
}

/// Finds a template by path or by name under the configuration directory.
/// Whether a path is a file depends on the disk, so the result is one of
/// the two paths, or none.
pub fn resolve_template_path(name_or_path: &str, config_dir: &str) -> (r: Option<String>)
    ensures
        match r {
            Some(p) => p@ == name_or_path@ || p@ == template_candidate_spec(
                name_or_path@,
                config_dir@,
            ),
            None => true,
        },
{
    let name_is_file = path_is_file(name_or_path);
    let candidate = template_file_candidate(name_or_path, config_dir);
    let candidate_is_file = if name_is_file {
        false
    } else {
        path_is_file(candidate.as_str())
    };
    choose_template_path(name_or_path, name_is_file, candidate.as_str(), candidate_is_file)
}

/// A pane is stacked below the previous one exactly when its `split` is
/// `down`, `below` or `vertical`; any other value, or none, puts it to the
/// right. Every pane after the first gets the direction its own `split`
/// names.
pub proof fn law_split_direction_words(s: Seq<char>, tab: TemplateTab, i: int)
    requires
        0 <= i < tab.panes.len() - 1,
    ensures
        split_direction_spec(Some(s)) == SplitDirection::Down <==> (s == "down"@ || s == "below"@
            || s == "vertical"@),
        split_direction_spec(Some(s)) != SplitDirection::Down ==> split_direction_spec(Some(s))
            == SplitDirection::Right,
        split_direction_spec(None) == SplitDirection::Right,
        (tab.panes@[i + 1].split matches Some(w) && (w@ == "down"@ || w@ == "below"@ || w@
            == "vertical"@)) <==> split_direction_spec(opt_seq(tab.panes@[i + 1].split))
            == SplitDirection::Down,
{
}

proof fn lemma_tab_problem_none(tabs: Seq<TemplateTab>, i: int)
    requires
        0 <= i <= tabs.len(),
    ensures
        tab_problem(tabs, i) is None <==> forall|k: int|
            i <= k < tabs.len() ==> 1 <= (#[trigger] tabs[k]).panes.len() <= 24
                && tabs[k].panes@[0].split is None,
    decreases tabs.len() - i,
{
    if i < tabs.len() {
        lemma_tab_problem_none(tabs, i + 1);
    }
}

/// A template is accepted exactly when it has at least one tab and every
/// tab has between 1 and 24 panes, the first of which names no split.
pub proof fn law_valid_templates(t: WorkspaceTemplate)
    ensures
        template_problem(t) is None <==> (t.tabs.len() > 0 && forall|k: int|
            0 <= k < t.tabs.len() ==> 1 <= (#[trigger] t.tabs@[k]).panes.len() <= 24
                && t.tabs@[k].panes@[0].split is None),
{
    lemma_tab_problem_none(t.tabs@, 0);
}

} // verus!
