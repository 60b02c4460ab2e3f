//! Configuration choices edited from the settings screen, how each one
//! cycles to its next value, and how each one is labelled.
use vstd::prelude::*;

verus! {

/// Where notification toasts are delivered.
#[derive(Debug, Clone, Copy, PartialEq, Eq, Structural)]
pub enum ToastDelivery {
    Off,
    Herdr,
    Terminal,
    System,
}

/// How the host terminal cursor is shown.
#[derive(Debug, Clone, Copy, PartialEq, Eq, Structural)]
pub enum HostCursorModeConfig {
    Auto,
    Native,
    Drawn,
}

/// What the collapsed sidebar looks like.
#[derive(Debug, Clone, Copy, PartialEq, Eq, Structural)]
pub enum SidebarCollapsedModeConfig {
    Compact,
    Hidden,
}

/// Ordering of the agent panel.
#[derive(Debug, Clone, Copy, PartialEq, Eq, Structural)]
pub enum AgentPanelSort {
    Spaces,
    Priority,
}

/// Whether new shells are login shells.
#[derive(Debug, Clone, Copy, PartialEq, Eq, Structural)]
pub enum ShellModeConfig {
    Auto,
    Login,
    NonLogin,
}

/// Working directory of newly opened terminals.
#[derive(Debug, Clone, PartialEq, Eq)]
pub enum NewTerminalCwdConfig {
    Follow,
    Home,
    Current,
    Path(String),
}

/// A working-directory choice with its custom path as a character sequence.
pub enum NewTerminalCwdView {
    Follow,
    Home,
    Current,
    Path(Seq<char>),
}

impl View for NewTerminalCwdConfig {
    type V = NewTerminalCwdView;

    open spec fn view(&self) -> NewTerminalCwdView {
        match self {
            NewTerminalCwdConfig::Follow => NewTerminalCwdView::Follow,
            NewTerminalCwdConfig::Home => NewTerminalCwdView::Home,
            NewTerminalCwdConfig::Current => NewTerminalCwdView::Current,
            NewTerminalCwdConfig::Path(p) => NewTerminalCwdView::Path(p@),
        }
    }
}

/// Corner where herdr's own toasts appear.
#[derive(Debug, Clone, Copy, PartialEq, Eq, Structural)]
pub enum ToastHerdrPosition {
    TopLeft,
    TopRight,
    BottomRight,
    BottomLeft,
}

/// Position of the clipboard toast.
#[derive(Debug, Clone, Copy, PartialEq, Eq, Structural)]
pub enum ToastClipboardPosition {
    TopLeft,
    TopCenter,
    TopRight,
    BottomRight,
    BottomCenter,
    BottomLeft,
}

/// Release channel followed by update checks.
#[derive(Debug, Clone, Copy, PartialEq, Eq, Structural)]
pub enum UpdateChannelConfig {
    Stable,
    Preview,
}

/// Opt-in experimental behaviours.
#[derive(Debug, Clone, Copy, PartialEq, Eq, Structural)]
pub enum ExperimentSetting {
    PaneHistory,
    SwitchAsciiInputSourceInPrefix,
    KittyGraphics,
    AllowNested,
    RevealHiddenCursorForCjkIme,
}

/// Number of experiments.
pub const EXPERIMENT_COUNT: usize = 5;

/// The experiment at a display position (the last one beyond the end).
pub open spec fn experiment_at(i: int) -> ExperimentSetting {
    if i == 0 {
        ExperimentSetting::PaneHistory
    } else if i == 1 {
        ExperimentSetting::SwitchAsciiInputSourceInPrefix
    } else if i == 2 {
        ExperimentSetting::KittyGraphics
    } else if i == 3 {
        ExperimentSetting::AllowNested
    } else {
        ExperimentSetting::RevealHiddenCursorForCjkIme
    }
}

impl ExperimentSetting {
    /// The experiment at a display position, if there is one.
    pub fn from_index(i: usize) -> (r: Option<ExperimentSetting>)
        ensures
            r == (if i < 5 { Some(experiment_at(i as int)) } else { None::<ExperimentSetting> }),
    {
        match i {
            0 => Some(ExperimentSetting::PaneHistory),
            1 => Some(ExperimentSetting::SwitchAsciiInputSourceInPrefix),
            2 => Some(ExperimentSetting::KittyGraphics),
            3 => Some(ExperimentSetting::AllowNested),
            4 => Some(ExperimentSetting::RevealHiddenCursorForCjkIme),
            _ => None,
        }
    }
}

/// The delivery chosen by row `idx` of the delivery list; every row past the
/// third selects system notifications.
pub open spec fn toast_delivery_for_index_spec(idx: int) -> ToastDelivery {
    if idx == 0 {
        ToastDelivery::Off
    } else if idx == 1 {
        ToastDelivery::Herdr
    } else if idx == 2 {
        ToastDelivery::Terminal
    } else {
        ToastDelivery::System
    }
}

pub fn toast_delivery_for_index(idx: usize) -> (r: ToastDelivery)
    ensures
        r == toast_delivery_for_index_spec(idx as int),
{
    match idx {
        0 => ToastDelivery::Off,
        1 => ToastDelivery::Herdr,
        2 => ToastDelivery::Terminal,
        _ => ToastDelivery::System,
    }
}

// ── cycling ────────────────────────────────────────────────────────────

pub open spec fn next_host_cursor(c: HostCursorModeConfig) -> HostCursorModeConfig {
    match c {
        HostCursorModeConfig::Auto => HostCursorModeConfig::Native,
        HostCursorModeConfig::Native => HostCursorModeConfig::Drawn,
        HostCursorModeConfig::Drawn => HostCursorModeConfig::Auto,
    }
}

pub fn cycle_host_cursor(current: HostCursorModeConfig) -> (r: HostCursorModeConfig)
    ensures
        r == next_host_cursor(current),
{
    match current {
        HostCursorModeConfig::Auto => HostCursorModeConfig::Native,
        HostCursorModeConfig::Native => HostCursorModeConfig::Drawn,
        HostCursorModeConfig::Drawn => HostCursorModeConfig::Auto,
    }
}

pub open spec fn next_sidebar_collapsed_mode(c: SidebarCollapsedModeConfig) -> SidebarCollapsedModeConfig {
    match c {
        SidebarCollapsedModeConfig::Compact => SidebarCollapsedModeConfig::Hidden,
        SidebarCollapsedModeConfig::Hidden => SidebarCollapsedModeConfig::Compact,
    }
}

pub fn cycle_sidebar_collapsed_mode(current: SidebarCollapsedModeConfig) -> (r:
    SidebarCollapsedModeConfig)
    ensures
        r == next_sidebar_collapsed_mode(current),
{
    match current {
        SidebarCollapsedModeConfig::Compact => SidebarCollapsedModeConfig::Hidden,
        SidebarCollapsedModeConfig::Hidden => SidebarCollapsedModeConfig::Compact,
    }
}

pub open spec fn next_agent_panel_sort(c: AgentPanelSort) -> AgentPanelSort {
    match c {
        AgentPanelSort::Spaces => AgentPanelSort::Priority,
        AgentPanelSort::Priority => AgentPanelSort::Spaces,
    }
}

pub fn cycle_agent_panel_sort(current: AgentPanelSort) -> (r: AgentPanelSort)
    ensures
        r == next_agent_panel_sort(current),
{
    match current {
        AgentPanelSort::Spaces => AgentPanelSort::Priority,
        AgentPanelSort::Priority => AgentPanelSort::Spaces,
    }
}

pub open spec fn next_shell_mode(c: ShellModeConfig) -> ShellModeConfig {
    match c {
        ShellModeConfig::Auto => ShellModeConfig::Login,
        ShellModeConfig::Login => ShellModeConfig::NonLogin,
        ShellModeConfig::NonLogin => ShellModeConfig::Auto,
    }
}

pub fn cycle_shell_mode(current: ShellModeConfig) -> (r: ShellModeConfig)
    ensures
        r == next_shell_mode(current),
{
    match current {
        ShellModeConfig::Auto => ShellModeConfig::Login,
        ShellModeConfig::Login => ShellModeConfig::NonLogin,
        ShellModeConfig::NonLogin => ShellModeConfig::Auto,
    }
}

/// The cwd setting that follows `c`: a custom path falls back to `Follow`.
pub open spec fn next_new_terminal_cwd(c: NewTerminalCwdConfig) -> NewTerminalCwdConfig {
    match c {
        NewTerminalCwdConfig::Follow => NewTerminalCwdConfig::Home,
        NewTerminalCwdConfig::Home => NewTerminalCwdConfig::Current,
        _ => NewTerminalCwdConfig::Follow,
    }
}

pub fn cycle_new_terminal_cwd(current: &NewTerminalCwdConfig) -> (r: NewTerminalCwdConfig)
    ensures
        r == next_new_terminal_cwd(*current),
{
    match current {
        NewTerminalCwdConfig::Follow => NewTerminalCwdConfig::Home,
        NewTerminalCwdConfig::Home => NewTerminalCwdConfig::Current,
        NewTerminalCwdConfig::Current => NewTerminalCwdConfig::Follow,
        NewTerminalCwdConfig::Path(_) => NewTerminalCwdConfig::Follow,
    }
}

pub open spec fn next_toast_herdr_position(c: ToastHerdrPosition) -> ToastHerdrPosition {
    match c {
        ToastHerdrPosition::TopLeft => ToastHerdrPosition::TopRight,
        ToastHerdrPosition::TopRight => ToastHerdrPosition::BottomRight,
        ToastHerdrPosition::BottomRight => ToastHerdrPosition::BottomLeft,
        ToastHerdrPosition::BottomLeft => ToastHerdrPosition::TopLeft,
    }
}

pub fn cycle_toast_herdr_position(current: ToastHerdrPosition) -> (r: ToastHerdrPosition)
    ensures
        r == next_toast_herdr_position(current),
{
    match current {
        ToastHerdrPosition::TopLeft => ToastHerdrPosition::TopRight,
        ToastHerdrPosition::TopRight => ToastHerdrPosition::BottomRight,
        ToastHerdrPosition::BottomRight => ToastHerdrPosition::BottomLeft,
        ToastHerdrPosition::BottomLeft => ToastHerdrPosition::TopLeft,
    }
}

pub open spec fn next_clipboard_toast_position(c: ToastClipboardPosition) -> ToastClipboardPosition {
    match c {
        ToastClipboardPosition::TopLeft => ToastClipboardPosition::TopCenter,
        ToastClipboardPosition::TopCenter => ToastClipboardPosition::TopRight,
        ToastClipboardPosition::TopRight => ToastClipboardPosition::BottomRight,
        ToastClipboardPosition::BottomRight => ToastClipboardPosition::BottomCenter,
        ToastClipboardPosition::BottomCenter => ToastClipboardPosition::BottomLeft,
        ToastClipboardPosition::BottomLeft => ToastClipboardPosition::TopLeft,
    }
}

pub fn cycle_clipboard_toast_position(current: ToastClipboardPosition) -> (r:
    ToastClipboardPosition)
    ensures
        r == next_clipboard_toast_position(current),
{
    match current {
        ToastClipboardPosition::TopLeft => ToastClipboardPosition::TopCenter,
        ToastClipboardPosition::TopCenter => ToastClipboardPosition::TopRight,
        ToastClipboardPosition::TopRight => ToastClipboardPosition::BottomRight,
        ToastClipboardPosition::BottomRight => ToastClipboardPosition::BottomCenter,
        ToastClipboardPosition::BottomCenter => ToastClipboardPosition::BottomLeft,
        ToastClipboardPosition::BottomLeft => ToastClipboardPosition::TopLeft,
    }
}

/// The delay after `current` in the preset cycle 0 → 1 → 2 → 5 → 0 (seconds);
/// a value that is not a preset is treated as 1 and so moves on to 2.
pub open spec fn next_toast_delay(current: u64) -> u64 {
    if current == 0 {
        1
    } else if current == 1 {
        2
    } else if current == 2 {
        5
    } else if current == 5 {
        0
    } else {
        2
    }
}

pub fn cycle_toast_delay(current: u64) -> (r: u64)
    ensures
        r == next_toast_delay(current),
{
    match current {
        0 => 1,
        1 => 2,
        2 => 5,
        5 => 0,
        _ => 2,
    }
}

/// The shell after `current` in the preset cycle "" → bash → zsh → fish →
/// nu → "" (the empty string means the login shell); a shell that is not a
/// preset is treated as "" and so moves on to bash.
pub open spec fn next_default_shell(current: Seq<char>) -> Seq<char> {
    if current == ""@ {
        "bash"@
    } else if current == "bash"@ {
        "zsh"@
    } else if current == "zsh"@ {
        "fish"@
    } else if current == "fish"@ {
        "nu"@
    } else if current == "nu"@ {
        ""@
    } else {
        "bash"@
    }
}

pub fn cycle_default_shell(current: &str) -> (r: String)
    ensures
        r@ == next_default_shell(current@),
{
    let cur = crate::text::chars_of(current);
    let next = if crate::text::eq_lit(&cur, "") {
        "bash"
    } else if crate::text::eq_lit(&cur, "bash") {
        "zsh"
    } else if crate::text::eq_lit(&cur, "zsh") {
        "fish"
    } else if crate::text::eq_lit(&cur, "fish") {
        "nu"
    } else if crate::text::eq_lit(&cur, "nu") {
        ""
    } else {
        "bash"
    };
    crate::text::string_of(&crate::text::chars_of(next))
}

/// Cycling each closed choice comes back to the start after as many steps
/// as the choice has values.
pub proof fn law_cycles_return(
    h: HostCursorModeConfig,
    sc: SidebarCollapsedModeConfig,
    a: AgentPanelSort,
    sh: ShellModeConfig,
    hp: ToastHerdrPosition,
    cp: ToastClipboardPosition,
)
    ensures
        next_host_cursor(next_host_cursor(next_host_cursor(h))) == h,
        next_sidebar_collapsed_mode(next_sidebar_collapsed_mode(sc)) == sc,
        next_agent_panel_sort(next_agent_panel_sort(a)) == a,
        next_shell_mode(next_shell_mode(next_shell_mode(sh))) == sh,
        next_toast_herdr_position(
            next_toast_herdr_position(next_toast_herdr_position(next_toast_herdr_position(hp))),
        ) == hp,
        next_clipboard_toast_position(
            next_clipboard_toast_position(
                next_clipboard_toast_position(
                    next_clipboard_toast_position(
                        next_clipboard_toast_position(next_clipboard_toast_position(cp)),
                    ),
                ),
            ),
        ) == cp,
{
}

/// The cwd choice walks follow → home → current → follow, and a custom path
/// rejoins that walk at follow.
pub proof fn law_new_terminal_cwd_cycle(c: NewTerminalCwdConfig)
    ensures
        !(c is Path) ==> next_new_terminal_cwd(next_new_terminal_cwd(next_new_terminal_cwd(c))) == c,
        c is Path ==> next_new_terminal_cwd(c) == NewTerminalCwdConfig::Follow,
{
}

/// Starting from a preset, the delay and shell choices visit every preset
/// and return after as many steps as there are presets.
pub proof fn law_preset_cycles(d: u64, s: Seq<char>)
    ensures
        (d == 0 || d == 1 || d == 2 || d == 5) ==> next_toast_delay(
            next_toast_delay(next_toast_delay(next_toast_delay(d))),
        ) == d,
        (s == ""@ || s == "bash"@ || s == "zsh"@ || s == "fish"@ || s == "nu"@)
            ==> next_default_shell(
            next_default_shell(next_default_shell(next_default_shell(next_default_shell(s)))),
        ) == s,
{
    reveal_strlit("");
    reveal_strlit("bash");
    reveal_strlit("zsh");
    reveal_strlit("fish");
    reveal_strlit("nu");
    assert(""@.len() == 0 && "nu"@.len() == 2 && "zsh"@.len() == 3);
    assert("bash"@.len() == 4 && "fish"@.len() == 4);
    assert("bash"@[0] != "fish"@[0]);
}

// ── labels ─────────────────────────────────────────────────────────────

pub fn sidebar_collapsed_mode_label(m: SidebarCollapsedModeConfig) -> (r: String)
    ensures
        r@ == (match m {
            SidebarCollapsedModeConfig::Compact => "compact"@,
            SidebarCollapsedModeConfig::Hidden => "hidden"@,
        }),
{
    match m {
        SidebarCollapsedModeConfig::Compact => crate::text::string_of(&crate::text::chars_of("compact")),
        SidebarCollapsedModeConfig::Hidden => crate::text::string_of(&crate::text::chars_of("hidden")),
    }
}

pub fn agent_panel_sort_label(s: AgentPanelSort) -> (r: String)
    ensures
        r@ == (match s {
            AgentPanelSort::Spaces => "spaces"@,
            AgentPanelSort::Priority => "priority"@,
        }),
{
    match s {
        AgentPanelSort::Spaces => crate::text::string_of(&crate::text::chars_of("spaces")),
        AgentPanelSort::Priority => crate::text::string_of(&crate::text::chars_of("priority")),
    }
}

/// The configured shell, or a note that the login shell is used.
pub fn default_shell_display(shell: &str) -> (r: String)
    ensures
        r@ == (if shell@.len() == 0 { "SHELL or /bin/sh"@ } else { shell@ }),
{
    if shell.unicode_len() == 0 {
        crate::text::string_of(&crate::text::chars_of("SHELL or /bin/sh"))
    } else {
        crate::text::string_of(&crate::text::chars_of(shell))
    }
}

pub fn shell_mode_label(m: ShellModeConfig) -> (r: String)
    ensures
        r@ == (match m {
            ShellModeConfig::Auto => "auto"@,
            ShellModeConfig::Login => "login"@,
            ShellModeConfig::NonLogin => "non_login"@,
        }),
{
    match m {
        ShellModeConfig::Auto => crate::text::string_of(&crate::text::chars_of("auto")),
        ShellModeConfig::Login => crate::text::string_of(&crate::text::chars_of("login")),
        ShellModeConfig::NonLogin => crate::text::string_of(&crate::text::chars_of("non_login")),
    }
}

pub fn new_terminal_cwd_label(c: &NewTerminalCwdConfig) -> (r: String)
    ensures
        r@ == (match *c {
            NewTerminalCwdConfig::Follow => "follow"@,
            NewTerminalCwdConfig::Home => "home"@,
            NewTerminalCwdConfig::Current => "current"@,
            NewTerminalCwdConfig::Path(p) => p@,
        }),
{
    match c {
        NewTerminalCwdConfig::Follow => crate::text::string_of(&crate::text::chars_of("follow")),
        NewTerminalCwdConfig::Home => crate::text::string_of(&crate::text::chars_of("home")),
        NewTerminalCwdConfig::Current => crate::text::string_of(&crate::text::chars_of("current")),
        NewTerminalCwdConfig::Path(p) => crate::text::string_of(&crate::text::chars_of(p.as_str())),
    }
}

/// The herdr toast corner, as its lower-cased variant name.
pub open spec fn toast_herdr_position_name(p: ToastHerdrPosition) -> Seq<char> {
    match p {
        ToastHerdrPosition::TopLeft => "topleft"@,
        ToastHerdrPosition::TopRight => "topright"@,
        ToastHerdrPosition::BottomRight => "bottomright"@,
        ToastHerdrPosition::BottomLeft => "bottomleft"@,
    }
}

pub fn toast_herdr_position_label(p: ToastHerdrPosition) -> (r: String)
    ensures
        r@ == toast_herdr_position_name(p),
{
    let s = match p {
        ToastHerdrPosition::TopLeft => "topleft",
        ToastHerdrPosition::TopRight => "topright",
        ToastHerdrPosition::BottomRight => "bottomright",
        ToastHerdrPosition::BottomLeft => "bottomleft",
    };
    crate::text::string_of(&crate::text::chars_of(s))
}

/// The clipboard toast position, as its lower-cased variant name.
pub open spec fn clipboard_position_name(p: ToastClipboardPosition) -> Seq<char> {
    match p {
        ToastClipboardPosition::TopLeft => "topleft"@,
        ToastClipboardPosition::TopCenter => "topcenter"@,
        ToastClipboardPosition::TopRight => "topright"@,
        ToastClipboardPosition::BottomRight => "bottomright"@,
        ToastClipboardPosition::BottomCenter => "bottomcenter"@,
        ToastClipboardPosition::BottomLeft => "bottomleft"@,
    }
}

/// `off` when the clipboard toast is disabled, else `on · ` and its position.
pub fn clipboard_toast_label(enabled: bool, p: ToastClipboardPosition) -> (r: String)
    ensures
        r@ == (if enabled { "on \u{b7} "@ + clipboard_position_name(p) } else { "off"@ }),
{
    if !enabled {
        return crate::text::string_of(&crate::text::chars_of("off"));
    }
    let s = match p {
        ToastClipboardPosition::TopLeft => "topleft",
        ToastClipboardPosition::TopCenter => "topcenter",
        ToastClipboardPosition::TopRight => "topright",
        ToastClipboardPosition::BottomRight => "bottomright",
        ToastClipboardPosition::BottomCenter => "bottomcenter",
        ToastClipboardPosition::BottomLeft => "bottomleft",
    };
    let mut out = crate::text::chars_of("on \u{b7} ");
    crate::text::push_str(&mut out, s);
    crate::text::string_of(&out)
}

pub fn host_cursor_label(m: HostCursorModeConfig) -> (r: String)
    ensures
        r@ == (match m {
            HostCursorModeConfig::Auto => "auto"@,
            HostCursorModeConfig::Native => "native"@,
            HostCursorModeConfig::Drawn => "drawn"@,
        }),
{
    match m {
        HostCursorModeConfig::Auto => crate::text::string_of(&crate::text::chars_of("auto")),
        HostCursorModeConfig::Native => crate::text::string_of(&crate::text::chars_of("native")),
        HostCursorModeConfig::Drawn => crate::text::string_of(&crate::text::chars_of("drawn")),
    }
}

} // verus!
