//! How each settings action is written to the configuration file: which
//! section and key it sets, to what TOML value, or which key it removes.
use vstd::prelude::*;

use crate::settings_config::{
    AgentPanelSort, HostCursorModeConfig, NewTerminalCwdConfig, NewTerminalCwdView, ShellModeConfig,
    SidebarCollapsedModeConfig, ToastClipboardPosition, ToastDelivery, ToastHerdrPosition,
    UpdateChannelConfig,
};
use crate::settings_state::{SettingsAction, SettingsActionView, SettingsPrefs};
use crate::spinner::{config_name_spec, spinner_style_toml_value, SpinnerStyle};
use crate::text::dec;

verus! {

/// One change to the configuration file.
#[derive(Debug, Clone, PartialEq, Eq)]
pub enum ConfigEdit {
    /// Set `key` in `[section]` to a TOML value.
    SetValue { section: &'static str, key: &'static str, value: String },
    /// Set `key` in `[section]` to a boolean.
    SetBool { section: &'static str, key: &'static str, value: bool },
    /// Remove `key` from `[section]`.
    RemoveKey { section: &'static str, key: &'static str },
}

pub enum EditView {
    SetValue { section: Seq<char>, key: Seq<char>, value: Seq<char> },
    SetBool { section: Seq<char>, key: Seq<char>, value: bool },
    RemoveKey { section: Seq<char>, key: Seq<char> },
}

impl View for ConfigEdit {
    type V = EditView;

    open spec fn view(&self) -> EditView {
        match self {
            ConfigEdit::SetValue { section, key, value } => EditView::SetValue {
                section: section@,
                key: key@,
                value: value@,
            },
            ConfigEdit::SetBool { section, key, value } => EditView::SetBool {
                section: section@,
                key: key@,
                value: *value,
            },
            ConfigEdit::RemoveKey { section, key } => EditView::RemoveKey { section: section@, key: key@ },
        }
    }
}

/// The changes one settings action makes to the configuration file, with
/// what to call the setting when saving fails.
pub struct ConfigUpdate {
    pub context: &'static str,
    pub edits: Vec<ConfigEdit>,
}

/// A fixed name between double quotes; the names written this way hold no
/// character that needs escaping.
pub open spec fn quoted(s: Seq<char>) -> Seq<char> {
    seq!['"'] + s + seq!['"']
}

/// The lowercase hexadecimal digit for `d` (below 16).
pub open spec fn hex_digit(d: int) -> char {
    seq!['0', '1', '2', '3', '4', '5', '6', '7', '8', '9', 'a', 'b', 'c', 'd', 'e', 'f'][d]
}

/// Characters that a TOML basic string may not hold as they are: the
/// control characters other than tab, and delete.
pub open spec fn is_toml_control(c: char) -> bool {
    ((c as u32) < 0x20 && c != '\t') || (c as u32) == 0x7f
}

/// How one character is written inside a TOML basic string: quote and
/// backslash are escaped, the usual control characters get their short
/// escapes, other control characters a `\u00XX` escape, and everything
/// else stands as it is.
pub open spec fn toml_escape_char(c: char) -> Seq<char> {
    if c == '"' {
        seq!['\\', '"']
    } else if c == '\\' {
        seq!['\\', '\\']
    } else if c == '\u{8}' {
        seq!['\\', 'b']
    } else if c == '\t' {
        seq!['\\', 't']
    } else if c == '\n' {
        seq!['\\', 'n']
    } else if c == '\u{c}' {
        seq!['\\', 'f']
    } else if c == '\r' {
        seq!['\\', 'r']
    } else if is_toml_control(c) {
        seq!['\\', 'u', '0', '0', hex_digit((c as u32) as int / 16), hex_digit((c as u32) as int % 16)]
    } else {
        seq![c]
    }
}

/// The characters of `s`, each escaped for a TOML basic string.
pub open spec fn toml_escape(s: Seq<char>) -> Seq<char>
    decreases s.len(),
{
    if s.len() == 0 {
        Seq::empty()
    } else {
        toml_escape(s.drop_last()) + toml_escape_char(s.last())
    }
}

/// The value of a hexadecimal digit.
pub open spec fn hex_value(c: char) -> Option<int> {
    if '0' <= c && c <= '9' {
        Some(c as int - '0' as int)
    } else if 'a' <= c && c <= 'f' {
        Some(c as int - 'a' as int + 10)
    } else if 'A' <= c && c <= 'F' {
        Some(c as int - 'A' as int + 10)
    } else {
        None
    }
}

/// The value of four hexadecimal digits at the start of `t`.
pub open spec fn hex4(t: Seq<char>) -> Option<int> {
    if t.len() >= 4 && hex_value(t[0]) is Some && hex_value(t[1]) is Some && hex_value(t[2]) is Some
        && hex_value(t[3]) is Some {
        Some(
            4096 * hex_value(t[0])->0 + 256 * hex_value(t[1])->0 + 16 * hex_value(t[2])->0
                + hex_value(t[3])->0,
        )
    } else {
        None
    }
}

/// The character a one-letter escape stands for in a TOML basic string.
pub open spec fn short_unescape(e: char) -> Option<char> {
    if e == '"' {
        Some('"')
    } else if e == '\\' {
        Some('\\')
    } else if e == 'b' {
        Some('\u{8}')
    } else if e == 't' {
        Some('\t')
    } else if e == 'n' {
        Some('\n')
    } else if e == 'f' {
        Some('\u{c}')
    } else if e == 'r' {
        Some('\r')
    } else {
        None
    }
}

pub open spec fn prepend(c: char, rest: Option<Seq<char>>) -> Option<Seq<char>> {
    match rest {
        Some(r) => Some(seq![c] + r),
        None => None,
    }
}

/// What the body of a TOML basic string reads as: escapes are replaced by
/// the characters they stand for; an unknown escape, a bare double quote
/// or a bare control character makes it unreadable.
pub open spec fn toml_unescape(t: Seq<char>) -> Option<Seq<char>>
    decreases t.len(),
{
    if t.len() == 0 {
        Some(Seq::empty())
    } else if t[0] == '\\' {
        if t.len() < 2 {
            None
        } else if short_unescape(t[1]) is Some {
            prepend(short_unescape(t[1])->0, toml_unescape(t.skip(2)))
        } else if t[1] == 'u' && t.len() >= 6 && hex4(t.subrange(2, 6)) is Some {
            let v = hex4(t.subrange(2, 6))->0;
            if v < 0xd800 || 0xe000 <= v {
                prepend(v as char, toml_unescape(t.skip(6)))
            } else {
                None
            }
        } else {
            None
        }
    } else if t[0] == '"' || is_toml_control(t[0]) {
        None
    } else {
        prepend(t[0], toml_unescape(t.skip(1)))
    }
}

/// What a TOML basic-string value reads as.
pub open spec fn read_toml_string(v: Seq<char>) -> Option<Seq<char>> {
    if v.len() >= 2 && v[0] == '"' && v[v.len() - 1] == '"' {
        toml_unescape(v.subrange(1, v.len() - 1))
    } else {
        None
    }
}

/// `s` written as a TOML basic string: escaped, between double quotes.
pub open spec fn toml_string(s: Seq<char>) -> Seq<char> {
    seq!['"'] + toml_escape(s) + seq!['"']
}

pub open spec fn set_value(section: Seq<char>, key: Seq<char>, value: Seq<char>) -> EditView {
    EditView::SetValue { section, key, value }
}

pub open spec fn set_bool(section: Seq<char>, key: Seq<char>, value: bool) -> EditView {
    EditView::SetBool { section, key, value }
}

pub open spec fn toast_delivery_name(d: ToastDelivery) -> Seq<char> {
    match d {
        ToastDelivery::Off => "off"@,
        ToastDelivery::Herdr => "herdr"@,
        ToastDelivery::Terminal => "terminal"@,
        ToastDelivery::System => "system"@,
    }
}

pub open spec fn toastherdrposition_name(x: ToastHerdrPosition) -> Seq<char> {
    match x {
        ToastHerdrPosition::TopLeft => "top-left"@,
        ToastHerdrPosition::TopRight => "top-right"@,
        ToastHerdrPosition::BottomLeft => "bottom-left"@,
        ToastHerdrPosition::BottomRight => "bottom-right"@,
    }
}

pub open spec fn clipboardtoastposition_name(x: ToastClipboardPosition) -> Seq<char> {
    match x {
        ToastClipboardPosition::TopLeft => "top-left"@,
        ToastClipboardPosition::TopCenter => "top-center"@,
        ToastClipboardPosition::TopRight => "top-right"@,
        ToastClipboardPosition::BottomLeft => "bottom-left"@,
        ToastClipboardPosition::BottomCenter => "bottom-center"@,
        ToastClipboardPosition::BottomRight => "bottom-right"@,
    }
}

pub open spec fn hostcursor_name(x: HostCursorModeConfig) -> Seq<char> {
    match x {
        HostCursorModeConfig::Auto => "auto"@,
        HostCursorModeConfig::Native => "native"@,
        HostCursorModeConfig::Drawn => "drawn"@,
    }
}

pub open spec fn sidebarcollapsedmode_name(x: SidebarCollapsedModeConfig) -> Seq<char> {
    match x {
        SidebarCollapsedModeConfig::Compact => "compact"@,
        SidebarCollapsedModeConfig::Hidden => "hidden"@,
    }
}

pub open spec fn shellmode_name(x: ShellModeConfig) -> Seq<char> {
    match x {
        ShellModeConfig::Auto => "auto"@,
        ShellModeConfig::Login => "login"@,
        ShellModeConfig::NonLogin => "non_login"@,
    }
}

pub open spec fn agentpanelsort_name(x: AgentPanelSort) -> Seq<char> {
    match x {
        AgentPanelSort::Spaces => "spaces"@,
        AgentPanelSort::Priority => "priority"@,
    }
}

pub open spec fn updatechannel_name(x: UpdateChannelConfig) -> Seq<char> {
    match x {
        UpdateChannelConfig::Stable => "stable"@,
        UpdateChannelConfig::Preview => "preview"@,
    }
}

/// The TOML value that stores a new-terminal cwd choice.
pub open spec fn cwd_value(c: NewTerminalCwdView) -> Seq<char> {
    match c {
        NewTerminalCwdView::Follow => quoted("follow"@),
        NewTerminalCwdView::Home => quoted("home"@),
        NewTerminalCwdView::Current => quoted("current"@),
        NewTerminalCwdView::Path(p) => toml_string(p),
    }
}

/// What a settings action writes to the configuration file: the name of
/// the setting and its edits, or `None` for actions that are not settings
/// of the file.
pub open spec fn config_update_spec(a: SettingsActionView) -> Option<(Seq<char>, Seq<EditView>)> {
    match a {
        SettingsActionView::SaveSound(b) => Some(("sound setting"@, seq![set_bool("ui.sound"@, "enabled"@, b)])),
        SettingsActionView::SaveAgentBorderLabels(b) => Some(("agent border labels"@, seq![set_bool("ui"@, "show_agent_labels_on_pane_borders"@, b)])),
        SettingsActionView::SavePaneBorders(b) => Some(("pane borders"@, seq![set_bool("ui"@, "pane_borders"@, b)])),
        SettingsActionView::SavePaneGaps(b) => Some(("pane gaps"@, seq![set_bool("ui"@, "pane_gaps"@, b)])),
        SettingsActionView::SaveHideTabBarWhenSingleTab(b) => Some(("hide tab bar when single tab"@, seq![set_bool("ui"@, "hide_tab_bar_when_single_tab"@, b)])),
        SettingsActionView::SavePaneHistory(b) => Some(("pane screen history"@, seq![set_bool("experimental"@, "pane_history"@, b)])),
        SettingsActionView::SaveSwitchAsciiInputSourceInPrefix(b) => Some(("prefix ascii input source"@, seq![set_bool("experimental"@, "switch_ascii_input_source_in_prefix"@, b)])),
        SettingsActionView::SaveMouseCapture(b) => Some(("mouse capture"@, seq![set_bool("ui"@, "mouse_capture"@, b)])),
        SettingsActionView::SaveCopyOnSelect(b) => Some(("copy on select"@, seq![set_bool("ui"@, "copy_on_select"@, b)])),
        SettingsActionView::SaveConfirmClose(b) => Some(("confirm close"@, seq![set_bool("ui"@, "confirm_close"@, b)])),
        SettingsActionView::SavePromptNewTabName(b) => Some(("prompt new tab name"@, seq![set_bool("ui"@, "prompt_new_tab_name"@, b)])),
        SettingsActionView::SavePromptNewWorkspaceName(b) => Some(("prompt new workspace name"@, seq![set_bool("ui"@, "prompt_new_workspace_name"@, b)])),
        SettingsActionView::SaveRedrawOnFocusGained(b) => Some(("redraw on focus gained"@, seq![set_bool("ui"@, "redraw_on_focus_gained"@, b)])),
        SettingsActionView::SaveClipboardToastEnabled(b) => Some(("clipboard toast"@, seq![set_bool("ui.toast.clipboard"@, "enabled"@, b)])),
        SettingsActionView::SaveVersionCheck(b) => Some(("version check"@, seq![set_bool("update"@, "version_check"@, b)])),
        SettingsActionView::SaveManifestCheck(b) => Some(("manifest check"@, seq![set_bool("update"@, "manifest_check"@, b)])),
        SettingsActionView::SaveResumeAgentsOnRestore(b) => Some(("resume agents on restore"@, seq![set_bool("session"@, "resume_agents_on_restore"@, b)])),
        SettingsActionView::SaveManageSshConfig(b) => Some(("manage ssh config"@, seq![set_bool("advanced"@, "manage_ssh_config"@, b)])),
        SettingsActionView::SaveClipboardHistoryEnabled(b) => Some(("clipboard history"@, seq![set_bool("clipboard"@, "history_enabled"@, b)])),
        SettingsActionView::SaveAllowNested(b) => Some(("allow nested"@, seq![set_bool("experimental"@, "allow_nested"@, b)])),
        SettingsActionView::SaveKittyGraphics(b) => Some(("kitty graphics"@, seq![set_bool("experimental"@, "kitty_graphics"@, b)])),
        SettingsActionView::SaveRevealHiddenCursorForCjkIme(b) => Some(("reveal hidden cursor for cjk ime"@, seq![set_bool("experimental"@, "reveal_hidden_cursor_for_cjk_ime"@, b)])),
        SettingsActionView::SaveThemeAutoSwitch(b) => Some(("theme auto switch"@, seq![set_bool("theme"@, "auto_switch"@, b)])),
        SettingsActionView::SaveToastHerdrPosition(x) => Some(("toast position"@, seq![set_value("ui.toast.herdr"@, "position"@, quoted(toastherdrposition_name(x)))])),
        SettingsActionView::SaveClipboardToastPosition(x) => Some(("clipboard toast position"@, seq![set_value("ui.toast.clipboard"@, "position"@, quoted(clipboardtoastposition_name(x)))])),
        SettingsActionView::SaveHostCursor(x) => Some(("host cursor"@, seq![set_value("ui"@, "host_cursor"@, quoted(hostcursor_name(x)))])),
        SettingsActionView::SaveSidebarCollapsedMode(x) => Some(("sidebar collapsed mode"@, seq![set_value("ui"@, "sidebar_collapsed_mode"@, quoted(sidebarcollapsedmode_name(x)))])),
        SettingsActionView::SaveShellMode(x) => Some(("shell mode"@, seq![set_value("terminal"@, "shell_mode"@, quoted(shellmode_name(x)))])),
        SettingsActionView::SaveAgentPanelSort(x) => Some(("agent panel sort"@, seq![set_value("ui"@, "agent_panel_sort"@, quoted(agentpanelsort_name(x)))])),
        SettingsActionView::SaveUpdateChannel(x) => Some(("update channel"@, seq![set_value("update"@, "channel"@, quoted(updatechannel_name(x)))])),
        SettingsActionView::SaveTheme(name) => Some(
            (
                "theme"@,
                seq![set_value("theme"@, "name"@, toml_string(name)), set_bool("theme"@, "auto_switch"@, false)],
            ),
        ),
        SettingsActionView::SaveToastDelivery(d) => Some(
            (
                "toast setting"@,
                seq![
                    set_value("ui.toast"@, "delivery"@, quoted(toast_delivery_name(d))),
                    EditView::RemoveKey { section: "ui.toast"@, key: "enabled"@ },
                ],
            ),
        ),
        SettingsActionView::SaveSpinnerStyle(s) => Some(
            ("spinner style"@, seq![set_value("ui"@, "spinner_style"@, quoted(config_name_spec(s)))]),
        ),
        SettingsActionView::SaveDefaultShell(shell) => Some(
            (
                "default shell"@,
                if shell.len() == 0 {
                    seq![EditView::RemoveKey { section: "terminal"@, key: "default_shell"@ }]
                } else {
                    seq![set_value("terminal"@, "default_shell"@, toml_string(shell))]
                },
            ),
        ),
        SettingsActionView::SaveNewTerminalCwd(c) => Some(
            ("new terminal cwd"@, seq![set_value("terminal"@, "new_cwd"@, cwd_value(c))]),
        ),
        SettingsActionView::SaveScrollbackLimitBytes(n) => Some(
            (
                "scrollback limit"@,
                seq![set_value("advanced"@, "scrollback_limit_bytes"@, dec(n as nat))],
            ),
        ),
        SettingsActionView::SaveToastDelaySeconds(n) => Some(
            ("toast delay"@, seq![set_value("ui.toast"@, "delay_seconds"@, dec(n as nat))]),
        ),
        _ => None,
    }
}

pub open spec fn update_view(u: Option<ConfigUpdate>) -> Option<(Seq<char>, Seq<EditView>)> {
    match u {
        Some(x) => Some((x.context@, x.edits@.map_values(|e: ConfigEdit| e@))),
        None => None,
    }
}

fn quote(s: &str) -> (r: String)
    ensures
        r@ == quoted(s@),
{
    let mut out = crate::text::chars_of("\"");
    crate::text::push_str(&mut out, s);
    crate::text::push_str(&mut out, "\"");
    proof {
        reveal_strlit("\"");
    }
    crate::text::string_of(&out)
}

fn hex_digit_exec(d: u32) -> (r: char)
    requires
        d < 16,
    ensures
        r == hex_digit(d as int),
{
    match d {
        0 => '0',
        1 => '1',
        2 => '2',
        3 => '3',
        4 => '4',
        5 => '5',
        6 => '6',
        7 => '7',
        8 => '8',
        9 => '9',
        10 => 'a',
        11 => 'b',
        12 => 'c',
        13 => 'd',
        14 => 'e',
        _ => 'f',
    }
}

fn push_escaped(out: &mut Vec<char>, c: char)
    ensures
        final(out)@ == old(out)@ + toml_escape_char(c),
{
    let ghost start = out@;
    let n = c as u32;
    if c == '"' || c == '\\' {
        out.push('\\');
        out.push(c);
    } else if c == '\u{8}' {
        out.push('\\');
        out.push('b');
    } else if c == '\t' {
        out.push('\\');
        out.push('t');
    } else if c == '\n' {
        out.push('\\');
        out.push('n');
    } else if c == '\u{c}' {
        out.push('\\');
        out.push('f');
    } else if c == '\r' {
        out.push('\\');
        out.push('r');
    } else if n < 0x20 || n == 0x7f {
        out.push('\\');
        out.push('u');
        out.push('0');
        out.push('0');
        out.push(hex_digit_exec(n / 16));
        out.push(hex_digit_exec(n % 16));
    } else {
        out.push(c);
    }
    assert(out@ =~= start + toml_escape_char(c));
}

/// `s` as a TOML basic string, escaped and quoted.
pub fn toml_string_of(s: &str) -> (r: String)
    ensures
        r@ == toml_string(s@),
{
    let v = crate::text::chars_of(s);
    let mut out: Vec<char> = Vec::new();
    out.push('"');
    let mut i: usize = 0;
    while i < v.len()
        invariant
            i <= v.len(),
            out@ == seq!['"'] + toml_escape(v@.take(i as int)),
        decreases v.len() - i,
    {
        let ghost before = out@;
        push_escaped(&mut out, v[i]);
        assert(v@.take(i + 1).drop_last() =~= v@.take(i as int));
        assert(out@ =~= seq!['"'] + toml_escape(v@.take(i + 1)));
        i = i + 1;
    }
    assert(v@.take(v@.len() as int) =~= v@);
    out.push('"');
    crate::text::string_of(&out)
}

fn one(context: &'static str, e: ConfigEdit) -> (r: Option<ConfigUpdate>)
    ensures
        r matches Some(u) && u.context == context && u.edits@.map_values(|x: ConfigEdit| x@) == seq![e@],
{
    let mut edits: Vec<ConfigEdit> = Vec::new();
    edits.push(e);
    assert(edits@.map_values(|x: ConfigEdit| x@) =~= seq![e@]);
    Some(ConfigUpdate { context, edits })
}

fn two(context: &'static str, e1: ConfigEdit, e2: ConfigEdit) -> (r: Option<ConfigUpdate>)
    ensures
        r matches Some(u) && u.context == context && u.edits@.map_values(|x: ConfigEdit| x@) == seq![e1@, e2@],
{
    let mut edits: Vec<ConfigEdit> = Vec::new();
    edits.push(e1);
    edits.push(e2);
    assert(edits@.map_values(|x: ConfigEdit| x@) =~= seq![e1@, e2@]);
    Some(ConfigUpdate { context, edits })
}

fn set_b(section: &'static str, key: &'static str, value: bool) -> (r: ConfigEdit)
    ensures
        r@ == set_bool(section@, key@, value),
{
    ConfigEdit::SetBool { section, key, value }
}

fn set_v(section: &'static str, key: &'static str, value: String) -> (r: ConfigEdit)
    ensures
        r@ == set_value(section@, key@, value@),
{
    ConfigEdit::SetValue { section, key, value }
}

fn toastherdrposition_text(x: ToastHerdrPosition) -> (r: &'static str)
    ensures
        r@ == toastherdrposition_name(x),
{
    match x {
        ToastHerdrPosition::TopLeft => "top-left",
        ToastHerdrPosition::TopRight => "top-right",
        ToastHerdrPosition::BottomLeft => "bottom-left",
        ToastHerdrPosition::BottomRight => "bottom-right",
    }
}

fn clipboardtoastposition_text(x: ToastClipboardPosition) -> (r: &'static str)
    ensures
        r@ == clipboardtoastposition_name(x),
{
    match x {
        ToastClipboardPosition::TopLeft => "top-left",
        ToastClipboardPosition::TopCenter => "top-center",
        ToastClipboardPosition::TopRight => "top-right",
        ToastClipboardPosition::BottomLeft => "bottom-left",
        ToastClipboardPosition::BottomCenter => "bottom-center",
        ToastClipboardPosition::BottomRight => "bottom-right",
    }
}

fn hostcursor_text(x: HostCursorModeConfig) -> (r: &'static str)
    ensures
        r@ == hostcursor_name(x),
{
    match x {
        HostCursorModeConfig::Auto => "auto",
        HostCursorModeConfig::Native => "native",
        HostCursorModeConfig::Drawn => "drawn",
    }
}

fn sidebarcollapsedmode_text(x: SidebarCollapsedModeConfig) -> (r: &'static str)
    ensures
        r@ == sidebarcollapsedmode_name(x),
{
    match x {
        SidebarCollapsedModeConfig::Compact => "compact",
        SidebarCollapsedModeConfig::Hidden => "hidden",
    }
}

fn shellmode_text(x: ShellModeConfig) -> (r: &'static str)
    ensures
        r@ == shellmode_name(x),
{
    match x {
        ShellModeConfig::Auto => "auto",
        ShellModeConfig::Login => "login",
        ShellModeConfig::NonLogin => "non_login",
    }
}

fn agentpanelsort_text(x: AgentPanelSort) -> (r: &'static str)
    ensures
        r@ == agentpanelsort_name(x),
{
    match x {
        AgentPanelSort::Spaces => "spaces",
        AgentPanelSort::Priority => "priority",
    }
}

fn updatechannel_text(x: UpdateChannelConfig) -> (r: &'static str)
    ensures
        r@ == updatechannel_name(x),
{
    match x {
        UpdateChannelConfig::Stable => "stable",
        UpdateChannelConfig::Preview => "preview",
    }
}

fn toast_delivery_text(d: ToastDelivery) -> (r: &'static str)
    ensures
        r@ == toast_delivery_name(d),
{
    match d {
        ToastDelivery::Off => "off",
        ToastDelivery::Herdr => "herdr",
        ToastDelivery::Terminal => "terminal",
        ToastDelivery::System => "system",
    }
}

/// The configuration-file changes that save a settings action, or `None`
/// when the action is not a setting of the file.
#[verifier::spinoff_prover]
#[verifier::rlimit(50)]
pub fn config_update(action: &SettingsAction) -> (r: Option<ConfigUpdate>)
    ensures
        update_view(r) == config_update_spec(action@),
{
    match action {
        SettingsAction::SaveSound(b) => one("sound setting", set_b("ui.sound", "enabled", *b)),
        SettingsAction::SaveAgentBorderLabels(b) => one("agent border labels", set_b("ui", "show_agent_labels_on_pane_borders", *b)),
        SettingsAction::SavePaneBorders(b) => one("pane borders", set_b("ui", "pane_borders", *b)),
        SettingsAction::SavePaneGaps(b) => one("pane gaps", set_b("ui", "pane_gaps", *b)),
        SettingsAction::SaveHideTabBarWhenSingleTab(b) => one("hide tab bar when single tab", set_b("ui", "hide_tab_bar_when_single_tab", *b)),
        SettingsAction::SavePaneHistory(b) => one("pane screen history", set_b("experimental", "pane_history", *b)),
        SettingsAction::SaveSwitchAsciiInputSourceInPrefix(b) => one("prefix ascii input source", set_b("experimental", "switch_ascii_input_source_in_prefix", *b)),
        SettingsAction::SaveMouseCapture(b) => one("mouse capture", set_b("ui", "mouse_capture", *b)),
        SettingsAction::SaveCopyOnSelect(b) => one("copy on select", set_b("ui", "copy_on_select", *b)),
        SettingsAction::SaveConfirmClose(b) => one("confirm close", set_b("ui", "confirm_close", *b)),
        SettingsAction::SavePromptNewTabName(b) => one("prompt new tab name", set_b("ui", "prompt_new_tab_name", *b)),
        SettingsAction::SavePromptNewWorkspaceName(b) => one("prompt new workspace name", set_b("ui", "prompt_new_workspace_name", *b)),
        SettingsAction::SaveRedrawOnFocusGained(b) => one("redraw on focus gained", set_b("ui", "redraw_on_focus_gained", *b)),
        SettingsAction::SaveClipboardToastEnabled(b) => one("clipboard toast", set_b("ui.toast.clipboard", "enabled", *b)),
        SettingsAction::SaveVersionCheck(b) => one("version check", set_b("update", "version_check", *b)),
        SettingsAction::SaveManifestCheck(b) => one("manifest check", set_b("update", "manifest_check", *b)),
        SettingsAction::SaveResumeAgentsOnRestore(b) => one("resume agents on restore", set_b("session", "resume_agents_on_restore", *b)),
        SettingsAction::SaveManageSshConfig(b) => one("manage ssh config", set_b("advanced", "manage_ssh_config", *b)),
        SettingsAction::SaveClipboardHistoryEnabled(b) => one("clipboard history", set_b("clipboard", "history_enabled", *b)),
        SettingsAction::SaveAllowNested(b) => one("allow nested", set_b("experimental", "allow_nested", *b)),
        SettingsAction::SaveKittyGraphics(b) => one("kitty graphics", set_b("experimental", "kitty_graphics", *b)),
        SettingsAction::SaveRevealHiddenCursorForCjkIme(b) => one("reveal hidden cursor for cjk ime", set_b("experimental", "reveal_hidden_cursor_for_cjk_ime", *b)),
        SettingsAction::SaveThemeAutoSwitch(b) => one("theme auto switch", set_b("theme", "auto_switch", *b)),
        SettingsAction::SaveToastHerdrPosition(x) => one("toast position", set_v("ui.toast.herdr", "position", quote(toastherdrposition_text(*x)))),
        SettingsAction::SaveClipboardToastPosition(x) => one("clipboard toast position", set_v("ui.toast.clipboard", "position", quote(clipboardtoastposition_text(*x)))),
        SettingsAction::SaveHostCursor(x) => one("host cursor", set_v("ui", "host_cursor", quote(hostcursor_text(*x)))),
        SettingsAction::SaveSidebarCollapsedMode(x) => one("sidebar collapsed mode", set_v("ui", "sidebar_collapsed_mode", quote(sidebarcollapsedmode_text(*x)))),
        SettingsAction::SaveShellMode(x) => one("shell mode", set_v("terminal", "shell_mode", quote(shellmode_text(*x)))),
        SettingsAction::SaveAgentPanelSort(x) => one("agent panel sort", set_v("ui", "agent_panel_sort", quote(agentpanelsort_text(*x)))),
        SettingsAction::SaveUpdateChannel(x) => one("update channel", set_v("update", "channel", quote(updatechannel_text(*x)))),
        SettingsAction::SaveTheme(name) => two(
            "theme",
            set_v("theme", "name", toml_string_of(name.as_str())),
            set_b("theme", "auto_switch", false),
        ),
        SettingsAction::SaveToastDelivery(d) => two(
            "toast setting",
            set_v("ui.toast", "delivery", quote(toast_delivery_text(*d))),
            ConfigEdit::RemoveKey { section: "ui.toast", key: "enabled" },
        ),
        SettingsAction::SaveSpinnerStyle(s) => one(
            "spinner style",
            set_v("ui", "spinner_style", spinner_style_toml_value(*s)),
        ),
        SettingsAction::SaveDefaultShell(shell) => if shell.unicode_len() == 0 {
            one("default shell", ConfigEdit::RemoveKey { section: "terminal", key: "default_shell" })
        } else {
            one("default shell", set_v("terminal", "default_shell", toml_string_of(shell.as_str())))
        },
        SettingsAction::SaveNewTerminalCwd(c) => {
            let name = match c {
                NewTerminalCwdConfig::Follow => quote("follow"),
                NewTerminalCwdConfig::Home => quote("home"),
                NewTerminalCwdConfig::Current => quote("current"),
                NewTerminalCwdConfig::Path(p) => toml_string_of(p.as_str()),
            };
            one("new terminal cwd", set_v("terminal", "new_cwd", name))
        },
        SettingsAction::SaveScrollbackLimitBytes(n) => one(
            "scrollback limit",
            set_v("advanced", "scrollback_limit_bytes", crate::text::string_of(&crate::text::dec_string(*n as u64))),
        ),
        SettingsAction::SaveToastDelaySeconds(n) => one(
            "toast delay",
            set_v("ui.toast", "delay_seconds", crate::text::string_of(&crate::text::dec_string(*n))),
        ),
        _ => None,
    }
}

/// Saves a spinner style: the style is in use from now on, whether or not
/// writing the configuration file then succeeds, and the file is to get
/// `ui.spinner_style` set to the style's quoted name.
pub fn save_spinner_style(prefs: &mut SettingsPrefs, style: SpinnerStyle) -> (r: ConfigUpdate)
    ensures
        *final(prefs) == (SettingsPrefs { spinner_style: style, ..*old(prefs) }),
        update_view(Some(r)) == config_update_spec(SettingsActionView::SaveSpinnerStyle(style)),
{
    prefs.spinner_style = style;
    let mut edits: Vec<ConfigEdit> = Vec::new();
    edits.push(set_v("ui", "spinner_style", spinner_style_toml_value(style)));
    proof {
        reveal_strlit("ui");
        reveal_strlit("spinner_style");
    }
    assert(edits@.map_values(|x: ConfigEdit| x@) =~= seq![
        set_value("ui"@, "spinner_style"@, quoted(config_name_spec(style))),
    ]);
    ConfigUpdate { context: "spinner style", edits }
}

proof fn lemma_escape_concat(a: Seq<char>, b: Seq<char>)
    ensures
        toml_escape(a + b) == toml_escape(a) + toml_escape(b),
    decreases b.len(),
{
    if b.len() == 0 {
        assert(a + b =~= a);
        assert(toml_escape(a) + toml_escape(b) =~= toml_escape(a));
    } else {
        assert((a + b).drop_last() =~= a + b.drop_last());
        assert((a + b).last() == b.last());
        lemma_escape_concat(a, b.drop_last());
        assert(toml_escape(a + b) =~= toml_escape(a) + toml_escape(b));
    }
}

proof fn lemma_hex_digit(d: int)
    requires
        0 <= d < 16,
    ensures
        hex_value(hex_digit(d)) == Some(d),
{
    if d == 0 {
    } else if d == 1 {
    } else if d == 2 {
    } else if d == 3 {
    } else if d == 4 {
    } else if d == 5 {
    } else if d == 6 {
    } else if d == 7 {
    } else if d == 8 {
    } else if d == 9 {
    } else if d == 10 {
    } else if d == 11 {
    } else if d == 12 {
    } else if d == 13 {
    } else if d == 14 {
    } else {
    }
}

proof fn lemma_unescape_step(c: char, rest: Seq<char>)
    ensures
        toml_unescape(toml_escape_char(c) + rest) == prepend(c, toml_unescape(rest)),
{
    let t = toml_escape_char(c) + rest;
    if c == '"' || c == '\\' || c == '\u{8}' || c == '\t' || c == '\n' || c == '\u{c}' || c
        == '\r' {
        assert(t.skip(2) =~= rest);
    } else if is_toml_control(c) {
        let x = (c as u32) as int;
        lemma_hex_digit(x / 16);
        lemma_hex_digit(x % 16);
        assert(t.subrange(2, 6) =~= seq!['0', '0', hex_digit(x / 16), hex_digit(x % 16)]);
        assert(hex4(t.subrange(2, 6)) == Some(16 * (x / 16) + x % 16));
        assert(16 * (x / 16) + x % 16 == x);
        assert(t.skip(6) =~= rest);
    } else {
        assert(t.skip(1) =~= rest);
    }
}

/// A value written as a TOML basic string reads back as exactly that value,
/// whatever characters it holds.
pub proof fn law_toml_string_reads_back(s: Seq<char>)
    ensures
        read_toml_string(toml_string(s)) == Some(s),
{
    let v = toml_string(s);
    assert(v.subrange(1, v.len() - 1) =~= toml_escape(s));
    lemma_unescape_escape(s);
}

proof fn lemma_unescape_escape(s: Seq<char>)
    ensures
        toml_unescape(toml_escape(s)) == Some(s),
    decreases s.len(),
{
    if s.len() == 0 {
    } else {
        let tail = s.drop_first();
        assert(s =~= seq![s[0]] + tail);
        lemma_escape_concat(seq![s[0]], tail);
        let one = seq![s[0]];
        assert(one.drop_last() =~= Seq::<char>::empty());
        assert(toml_escape(one.drop_last()) =~= Seq::<char>::empty());
        assert(one.last() == s[0]);
        assert(toml_escape(one) =~= toml_escape_char(s[0]));
        lemma_unescape_step(s[0], toml_escape(tail));
        lemma_unescape_escape(tail);
        assert(seq![s[0]] + tail =~= s);
    }
}

} // verus!
