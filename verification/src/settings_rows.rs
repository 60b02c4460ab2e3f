//! The rows of each settings page, filtered by the search text, and which
//! rows show as checked, selected or current.
use vstd::prelude::*;

use crate::pane_template::{template_at, template_description_spec, template_name_spec, PaneTemplateId};
use crate::settings_catalog::{
    available_catalog, catalog_blurb, catalog_entries_available, catalog_name,
    installed_plugins_sorted, plugin_id_order, plugin_ids_distinct, scrollback_bytes,
    scrollback_label, scrollback_preset, SettingsItemId,
};
use crate::settings_config::{
    agent_panel_sort_label, clipboard_position_name, clipboard_toast_label, default_shell_display,
    experiment_at, host_cursor_label, new_terminal_cwd_label, shell_mode_label,
    sidebar_collapsed_mode_label, toast_herdr_position_label, toast_herdr_position_name,
    AgentPanelSort, ExperimentSetting, HostCursorModeConfig, NewTerminalCwdConfig, ShellModeConfig,
    SidebarCollapsedModeConfig, ToastDelivery, UpdateChannelConfig,
};
use crate::settings_input::normalize_theme;
use crate::settings_state::{experiment_enabled_spec, SettingsActionView, SettingsPrefs, SettingsState};
use crate::spinner::{active_spinner_category, category_styles_spec, config_name_spec};
use crate::text::{dec, find, lower_seq};

verus! {

/// The pages of the settings list.
#[derive(Debug, Clone, Copy, PartialEq, Eq, Structural)]
pub enum SettingsPage {
    Appearance,
    Layout,
    Input,
    Terminal,
    Notifications,
    Agents,
    Plugins,
    Updates,
    Advanced,
}

/// How a row is drawn.
#[derive(Debug, Clone, Copy, PartialEq, Eq, Structural)]
pub enum SettingsRowKind {
    Toggle,
    Choice,
    Theme,
    Spinner,
    Template,
    Integration,
    Note,
}

/// One row of a settings page.
#[derive(Debug)]
pub struct SettingsRow {
    pub label: String,
    pub detail: Option<String>,
    pub kind: SettingsRowKind,
    pub id: SettingsItemId,
}

/// A row with its texts as character sequences.
pub struct RowView {
    pub label: Seq<char>,
    pub detail: Option<Seq<char>>,
    pub kind: SettingsRowKind,
    pub id: SettingsItemId,
}

pub open spec fn opt_seq(o: Option<String>) -> Option<Seq<char>> {
    match o {
        Some(s) => Some(s@),
        None => None,
    }
}

impl View for SettingsRow {
    type V = RowView;

    open spec fn view(&self) -> RowView {
        RowView { label: self.label@, detail: opt_seq(self.detail), kind: self.kind, id: self.id }
    }
}

pub open spec fn rows_view(rows: Seq<SettingsRow>) -> Seq<RowView> {
    rows.map_values(|r: SettingsRow| r@)
}

pub open spec fn rv(
    label: Seq<char>,
    detail: Option<Seq<char>>,
    kind: SettingsRowKind,
    id: SettingsItemId,
) -> RowView {
    RowView { label, detail, kind, id }
}

fn lit(s: &str) -> (r: String)
    ensures
        r@ == s@,
{
    crate::text::string_of(&crate::text::chars_of(s))
}

fn push_row(
    rows: &mut Vec<SettingsRow>,
    label: String,
    detail: Option<String>,
    kind: SettingsRowKind,
    id: SettingsItemId,
)
    ensures
        rows_view(final(rows)@) == rows_view(old(rows)@).push(rv(label@, opt_seq(detail), kind, id)),
{
    let ghost before = rows@;
    let row = SettingsRow { label, detail, kind, id };
    rows.push(row);
    assert(rows_view(rows@) =~= rows_view(before).push(row@));
}

// ── labels the pages show ──────────────────────────────────────────────

/// Label of an experiment's row.
pub open spec fn experiment_label_spec(e: ExperimentSetting) -> Seq<char> {
    match e {
        ExperimentSetting::PaneHistory => "pane screen history"@,
        ExperimentSetting::SwitchAsciiInputSourceInPrefix => "switch to ascii input source in prefix (macOS)"@,
        ExperimentSetting::KittyGraphics => "kitty graphics protocol"@,
        ExperimentSetting::AllowNested => "allow nested herdr"@,
        ExperimentSetting::RevealHiddenCursorForCjkIme => "reveal hidden cursor for CJK IME"@,
    }
}

impl ExperimentSetting {
    pub fn label(self) -> (r: &'static str)
        ensures
            r@ == experiment_label_spec(self),
    {
        match self {
            ExperimentSetting::PaneHistory => "pane screen history",
            ExperimentSetting::SwitchAsciiInputSourceInPrefix => "switch to ascii input source in prefix (macOS)",
            ExperimentSetting::KittyGraphics => "kitty graphics protocol",
            ExperimentSetting::AllowNested => "allow nested herdr",
            ExperimentSetting::RevealHiddenCursorForCjkIme => "reveal hidden cursor for CJK IME",
        }
    }
}

pub open spec fn toast_delivery_label(d: ToastDelivery) -> Seq<char> {
    match d {
        ToastDelivery::Off => "toast off"@,
        ToastDelivery::Herdr => "toast inside herdr"@,
        ToastDelivery::Terminal => "toast via terminal"@,
        ToastDelivery::System => "toast via system"@,
    }
}

pub open spec fn delivery_at(i: int) -> ToastDelivery {
    if i == 0 {
        ToastDelivery::Off
    } else if i == 1 {
        ToastDelivery::Herdr
    } else if i == 2 {
        ToastDelivery::Terminal
    } else {
        ToastDelivery::System
    }
}

pub open spec fn sidebar_label(m: SidebarCollapsedModeConfig) -> Seq<char> {
    match m {
        SidebarCollapsedModeConfig::Compact => "compact"@,
        SidebarCollapsedModeConfig::Hidden => "hidden"@,
    }
}

pub open spec fn sort_label(s: AgentPanelSort) -> Seq<char> {
    match s {
        AgentPanelSort::Spaces => "spaces"@,
        AgentPanelSort::Priority => "priority"@,
    }
}

pub open spec fn host_label(m: HostCursorModeConfig) -> Seq<char> {
    match m {
        HostCursorModeConfig::Auto => "auto"@,
        HostCursorModeConfig::Native => "native"@,
        HostCursorModeConfig::Drawn => "drawn"@,
    }
}

pub open spec fn shell_label(m: ShellModeConfig) -> Seq<char> {
    match m {
        ShellModeConfig::Auto => "auto"@,
        ShellModeConfig::Login => "login"@,
        ShellModeConfig::NonLogin => "non_login"@,
    }
}

pub open spec fn cwd_label(c: NewTerminalCwdConfig) -> Seq<char> {
    match c {
        NewTerminalCwdConfig::Follow => "follow"@,
        NewTerminalCwdConfig::Home => "home"@,
        NewTerminalCwdConfig::Current => "current"@,
        NewTerminalCwdConfig::Path(p) => p@,
    }
}

pub open spec fn shell_display(shell: Seq<char>) -> Seq<char> {
    if shell.len() == 0 {
        "SHELL or /bin/sh"@
    } else {
        shell
    }
}

pub open spec fn clipboard_label(p: SettingsPrefs) -> Seq<char> {
    if p.clipboard_toast_enabled {
        "on \u{b7} "@ + clipboard_position_name(p.clipboard_toast_position)
    } else {
        "off"@
    }
}

// ── the rows of each page ──────────────────────────────────────────────

pub open spec fn theme_row(p: SettingsPrefs, i: int) -> RowView {
    rv(p.theme_names@[i]@, None, SettingsRowKind::Theme, SettingsItemId::Theme { index: i as usize })
}

/// Spinner rows show each style of the shown category under its
/// configuration name.
pub open spec fn spinner_row(cat: int, i: int) -> RowView {
    rv(
        config_name_spec(category_styles_spec(cat)[i]),
        None,
        SettingsRowKind::Spinner,
        SettingsItemId::Spinner { index: i as usize },
    )
}

pub open spec fn shown_category(s: SettingsState) -> int {
    if s.spinner_category < 5 {
        s.spinner_category as int
    } else {
        0
    }
}

pub open spec fn appearance_rows(s: SettingsState) -> Seq<RowView> {
    let p = s.prefs;
    seq![
        rv(
            "auto-switch theme with host"@,
            Some("follow terminal light/dark appearance"@),
            SettingsRowKind::Toggle,
            SettingsItemId::ThemeAutoSwitch,
        ),
    ] + Seq::new(p.theme_names@.len(), |i: int| theme_row(p, i)) + Seq::new(
        16,
        |i: int| spinner_row(shown_category(s), i),
    )
}

pub open spec fn template_row(i: int) -> RowView {
    rv(
        template_name_spec(template_at(i)),
        Some(template_description_spec(template_at(i))),
        SettingsRowKind::Template,
        SettingsItemId::PaneTemplate { index: i as usize },
    )
}

pub open spec fn layout_rows(p: SettingsPrefs) -> Seq<RowView> {
    seq![
        rv("pane borders"@, Some("draw borders around split panes"@), SettingsRowKind::Toggle, SettingsItemId::PaneBorders),
        rv("pane gaps"@, Some("keep split panes visually separated"@), SettingsRowKind::Toggle, SettingsItemId::PaneGaps),
        rv("agent labels"@, Some("show agent names in pane borders"@), SettingsRowKind::Toggle, SettingsItemId::AgentLabels),
        rv("hide tab bar"@, Some("hide tab row when only one tab"@), SettingsRowKind::Toggle, SettingsItemId::HideTabBar),
        rv("sidebar collapsed mode"@, Some(sidebar_label(p.sidebar_collapsed_mode)), SettingsRowKind::Choice, SettingsItemId::SidebarCollapsedMode),
        rv("agent panel sort"@, Some(sort_label(p.agent_panel_sort)), SettingsRowKind::Choice, SettingsItemId::AgentPanelSort),
    ] + Seq::new(10, |i: int| template_row(i))
}

pub open spec fn input_rows(p: SettingsPrefs) -> Seq<RowView> {
    seq![
        rv("mouse capture"@, Some("capture mouse for Herdr UI chrome"@), SettingsRowKind::Toggle, SettingsItemId::MouseCapture),
        rv("copy on select"@, Some("copy selected terminal text to clipboard"@), SettingsRowKind::Toggle, SettingsItemId::CopyOnSelect),
        rv("redraw on focus gained"@, Some("refresh panes when Herdr regains focus"@), SettingsRowKind::Toggle, SettingsItemId::RedrawOnFocusGained),
        rv("confirm close"@, Some("ask before closing tabs and workspaces"@), SettingsRowKind::Toggle, SettingsItemId::ConfirmClose),
        rv("prompt new tab name"@, Some("ask for a name when creating tabs"@), SettingsRowKind::Toggle, SettingsItemId::PromptNewTabName),
        rv("prompt new workspace name"@, Some("ask for a name when creating workspaces"@), SettingsRowKind::Toggle, SettingsItemId::PromptNewWorkspaceName),
        rv("host cursor"@, Some(host_label(p.host_cursor)), SettingsRowKind::Choice, SettingsItemId::HostCursor),
        rv("keybind help"@, Some("press "@ + p.prefix_key_label@ + "+? or open prefix help"@), SettingsRowKind::Note, SettingsItemId::KeybindHelp),
    ]
}

pub open spec fn scrollback_row(i: int) -> RowView {
    rv(
        "scrollback "@ + scrollback_label(i),
        None,
        SettingsRowKind::Choice,
        SettingsItemId::ScrollbackPreset { index: i as usize },
    )
}

pub open spec fn terminal_rows(p: SettingsPrefs) -> Seq<RowView> {
    seq![
        rv("default shell"@, Some(shell_display(p.default_shell@)), SettingsRowKind::Choice, SettingsItemId::DefaultShell),
        rv("shell mode"@, Some(shell_label(p.shell_mode)), SettingsRowKind::Choice, SettingsItemId::ShellMode),
        rv("new pane cwd"@, Some(cwd_label(p.new_terminal_cwd)), SettingsRowKind::Choice, SettingsItemId::NewTerminalCwd),
    ] + Seq::new(4, |i: int| scrollback_row(i))
}

pub open spec fn delivery_row(i: int) -> RowView {
    rv(
        toast_delivery_label(delivery_at(i)),
        None,
        SettingsRowKind::Choice,
        SettingsItemId::ToastDelivery { delivery: delivery_at(i) },
    )
}

pub open spec fn notification_rows(p: SettingsPrefs) -> Seq<RowView> {
    seq![rv("sound alerts"@, None, SettingsRowKind::Toggle, SettingsItemId::SoundAlerts)] + Seq::new(
        4,
        |i: int| delivery_row(i),
    ) + seq![
        rv("toast delay"@, Some(dec(p.toast_delay_seconds as nat) + "s"@), SettingsRowKind::Choice, SettingsItemId::ToastDelay),
        rv("herdr toast position"@, Some(toast_herdr_position_name(p.toast_herdr_position)), SettingsRowKind::Choice, SettingsItemId::ToastHerdrPosition),
        rv("clipboard toast"@, Some(clipboard_label(p)), SettingsRowKind::Choice, SettingsItemId::ClipboardToast),
    ]
}

pub open spec fn status_label_spec(r: crate::settings_state::IntegrationRecommendation) -> Seq<char> {
    match r.state {
        crate::settings_state::IntegrationStatusKind::NotInstalled => "not installed"@,
        crate::settings_state::IntegrationStatusKind::Current => "up to date"@,
        crate::settings_state::IntegrationStatusKind::Outdated => "update available"@,
    }
}

pub open spec fn integration_row(p: SettingsPrefs, i: int) -> RowView {
    rv(
        p.integration_recommendations@[i].label@,
        Some(status_label_spec(p.integration_recommendations@[i])),
        SettingsRowKind::Integration,
        SettingsItemId::Integration { index: i as usize },
    )
}

pub open spec fn agents_rows(p: SettingsPrefs) -> Seq<RowView> {
    let n = p.integration_recommendations@.len();
    seq![
        rv(
            "resume agents on restore"@,
            Some("resume supported agent sessions when restoring"@),
            SettingsRowKind::Toggle,
            SettingsItemId::ResumeAgentsOnRestore,
        ),
    ] + Seq::new(n, |i: int| integration_row(p, i)) + if n == 0 {
        seq![
            rv(
                "no supported agent CLIs found on PATH"@,
                None,
                SettingsRowKind::Note,
                SettingsItemId::IntegrationsEmpty,
            ),
        ]
    } else {
        Seq::empty()
    }
}

pub open spec fn installed_row(p: SettingsPrefs, i: int) -> RowView {
    let plugin = p.installed_plugins@[plugin_id_order(p.installed_plugins@)[i]];
    rv(
        plugin.name@,
        Some(
            if plugin.enabled {
                "on"@
            } else {
                "off"@
            },
        ),
        SettingsRowKind::Toggle,
        SettingsItemId::InstalledPlugin { index: i as usize },
    )
}

pub open spec fn catalog_row(p: SettingsPrefs, i: int) -> RowView {
    let c = available_catalog(p.installed_plugins@)[i];
    rv(
        catalog_name(c),
        Some(catalog_blurb(c)),
        SettingsRowKind::Integration,
        SettingsItemId::CatalogPlugin { index: i as usize },
    )
}

pub open spec fn plugins_rows(p: SettingsPrefs) -> Seq<RowView> {
    let n = p.installed_plugins@.len();
    let a = available_catalog(p.installed_plugins@).len();
    seq![
        rv(
            "your plugins"@,
            Some("toggle to enable or disable"@),
            SettingsRowKind::Note,
            SettingsItemId::PluginsInstalledHeader,
        ),
    ] + (if n == 0 {
        seq![
            rv(
                "nothing installed yet"@,
                Some("pick something below to add"@),
                SettingsRowKind::Note,
                SettingsItemId::PluginsEmpty,
            ),
        ]
    } else {
        Seq::new(n, |i: int| installed_row(p, i))
    }) + (if a == 0 {
        Seq::empty()
    } else {
        seq![
            rv(
                "available to install"@,
                Some("enter installs in one step"@),
                SettingsRowKind::Note,
                SettingsItemId::PluginsCatalogHeader,
            ),
        ] + Seq::new(a, |i: int| catalog_row(p, i))
    })
}

pub open spec fn updates_rows() -> Seq<RowView> {
    seq![
        rv("stable channel"@, None, SettingsRowKind::Choice, SettingsItemId::UpdateChannelStable),
        rv("preview channel"@, None, SettingsRowKind::Choice, SettingsItemId::UpdateChannelPreview),
        rv("version check"@, Some("check for herdr updates in the background"@), SettingsRowKind::Toggle, SettingsItemId::VersionCheck),
        rv("manifest check"@, Some("check for agent detection manifest updates"@), SettingsRowKind::Toggle, SettingsItemId::ManifestCheck),
    ]
}

pub open spec fn experiment_row(i: int) -> RowView {
    rv(
        experiment_label_spec(experiment_at(i)),
        None,
        SettingsRowKind::Toggle,
        SettingsItemId::Experiment(experiment_at(i)),
    )
}

pub open spec fn advanced_rows(p: SettingsPrefs) -> Seq<RowView> {
    Seq::new(5, |i: int| experiment_row(i)) + seq![
        rv("fleet ops bar"@, Some("show fleet operations bar above the terminal"@), SettingsRowKind::Toggle, SettingsItemId::FleetOpsBar),
        rv("manage ssh config"@, Some("add keepalive fallbacks for herdr --remote"@), SettingsRowKind::Toggle, SettingsItemId::ManageSshConfig),
        rv("clipboard history"@, Some("retain recent global clipboard entries"@), SettingsRowKind::Toggle, SettingsItemId::ClipboardHistory),
        rv("worktrees path"@, Some(p.worktree_directory@), SettingsRowKind::Note, SettingsItemId::WorktreesPath),
        rv("reload config"@, Some("prefix reload or herdr server reload-config"@), SettingsRowKind::Note, SettingsItemId::ReloadConfig),
        rv("config file"@, Some(p.config_path@), SettingsRowKind::Note, SettingsItemId::ConfigFile),
    ]
}

/// Every row of a page, before filtering.
pub open spec fn page_rows(s: SettingsState, page: SettingsPage) -> Seq<RowView> {
    match page {
        SettingsPage::Appearance => appearance_rows(s),
        SettingsPage::Layout => layout_rows(s.prefs),
        SettingsPage::Input => input_rows(s.prefs),
        SettingsPage::Terminal => terminal_rows(s.prefs),
        SettingsPage::Notifications => notification_rows(s.prefs),
        SettingsPage::Agents => agents_rows(s.prefs),
        SettingsPage::Plugins => plugins_rows(s.prefs),
        SettingsPage::Updates => updates_rows(),
        SettingsPage::Advanced => advanced_rows(s.prefs),
    }
}

/// A row matches the search when the search is empty or occurs, ignoring
/// ASCII case, in the row's label or detail.
pub open spec fn matches_filter_spec(filter: Seq<char>, label: Seq<char>, detail: Option<Seq<char>>) -> bool {
    filter.len() == 0 || find(lower_seq(label), lower_seq(filter)) is Some || match detail {
        Some(d) => find(lower_seq(d), lower_seq(filter)) is Some,
        None => false,
    }
}

pub open spec fn row_matches(filter: Seq<char>, r: RowView) -> bool {
    matches_filter_spec(filter, r.label, r.detail)
}

/// The rows a page shows: its rows that match the search, in order.
pub open spec fn section_rows_spec(s: SettingsState, page: SettingsPage) -> Seq<RowView> {
    page_rows(s, page).filter(|r: RowView| row_matches(s.search@, r))
}

// ── building the pages ─────────────────────────────────────────────────

fn appearance(s: &SettingsState) -> (rows: Vec<SettingsRow>)
    ensures
        rows_view(rows@) == appearance_rows(*s),
{
    let p = &s.prefs;
    let mut rows: Vec<SettingsRow> = Vec::new();
    push_row(
        &mut rows,
        lit("auto-switch theme with host"),
        Some(lit("follow terminal light/dark appearance")),
        SettingsRowKind::Toggle,
        SettingsItemId::ThemeAutoSwitch,
    );
    let ghost head = rows_view(rows@);
    let mut i: usize = 0;
    while i < p.theme_names.len()
        invariant
            i <= p.theme_names.len(),
            head.len() == 1,
            rows_view(rows@) == head + Seq::new(i as nat, |k: int| theme_row(*p, k)),
        decreases p.theme_names.len() - i,
    {
        let name = lit(p.theme_names[i].as_str());
        push_row(&mut rows, name, None, SettingsRowKind::Theme, SettingsItemId::Theme { index: i });
        assert(head + Seq::new((i + 1) as nat, |k: int| theme_row(*p, k)) =~= (head + Seq::new(
            i as nat,
            |k: int| theme_row(*p, k),
        )).push(theme_row(*p, i as int)));
        i = i + 1;
    }
    let ghost mid = rows_view(rows@);
    let category = active_spinner_category(s.spinner_category);
    let mut j: usize = 0;
    while j < category.styles.len()
        invariant
            j <= category.styles.len(),
            category.styles@ == category_styles_spec(shown_category(*s)),
            rows_view(rows@) == mid + Seq::new(j as nat, |k: int| spinner_row(shown_category(*s), k)),
        decreases category.styles.len() - j,
    {
        let name = lit(category.styles[j].config_name());
        push_row(&mut rows, name, None, SettingsRowKind::Spinner, SettingsItemId::Spinner { index: j });
        assert(mid + Seq::new((j + 1) as nat, |k: int| spinner_row(shown_category(*s), k)) =~= (mid
            + Seq::new(j as nat, |k: int| spinner_row(shown_category(*s), k))).push(
            spinner_row(shown_category(*s), j as int),
        ));
        j = j + 1;
    }
    assert(rows_view(rows@) =~= appearance_rows(*s));
    rows
}

fn layout(p: &SettingsPrefs) -> (rows: Vec<SettingsRow>)
    ensures
        rows_view(rows@) == layout_rows(*p),
{
    let mut rows: Vec<SettingsRow> = Vec::new();
    push_row(&mut rows, lit("pane borders"), Some(lit("draw borders around split panes")), SettingsRowKind::Toggle, SettingsItemId::PaneBorders);
    push_row(&mut rows, lit("pane gaps"), Some(lit("keep split panes visually separated")), SettingsRowKind::Toggle, SettingsItemId::PaneGaps);
    push_row(&mut rows, lit("agent labels"), Some(lit("show agent names in pane borders")), SettingsRowKind::Toggle, SettingsItemId::AgentLabels);
    push_row(&mut rows, lit("hide tab bar"), Some(lit("hide tab row when only one tab")), SettingsRowKind::Toggle, SettingsItemId::HideTabBar);
    push_row(&mut rows, lit("sidebar collapsed mode"), Some(sidebar_collapsed_mode_label(p.sidebar_collapsed_mode)), SettingsRowKind::Choice, SettingsItemId::SidebarCollapsedMode);
    push_row(&mut rows, lit("agent panel sort"), Some(agent_panel_sort_label(p.agent_panel_sort)), SettingsRowKind::Choice, SettingsItemId::AgentPanelSort);
    let ghost head = rows_view(rows@);
    let mut i: usize = 0;
    while i < crate::pane_template::PANE_TEMPLATE_COUNT
        invariant
            i <= 10,
            rows_view(rows@) == head + Seq::new(i as nat, |k: int| template_row(k)),
        decreases 10 - i,
    {
        match PaneTemplateId::from_index(i) {
            Some(id) => {
                let t = id.template();
                push_row(&mut rows, lit(t.name), Some(lit(t.description)), SettingsRowKind::Template, SettingsItemId::PaneTemplate { index: i });
            },
            None => {},
        }
        assert(head + Seq::new((i + 1) as nat, |k: int| template_row(k)) =~= (head + Seq::new(
            i as nat,
            |k: int| template_row(k),
        )).push(template_row(i as int)));
        i = i + 1;
    }
    assert(rows_view(rows@) =~= layout_rows(*p));
    rows
}

fn input(p: &SettingsPrefs) -> (rows: Vec<SettingsRow>)
    ensures
        rows_view(rows@) == input_rows(*p),
{
    let mut rows: Vec<SettingsRow> = Vec::new();
    push_row(&mut rows, lit("mouse capture"), Some(lit("capture mouse for Herdr UI chrome")), SettingsRowKind::Toggle, SettingsItemId::MouseCapture);
    push_row(&mut rows, lit("copy on select"), Some(lit("copy selected terminal text to clipboard")), SettingsRowKind::Toggle, SettingsItemId::CopyOnSelect);
    push_row(&mut rows, lit("redraw on focus gained"), Some(lit("refresh panes when Herdr regains focus")), SettingsRowKind::Toggle, SettingsItemId::RedrawOnFocusGained);
    push_row(&mut rows, lit("confirm close"), Some(lit("ask before closing tabs and workspaces")), SettingsRowKind::Toggle, SettingsItemId::ConfirmClose);
    push_row(&mut rows, lit("prompt new tab name"), Some(lit("ask for a name when creating tabs")), SettingsRowKind::Toggle, SettingsItemId::PromptNewTabName);
    push_row(&mut rows, lit("prompt new workspace name"), Some(lit("ask for a name when creating workspaces")), SettingsRowKind::Toggle, SettingsItemId::PromptNewWorkspaceName);
    push_row(&mut rows, lit("host cursor"), Some(host_cursor_label(p.host_cursor)), SettingsRowKind::Choice, SettingsItemId::HostCursor);
    let mut help = crate::text::chars_of("press ");
    crate::text::push_str(&mut help, p.prefix_key_label.as_str());
    crate::text::push_str(&mut help, "+? or open prefix help");
    push_row(&mut rows, lit("keybind help"), Some(crate::text::string_of(&help)), SettingsRowKind::Note, SettingsItemId::KeybindHelp);
    assert(rows_view(rows@) =~= input_rows(*p));
    rows
}

fn terminal(p: &SettingsPrefs) -> (rows: Vec<SettingsRow>)
    ensures
        rows_view(rows@) == terminal_rows(*p),
{
    let mut rows: Vec<SettingsRow> = Vec::new();
    push_row(&mut rows, lit("default shell"), Some(default_shell_display(p.default_shell.as_str())), SettingsRowKind::Choice, SettingsItemId::DefaultShell);
    push_row(&mut rows, lit("shell mode"), Some(shell_mode_label(p.shell_mode)), SettingsRowKind::Choice, SettingsItemId::ShellMode);
    push_row(&mut rows, lit("new pane cwd"), Some(new_terminal_cwd_label(&p.new_terminal_cwd)), SettingsRowKind::Choice, SettingsItemId::NewTerminalCwd);
    let ghost head = rows_view(rows@);
    let mut i: usize = 0;
    while i < crate::settings_catalog::SCROLLBACK_PRESET_COUNT
        invariant
            i <= 4,
            rows_view(rows@) == head + Seq::new(i as nat, |k: int| scrollback_row(k)),
        decreases 4 - i,
    {
        let (_bytes, label) = scrollback_preset(i);
        let mut text = crate::text::chars_of("scrollback ");
        crate::text::push_str(&mut text, label);
        push_row(&mut rows, crate::text::string_of(&text), None, SettingsRowKind::Choice, SettingsItemId::ScrollbackPreset { index: i });
        assert(head + Seq::new((i + 1) as nat, |k: int| scrollback_row(k)) =~= (head + Seq::new(
            i as nat,
            |k: int| scrollback_row(k),
        )).push(scrollback_row(i as int)));
        i = i + 1;
    }
    assert(rows_view(rows@) =~= terminal_rows(*p));
    rows
}

fn notifications(p: &SettingsPrefs) -> (rows: Vec<SettingsRow>)
    ensures
        rows_view(rows@) == notification_rows(*p),
{
    let mut rows: Vec<SettingsRow> = Vec::new();
    push_row(&mut rows, lit("sound alerts"), None, SettingsRowKind::Toggle, SettingsItemId::SoundAlerts);
    push_row(&mut rows, lit("toast off"), None, SettingsRowKind::Choice, SettingsItemId::ToastDelivery { delivery: ToastDelivery::Off });
    push_row(&mut rows, lit("toast inside herdr"), None, SettingsRowKind::Choice, SettingsItemId::ToastDelivery { delivery: ToastDelivery::Herdr });
    push_row(&mut rows, lit("toast via terminal"), None, SettingsRowKind::Choice, SettingsItemId::ToastDelivery { delivery: ToastDelivery::Terminal });
    push_row(&mut rows, lit("toast via system"), None, SettingsRowKind::Choice, SettingsItemId::ToastDelivery { delivery: ToastDelivery::System });
    let mut delay = crate::text::dec_string(p.toast_delay_seconds);
    crate::text::push_str(&mut delay, "s");
    push_row(&mut rows, lit("toast delay"), Some(crate::text::string_of(&delay)), SettingsRowKind::Choice, SettingsItemId::ToastDelay);
    push_row(&mut rows, lit("herdr toast position"), Some(toast_herdr_position_label(p.toast_herdr_position)), SettingsRowKind::Choice, SettingsItemId::ToastHerdrPosition);
    push_row(&mut rows, lit("clipboard toast"), Some(clipboard_toast_label(p.clipboard_toast_enabled, p.clipboard_toast_position)), SettingsRowKind::Choice, SettingsItemId::ClipboardToast);
    assert(Seq::new(4, |i: int| delivery_row(i)) =~= seq![delivery_row(0), delivery_row(1), delivery_row(2), delivery_row(3)]);
    assert(rows_view(rows@) =~= notification_rows(*p));
    rows
}

fn agents(p: &SettingsPrefs) -> (rows: Vec<SettingsRow>)
    ensures
        rows_view(rows@) == agents_rows(*p),
{
    let mut rows: Vec<SettingsRow> = Vec::new();
    push_row(&mut rows, lit("resume agents on restore"), Some(lit("resume supported agent sessions when restoring")), SettingsRowKind::Toggle, SettingsItemId::ResumeAgentsOnRestore);
    let ghost head = rows_view(rows@);
    let recs = &p.integration_recommendations;
    let mut i: usize = 0;
    while i < recs.len()
        invariant
            i <= recs.len(),
            recs@ == p.integration_recommendations@,
            rows_view(rows@) == head + Seq::new(i as nat, |k: int| integration_row(*p, k)),
        decreases recs.len() - i,
    {
        let item = &recs[i];
        push_row(&mut rows, lit(item.label.as_str()), Some(lit(item.status_label())), SettingsRowKind::Integration, SettingsItemId::Integration { index: i });
        assert(head + Seq::new((i + 1) as nat, |k: int| integration_row(*p, k)) =~= (head + Seq::new(
            i as nat,
            |k: int| integration_row(*p, k),
        )).push(integration_row(*p, i as int)));
        i = i + 1;
    }
    if recs.len() == 0 {
        push_row(&mut rows, lit("no supported agent CLIs found on PATH"), None, SettingsRowKind::Note, SettingsItemId::IntegrationsEmpty);
    }
    assert(rows_view(rows@) =~= agents_rows(*p));
    rows
}

fn plugins(p: &SettingsPrefs) -> (rows: Vec<SettingsRow>)
    requires
        plugin_ids_distinct(p.installed_plugins@),
    ensures
        rows_view(rows@) == plugins_rows(*p),
{
    let mut rows: Vec<SettingsRow> = Vec::new();
    push_row(&mut rows, lit("your plugins"), Some(lit("toggle to enable or disable")), SettingsRowKind::Note, SettingsItemId::PluginsInstalledHeader);
    let order = installed_plugins_sorted(p);
    let ghost ord = plugin_id_order(p.installed_plugins@);
    let ghost head = rows_view(rows@);
    if order.len() == 0 {
        push_row(&mut rows, lit("nothing installed yet"), Some(lit("pick something below to add")), SettingsRowKind::Note, SettingsItemId::PluginsEmpty);
    } else {
        let mut i: usize = 0;
        while i < order.len()
            invariant
                i <= order.len(),
                crate::order::as_ints(order@) == ord,
                crate::order::is_key_order(crate::settings_catalog::plugin_keys(p.installed_plugins@), ord),
                ord == plugin_id_order(p.installed_plugins@),
                rows_view(rows@) == head + Seq::new(i as nat, |k: int| installed_row(*p, k)),
            decreases order.len() - i,
        {
            assert(ord[i as int] == order@[i as int] as int);
            let plugin = &p.installed_plugins[order[i]];
            let state = if plugin.enabled {
                lit("on")
            } else {
                lit("off")
            };
            push_row(&mut rows, lit(plugin.name.as_str()), Some(state), SettingsRowKind::Toggle, SettingsItemId::InstalledPlugin { index: i });
            assert(head + Seq::new((i + 1) as nat, |k: int| installed_row(*p, k)) =~= (head
                + Seq::new(i as nat, |k: int| installed_row(*p, k))).push(installed_row(*p, i as int)));
            i = i + 1;
        }
    }
    let ghost mid = rows_view(rows@);
    let catalog = catalog_entries_available(p);
    if catalog.len() > 0 {
        push_row(&mut rows, lit("available to install"), Some(lit("enter installs in one step")), SettingsRowKind::Note, SettingsItemId::PluginsCatalogHeader);
        let ghost head2 = rows_view(rows@);
        let mut j: usize = 0;
        while j < catalog.len()
            invariant
                j <= catalog.len(),
                catalog.len() == available_catalog(p.installed_plugins@).len(),
                forall|k: int|
                    0 <= k < catalog.len() ==> crate::settings_catalog::is_catalog_entry(
                        #[trigger] catalog@[k],
                        available_catalog(p.installed_plugins@)[k],
                    ),
                rows_view(rows@) == head2 + Seq::new(j as nat, |k: int| catalog_row(*p, k)),
            decreases catalog.len() - j,
        {
            let entry = catalog[j];
            assert(crate::settings_catalog::is_catalog_entry(entry, available_catalog(p.installed_plugins@)[j as int]));
            push_row(&mut rows, lit(entry.name), Some(lit(entry.blurb)), SettingsRowKind::Integration, SettingsItemId::CatalogPlugin { index: j });
            assert(head2 + Seq::new((j + 1) as nat, |k: int| catalog_row(*p, k)) =~= (head2
                + Seq::new(j as nat, |k: int| catalog_row(*p, k))).push(catalog_row(*p, j as int)));
            j = j + 1;
        }
    }
    assert(rows_view(rows@) =~= plugins_rows(*p));
    rows
}

fn updates() -> (rows: Vec<SettingsRow>)
    ensures
        rows_view(rows@) == updates_rows(),
{
    let mut rows: Vec<SettingsRow> = Vec::new();
    push_row(&mut rows, lit("stable channel"), None, SettingsRowKind::Choice, SettingsItemId::UpdateChannelStable);
    push_row(&mut rows, lit("preview channel"), None, SettingsRowKind::Choice, SettingsItemId::UpdateChannelPreview);
    push_row(&mut rows, lit("version check"), Some(lit("check for herdr updates in the background")), SettingsRowKind::Toggle, SettingsItemId::VersionCheck);
    push_row(&mut rows, lit("manifest check"), Some(lit("check for agent detection manifest updates")), SettingsRowKind::Toggle, SettingsItemId::ManifestCheck);
    assert(rows_view(rows@) =~= updates_rows());
    rows
}

fn advanced(p: &SettingsPrefs) -> (rows: Vec<SettingsRow>)
    ensures
        rows_view(rows@) == advanced_rows(*p),
{
    let mut rows: Vec<SettingsRow> = Vec::new();
    let mut i: usize = 0;
    while i < crate::settings_config::EXPERIMENT_COUNT
        invariant
            i <= 5,
            rows_view(rows@) == Seq::new(i as nat, |k: int| experiment_row(k)),
        decreases 5 - i,
    {
        match ExperimentSetting::from_index(i) {
            Some(e) => {
                push_row(&mut rows, lit(e.label()), None, SettingsRowKind::Toggle, SettingsItemId::Experiment(e));
            },
            None => {},
        }
        assert(Seq::new((i + 1) as nat, |k: int| experiment_row(k)) =~= Seq::new(
            i as nat,
            |k: int| experiment_row(k),
        ).push(experiment_row(i as int)));
        i = i + 1;
    }
    push_row(&mut rows, lit("fleet ops bar"), Some(lit("show fleet operations bar above the terminal")), SettingsRowKind::Toggle, SettingsItemId::FleetOpsBar);
    push_row(&mut rows, lit("manage ssh config"), Some(lit("add keepalive fallbacks for herdr --remote")), SettingsRowKind::Toggle, SettingsItemId::ManageSshConfig);
    push_row(&mut rows, lit("clipboard history"), Some(lit("retain recent global clipboard entries")), SettingsRowKind::Toggle, SettingsItemId::ClipboardHistory);
    push_row(&mut rows, lit("worktrees path"), Some(lit(p.worktree_directory.as_str())), SettingsRowKind::Note, SettingsItemId::WorktreesPath);
    push_row(&mut rows, lit("reload config"), Some(lit("prefix reload or herdr server reload-config")), SettingsRowKind::Note, SettingsItemId::ReloadConfig);
    push_row(&mut rows, lit("config file"), Some(lit(p.config_path.as_str())), SettingsRowKind::Note, SettingsItemId::ConfigFile);
    assert(rows_view(rows@) =~= advanced_rows(*p));
    rows
}

fn contains_lower(hay: &str, needle: &Vec<char>) -> (r: bool)
    ensures
        r == (find(lower_seq(hay@), needle@) is Some),
{
    let h = crate::text::lower_chars(&crate::text::chars_of(hay));
    crate::text::find_exec(&h, needle).is_some()
}

/// Whether a row with this label and detail matches the search text.
pub fn matches_filter(filter: &str, label: &str, detail: Option<&str>) -> (r: bool)
    ensures
        r == matches_filter_spec(
            filter@,
            label@,
            match detail {
                Some(d) => Some(d@),
                None => None,
            },
        ),
{
    if filter.unicode_len() == 0 {
        return true;
    }
    let needle = crate::text::lower_chars(&crate::text::chars_of(filter));
    if contains_lower(label, &needle) {
        return true;
    }
    match detail {
        Some(d) => contains_lower(d, &needle),
        None => false,
    }
}

/// The rows settings page `page` shows: all its rows, in order, that match
/// the search text.
pub fn section_rows(s: &SettingsState, page: SettingsPage) -> (rows: Vec<SettingsRow>)
    requires
        plugin_ids_distinct(s.prefs.installed_plugins@),
    ensures
        rows_view(rows@) == section_rows_spec(*s, page),
{
    let all = match page {
        SettingsPage::Appearance => appearance(s),
        SettingsPage::Layout => layout(&s.prefs),
        SettingsPage::Input => input(&s.prefs),
        SettingsPage::Terminal => terminal(&s.prefs),
        SettingsPage::Notifications => notifications(&s.prefs),
        SettingsPage::Agents => agents(&s.prefs),
        SettingsPage::Plugins => plugins(&s.prefs),
        SettingsPage::Updates => updates(),
        SettingsPage::Advanced => advanced(&s.prefs),
    };
    let ghost av = rows_view(all@);
    let ghost pred = |r: RowView| row_matches(s.search@, r);
    let mut kept: Vec<SettingsRow> = Vec::new();
    let mut i: usize = 0;
    while i < all.len()
        invariant
            i <= all.len(),
            av == rows_view(all@),
            pred == (|r: RowView| row_matches(s.search@, r)),
            rows_view(kept@) == av.take(i as int).filter(pred),
        decreases all.len() - i,
    {
        let row = &all[i];
        let detail = match &row.detail {
            Some(d) => Some(d.as_str()),
            None => None,
        };
        proof {
            reveal(Seq::filter);
        }
        assert(av.take(i + 1).drop_last() =~= av.take(i as int));
        assert(av.take(i + 1).last() == av[i as int]);
        assert(av[i as int] == row@);
        let keep = matches_filter(s.search.as_str(), row.label.as_str(), detail);
        assert(keep == pred(av[i as int]));
        if keep {
            push_row(&mut kept, lit(row.label.as_str()), match &row.detail {
                Some(d) => Some(lit(d.as_str())),
                None => None,
            }, row.kind, row.id);
            assert(av.take(i + 1).filter(pred) == av.take(i as int).filter(pred).push(av[i as int]));
        } else {
            assert(av.take(i + 1).filter(pred) == av.take(i as int).filter(pred));
        }
        i = i + 1;
    }
    assert(av.take(all.len() as int) =~= av);
    kept
}

// ── row markers ────────────────────────────────────────────────────────

/// Whether a toggle row shows as checked.
pub open spec fn row_toggle_checked_spec(s: SettingsState, id: SettingsItemId) -> bool {
    let p = s.prefs;
    match id {
        SettingsItemId::ThemeAutoSwitch => p.theme_auto_switch,
        SettingsItemId::PaneBorders => p.pane_borders,
        SettingsItemId::PaneGaps => p.pane_gaps,
        SettingsItemId::AgentLabels => p.agent_border_labels,
        SettingsItemId::HideTabBar => p.hide_tab_bar_when_single_tab,
        SettingsItemId::MouseCapture => p.mouse_capture,
        SettingsItemId::CopyOnSelect => p.copy_on_select,
        SettingsItemId::RedrawOnFocusGained => p.redraw_on_focus_gained,
        SettingsItemId::ConfirmClose => p.confirm_close,
        SettingsItemId::PromptNewTabName => p.prompt_new_tab_name,
        SettingsItemId::PromptNewWorkspaceName => p.prompt_new_workspace_name,
        SettingsItemId::SoundAlerts => p.sound_enabled,
        SettingsItemId::ResumeAgentsOnRestore => p.resume_agents_on_restore,
        SettingsItemId::VersionCheck => p.version_check,
        SettingsItemId::ManifestCheck => p.manifest_check,
        SettingsItemId::Experiment(e) => experiment_enabled_spec(p, e),
        SettingsItemId::ManageSshConfig => p.manage_ssh_config,
        SettingsItemId::ClipboardHistory => p.clipboard_history_enabled,
        SettingsItemId::FleetOpsBar => p.fleet_ops_bar,
        SettingsItemId::InstalledPlugin { index } => index < p.installed_plugins@.len()
            && p.installed_plugins@[plugin_id_order(p.installed_plugins@)[index as int]].enabled,
        _ => false,
    }
}

pub fn row_toggle_checked(s: &SettingsState, row: &SettingsRow) -> (r: bool)
    requires
        plugin_ids_distinct(s.prefs.installed_plugins@),
    ensures
        r == row_toggle_checked_spec(*s, row.id),
{
    let p = &s.prefs;
    match row.id {
        SettingsItemId::ThemeAutoSwitch => p.theme_auto_switch,
        SettingsItemId::PaneBorders => p.pane_borders,
        SettingsItemId::PaneGaps => p.pane_gaps,
        SettingsItemId::AgentLabels => p.agent_border_labels,
        SettingsItemId::HideTabBar => p.hide_tab_bar_when_single_tab,
        SettingsItemId::MouseCapture => p.mouse_capture,
        SettingsItemId::CopyOnSelect => p.copy_on_select,
        SettingsItemId::RedrawOnFocusGained => p.redraw_on_focus_gained,
        SettingsItemId::ConfirmClose => p.confirm_close,
        SettingsItemId::PromptNewTabName => p.prompt_new_tab_name,
        SettingsItemId::PromptNewWorkspaceName => p.prompt_new_workspace_name,
        SettingsItemId::SoundAlerts => p.sound_enabled,
        SettingsItemId::ResumeAgentsOnRestore => p.resume_agents_on_restore,
        SettingsItemId::VersionCheck => p.version_check,
        SettingsItemId::ManifestCheck => p.manifest_check,
        SettingsItemId::Experiment(e) => e.enabled(p),
        SettingsItemId::ManageSshConfig => p.manage_ssh_config,
        SettingsItemId::ClipboardHistory => p.clipboard_history_enabled,
        SettingsItemId::FleetOpsBar => p.fleet_ops_bar,
        SettingsItemId::InstalledPlugin { index } => {
            let order = installed_plugins_sorted(p);
            if index < order.len() {
                assert(crate::order::as_ints(order@)[index as int] == order@[index as int] as int);
                p.installed_plugins[order[index]].enabled
            } else {
                false
            }
        },
        _ => false,
    }
}

/// Whether a choice row shows as the selected choice: the cycling rows
/// always do, presets and channels when they are the current value.
pub open spec fn row_choice_selected_spec(s: SettingsState, id: SettingsItemId) -> bool {
    let p = s.prefs;
    match id {
        SettingsItemId::SidebarCollapsedMode | SettingsItemId::AgentPanelSort
        | SettingsItemId::HostCursor | SettingsItemId::DefaultShell | SettingsItemId::ShellMode
        | SettingsItemId::NewTerminalCwd | SettingsItemId::ToastDelay
        | SettingsItemId::ToastHerdrPosition | SettingsItemId::ClipboardToast => true,
        SettingsItemId::ScrollbackPreset { index } => index < 4 && p.pane_scrollback_limit_bytes
            == scrollback_bytes(index as int),
        SettingsItemId::UpdateChannelStable => p.update_channel == UpdateChannelConfig::Stable,
        SettingsItemId::UpdateChannelPreview => p.update_channel == UpdateChannelConfig::Preview,
        SettingsItemId::ToastDelivery { delivery } => p.toast_delivery == delivery,
        _ => false,
    }
}

pub fn row_choice_selected(s: &SettingsState, row: &SettingsRow) -> (r: bool)
    ensures
        r == row_choice_selected_spec(*s, row.id),
{
    let p = &s.prefs;
    match row.id {
        SettingsItemId::SidebarCollapsedMode | SettingsItemId::AgentPanelSort
        | SettingsItemId::HostCursor | SettingsItemId::DefaultShell | SettingsItemId::ShellMode
        | SettingsItemId::NewTerminalCwd | SettingsItemId::ToastDelay
        | SettingsItemId::ToastHerdrPosition | SettingsItemId::ClipboardToast => true,
        SettingsItemId::ScrollbackPreset { index } => if index < crate::settings_catalog::SCROLLBACK_PRESET_COUNT {
            let (bytes, _label) = scrollback_preset(index);
            p.pane_scrollback_limit_bytes == bytes
        } else {
            false
        },
        SettingsItemId::UpdateChannelStable => p.update_channel == UpdateChannelConfig::Stable,
        SettingsItemId::UpdateChannelPreview => p.update_channel == UpdateChannelConfig::Preview,
        SettingsItemId::ToastDelivery { delivery } => p.toast_delivery == delivery,
        _ => false,
    }
}

/// Two theme names name the same theme when they agree ignoring case,
/// with spaces and underscores read as dashes.
pub fn themes_match(a: &str, b: &str) -> (r: bool)
    ensures
        r == (normalize_theme(a@) == normalize_theme(b@)),
{
    let na = crate::text::chars_of(crate::settings_input::normalize_theme_name(a).as_str());
    let nb = crate::text::chars_of(crate::settings_input::normalize_theme_name(b).as_str());
    crate::text::eq_chars(&na, &nb)
}

/// Whether a theme row is the theme in use.
pub fn row_theme_current(s: &SettingsState, row: &SettingsRow) -> (r: bool)
    ensures
        r == (match row.id {
            SettingsItemId::Theme { index } => index < s.prefs.theme_names@.len() && normalize_theme(
                s.prefs.theme_names@[index as int]@,
            ) == normalize_theme(s.theme_name@),
            _ => false,
        }),
{
    match row.id {
        SettingsItemId::Theme { index } => if index < s.prefs.theme_names.len() {
            themes_match(s.prefs.theme_names[index].as_str(), s.theme_name.as_str())
        } else {
            false
        },
        _ => false,
    }
}

/// Whether a spinner row is the spinner in use.
pub fn row_spinner_current(s: &SettingsState, row: &SettingsRow) -> (r: bool)
    ensures
        r == (match row.id {
            SettingsItemId::Spinner { index } => index < 16 && category_styles_spec(
                shown_category(*s),
            )[index as int] == s.prefs.spinner_style,
            _ => false,
        }),
{
    match row.id {
        SettingsItemId::Spinner { index } => {
            let category = active_spinner_category(s.spinner_category);
            if index < category.styles.len() {
                category.styles[index] == s.prefs.spinner_style
            } else {
                false
            }
        },
        _ => false,
    }
}

proof fn lemma_filter_all<A>(s: Seq<A>, pred: spec_fn(A) -> bool)
    requires
        forall|x: A| #[trigger] pred(x),
    ensures
        s.filter(pred) == s,
    decreases s.len(),
{
    reveal(Seq::filter);
    if s.len() > 0 {
        lemma_filter_all(s.drop_last(), pred);
        assert(s.drop_last().push(s.last()) =~= s);
    }
}

/// With an empty search, a page shows all of its rows.
pub proof fn law_empty_search_shows_every_row(s: SettingsState, page: SettingsPage)
    requires
        s.search@.len() == 0,
    ensures
        section_rows_spec(s, page) == page_rows(s, page),
{
    lemma_filter_all(page_rows(s, page), |r: RowView| row_matches(s.search@, r));
}

/// Every row a page shows is one of its rows and matches the search.
pub proof fn law_shown_rows_match(s: SettingsState, page: SettingsPage, i: int)
    requires
        0 <= i < section_rows_spec(s, page).len(),
    ensures
        row_matches(s.search@, section_rows_spec(s, page)[i]),
        page_rows(s, page).contains(section_rows_spec(s, page)[i]),
{
    let pred = |r: RowView| row_matches(s.search@, r);
    page_rows(s, page).filter_lemma(pred);
    lemma_filter_subset(page_rows(s, page), pred, i);
}

proof fn lemma_filter_subset<A>(s: Seq<A>, pred: spec_fn(A) -> bool, i: int)
    requires
        0 <= i < s.filter(pred).len(),
    ensures
        s.contains(s.filter(pred)[i]),
    decreases s.len(),
{
    reveal(Seq::filter);
    if s.len() > 0 {
        let prev = s.drop_last().filter(pred);
        if i < prev.len() {
            lemma_filter_subset(s.drop_last(), pred, i);
            let j = choose|j: int| 0 <= j < s.drop_last().len() && s.drop_last()[j] == prev[i];
            assert(s[j] == s.filter(pred)[i]);
        } else {
            assert(s[s.len() - 1] == s.filter(pred)[i]);
        }
    }
}

/// The on/off value a settings action saves, for the actions that save one.
pub open spec fn saved_flag(a: SettingsActionView) -> Option<bool> {
    match a {
        SettingsActionView::SaveThemeAutoSwitch(b) | SettingsActionView::SavePaneBorders(b) | SettingsActionView::SavePaneGaps(b)
        | SettingsActionView::SaveAgentBorderLabels(b) | SettingsActionView::SaveHideTabBarWhenSingleTab(b) | SettingsActionView::SaveMouseCapture(b)
        | SettingsActionView::SaveCopyOnSelect(b) | SettingsActionView::SaveRedrawOnFocusGained(b) | SettingsActionView::SaveConfirmClose(b)
        | SettingsActionView::SavePromptNewTabName(b) | SettingsActionView::SavePromptNewWorkspaceName(b) | SettingsActionView::SaveSound(b)
        | SettingsActionView::SaveResumeAgentsOnRestore(b) | SettingsActionView::SaveVersionCheck(b) | SettingsActionView::SaveManifestCheck(b)
        | SettingsActionView::SavePaneHistory(b) | SettingsActionView::SaveSwitchAsciiInputSourceInPrefix(b) | SettingsActionView::SaveKittyGraphics(b)
        | SettingsActionView::SaveAllowNested(b) | SettingsActionView::SaveRevealHiddenCursorForCjkIme(b) | SettingsActionView::SaveManageSshConfig(b)
        | SettingsActionView::SaveClipboardHistoryEnabled(b) | SettingsActionView::SaveFleetOpsBar(b) => Some(b),
        SettingsActionView::TogglePluginEnabled { enabled, .. } => Some(enabled),
        _ => None,
    }
}

/// The rows that show a check mark.
pub open spec fn is_toggle_item(s: SettingsState, id: SettingsItemId) -> bool {
    match id {
        SettingsItemId::ThemeAutoSwitch | SettingsItemId::PaneBorders | SettingsItemId::PaneGaps
        | SettingsItemId::AgentLabels | SettingsItemId::HideTabBar | SettingsItemId::MouseCapture
        | SettingsItemId::CopyOnSelect | SettingsItemId::RedrawOnFocusGained
        | SettingsItemId::ConfirmClose | SettingsItemId::PromptNewTabName
        | SettingsItemId::PromptNewWorkspaceName | SettingsItemId::SoundAlerts
        | SettingsItemId::ResumeAgentsOnRestore | SettingsItemId::VersionCheck
        | SettingsItemId::ManifestCheck | SettingsItemId::Experiment(_)
        | SettingsItemId::ManageSshConfig | SettingsItemId::ClipboardHistory
        | SettingsItemId::FleetOpsBar => true,
        SettingsItemId::InstalledPlugin { index } => index < s.prefs.installed_plugins@.len(),
        _ => false,
    }
}

/// Activating a row that shows a check mark saves the opposite of what
/// the mark shows.
#[verifier::spinoff_prover]
#[verifier::rlimit(80)]
pub proof fn law_toggle_rows_flip(s: SettingsState, id: SettingsItemId)
    requires
        is_toggle_item(s, id),
    ensures
        crate::settings_catalog::activate_spec(s, id) matches Some(a) && saved_flag(a) == Some(
            !row_toggle_checked_spec(s, id),
        ),
{
    match id {
        SettingsItemId::Experiment(e) => {
            assert(crate::settings_catalog::activate_spec(s, id) == Some(
                crate::settings_catalog::experiment_toggle_spec(s.prefs, e),
            ));
        },
        SettingsItemId::InstalledPlugin { index } => {
            assert(index < s.prefs.installed_plugins@.len());
        },
        _ => {},
    }
}

proof fn lemma_toggle_rows_are_toggle_items(s: SettingsState, page: SettingsPage, j: int)
    requires
        0 <= j < page_rows(s, page).len(),
        page_rows(s, page)[j].kind == SettingsRowKind::Toggle,
    ensures
        is_toggle_item(s, page_rows(s, page)[j].id),
{
    let p = s.prefs;
    match page {
        SettingsPage::Appearance => {
            let n = p.theme_names@.len();
            if 1 <= j < 1 + n {
                assert(page_rows(s, page)[j] == theme_row(p, j - 1));
            } else if j >= 1 + n {
                assert(page_rows(s, page)[j] == spinner_row(shown_category(s), j - 1 - n));
            }
        },
        SettingsPage::Layout => {
            if j >= 6 {
                assert(page_rows(s, page)[j] == template_row(j - 6));
            }
        },
        SettingsPage::Terminal => {
            if j >= 3 {
                assert(page_rows(s, page)[j] == scrollback_row(j - 3));
            }
        },
        SettingsPage::Notifications => {
            if 1 <= j < 5 {
                assert(page_rows(s, page)[j] == delivery_row(j - 1));
            }
        },
        SettingsPage::Agents => {
            let n = p.integration_recommendations@.len();
            if 1 <= j < 1 + n {
                assert(page_rows(s, page)[j] == integration_row(p, j - 1));
            }
        },
        SettingsPage::Plugins => {
            let n = p.installed_plugins@.len();
            if n > 0 && 1 <= j < 1 + n {
                assert(page_rows(s, page)[j] == installed_row(p, j - 1));
            } else if j >= 1 + (if n == 0 { 1int } else { n as int }) + 1 {
                let k = j - (1 + (if n == 0 { 1int } else { n as int }) + 1);
                assert(page_rows(s, page)[j] == catalog_row(p, k));
            }
        },
        SettingsPage::Advanced => {
            if j < 5 {
                assert(page_rows(s, page)[j] == experiment_row(j));
            }
        },
        _ => {},
    }
}

/// Activating a shown row that carries a check mark saves the opposite of
/// what the mark shows, on every page and whatever the search.
#[verifier::spinoff_prover]
#[verifier::rlimit(80)]
pub proof fn law_shown_toggle_rows_flip(s: SettingsState, page: SettingsPage, i: int)
    requires
        0 <= i < section_rows_spec(s, page).len(),
        section_rows_spec(s, page)[i].kind == SettingsRowKind::Toggle,
    ensures
        crate::settings_catalog::activate_spec(s, section_rows_spec(s, page)[i].id) matches Some(a)
            && saved_flag(a) == Some(!row_toggle_checked_spec(s, section_rows_spec(s, page)[i].id)),
{
    let row = section_rows_spec(s, page)[i];
    law_shown_rows_match(s, page, i);
    let j = choose|j: int| 0 <= j < page_rows(s, page).len() && page_rows(s, page)[j] == row;
    lemma_toggle_rows_are_toggle_items(s, page, j);
    law_toggle_rows_flip(s, row.id);
}

} // verus!
