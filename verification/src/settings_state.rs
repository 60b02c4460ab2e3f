//! The state the settings screen reads and edits: where the cursor is, the
//! preferences on display, and the actions the screen asks for.
use vstd::prelude::*;

use crate::pane_template::PaneTemplateId;
use crate::settings_config::{
    AgentPanelSort, ExperimentSetting, HostCursorModeConfig, NewTerminalCwdConfig,
    NewTerminalCwdView, ShellModeConfig, SidebarCollapsedModeConfig, ToastClipboardPosition,
    ToastDelivery, ToastHerdrPosition, UpdateChannelConfig,
};
use crate::spinner::SpinnerStyle;

verus! {

/// The tabs of the settings screen, in tab order.
#[derive(Debug, Clone, Copy, PartialEq, Eq, Structural)]
pub enum SettingsSection {
    Theme,
    Ui,
    Sound,
    System,
    Fleet,
    Plugins,
    Templates,
    Integrations,
}

/// Number of settings tabs.
pub const SETTINGS_SECTION_COUNT: usize = 8;

/// Tab position of a section.
pub open spec fn section_position(s: SettingsSection) -> int {
    match s {
        SettingsSection::Theme => 0,
        SettingsSection::Ui => 1,
        SettingsSection::Sound => 2,
        SettingsSection::System => 3,
        SettingsSection::Fleet => 4,
        SettingsSection::Plugins => 5,
        SettingsSection::Templates => 6,
        SettingsSection::Integrations => 7,
    }
}

/// The section at a tab position (the last one beyond the end).
pub open spec fn section_at(i: int) -> SettingsSection {
    if i == 0 {
        SettingsSection::Theme
    } else if i == 1 {
        SettingsSection::Ui
    } else if i == 2 {
        SettingsSection::Sound
    } else if i == 3 {
        SettingsSection::System
    } else if i == 4 {
        SettingsSection::Fleet
    } else if i == 5 {
        SettingsSection::Plugins
    } else if i == 6 {
        SettingsSection::Templates
    } else {
        SettingsSection::Integrations
    }
}

impl SettingsSection {
    pub fn position(self) -> (r: usize)
        ensures
            r == section_position(self),
    {
        match self {
            SettingsSection::Theme => 0,
            SettingsSection::Ui => 1,
            SettingsSection::Sound => 2,
            SettingsSection::System => 3,
            SettingsSection::Fleet => 4,
            SettingsSection::Plugins => 5,
            SettingsSection::Templates => 6,
            SettingsSection::Integrations => 7,
        }
    }

    pub fn from_position(i: usize) -> (r: SettingsSection)
        requires
            i < 8,
        ensures
            r == section_at(i as int),
    {
        match i {
            0 => SettingsSection::Theme,
            1 => SettingsSection::Ui,
            2 => SettingsSection::Sound,
            3 => SettingsSection::System,
            4 => SettingsSection::Fleet,
            5 => SettingsSection::Plugins,
            6 => SettingsSection::Templates,
            _ => SettingsSection::Integrations,
        }
    }
}

/// Install state of an agent integration.
#[derive(Debug, Clone, Copy, PartialEq, Eq, Structural)]
pub enum IntegrationStatusKind {
    NotInstalled,
    Current,
    Outdated,
}

/// An agent integration offered on the settings screen.
#[derive(Debug, Clone)]
pub struct IntegrationRecommendation {
    pub label: String,
    /// Whether the agent's command line tool was found.
    pub available: bool,
    pub state: IntegrationStatusKind,
}

/// An integration can be installed when its agent is available and the
/// integration is missing or outdated.
pub open spec fn needs_install_spec(r: IntegrationRecommendation) -> bool {
    r.available && (r.state == IntegrationStatusKind::NotInstalled || r.state
        == IntegrationStatusKind::Outdated)
}

/// An update is pending when an available agent's integration is outdated.
pub open spec fn update_available_spec(r: IntegrationRecommendation) -> bool {
    r.available && r.state == IntegrationStatusKind::Outdated
}

pub open spec fn any_needs_install(recs: Seq<IntegrationRecommendation>) -> bool {
    exists|i: int| 0 <= i < recs.len() && needs_install_spec(#[trigger] recs[i])
}

pub open spec fn any_update_available(recs: Seq<IntegrationRecommendation>) -> bool {
    exists|i: int| 0 <= i < recs.len() && update_available_spec(#[trigger] recs[i])
}

impl IntegrationRecommendation {
    pub fn needs_install(&self) -> (r: bool)
        ensures
            r == needs_install_spec(*self),
    {
        self.available && (self.state == IntegrationStatusKind::NotInstalled || self.state
            == IntegrationStatusKind::Outdated)
    }

    /// Short status text shown next to the integration.
    pub fn status_label(&self) -> (r: &'static str)
        ensures
            r@ == (match self.state {
                IntegrationStatusKind::NotInstalled => "not installed"@,
                IntegrationStatusKind::Current => "up to date"@,
                IntegrationStatusKind::Outdated => "update available"@,
            }),
    {
        match self.state {
            IntegrationStatusKind::NotInstalled => "not installed",
            IntegrationStatusKind::Current => "up to date",
            IntegrationStatusKind::Outdated => "update available",
        }
    }
}

/// The mark shown before the integration at `idx`: a check when it is up to
/// date, a circular arrow when it is outdated, a plus when it can be
/// installed, a dash when its agent is missing, and a blank past the end.
pub open spec fn integration_marker_spec(recs: Seq<IntegrationRecommendation>, idx: int) -> Seq<char> {
    if 0 <= idx < recs.len() {
        match recs[idx].state {
            IntegrationStatusKind::Current => "\u{2713}"@,
            IntegrationStatusKind::Outdated => "\u{21bb}"@,
            IntegrationStatusKind::NotInstalled => if recs[idx].available {
                "+"@
            } else {
                "\u{2013}"@
            },
        }
    } else {
        " "@
    }
}

pub fn integration_marker(recs: &Vec<IntegrationRecommendation>, idx: usize) -> (r: &'static str)
    ensures
        r@ == integration_marker_spec(recs@, idx as int),
{
    if idx >= recs.len() {
        return " ";
    }
    let item = &recs[idx];
    match item.state {
        IntegrationStatusKind::Current => "\u{2713}",
        IntegrationStatusKind::Outdated => "\u{21bb}",
        IntegrationStatusKind::NotInstalled => if item.available {
            "+"
        } else {
            "\u{2013}"
        },
    }
}

/// Whether any agent was found or any integration is present.
pub open spec fn any_detected(recs: Seq<IntegrationRecommendation>) -> bool {
    exists|i: int|
        0 <= i < recs.len() && (#[trigger] recs[i].available || recs[i].state
            != IntegrationStatusKind::NotInstalled)
}

/// The hint under the integrations list when no install messages are shown.
pub open spec fn integrations_hint_spec(recs: Seq<IntegrationRecommendation>) -> Seq<char> {
    if any_needs_install(recs) {
        " press install to add available or outdated integrations"@
    } else if any_detected(recs) {
        " all detected integrations are installed"@
    } else {
        " no supported agent CLIs found on PATH"@
    }
}

pub fn integrations_hint(recs: &Vec<IntegrationRecommendation>) -> (r: &'static str)
    ensures
        r@ == integrations_hint_spec(recs@),
{
    let mut needs = false;
    let mut found = false;
    let mut i: usize = 0;
    while i < recs.len()
        invariant
            i <= recs.len(),
            needs == (exists|j: int| 0 <= j < i && needs_install_spec(#[trigger] recs@[j])),
            found == (exists|j: int|
                0 <= j < i && (#[trigger] recs@[j].available || recs@[j].state
                    != IntegrationStatusKind::NotInstalled)),
        decreases recs.len() - i,
    {
        let item = &recs[i];
        if item.needs_install() {
            needs = true;
        }
        if item.available || item.state != IntegrationStatusKind::NotInstalled {
            found = true;
        }
        i = i + 1;
    }
    if needs {
        " press install to add available or outdated integrations"
    } else if found {
        " all detected integrations are installed"
    } else {
        " no supported agent CLIs found on PATH"
    }
}

/// A plugin installed in this herdr.
#[derive(Debug, Clone)]
pub struct InstalledPlugin {
    pub plugin_id: String,
    pub name: String,
    pub enabled: bool,
}

/// The preferences the settings screen shows; editing them is the
/// application's job, through the actions the screen returns.
#[derive(Debug, Clone)]
pub struct SettingsPrefs {
    pub theme_names: Vec<String>,
    pub theme_auto_switch: bool,
    pub pane_borders: bool,
    pub pane_gaps: bool,
    pub agent_border_labels: bool,
    pub hide_tab_bar_when_single_tab: bool,
    pub sidebar_collapsed_mode: SidebarCollapsedModeConfig,
    pub agent_panel_sort: AgentPanelSort,
    pub mouse_capture: bool,
    pub copy_on_select: bool,
    pub redraw_on_focus_gained: bool,
    pub confirm_close: bool,
    pub prompt_new_tab_name: bool,
    pub prompt_new_workspace_name: bool,
    pub host_cursor: HostCursorModeConfig,
    pub default_shell: String,
    pub shell_mode: ShellModeConfig,
    pub new_terminal_cwd: NewTerminalCwdConfig,
    pub pane_scrollback_limit_bytes: usize,
    pub sound_enabled: bool,
    pub toast_delivery: ToastDelivery,
    pub toast_delay_seconds: u64,
    pub toast_herdr_position: ToastHerdrPosition,
    pub clipboard_toast_enabled: bool,
    pub clipboard_toast_position: ToastClipboardPosition,
    pub resume_agents_on_restore: bool,
    pub update_channel: UpdateChannelConfig,
    pub version_check: bool,
    pub manifest_check: bool,
    pub manage_ssh_config: bool,
    pub clipboard_history_enabled: bool,
    pub pane_history_persistence: bool,
    pub switch_ascii_input_source_in_prefix: bool,
    pub kitty_graphics: bool,
    pub allow_nested: bool,
    pub reveal_hidden_cursor_for_cjk_ime: bool,
    pub fleet_ops_bar: bool,
    pub spinner_style: SpinnerStyle,
    pub integration_recommendations: Vec<IntegrationRecommendation>,
    /// The colours each theme of `theme_names` gives, at the same position,
    /// with the user's colour overrides applied; `None` for a theme that
    /// gives none, which previewing then leaves alone.
    pub theme_palettes: Vec<Option<Palette>>,
    pub installed_plugins: Vec<InstalledPlugin>,
    /// Number of fleet-ops plugins offered for install on the plugins tab.
    pub fleet_ops_plugin_count: usize,
    /// The prefix key as the user would type it, e.g. `ctrl+b`.
    pub prefix_key_label: String,
    pub worktree_directory: String,
    pub config_path: String,
}

/// A colour as red, green and blue.
#[derive(Debug, Clone, Copy, PartialEq, Eq, Structural)]
pub struct Rgb {
    pub r: u8,
    pub g: u8,
    pub b: u8,
}

/// The colours of a theme that the screens draw with.
#[derive(Debug, Clone, Copy, PartialEq, Eq, Structural)]
pub struct Palette {
    pub text: Rgb,
    pub subtext0: Rgb,
    pub overlay0: Rgb,
    pub overlay1: Rgb,
    pub surface0: Rgb,
    pub panel_bg: Rgb,
    pub accent: Rgb,
    pub green: Rgb,
    pub yellow: Rgb,
}

/// The settings screen: which tab and row are selected, whether it is open,
/// the theme being previewed, and the preferences on display.
#[derive(Debug, Clone)]
pub struct SettingsState {
    pub section: SettingsSection,
    pub selected: usize,
    pub open: bool,
    pub theme_name: String,
    /// The theme in use when the screen was opened, restored on cancel.
    pub original_theme: Option<String>,
    /// The colours in use, those of the theme being previewed.
    pub palette: Palette,
    /// The colours in use when the screen was opened, restored on cancel.
    pub original_palette: Option<Palette>,
    pub search: String,
    pub spinner_category: usize,
    pub prefs: SettingsPrefs,
}

/// Whether an experiment is switched on.
pub open spec fn experiment_enabled_spec(p: SettingsPrefs, e: ExperimentSetting) -> bool {
    match e {
        ExperimentSetting::PaneHistory => p.pane_history_persistence,
        ExperimentSetting::SwitchAsciiInputSourceInPrefix => p.switch_ascii_input_source_in_prefix,
        ExperimentSetting::KittyGraphics => p.kitty_graphics,
        ExperimentSetting::AllowNested => p.allow_nested,
        ExperimentSetting::RevealHiddenCursorForCjkIme => p.reveal_hidden_cursor_for_cjk_ime,
    }
}

impl ExperimentSetting {
    pub fn enabled(self, p: &SettingsPrefs) -> (r: bool)
        ensures
            r == experiment_enabled_spec(*p, self),
    {
        match self {
            ExperimentSetting::PaneHistory => p.pane_history_persistence,
            ExperimentSetting::SwitchAsciiInputSourceInPrefix => p.switch_ascii_input_source_in_prefix,
            ExperimentSetting::KittyGraphics => p.kitty_graphics,
            ExperimentSetting::AllowNested => p.allow_nested,
            ExperimentSetting::RevealHiddenCursorForCjkIme => p.reveal_hidden_cursor_for_cjk_ime,
        }
    }
}

impl SettingsPrefs {
    /// Whether any recommended integration can be installed.
    pub fn integrations_need_install(&self) -> (r: bool)
        ensures
            r == any_needs_install(self.integration_recommendations@),
    {
        let recs = &self.integration_recommendations;
        let mut i: usize = 0;
        while i < recs.len()
            invariant
                i <= recs.len(),
                recs@ == self.integration_recommendations@,
                forall|k: int| 0 <= k < i ==> !needs_install_spec(#[trigger] recs@[k]),
            decreases recs.len() - i,
        {
            if recs[i].needs_install() {
                assert(needs_install_spec(recs@[i as int]));
                return true;
            }
            i = i + 1;
        }
        false
    }

    /// Whether any available integration has an update: only outdated
    /// integrations count, not missing ones.
    pub fn integration_updates_available(&self) -> (r: bool)
        ensures
            r == any_update_available(self.integration_recommendations@),
    {
        let recs = &self.integration_recommendations;
        let mut i: usize = 0;
        while i < recs.len()
            invariant
                i <= recs.len(),
                recs@ == self.integration_recommendations@,
                forall|k: int| 0 <= k < i ==> !update_available_spec(#[trigger] recs@[k]),
            decreases recs.len() - i,
        {
            if recs[i].available && recs[i].state == IntegrationStatusKind::Outdated {
                assert(update_available_spec(recs@[i as int]));
                return true;
            }
            i = i + 1;
        }
        false
    }
}

/// What the settings screen asks the application to do.
#[derive(Debug, Clone, PartialEq, Eq)]
pub enum SettingsAction {
    SaveTheme(String),
    SaveSound(bool),
    SaveToastDelivery(ToastDelivery),
    SaveAgentBorderLabels(bool),
    SavePaneBorders(bool),
    SavePaneGaps(bool),
    SaveHideTabBarWhenSingleTab(bool),
    SavePaneHistory(bool),
    SaveSwitchAsciiInputSourceInPrefix(bool),
    SaveSpinnerStyle(SpinnerStyle),
    ApplyPaneTemplate(PaneTemplateId),
    InstallRecommendedIntegrations,
    SaveMouseCapture(bool),
    SaveCopyOnSelect(bool),
    SaveConfirmClose(bool),
    SavePromptNewTabName(bool),
    SavePromptNewWorkspaceName(bool),
    SaveRedrawOnFocusGained(bool),
    SaveHostCursor(HostCursorModeConfig),
    SaveSidebarCollapsedMode(SidebarCollapsedModeConfig),
    SaveAgentPanelSort(AgentPanelSort),
    SaveShellMode(ShellModeConfig),
    SaveDefaultShell(String),
    SaveNewTerminalCwd(NewTerminalCwdConfig),
    SaveScrollbackLimitBytes(usize),
    SaveToastDelaySeconds(u64),
    SaveToastHerdrPosition(ToastHerdrPosition),
    SaveClipboardToastEnabled(bool),
    SaveClipboardToastPosition(ToastClipboardPosition),
    SaveUpdateChannel(UpdateChannelConfig),
    SaveVersionCheck(bool),
    SaveManifestCheck(bool),
    SaveResumeAgentsOnRestore(bool),
    SaveManageSshConfig(bool),
    SaveClipboardHistoryEnabled(bool),
    SaveAllowNested(bool),
    SaveKittyGraphics(bool),
    SaveRevealHiddenCursorForCjkIme(bool),
    SaveThemeAutoSwitch(bool),
    SaveFleetOpsBar(bool),
    TogglePluginEnabled { plugin_id: String, enabled: bool },
    InstallCatalogPlugin { source: String },
}

/// A settings action with its text payloads as character sequences.
pub enum SettingsActionView {
    SaveTheme(Seq<char>),
    SaveSound(bool),
    SaveToastDelivery(ToastDelivery),
    SaveAgentBorderLabels(bool),
    SavePaneBorders(bool),
    SavePaneGaps(bool),
    SaveHideTabBarWhenSingleTab(bool),
    SavePaneHistory(bool),
    SaveSwitchAsciiInputSourceInPrefix(bool),
    SaveSpinnerStyle(SpinnerStyle),
    ApplyPaneTemplate(PaneTemplateId),
    InstallRecommendedIntegrations,
    SaveMouseCapture(bool),
    SaveCopyOnSelect(bool),
    SaveConfirmClose(bool),
    SavePromptNewTabName(bool),
    SavePromptNewWorkspaceName(bool),
    SaveRedrawOnFocusGained(bool),
    SaveHostCursor(HostCursorModeConfig),
    SaveSidebarCollapsedMode(SidebarCollapsedModeConfig),
    SaveAgentPanelSort(AgentPanelSort),
    SaveShellMode(ShellModeConfig),
    SaveDefaultShell(Seq<char>),
    SaveNewTerminalCwd(NewTerminalCwdView),
    SaveScrollbackLimitBytes(usize),
    SaveToastDelaySeconds(u64),
    SaveToastHerdrPosition(ToastHerdrPosition),
    SaveClipboardToastEnabled(bool),
    SaveClipboardToastPosition(ToastClipboardPosition),
    SaveUpdateChannel(UpdateChannelConfig),
    SaveVersionCheck(bool),
    SaveManifestCheck(bool),
    SaveResumeAgentsOnRestore(bool),
    SaveManageSshConfig(bool),
    SaveClipboardHistoryEnabled(bool),
    SaveAllowNested(bool),
    SaveKittyGraphics(bool),
    SaveRevealHiddenCursorForCjkIme(bool),
    SaveThemeAutoSwitch(bool),
    SaveFleetOpsBar(bool),
    TogglePluginEnabled { plugin_id: Seq<char>, enabled: bool },
    InstallCatalogPlugin { source: Seq<char> },
}

impl View for SettingsAction {
    type V = SettingsActionView;

    open spec fn view(&self) -> SettingsActionView {
        match self {
            SettingsAction::SaveTheme(v) => SettingsActionView::SaveTheme(v@),
            SettingsAction::SaveSound(v) => SettingsActionView::SaveSound(*v),
            SettingsAction::SaveToastDelivery(v) => SettingsActionView::SaveToastDelivery(*v),
            SettingsAction::SaveAgentBorderLabels(v) => SettingsActionView::SaveAgentBorderLabels(*v),
            SettingsAction::SavePaneBorders(v) => SettingsActionView::SavePaneBorders(*v),
            SettingsAction::SavePaneGaps(v) => SettingsActionView::SavePaneGaps(*v),
            SettingsAction::SaveHideTabBarWhenSingleTab(v) => SettingsActionView::SaveHideTabBarWhenSingleTab(*v),
            SettingsAction::SavePaneHistory(v) => SettingsActionView::SavePaneHistory(*v),
            SettingsAction::SaveSwitchAsciiInputSourceInPrefix(v) => SettingsActionView::SaveSwitchAsciiInputSourceInPrefix(*v),
            SettingsAction::SaveSpinnerStyle(v) => SettingsActionView::SaveSpinnerStyle(*v),
            SettingsAction::ApplyPaneTemplate(v) => SettingsActionView::ApplyPaneTemplate(*v),
            SettingsAction::InstallRecommendedIntegrations => SettingsActionView::InstallRecommendedIntegrations,
            SettingsAction::SaveMouseCapture(v) => SettingsActionView::SaveMouseCapture(*v),
            SettingsAction::SaveCopyOnSelect(v) => SettingsActionView::SaveCopyOnSelect(*v),
            SettingsAction::SaveConfirmClose(v) => SettingsActionView::SaveConfirmClose(*v),
            SettingsAction::SavePromptNewTabName(v) => SettingsActionView::SavePromptNewTabName(*v),
            SettingsAction::SavePromptNewWorkspaceName(v) => SettingsActionView::SavePromptNewWorkspaceName(*v),
            SettingsAction::SaveRedrawOnFocusGained(v) => SettingsActionView::SaveRedrawOnFocusGained(*v),
            SettingsAction::SaveHostCursor(v) => SettingsActionView::SaveHostCursor(*v),
            SettingsAction::SaveSidebarCollapsedMode(v) => SettingsActionView::SaveSidebarCollapsedMode(*v),
            SettingsAction::SaveAgentPanelSort(v) => SettingsActionView::SaveAgentPanelSort(*v),
            SettingsAction::SaveShellMode(v) => SettingsActionView::SaveShellMode(*v),
            SettingsAction::SaveDefaultShell(v) => SettingsActionView::SaveDefaultShell(v@),
            SettingsAction::SaveNewTerminalCwd(v) => SettingsActionView::SaveNewTerminalCwd(v@),
            SettingsAction::SaveScrollbackLimitBytes(v) => SettingsActionView::SaveScrollbackLimitBytes(*v),
            SettingsAction::SaveToastDelaySeconds(v) => SettingsActionView::SaveToastDelaySeconds(*v),
            SettingsAction::SaveToastHerdrPosition(v) => SettingsActionView::SaveToastHerdrPosition(*v),
            SettingsAction::SaveClipboardToastEnabled(v) => SettingsActionView::SaveClipboardToastEnabled(*v),
            SettingsAction::SaveClipboardToastPosition(v) => SettingsActionView::SaveClipboardToastPosition(*v),
            SettingsAction::SaveUpdateChannel(v) => SettingsActionView::SaveUpdateChannel(*v),
            SettingsAction::SaveVersionCheck(v) => SettingsActionView::SaveVersionCheck(*v),
            SettingsAction::SaveManifestCheck(v) => SettingsActionView::SaveManifestCheck(*v),
            SettingsAction::SaveResumeAgentsOnRestore(v) => SettingsActionView::SaveResumeAgentsOnRestore(*v),
            SettingsAction::SaveManageSshConfig(v) => SettingsActionView::SaveManageSshConfig(*v),
            SettingsAction::SaveClipboardHistoryEnabled(v) => SettingsActionView::SaveClipboardHistoryEnabled(*v),
            SettingsAction::SaveAllowNested(v) => SettingsActionView::SaveAllowNested(*v),
            SettingsAction::SaveKittyGraphics(v) => SettingsActionView::SaveKittyGraphics(*v),
            SettingsAction::SaveRevealHiddenCursorForCjkIme(v) => SettingsActionView::SaveRevealHiddenCursorForCjkIme(*v),
            SettingsAction::SaveThemeAutoSwitch(v) => SettingsActionView::SaveThemeAutoSwitch(*v),
            SettingsAction::SaveFleetOpsBar(v) => SettingsActionView::SaveFleetOpsBar(*v),
            SettingsAction::TogglePluginEnabled { plugin_id, enabled } => {
                SettingsActionView::TogglePluginEnabled { plugin_id: plugin_id@, enabled: *enabled }
            },
            SettingsAction::InstallCatalogPlugin { source } => {
                SettingsActionView::InstallCatalogPlugin { source: source@ }
            },
        }
    }
}

pub open spec fn action_opt_view(a: Option<SettingsAction>) -> Option<SettingsActionView> {
    match a {
        Some(x) => Some(x@),
        None => None,
    }
}

} // verus!
