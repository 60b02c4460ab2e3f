//! The items of the settings screen and what activating each one does.
use vstd::prelude::*;

use crate::pane_template::{template_at, PaneTemplateId};
use crate::settings_config::{
    cycle_agent_panel_sort, cycle_clipboard_toast_position, cycle_default_shell,
    cycle_host_cursor, cycle_new_terminal_cwd, cycle_shell_mode, cycle_sidebar_collapsed_mode,
    cycle_toast_delay, cycle_toast_herdr_position, next_agent_panel_sort,
    next_clipboard_toast_position, next_default_shell, next_host_cursor, next_new_terminal_cwd,
    next_shell_mode, next_sidebar_collapsed_mode, next_toast_delay, next_toast_herdr_position,
    ExperimentSetting, ToastClipboardPosition, ToastDelivery, UpdateChannelConfig,
};
use crate::settings_state::{
    any_needs_install, experiment_enabled_spec, InstalledPlugin, SettingsAction,
    SettingsActionView, SettingsPrefs, SettingsState,
};
use crate::spinner::{active_spinner_category, category_styles_spec};
use crate::order::{as_ints, is_key_order, key_order, keys_distinct, sort_by_keys};
use crate::text::views;

verus! {

/// One row of the settings screen.
#[derive(Debug, Clone, Copy, PartialEq, Eq, Structural)]
pub enum SettingsItemId {
    ThemeAutoSwitch,
    Theme { index: usize },
    SpinnerPreview,
    Spinner { index: usize },
    PaneBorders,
    PaneGaps,
    AgentLabels,
    HideTabBar,
    SidebarCollapsedMode,
    AgentPanelSort,
    PaneTemplate { index: usize },
    MouseCapture,
    CopyOnSelect,
    RedrawOnFocusGained,
    ConfirmClose,
    PromptNewTabName,
    PromptNewWorkspaceName,
    HostCursor,
    KeybindHelp,
    DefaultShell,
    ShellMode,
    NewTerminalCwd,
    ScrollbackPreset { index: usize },
    SoundAlerts,
    ToastDelivery { delivery: ToastDelivery },
    ToastDelay,
    ToastHerdrPosition,
    ClipboardToast,
    ResumeAgentsOnRestore,
    Integration { index: usize },
    IntegrationsEmpty,
    PluginsInstalledHeader,
    InstalledPlugin { index: usize },
    PluginsEmpty,
    PluginsCatalogHeader,
    CatalogPlugin { index: usize },
    UpdateChannelStable,
    UpdateChannelPreview,
    VersionCheck,
    ManifestCheck,
    Experiment(ExperimentSetting),
    ManageSshConfig,
    ClipboardHistory,
    FleetOpsBar,
    WorktreesPath,
    ReloadConfig,
    ConfigFile,
}

// ── scrollback presets ─────────────────────────────────────────────────

/// Number of scrollback presets.
pub const SCROLLBACK_PRESET_COUNT: usize = 4;

/// Scrollback size of preset `i`, in bytes.
pub open spec fn scrollback_bytes(i: int) -> usize {
    if i == 0 {
        1_000_000
    } else if i == 1 {
        5_000_000
    } else if i == 2 {
        10_000_000
    } else {
        50_000_000
    }
}

/// Label of scrollback preset `i`.
pub open spec fn scrollback_label(i: int) -> Seq<char> {
    if i == 0 {
        "1 MB"@
    } else if i == 1 {
        "5 MB"@
    } else if i == 2 {
        "10 MB"@
    } else {
        "50 MB"@
    }
}

/// Scrollback preset `i`: its size in bytes and its label.
pub fn scrollback_preset(i: usize) -> (r: (usize, &'static str))
    requires
        i < 4,
    ensures
        r.0 == scrollback_bytes(i as int),
        r.1@ == scrollback_label(i as int),
{
    match i {
        0 => (1_000_000, "1 MB"),
        1 => (5_000_000, "5 MB"),
        2 => (10_000_000, "10 MB"),
        _ => (50_000_000, "50 MB"),
    }
}

/// All scrollback presets, smallest first.
pub fn scrollback_presets() -> (r: Vec<(usize, &'static str)>)
    ensures
        r.len() == 4,
        forall|i: int|
            0 <= i < 4 ==> (#[trigger] r@[i]).0 == scrollback_bytes(i) && r@[i].1@
                == scrollback_label(i),
{
    let mut r: Vec<(usize, &'static str)> = Vec::new();
    let mut i: usize = 0;
    while i < SCROLLBACK_PRESET_COUNT
        invariant
            i <= 4,
            r.len() == i,
            forall|k: int|
                0 <= k < i ==> (#[trigger] r@[k]).0 == scrollback_bytes(k) && r@[k].1@
                    == scrollback_label(k),
        decreases 4 - i,
    {
        r.push(scrollback_preset(i));
        i = i + 1;
    }
    r
}

// ── plugin catalogue ───────────────────────────────────────────────────

/// A plugin that can be installed from the settings screen.
#[derive(Debug, Clone, Copy)]
pub struct PluginCatalogEntry {
    pub name: &'static str,
    pub blurb: &'static str,
    pub source: &'static str,
    pub plugin_id: &'static str,
}

/// Number of catalogue entries.
pub const PLUGIN_CATALOG_COUNT: usize = 6;

pub open spec fn catalog_plugin_id(i: int) -> Seq<char> {
    if i == 0 {
        "com.chefgroep.linear-context"@
    } else if i == 1 {
        "com.chefgroep.github-status"@
    } else if i == 2 {
        "com.chefgroep.fleet-health"@
    } else if i == 3 {
        "com.chefgroep.cloudflare-tunnel"@
    } else if i == 4 {
        "com.chefgroep.kater-bridge"@
    } else {
        "com.chefgroep.session-park"@
    }
}

pub open spec fn catalog_source(i: int) -> Seq<char> {
    if i == 0 {
        "OnlineChefGroep/herdr-plugins/chef-linear-context"@
    } else if i == 1 {
        "OnlineChefGroep/herdr-plugins/chef-github-status"@
    } else if i == 2 {
        "OnlineChefGroep/herdr-plugins/chef-fleet-health"@
    } else if i == 3 {
        "OnlineChefGroep/herdr-plugins/chef-cloudflare-tunnel"@
    } else if i == 4 {
        "OnlineChefGroep/herdr-plugins/chef-kater-bridge"@
    } else {
        "OnlineChefGroep/herdr-plugins/chef-session-park"@
    }
}

pub open spec fn catalog_name(i: int) -> Seq<char> {
    if i == 0 {
        "Linear issues"@
    } else if i == 1 {
        "GitHub checks"@
    } else if i == 2 {
        "Fleet health"@
    } else if i == 3 {
        "Cloudflare tunnels"@
    } else if i == 4 {
        "Kater bridge"@
    } else {
        "Session park"@
    }
}

pub open spec fn catalog_blurb(i: int) -> Seq<char> {
    if i == 0 {
        "issue \u{b7} assignee \u{b7} cycle on the ops bar"@
    } else if i == 1 {
        "PR number and CI status on the ops bar"@
    } else if i == 2 {
        "which hosts are online"@
    } else if i == 3 {
        "tunnel health at a glance"@
    } else if i == 4 {
        "Utrecht fleet inventory"@
    } else {
        "park and resume long-lived sessions"@
    }
}

/// Whether catalogue entry `e` is the `i`-th entry of the catalogue.
pub open spec fn is_catalog_entry(e: PluginCatalogEntry, i: int) -> bool {
    &&& e.name@ == catalog_name(i)
    &&& e.blurb@ == catalog_blurb(i)
    &&& e.source@ == catalog_source(i)
    &&& e.plugin_id@ == catalog_plugin_id(i)
}

/// Catalogue entry `i`.
pub fn plugin_catalog_entry(i: usize) -> (r: PluginCatalogEntry)
    requires
        i < 6,
    ensures
        is_catalog_entry(r, i as int),
{
    match i {
        0 => PluginCatalogEntry {
            name: "Linear issues",
            blurb: "issue \u{b7} assignee \u{b7} cycle on the ops bar",
            source: "OnlineChefGroep/herdr-plugins/chef-linear-context",
            plugin_id: "com.chefgroep.linear-context",
        },
        1 => PluginCatalogEntry {
            name: "GitHub checks",
            blurb: "PR number and CI status on the ops bar",
            source: "OnlineChefGroep/herdr-plugins/chef-github-status",
            plugin_id: "com.chefgroep.github-status",
        },
        2 => PluginCatalogEntry {
            name: "Fleet health",
            blurb: "which hosts are online",
            source: "OnlineChefGroep/herdr-plugins/chef-fleet-health",
            plugin_id: "com.chefgroep.fleet-health",
        },
        3 => PluginCatalogEntry {
            name: "Cloudflare tunnels",
            blurb: "tunnel health at a glance",
            source: "OnlineChefGroep/herdr-plugins/chef-cloudflare-tunnel",
            plugin_id: "com.chefgroep.cloudflare-tunnel",
        },
        4 => PluginCatalogEntry {
            name: "Kater bridge",
            blurb: "Utrecht fleet inventory",
            source: "OnlineChefGroep/herdr-plugins/chef-kater-bridge",
            plugin_id: "com.chefgroep.kater-bridge",
        },
        _ => PluginCatalogEntry {
            name: "Session park",
            blurb: "park and resume long-lived sessions",
            source: "OnlineChefGroep/herdr-plugins/chef-session-park",
            plugin_id: "com.chefgroep.session-park",
        },
    }
}

/// Whether a plugin with this id is installed.
pub open spec fn installed_has(installed: Seq<InstalledPlugin>, id: Seq<char>) -> bool {
    exists|k: int| 0 <= k < installed.len() && (#[trigger] installed[k]).plugin_id@ == id
}

/// The catalogue positions below `n` whose plugin is not installed yet, in
/// catalogue order.
pub open spec fn available_prefix(installed: Seq<InstalledPlugin>, n: int) -> Seq<int>
    decreases n,
{
    if n <= 0 {
        Seq::empty()
    } else if installed_has(installed, catalog_plugin_id(n - 1)) {
        available_prefix(installed, n - 1)
    } else {
        available_prefix(installed, n - 1).push(n - 1)
    }
}

/// Positions of the catalogue entries that are not installed yet, in
/// catalogue order.
pub open spec fn available_catalog(installed: Seq<InstalledPlugin>) -> Seq<int> {
    available_prefix(installed, 6)
}

fn is_installed(installed: &Vec<InstalledPlugin>, id: &str) -> (r: bool)
    ensures
        r == installed_has(installed@, id@),
{
    let want = crate::text::chars_of(id);
    let mut k: usize = 0;
    while k < installed.len()
        invariant
            k <= installed.len(),
            want@ == id@,
            forall|j: int| 0 <= j < k ==> (#[trigger] installed@[j]).plugin_id@ != id@,
        decreases installed.len() - k,
    {
        let have = crate::text::chars_of(installed[k].plugin_id.as_str());
        if crate::text::eq_chars(&have, &want) {
            assert(installed@[k as int].plugin_id@ == id@);
            return true;
        }
        k = k + 1;
    }
    false
}

/// The catalogue entries that are not installed yet.
pub fn catalog_entries_available(prefs: &SettingsPrefs) -> (r: Vec<PluginCatalogEntry>)
    ensures
        r.len() == available_catalog(prefs.installed_plugins@).len(),
        forall|j: int|
            0 <= j < r.len() ==> is_catalog_entry(
                #[trigger] r@[j],
                available_catalog(prefs.installed_plugins@)[j],
            ),
{
    let ghost inst = prefs.installed_plugins@;
    let mut r: Vec<PluginCatalogEntry> = Vec::new();
    let mut i: usize = 0;
    while i < PLUGIN_CATALOG_COUNT
        invariant
            i <= 6,
            inst == prefs.installed_plugins@,
            r.len() == available_prefix(inst, i as int).len(),
            forall|j: int|
                0 <= j < r.len() ==> is_catalog_entry(
                    #[trigger] r@[j],
                    available_prefix(inst, i as int)[j],
                ),
        decreases 6 - i,
    {
        let entry = plugin_catalog_entry(i);
        if !is_installed(&prefs.installed_plugins, entry.plugin_id) {
            r.push(entry);
        }
        i = i + 1;
    }
    r
}

// ── installed plugins in id order ──────────────────────────────────────

/// The ids of the installed plugins, in storage order.
pub open spec fn plugin_keys(p: Seq<InstalledPlugin>) -> Seq<Seq<char>> {
    p.map_values(|x: InstalledPlugin| x.plugin_id@)
}

/// Installed plugins are keyed by id: no id occurs twice.
pub open spec fn plugin_ids_distinct(p: Seq<InstalledPlugin>) -> bool {
    keys_distinct(plugin_keys(p))
}

/// The positions of the installed plugins, ordered by plugin id.
pub open spec fn plugin_id_order(p: Seq<InstalledPlugin>) -> Seq<int> {
    key_order(plugin_keys(p))
}

/// Positions of the installed plugins in plugin id order.
pub fn installed_plugins_sorted(prefs: &SettingsPrefs) -> (r: Vec<usize>)
    requires
        plugin_ids_distinct(prefs.installed_plugins@),
    ensures
        as_ints(r@) == plugin_id_order(prefs.installed_plugins@),
        is_key_order(plugin_keys(prefs.installed_plugins@), as_ints(r@)),
{
    let plugins = &prefs.installed_plugins;
    let mut keys: Vec<Vec<char>> = Vec::new();
    let mut i: usize = 0;
    while i < plugins.len()
        invariant
            i <= plugins.len(),
            keys.len() == i,
            plugins@ == prefs.installed_plugins@,
            views(keys@) == plugin_keys(plugins@).take(i as int),
        decreases plugins.len() - i,
    {
        let key = crate::text::chars_of(plugins[i].plugin_id.as_str());
        let ghost before = keys@;
        keys.push(key);
        assert(keys@ == before.push(key));
        assert(views(keys@).len() == i + 1);
        assert forall|j: int| 0 <= j < i + 1 implies #[trigger] views(keys@)[j] == plugin_keys(
            plugins@,
        ).take(i + 1)[j] by {
            if j < i {
                assert(views(keys@)[j] == views(before)[j]);
            }
        }
        assert(views(keys@) =~= plugin_keys(plugins@).take(i + 1));
        i = i + 1;
    }
    assert(plugin_keys(plugins@).take(plugins.len() as int) =~= plugin_keys(plugins@));
    sort_by_keys(&keys)
}

// ── activating an item ─────────────────────────────────────────────────

/// The action that flips an experiment.
pub open spec fn experiment_toggle_spec(p: SettingsPrefs, e: ExperimentSetting) -> SettingsActionView {
    let on = !experiment_enabled_spec(p, e);
    match e {
        ExperimentSetting::PaneHistory => SettingsActionView::SavePaneHistory(on),
        ExperimentSetting::SwitchAsciiInputSourceInPrefix => {
            SettingsActionView::SaveSwitchAsciiInputSourceInPrefix(on)
        },
        ExperimentSetting::KittyGraphics => SettingsActionView::SaveKittyGraphics(on),
        ExperimentSetting::AllowNested => SettingsActionView::SaveAllowNested(on),
        ExperimentSetting::RevealHiddenCursorForCjkIme => {
            SettingsActionView::SaveRevealHiddenCursorForCjkIme(on)
        },
    }
}

pub fn experiment_toggle_action(prefs: &SettingsPrefs, setting: ExperimentSetting) -> (r:
    SettingsAction)
    ensures
        r@ == experiment_toggle_spec(*prefs, setting),
{
    let on = !setting.enabled(prefs);
    match setting {
        ExperimentSetting::PaneHistory => SettingsAction::SavePaneHistory(on),
        ExperimentSetting::SwitchAsciiInputSourceInPrefix => {
            SettingsAction::SaveSwitchAsciiInputSourceInPrefix(on)
        },
        ExperimentSetting::KittyGraphics => SettingsAction::SaveKittyGraphics(on),
        ExperimentSetting::AllowNested => SettingsAction::SaveAllowNested(on),
        ExperimentSetting::RevealHiddenCursorForCjkIme => {
            SettingsAction::SaveRevealHiddenCursorForCjkIme(on)
        },
    }
}

/// The spinner category the settings screen shows.
pub open spec fn shown_spinner_category(s: SettingsState) -> int {
    if s.spinner_category < 5 {
        s.spinner_category as int
    } else {
        0
    }
}

/// What activating clipboard-toast does: switch it on when off; otherwise
/// move it to the next position, switching it off instead of wrapping from
/// bottom-left back to top-left.
pub open spec fn clipboard_toast_step(p: SettingsPrefs) -> SettingsActionView {
    if !p.clipboard_toast_enabled {
        SettingsActionView::SaveClipboardToastEnabled(true)
    } else if p.clipboard_toast_position == ToastClipboardPosition::BottomLeft {
        SettingsActionView::SaveClipboardToastEnabled(false)
    } else {
        SettingsActionView::SaveClipboardToastPosition(
            next_clipboard_toast_position(p.clipboard_toast_position),
        )
    }
}

/// What activating settings row `id` asks for, if anything.
pub open spec fn activate_spec(s: SettingsState, id: SettingsItemId) -> Option<SettingsActionView> {
    let p = s.prefs;
    match id {
        SettingsItemId::ThemeAutoSwitch => Some(
            SettingsActionView::SaveThemeAutoSwitch(!p.theme_auto_switch),
        ),
        SettingsItemId::Spinner { index } => if index < 16 {
            Some(
                SettingsActionView::SaveSpinnerStyle(
                    category_styles_spec(shown_spinner_category(s))[index as int],
                ),
            )
        } else {
            None
        },
        SettingsItemId::PaneBorders => Some(SettingsActionView::SavePaneBorders(!p.pane_borders)),
        SettingsItemId::PaneGaps => Some(SettingsActionView::SavePaneGaps(!p.pane_gaps)),
        SettingsItemId::AgentLabels => Some(
            SettingsActionView::SaveAgentBorderLabels(!p.agent_border_labels),
        ),
        SettingsItemId::HideTabBar => Some(
            SettingsActionView::SaveHideTabBarWhenSingleTab(!p.hide_tab_bar_when_single_tab),
        ),
        SettingsItemId::SidebarCollapsedMode => Some(
            SettingsActionView::SaveSidebarCollapsedMode(
                next_sidebar_collapsed_mode(p.sidebar_collapsed_mode),
            ),
        ),
        SettingsItemId::AgentPanelSort => Some(
            SettingsActionView::SaveAgentPanelSort(next_agent_panel_sort(p.agent_panel_sort)),
        ),
        SettingsItemId::PaneTemplate { index } => if index < 10 {
            Some(SettingsActionView::ApplyPaneTemplate(template_at(index as int)))
        } else {
            None
        },
        SettingsItemId::MouseCapture => Some(SettingsActionView::SaveMouseCapture(!p.mouse_capture)),
        SettingsItemId::CopyOnSelect => Some(SettingsActionView::SaveCopyOnSelect(!p.copy_on_select)),
        SettingsItemId::RedrawOnFocusGained => Some(
            SettingsActionView::SaveRedrawOnFocusGained(!p.redraw_on_focus_gained),
        ),
        SettingsItemId::ConfirmClose => Some(SettingsActionView::SaveConfirmClose(!p.confirm_close)),
        SettingsItemId::PromptNewTabName => Some(
            SettingsActionView::SavePromptNewTabName(!p.prompt_new_tab_name),
        ),
        SettingsItemId::PromptNewWorkspaceName => Some(
            SettingsActionView::SavePromptNewWorkspaceName(!p.prompt_new_workspace_name),
        ),
        SettingsItemId::HostCursor => Some(
            SettingsActionView::SaveHostCursor(next_host_cursor(p.host_cursor)),
        ),
        SettingsItemId::DefaultShell => Some(
            SettingsActionView::SaveDefaultShell(next_default_shell(p.default_shell@)),
        ),
        SettingsItemId::ShellMode => Some(
            SettingsActionView::SaveShellMode(next_shell_mode(p.shell_mode)),
        ),
        SettingsItemId::NewTerminalCwd => Some(
            SettingsActionView::SaveNewTerminalCwd(next_new_terminal_cwd(p.new_terminal_cwd)@),
        ),
        SettingsItemId::ScrollbackPreset { index } => if index < 4 {
            Some(SettingsActionView::SaveScrollbackLimitBytes(scrollback_bytes(index as int)))
        } else {
            None
        },
        SettingsItemId::Integration { .. } => if any_needs_install(
            p.integration_recommendations@,
        ) {
            Some(SettingsActionView::InstallRecommendedIntegrations)
        } else {
            None
        },
        SettingsItemId::SoundAlerts => Some(SettingsActionView::SaveSound(!p.sound_enabled)),
        SettingsItemId::ToastDelay => Some(
            SettingsActionView::SaveToastDelaySeconds(next_toast_delay(p.toast_delay_seconds)),
        ),
        SettingsItemId::ToastHerdrPosition => Some(
            SettingsActionView::SaveToastHerdrPosition(
                next_toast_herdr_position(p.toast_herdr_position),
            ),
        ),
        SettingsItemId::ClipboardToast => Some(clipboard_toast_step(p)),
        SettingsItemId::ToastDelivery { delivery } => Some(
            SettingsActionView::SaveToastDelivery(delivery),
        ),
        SettingsItemId::ResumeAgentsOnRestore => Some(
            SettingsActionView::SaveResumeAgentsOnRestore(!p.resume_agents_on_restore),
        ),
        SettingsItemId::UpdateChannelStable => Some(
            SettingsActionView::SaveUpdateChannel(UpdateChannelConfig::Stable),
        ),
        SettingsItemId::UpdateChannelPreview => Some(
            SettingsActionView::SaveUpdateChannel(UpdateChannelConfig::Preview),
        ),
        SettingsItemId::VersionCheck => Some(SettingsActionView::SaveVersionCheck(!p.version_check)),
        SettingsItemId::ManifestCheck => Some(
            SettingsActionView::SaveManifestCheck(!p.manifest_check),
        ),
        SettingsItemId::Experiment(e) => Some(experiment_toggle_spec(p, e)),
        SettingsItemId::ManageSshConfig => Some(
            SettingsActionView::SaveManageSshConfig(!p.manage_ssh_config),
        ),
        SettingsItemId::ClipboardHistory => Some(
            SettingsActionView::SaveClipboardHistoryEnabled(!p.clipboard_history_enabled),
        ),
        SettingsItemId::FleetOpsBar => Some(SettingsActionView::SaveFleetOpsBar(!p.fleet_ops_bar)),
        SettingsItemId::InstalledPlugin { index } => if index < p.installed_plugins@.len() {
            let plugin = p.installed_plugins@[plugin_id_order(p.installed_plugins@)[index as int]];
            Some(
                SettingsActionView::TogglePluginEnabled {
                    plugin_id: plugin.plugin_id@,
                    enabled: !plugin.enabled,
                },
            )
        } else {
            None
        },
        SettingsItemId::CatalogPlugin { index } => if index < available_catalog(
            p.installed_plugins@,
        ).len() {
            Some(
                SettingsActionView::InstallCatalogPlugin {
                    source: catalog_source(available_catalog(p.installed_plugins@)[index as int]),
                },
            )
        } else {
            None
        },
        _ => None,
    }
}

/// What activating settings row `id` asks the application to do, if
/// anything. Toggles flip their setting, choices move to their next value,
/// list entries pick their entry, and headers and notes do nothing.
#[verifier::spinoff_prover]
#[verifier::rlimit(60)]
pub fn activate_item(state: &SettingsState, id: SettingsItemId) -> (r: Option<SettingsAction>)
    requires
        plugin_ids_distinct(state.prefs.installed_plugins@),
    ensures
        crate::settings_state::action_opt_view(r) == activate_spec(*state, id),
{
    let p = &state.prefs;
    match id {
        SettingsItemId::ThemeAutoSwitch => Some(SettingsAction::SaveThemeAutoSwitch(!p.theme_auto_switch)),
        SettingsItemId::Spinner { index } => {
            let category = active_spinner_category(state.spinner_category);
            if index < category.styles.len() {
                Some(SettingsAction::SaveSpinnerStyle(category.styles[index]))
            } else {
                None
            }
        },
        SettingsItemId::PaneBorders => Some(SettingsAction::SavePaneBorders(!p.pane_borders)),
        SettingsItemId::PaneGaps => Some(SettingsAction::SavePaneGaps(!p.pane_gaps)),
        SettingsItemId::AgentLabels => Some(SettingsAction::SaveAgentBorderLabels(!p.agent_border_labels)),
        SettingsItemId::HideTabBar => Some(
            SettingsAction::SaveHideTabBarWhenSingleTab(!p.hide_tab_bar_when_single_tab),
        ),
        SettingsItemId::SidebarCollapsedMode => Some(
            SettingsAction::SaveSidebarCollapsedMode(
                cycle_sidebar_collapsed_mode(p.sidebar_collapsed_mode),
            ),
        ),
        SettingsItemId::AgentPanelSort => Some(
            SettingsAction::SaveAgentPanelSort(cycle_agent_panel_sort(p.agent_panel_sort)),
        ),
        SettingsItemId::PaneTemplate { index } => match PaneTemplateId::from_index(index) {
            Some(t) => Some(SettingsAction::ApplyPaneTemplate(t)),
            None => None,
        },
        SettingsItemId::MouseCapture => Some(SettingsAction::SaveMouseCapture(!p.mouse_capture)),
        SettingsItemId::CopyOnSelect => Some(SettingsAction::SaveCopyOnSelect(!p.copy_on_select)),
        SettingsItemId::RedrawOnFocusGained => Some(
            SettingsAction::SaveRedrawOnFocusGained(!p.redraw_on_focus_gained),
        ),
        SettingsItemId::ConfirmClose => Some(SettingsAction::SaveConfirmClose(!p.confirm_close)),
        SettingsItemId::PromptNewTabName => Some(
            SettingsAction::SavePromptNewTabName(!p.prompt_new_tab_name),
        ),
        SettingsItemId::PromptNewWorkspaceName => Some(
            SettingsAction::SavePromptNewWorkspaceName(!p.prompt_new_workspace_name),
        ),
        SettingsItemId::HostCursor => Some(
            SettingsAction::SaveHostCursor(cycle_host_cursor(p.host_cursor)),
        ),
        SettingsItemId::DefaultShell => Some(
            SettingsAction::SaveDefaultShell(cycle_default_shell(p.default_shell.as_str())),
        ),
        SettingsItemId::ShellMode => Some(SettingsAction::SaveShellMode(cycle_shell_mode(p.shell_mode))),
        SettingsItemId::NewTerminalCwd => Some(
            SettingsAction::SaveNewTerminalCwd(cycle_new_terminal_cwd(&p.new_terminal_cwd)),
        ),
        SettingsItemId::ScrollbackPreset { index } => if index < SCROLLBACK_PRESET_COUNT {
            let (bytes, _label) = scrollback_preset(index);
            Some(SettingsAction::SaveScrollbackLimitBytes(bytes))
        } else {
            None
        },
        SettingsItemId::Integration { .. } => if p.integrations_need_install() {
            Some(SettingsAction::InstallRecommendedIntegrations)
        } else {
            None
        },
        SettingsItemId::SoundAlerts => Some(SettingsAction::SaveSound(!p.sound_enabled)),
        SettingsItemId::ToastDelay => Some(
            SettingsAction::SaveToastDelaySeconds(cycle_toast_delay(p.toast_delay_seconds)),
        ),
        SettingsItemId::ToastHerdrPosition => Some(
            SettingsAction::SaveToastHerdrPosition(
                cycle_toast_herdr_position(p.toast_herdr_position),
            ),
        ),
        SettingsItemId::ClipboardToast => {
            if !p.clipboard_toast_enabled {
                return Some(SettingsAction::SaveClipboardToastEnabled(true));
            }
            let next = cycle_clipboard_toast_position(p.clipboard_toast_position);
            if next == ToastClipboardPosition::TopLeft && p.clipboard_toast_position
                == ToastClipboardPosition::BottomLeft {
                return Some(SettingsAction::SaveClipboardToastEnabled(false));
            }
            Some(SettingsAction::SaveClipboardToastPosition(next))
        },
        SettingsItemId::ToastDelivery { delivery } => Some(SettingsAction::SaveToastDelivery(delivery)),
        SettingsItemId::ResumeAgentsOnRestore => Some(
            SettingsAction::SaveResumeAgentsOnRestore(!p.resume_agents_on_restore),
        ),
        SettingsItemId::UpdateChannelStable => Some(
            SettingsAction::SaveUpdateChannel(UpdateChannelConfig::Stable),
        ),
        SettingsItemId::UpdateChannelPreview => Some(
            SettingsAction::SaveUpdateChannel(UpdateChannelConfig::Preview),
        ),
        SettingsItemId::VersionCheck => Some(SettingsAction::SaveVersionCheck(!p.version_check)),
        SettingsItemId::ManifestCheck => Some(SettingsAction::SaveManifestCheck(!p.manifest_check)),
        SettingsItemId::Experiment(setting) => Some(experiment_toggle_action(p, setting)),
        SettingsItemId::ManageSshConfig => Some(
            SettingsAction::SaveManageSshConfig(!p.manage_ssh_config),
        ),
        SettingsItemId::ClipboardHistory => Some(
            SettingsAction::SaveClipboardHistoryEnabled(!p.clipboard_history_enabled),
        ),
        SettingsItemId::FleetOpsBar => Some(SettingsAction::SaveFleetOpsBar(!p.fleet_ops_bar)),
        SettingsItemId::InstalledPlugin { index } => {
            let order = installed_plugins_sorted(p);
            if index < order.len() {
                let plugin = &p.installed_plugins[order[index]];
                Some(
                    SettingsAction::TogglePluginEnabled {
                        plugin_id: crate::text::string_of(
                            &crate::text::chars_of(plugin.plugin_id.as_str()),
                        ),
                        enabled: !plugin.enabled,
                    },
                )
            } else {
                None
            }
        },
        SettingsItemId::CatalogPlugin { index } => {
            let available = catalog_entries_available(p);
            if index < available.len() {
                Some(
                    SettingsAction::InstallCatalogPlugin {
                        source: crate::text::string_of(
                            &crate::text::chars_of(available[index].source),
                        ),
                    },
                )
            } else {
                None
            }
        },
        _ => None,
    }
}

// ── item ids carrying an index ─────────────────────────────────────────

pub fn catalog_plugin_index(id: SettingsItemId) -> (r: Option<usize>)
    ensures
        r == (match id {
            SettingsItemId::CatalogPlugin { index } => Some(index),
            _ => None,
        }),
{
    match id {
        SettingsItemId::CatalogPlugin { index } => Some(index),
        _ => None,
    }
}

pub fn installed_plugin_index(id: SettingsItemId) -> (r: Option<usize>)
    ensures
        r == (match id {
            SettingsItemId::InstalledPlugin { index } => Some(index),
            _ => None,
        }),
{
    match id {
        SettingsItemId::InstalledPlugin { index } => Some(index),
        _ => None,
    }
}

pub fn pane_template_index(id: SettingsItemId) -> (r: Option<usize>)
    ensures
        r == (match id {
            SettingsItemId::PaneTemplate { index } => Some(index),
            _ => None,
        }),
{
    match id {
        SettingsItemId::PaneTemplate { index } => Some(index),
        _ => None,
    }
}

pub fn integration_index(id: SettingsItemId) -> (r: Option<usize>)
    ensures
        r == (match id {
            SettingsItemId::Integration { index } => Some(index),
            _ => None,
        }),
{
    match id {
        SettingsItemId::Integration { index } => Some(index),
        _ => None,
    }
}

pub fn spinner_index(id: SettingsItemId) -> (r: Option<usize>)
    ensures
        r == (match id {
            SettingsItemId::Spinner { index } => Some(index),
            _ => None,
        }),
{
    match id {
        SettingsItemId::Spinner { index } => Some(index),
        _ => None,
    }
}

pub fn theme_index(id: SettingsItemId) -> (r: Option<usize>)
    ensures
        r == (match id {
            SettingsItemId::Theme { index } => Some(index),
            _ => None,
        }),
{
    match id {
        SettingsItemId::Theme { index } => Some(index),
        _ => None,
    }
}

} // verus!
