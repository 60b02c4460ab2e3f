use herdr::settings_catalog::{activate_item, catalog_entries_available, installed_plugins_sorted, SettingsItemId};
use herdr::settings_config::{
    cycle_clipboard_toast_position, cycle_default_shell, cycle_host_cursor, cycle_toast_delay,
    AgentPanelSort, HostCursorModeConfig, NewTerminalCwdConfig, ShellModeConfig,
    SidebarCollapsedModeConfig, ToastClipboardPosition, ToastDelivery, ToastHerdrPosition,
    UpdateChannelConfig,
};
use herdr::settings_input::{
    adjacent_settings_section, current_theme_index, handle_settings_key, open_settings,
    open_settings_at, update_settings_state, ModalAction, SettingsKey, SettingsKeyCode,
};
use herdr::settings_mouse::{
    handle_settings_mouse, settings_inner_rect, settings_list_area, settings_list_index_at, settings_tab_at, Rect,
    SettingsGeometry, SettingsMouse,
};
use herdr::settings_persist::{config_update, save_spinner_style, toml_string_of, ConfigEdit};
use herdr::settings_rows::{matches_filter, row_toggle_checked, section_rows, SettingsPage, SettingsRow, SettingsRowKind};
use herdr::settings_state::{
    integration_marker, integrations_hint, InstalledPlugin, IntegrationRecommendation, IntegrationStatusKind, Palette,
    Rgb, SettingsAction, SettingsPrefs, SettingsSection, SettingsState,
};
use herdr::spinner::SpinnerStyle;

fn palette(shade: u8) -> Palette {
    let c = |k: u8| Rgb { r: shade, g: k, b: shade.wrapping_add(k) };
    Palette {
        text: c(1),
        subtext0: c(2),
        overlay0: c(3),
        overlay1: c(4),
        surface0: c(5),
        panel_bg: c(6),
        accent: c(7),
        green: c(8),
        yellow: c(9),
    }
}

fn state_with_workspaces() -> SettingsState {
    SettingsState {
        palette: palette(10),
        original_palette: None,
        section: SettingsSection::Theme,
        selected: 0,
        open: false,
        theme_name: "catppuccin".to_string(),
        original_theme: None,
        search: String::new(),
        spinner_category: 0,
        prefs: SettingsPrefs {
            theme_names: vec![
                "catppuccin".to_string(),
                "dracula".to_string(),
                "gruvbox".to_string(),
            ],
            theme_auto_switch: false,
            pane_borders: true,
            pane_gaps: false,
            agent_border_labels: true,
            hide_tab_bar_when_single_tab: false,
            sidebar_collapsed_mode: SidebarCollapsedModeConfig::Compact,
            agent_panel_sort: AgentPanelSort::Spaces,
            mouse_capture: true,
            copy_on_select: true,
            redraw_on_focus_gained: false,
            confirm_close: true,
            prompt_new_tab_name: false,
            prompt_new_workspace_name: false,
            host_cursor: HostCursorModeConfig::Auto,
            default_shell: String::new(),
            shell_mode: ShellModeConfig::Auto,
            new_terminal_cwd: NewTerminalCwdConfig::Follow,
            pane_scrollback_limit_bytes: 10_000_000,
            sound_enabled: false,
            toast_delivery: ToastDelivery::Herdr,
            toast_delay_seconds: 1,
            toast_herdr_position: ToastHerdrPosition::TopRight,
            clipboard_toast_enabled: true,
            clipboard_toast_position: ToastClipboardPosition::TopCenter,
            resume_agents_on_restore: true,
            update_channel: UpdateChannelConfig::Stable,
            version_check: true,
            manifest_check: true,
            manage_ssh_config: false,
            clipboard_history_enabled: false,
            pane_history_persistence: false,
            switch_ascii_input_source_in_prefix: false,
            kitty_graphics: false,
            allow_nested: false,
            reveal_hidden_cursor_for_cjk_ime: false,
            fleet_ops_bar: false,
            spinner_style: SpinnerStyle::Dots,
            integration_recommendations: vec![],
            theme_palettes: vec![Some(palette(10)), Some(palette(20)), Some(palette(30))],
            installed_plugins: vec![],
            fleet_ops_plugin_count: 6,
            prefix_key_label: "ctrl+b".to_string(),
            worktree_directory: "/home/me/worktrees".to_string(),
            config_path: "/home/me/.config/herdr/config.toml".to_string(),
        },
    }
}

fn key(code: SettingsKeyCode) -> SettingsKey {
    let modal = match code {
        SettingsKeyCode::Esc => Some(ModalAction::Close),
        SettingsKeyCode::Enter => Some(ModalAction::Apply),
        _ => None,
    };
    SettingsKey { code, modal }
}

fn integration_recommendation(state: IntegrationStatusKind, available: bool) -> IntegrationRecommendation {
    IntegrationRecommendation { label: "codex".to_string(), available, state }
}

#[test]
fn settings_cancel_restores_previewed_theme_from_other_sections() {
    let mut state = state_with_workspaces();
    let original_palette = state.palette;
    let original_theme = state.theme_name.clone();

    open_settings(&mut state);
    update_settings_state(&mut state, key(SettingsKeyCode::Down));
    assert_ne!(state.theme_name, original_theme);

    update_settings_state(&mut state, key(SettingsKeyCode::Tab));
    assert_eq!(state.section, SettingsSection::Ui);

    update_settings_state(&mut state, key(SettingsKeyCode::Esc));

    assert!(!state.open);
    assert_eq!(state.theme_name, original_theme);
    assert_eq!(state.palette.accent, original_palette.accent);
    assert_eq!(state.palette.panel_bg, original_palette.panel_bg);
}

#[test]
fn settings_sound_toggle_returns_save_action() {
    let mut state = state_with_workspaces();
    open_settings(&mut state);
    state.section = SettingsSection::Sound;
    state.selected = 0;

    let action = update_settings_state(&mut state, key(SettingsKeyCode::Enter));

    assert_eq!(action, Some(SettingsAction::SaveSound(true)));
    assert!(!state.prefs.sound_enabled);
    assert!(state.open);
}

#[test]
fn settings_system_toggles_pane_history() {
    let mut state = state_with_workspaces();
    state.prefs.pane_history_persistence = false;
    open_settings_at(&mut state, SettingsSection::System);

    let action = update_settings_state(&mut state, key(SettingsKeyCode::Enter));

    assert_eq!(action, Some(SettingsAction::SavePaneHistory(true)));
    assert!(state.open);
}

#[test]
fn settings_system_down_then_toggle_switches_ascii_input_source() {
    let mut state = state_with_workspaces();
    state.prefs.switch_ascii_input_source_in_prefix = false;
    open_settings_at(&mut state, SettingsSection::System);

    update_settings_state(&mut state, key(SettingsKeyCode::Down));
    assert_eq!(state.selected, 1);

    let action = update_settings_state(&mut state, key(SettingsKeyCode::Enter));

    assert_eq!(action, Some(SettingsAction::SaveSwitchAsciiInputSourceInPrefix(true)));
    assert!(state.open);
}

#[test]
fn settings_fleet_enter_toggles_fleet_ops_bar() {
    let mut state = state_with_workspaces();
    state.prefs.fleet_ops_bar = false;
    open_settings_at(&mut state, SettingsSection::Fleet);

    let action = update_settings_state(&mut state, key(SettingsKeyCode::Enter));

    assert_eq!(action, Some(SettingsAction::SaveFleetOpsBar(true)));
    assert!(state.open);
}

fn tab_from(section: SettingsSection, code: SettingsKeyCode) -> SettingsSection {
    let mut state = state_with_workspaces();
    open_settings_at(&mut state, section);
    update_settings_state(&mut state, key(code));
    state.section
}

#[test]
fn settings_tab_ui_to_sound() {
    assert_eq!(tab_from(SettingsSection::Ui, SettingsKeyCode::Tab), SettingsSection::Sound);
}

#[test]
fn settings_tab_sound_to_system() {
    assert_eq!(tab_from(SettingsSection::Sound, SettingsKeyCode::Tab), SettingsSection::System);
}

#[test]
fn settings_tab_system_to_fleet() {
    assert_eq!(tab_from(SettingsSection::System, SettingsKeyCode::Tab), SettingsSection::Fleet);
}

#[test]
fn settings_tab_fleet_to_plugins() {
    assert_eq!(tab_from(SettingsSection::Fleet, SettingsKeyCode::Tab), SettingsSection::Plugins);
}

#[test]
fn settings_tab_plugins_to_templates() {
    assert_eq!(
        tab_from(SettingsSection::Plugins, SettingsKeyCode::Tab),
        SettingsSection::Templates
    );
}

#[test]
fn settings_backtab_templates_to_plugins() {
    assert_eq!(
        tab_from(SettingsSection::Templates, SettingsKeyCode::BackTab),
        SettingsSection::Plugins
    );
}

#[test]
fn integrations_enter_does_nothing_when_nothing_needs_install() {
    let mut state = state_with_workspaces();
    open_settings_at(&mut state, SettingsSection::Integrations);

    let enter_action = update_settings_state(&mut state, key(SettingsKeyCode::Enter));
    assert_eq!(enter_action, None);

    let space_action = update_settings_state(&mut state, key(SettingsKeyCode::Char(' ')));
    assert_eq!(space_action, None);
}

#[test]
fn integration_update_badge_only_tracks_outdated_recommendations() {
    let mut state = state_with_workspaces();
    state.prefs.integration_recommendations =
        vec![integration_recommendation(IntegrationStatusKind::NotInstalled, true)];
    assert!(!state.prefs.integration_updates_available());

    state.prefs.integration_recommendations =
        vec![integration_recommendation(IntegrationStatusKind::NotInstalled, false)];
    assert!(!state.prefs.integration_updates_available());

    state.prefs.integration_recommendations =
        vec![integration_recommendation(IntegrationStatusKind::Current, true)];
    assert!(!state.prefs.integration_updates_available());

    state.prefs.integration_recommendations =
        vec![integration_recommendation(IntegrationStatusKind::Outdated, true)];
    assert!(state.prefs.integration_updates_available());
}

fn geometry() -> SettingsGeometry {
    let popup = Rect { x: 15, y: 3, width: 76, height: 22 };
    let inner = Rect { x: 16, y: 4, width: 74, height: 20 };
    SettingsGeometry {
        popup,
        inner,
        content: Rect { x: 18, y: 7, width: 70, height: 13 },
        apply_button: Some(Rect { x: 60, y: 23, width: 10, height: 1 }),
        close_button: Rect { x: 72, y: 23, width: 10, height: 1 },
        template_hit: None,
    }
}

fn left_click(col: u16, row: u16) -> SettingsMouse {
    SettingsMouse { left_down: true, col, row }
}

#[test]
fn settings_hover_does_not_change_selection() {
    let mut state = state_with_workspaces();
    open_settings(&mut state);
    state.selected = 0;
    let g = geometry();
    let action = handle_settings_mouse(
        &mut state,
        SettingsMouse { left_down: false, col: g.content.x + 2, row: g.content.y + 2 },
        g,
    );
    assert_eq!(action, None);
    assert_eq!(state.selected, 0);
}

#[test]
fn settings_click_inside_chrome_does_not_cancel() {
    let mut state = state_with_workspaces();
    let original_theme = state.theme_name.clone();
    open_settings(&mut state);
    let g = geometry();
    let chrome_col = g.popup.x + 2;
    let chrome_row = g.popup.y + 1;
    assert!(settings_tab_at(&state, g.inner, chrome_col, chrome_row).is_none());
    assert!(settings_list_index_at(&state, g.content, chrome_col, chrome_row, None).is_none());

    let action = handle_settings_mouse(&mut state, left_click(chrome_col, chrome_row), g);

    assert_eq!(action, None);
    assert!(state.open);
    assert_eq!(state.theme_name, original_theme);
}

#[test]
fn settings_click_outside_popup_cancels() {
    let mut state = state_with_workspaces();
    open_settings(&mut state);
    let g = geometry();
    let action = handle_settings_mouse(&mut state, left_click(0, 0), g);
    assert_eq!(action, None);
    assert!(!state.open);
    assert!(g.popup.width > 0);
}

#[test]
fn settings_mouse_click_toggles_pane_history() {
    let mut state = state_with_workspaces();
    state.prefs.pane_history_persistence = false;
    open_settings_at(&mut state, SettingsSection::System);
    let g = geometry();
    let area = g.content;
    let action = handle_settings_mouse(&mut state, left_click(area.x + 2, area.y + 3), g);
    assert_eq!(action, Some(SettingsAction::SavePaneHistory(true)));
    assert_eq!(state.selected, 0);
}

#[test]
fn settings_mouse_click_toggles_switch_ascii_input_source_row() {
    let mut state = state_with_workspaces();
    state.prefs.switch_ascii_input_source_in_prefix = false;
    open_settings_at(&mut state, SettingsSection::System);
    update_settings_state(&mut state, key(SettingsKeyCode::Down));
    let action = update_settings_state(&mut state, key(SettingsKeyCode::Enter));
    assert_eq!(action, Some(SettingsAction::SaveSwitchAsciiInputSourceInPrefix(true)));
}

#[test]
fn settings_plugins_list_index_at_installed_and_browse_rows() {
    let mut state = state_with_workspaces();
    state.prefs.installed_plugins = vec![InstalledPlugin {
        plugin_id: "com.chefgroep.linear-context".to_string(),
        name: "Test Plugin".to_string(),
        enabled: true,
    }];
    open_settings_at(&mut state, SettingsSection::Plugins);
    let g = geometry();
    let list_area = settings_list_area(g.content);
    assert_eq!(
        settings_list_index_at(&state, g.content, list_area.x + 1, list_area.y, None),
        Some(0)
    );
    let browse_y = list_area.y + state.prefs.installed_plugins.len() as u16 + 1;
    assert_eq!(
        settings_list_index_at(&state, g.content, list_area.x + 1, browse_y, None),
        Some(state.prefs.installed_plugins.len())
    );
}

#[test]
fn settings_integrations_click_selects_row() {
    let mut state = state_with_workspaces();
    state.prefs.integration_recommendations = vec![
        integration_recommendation(IntegrationStatusKind::Current, true),
        integration_recommendation(IntegrationStatusKind::Outdated, true),
    ];
    open_settings_at(&mut state, SettingsSection::Integrations);
    let g = geometry();
    let list_area = settings_list_area(g.content);
    let action = handle_settings_mouse(&mut state, left_click(list_area.x + 1, list_area.y + 1), g);
    assert_eq!(action, None);
    assert_eq!(state.selected, 1);
}

#[test]
fn settings_tab_hit_area_includes_integration_update_badge() {
    let mut state = state_with_workspaces();
    state.prefs.integration_recommendations =
        vec![integration_recommendation(IntegrationStatusKind::Outdated, true)];
    open_settings(&mut state);
    let inner = geometry().inner;
    let tab_y = inner.y + 1;
    let sections = [
        SettingsSection::Theme,
        SettingsSection::Ui,
        SettingsSection::Sound,
        SettingsSection::System,
        SettingsSection::Fleet,
        SettingsSection::Plugins,
        SettingsSection::Templates,
    ];
    let integrations_x = inner.x
        + sections.iter().map(|section| section.label().len() as u16 + 3).sum::<u16>();
    let dotted_width = SettingsSection::Integrations.label().len() as u16 + 4;
    assert_eq!(
        settings_tab_at(&state, inner, integrations_x + dotted_width - 1, tab_y),
        Some(SettingsSection::Integrations)
    );
}

#[test]
fn theme_index_follows_normalized_names() {
    let names = vec!["Tokyo Night".to_string(), "solarized_dark".to_string()];
    assert_eq!(current_theme_index(&names, "tokyo-night"), 0);
    assert_eq!(current_theme_index(&names, "Solarized Dark"), 1);
    assert_eq!(current_theme_index(&names, "missing"), 0);
}

#[test]
fn tab_then_backtab_returns_to_the_same_section() {
    let all = [
        SettingsSection::Theme,
        SettingsSection::Ui,
        SettingsSection::Sound,
        SettingsSection::System,
        SettingsSection::Fleet,
        SettingsSection::Plugins,
        SettingsSection::Templates,
        SettingsSection::Integrations,
    ];
    for s in all {
        assert_eq!(adjacent_settings_section(adjacent_settings_section(s, 1), -1), s);
        let mut t = s;
        for _ in 0..8 {
            t = adjacent_settings_section(t, 1);
        }
        assert_eq!(t, s);
    }
    assert_eq!(adjacent_settings_section(SettingsSection::Theme, -1), SettingsSection::Integrations);
    assert_eq!(adjacent_settings_section(SettingsSection::Ui, 17), SettingsSection::Sound);
    assert_eq!(adjacent_settings_section(SettingsSection::Ui, isize::MIN), SettingsSection::Ui);
}

#[test]
fn ui_tab_moves_through_toggles_and_spinner_grid() {
    let mut state = state_with_workspaces();
    open_settings_at(&mut state, SettingsSection::Ui);
    for _ in 0..4 {
        update_settings_state(&mut state, key(SettingsKeyCode::Down));
    }
    assert_eq!(state.selected, 4);
    update_settings_state(&mut state, key(SettingsKeyCode::Down));
    assert_eq!(state.selected, 6);
    update_settings_state(&mut state, key(SettingsKeyCode::Up));
    assert_eq!(state.selected, 4);
    update_settings_state(&mut state, key(SettingsKeyCode::Up));
    assert_eq!(state.selected, 3);
    state.selected = 4;
    let action = update_settings_state(&mut state, key(SettingsKeyCode::Enter));
    assert_eq!(action, Some(SettingsAction::SaveSpinnerStyle(SpinnerStyle::Dots)));
    state.selected = 82;
    update_settings_state(&mut state, key(SettingsKeyCode::Down));
    assert_eq!(state.selected, 83);
}

#[test]
fn theme_apply_saves_previewed_theme_and_closes() {
    let mut state = state_with_workspaces();
    open_settings(&mut state);
    update_settings_state(&mut state, key(SettingsKeyCode::Down));
    let action = update_settings_state(&mut state, key(SettingsKeyCode::Enter));
    assert_eq!(action, Some(SettingsAction::SaveTheme("dracula".to_string())));
    assert!(!state.open);
    assert_eq!(state.original_theme, None);
}

#[test]
fn activate_cycles_and_toggles() {
    let mut state = state_with_workspaces();
    assert_eq!(
        activate_item(&state, SettingsItemId::PaneGaps),
        Some(SettingsAction::SavePaneGaps(true))
    );
    assert_eq!(
        activate_item(&state, SettingsItemId::HostCursor),
        Some(SettingsAction::SaveHostCursor(HostCursorModeConfig::Native))
    );
    assert_eq!(
        activate_item(&state, SettingsItemId::DefaultShell),
        Some(SettingsAction::SaveDefaultShell("bash".to_string()))
    );
    assert_eq!(
        activate_item(&state, SettingsItemId::ToastDelay),
        Some(SettingsAction::SaveToastDelaySeconds(2))
    );
    assert_eq!(
        activate_item(&state, SettingsItemId::ScrollbackPreset { index: 3 }),
        Some(SettingsAction::SaveScrollbackLimitBytes(50_000_000))
    );
    assert_eq!(activate_item(&state, SettingsItemId::ScrollbackPreset { index: 4 }), None);
    assert_eq!(activate_item(&state, SettingsItemId::KeybindHelp), None);
    state.prefs.clipboard_toast_position = ToastClipboardPosition::BottomLeft;
    assert_eq!(
        activate_item(&state, SettingsItemId::ClipboardToast),
        Some(SettingsAction::SaveClipboardToastEnabled(false))
    );
    state.prefs.clipboard_toast_enabled = false;
    assert_eq!(
        activate_item(&state, SettingsItemId::ClipboardToast),
        Some(SettingsAction::SaveClipboardToastEnabled(true))
    );
}

#[test]
fn installed_plugins_are_listed_by_id() {
    let mut state = state_with_workspaces();
    state.prefs.installed_plugins = vec![
        InstalledPlugin { plugin_id: "com.zeta".to_string(), name: "Zeta".to_string(), enabled: true },
        InstalledPlugin { plugin_id: "com.alpha".to_string(), name: "Alpha".to_string(), enabled: false },
        InstalledPlugin {
            plugin_id: "com.chefgroep.github-status".to_string(),
            name: "GitHub".to_string(),
            enabled: true,
        },
    ];
    assert_eq!(installed_plugins_sorted(&state.prefs), vec![1, 2, 0]);
    assert_eq!(
        activate_item(&state, SettingsItemId::InstalledPlugin { index: 0 }),
        Some(SettingsAction::TogglePluginEnabled { plugin_id: "com.alpha".to_string(), enabled: true })
    );
    let available = catalog_entries_available(&state.prefs);
    assert_eq!(available.len(), 5);
    assert_eq!(available[1].name, "Fleet health");
    assert_eq!(
        activate_item(&state, SettingsItemId::CatalogPlugin { index: 0 }),
        Some(SettingsAction::InstallCatalogPlugin {
            source: "OnlineChefGroep/herdr-plugins/chef-linear-context".to_string()
        })
    );
}

#[test]
fn cycles_wrap_around() {
    assert_eq!(cycle_host_cursor(HostCursorModeConfig::Drawn), HostCursorModeConfig::Auto);
    assert_eq!(cycle_toast_delay(5), 0);
    assert_eq!(cycle_toast_delay(7), 2);
    assert_eq!(cycle_default_shell("nu"), "");
    assert_eq!(cycle_default_shell("tcsh"), "bash");
    assert_eq!(
        cycle_clipboard_toast_position(ToastClipboardPosition::BottomLeft),
        ToastClipboardPosition::TopLeft
    );
}

#[test]
fn rows_follow_the_search() {
    let mut state = state_with_workspaces();
    let rows = section_rows(&state, SettingsPage::Layout);
    assert_eq!(rows.len(), 16);
    assert_eq!(rows[4].detail.as_deref(), Some("compact"));
    state.search = "GAPS".to_string();
    let rows = section_rows(&state, SettingsPage::Layout);
    assert_eq!(rows.len(), 1);
    assert_eq!(rows[0].label, "pane gaps");
    state.search = "ctrl+b".to_string();
    let rows = section_rows(&state, SettingsPage::Input);
    assert_eq!(rows.len(), 1);
    assert_eq!(rows[0].detail.as_deref(), Some("press ctrl+b+? or open prefix help"));
    assert!(matches_filter("", "anything", None));
    assert!(!matches_filter("zzz", "pane borders", Some("draw borders")));
}

#[test]
fn notification_rows_show_delay_and_positions() {
    let state = state_with_workspaces();
    let rows = section_rows(&state, SettingsPage::Notifications);
    assert_eq!(rows.len(), 8);
    assert_eq!(rows[5].detail.as_deref(), Some("1s"));
    assert_eq!(rows[6].detail.as_deref(), Some("topright"));
    assert_eq!(rows[7].detail.as_deref(), Some("on \u{b7} topcenter"));
}

#[test]
fn agents_rows_note_missing_integrations() {
    let state = state_with_workspaces();
    let rows = section_rows(&state, SettingsPage::Agents);
    assert_eq!(rows.len(), 2);
    assert_eq!(rows[1].label, "no supported agent CLIs found on PATH");
}

#[test]
fn settings_actions_map_to_config_edits() {
    let update = config_update(&SettingsAction::SaveTheme("dracula".to_string())).unwrap();
    assert_eq!(update.context, "theme");
    assert_eq!(
        update.edits,
        vec![
            ConfigEdit::SetValue { section: "theme", key: "name", value: "\"dracula\"".to_string() },
            ConfigEdit::SetBool { section: "theme", key: "auto_switch", value: false },
        ]
    );
    let update = config_update(&SettingsAction::SaveDefaultShell(String::new())).unwrap();
    assert_eq!(update.edits, vec![ConfigEdit::RemoveKey { section: "terminal", key: "default_shell" }]);
    let update = config_update(&SettingsAction::SaveScrollbackLimitBytes(5_000_000)).unwrap();
    assert_eq!(
        update.edits,
        vec![ConfigEdit::SetValue {
            section: "advanced",
            key: "scrollback_limit_bytes",
            value: "5000000".to_string()
        }]
    );
    let update = config_update(&SettingsAction::SaveSpinnerStyle(SpinnerStyle::DwarfFortress)).unwrap();
    assert_eq!(
        update.edits,
        vec![ConfigEdit::SetValue {
            section: "ui",
            key: "spinner_style",
            value: "\"dwarf-fortress\"".to_string()
        }]
    );
    let update = config_update(&SettingsAction::SaveClipboardToastPosition(ToastClipboardPosition::BottomCenter)).unwrap();
    assert_eq!(
        update.edits,
        vec![ConfigEdit::SetValue {
            section: "ui.toast.clipboard",
            key: "position",
            value: "\"bottom-center\"".to_string()
        }]
    );
    assert!(config_update(&SettingsAction::InstallRecommendedIntegrations).is_none());
}

#[test]
fn toggle_rows_save_the_opposite_of_their_check_mark() {
    let mut state = state_with_workspaces();
    let row = SettingsRow {
        label: "Pane gaps".to_string(),
        detail: None,
        kind: SettingsRowKind::Toggle,
        id: SettingsItemId::PaneGaps,
    };
    assert!(!row_toggle_checked(&state, &row));
    assert_eq!(activate_item(&state, SettingsItemId::PaneGaps), Some(SettingsAction::SavePaneGaps(true)));
    state.prefs.pane_gaps = true;
    assert!(row_toggle_checked(&state, &row));
    assert_eq!(activate_item(&state, SettingsItemId::PaneGaps), Some(SettingsAction::SavePaneGaps(false)));
}

#[test]
fn entering_integrations_tab_asks_for_a_refresh() {
    let mut state = state_with_workspaces();
    open_settings_at(&mut state, SettingsSection::Templates);
    let outcome = handle_settings_key(&mut state, key(SettingsKeyCode::Tab));
    assert_eq!(state.section, SettingsSection::Integrations);
    assert!(outcome.refresh_integrations);
    assert_eq!(outcome.action, None);
    let outcome = handle_settings_key(&mut state, key(SettingsKeyCode::Down));
    assert_eq!(state.section, SettingsSection::Integrations);
    assert!(!outcome.refresh_integrations);
    let outcome = handle_settings_key(&mut state, key(SettingsKeyCode::Tab));
    assert_eq!(state.section, SettingsSection::Theme);
    assert!(!outcome.refresh_integrations);
}

fn rec(label: &str, available: bool, state: IntegrationStatusKind) -> IntegrationRecommendation {
    IntegrationRecommendation { label: label.to_string(), available, state }
}

#[test]
fn integration_markers_follow_status() {
    let recs = vec![
        rec("amp", true, IntegrationStatusKind::Current),
        rec("codex", true, IntegrationStatusKind::Outdated),
        rec("pi", true, IntegrationStatusKind::NotInstalled),
        rec("opencode", false, IntegrationStatusKind::NotInstalled),
    ];
    assert_eq!(integration_marker(&recs, 0), "\u{2713}");
    assert_eq!(integration_marker(&recs, 1), "\u{21bb}");
    assert_eq!(integration_marker(&recs, 2), "+");
    assert_eq!(integration_marker(&recs, 3), "\u{2013}");
    assert_eq!(integration_marker(&recs, 4), " ");
}

#[test]
fn integrations_hint_reports_what_can_be_done() {
    let installable = vec![rec("pi", true, IntegrationStatusKind::NotInstalled)];
    assert_eq!(integrations_hint(&installable), " press install to add available or outdated integrations");
    let done = vec![rec("pi", true, IntegrationStatusKind::Current)];
    assert_eq!(integrations_hint(&done), " all detected integrations are installed");
    let none = vec![rec("pi", false, IntegrationStatusKind::NotInstalled)];
    assert_eq!(integrations_hint(&none), " no supported agent CLIs found on PATH");
    assert_eq!(integrations_hint(&vec![]), " no supported agent CLIs found on PATH");
}

#[test]
fn previewing_a_theme_uses_its_colours() {
    let mut state = state_with_workspaces();
    open_settings(&mut state);
    update_settings_state(&mut state, key(SettingsKeyCode::Down));
    assert_eq!(state.theme_name, "dracula");
    assert_eq!(state.palette, palette(20));
    state.prefs.theme_palettes[2] = None;
    update_settings_state(&mut state, key(SettingsKeyCode::Down));
    assert_eq!(state.selected, 2);
    assert_eq!(state.theme_name, "dracula");
    assert_eq!(state.palette, palette(20));
}

#[test]
fn text_values_are_written_as_escaped_toml_strings() {
    assert_eq!(toml_string_of("C:\\Users\\me"), "\"C:\\\\Users\\\\me\"");
    assert_eq!(toml_string_of("say \"hi\""), "\"say \\\"hi\\\"\"");
    assert_eq!(toml_string_of("a\tb\nc\u{1}d\u{7f}"), "\"a\\tb\\nc\\u0001d\\u007f\"");
    assert_eq!(toml_string_of("/home/me/\u{e9}t\u{e9}"), "\"/home/me/\u{e9}t\u{e9}\"");
    let update = config_update(&SettingsAction::SaveNewTerminalCwd(NewTerminalCwdConfig::Path(
        "C:\\Users\\me".to_string(),
    )))
    .unwrap();
    assert_eq!(
        update.edits,
        vec![ConfigEdit::SetValue {
            section: "terminal",
            key: "new_cwd",
            value: "\"C:\\\\Users\\\\me\"".to_string()
        }]
    );
    let update = config_update(&SettingsAction::SaveDefaultShell("/bin/my \"sh\"".to_string())).unwrap();
    assert_eq!(
        update.edits,
        vec![ConfigEdit::SetValue {
            section: "terminal",
            key: "default_shell",
            value: "\"/bin/my \\\"sh\\\"\"".to_string()
        }]
    );
    let update = config_update(&SettingsAction::SaveNewTerminalCwd(NewTerminalCwdConfig::Home)).unwrap();
    assert_eq!(
        update.edits,
        vec![ConfigEdit::SetValue { section: "terminal", key: "new_cwd", value: "\"home\"".to_string() }]
    );
}

#[test]
fn saving_a_spinner_style_puts_it_in_use() {
    let mut state = state_with_workspaces();
    let update = save_spinner_style(&mut state.prefs, SpinnerStyle::Dots8Bit);
    assert_eq!(state.prefs.spinner_style, SpinnerStyle::Dots8Bit);
    assert_eq!(update.context, "spinner style");
    assert_eq!(
        update.edits,
        vec![ConfigEdit::SetValue { section: "ui", key: "spinner_style", value: "\"dots8-bit\"".to_string() }]
    );
}

#[test]
fn inner_rect_drops_the_border() {
    let popup = Rect { x: 7, y: 3, width: 106, height: 28 };
    assert_eq!(settings_inner_rect(popup), Rect { x: 8, y: 4, width: 104, height: 26 });
    let tiny = Rect { x: 0, y: 0, width: 1, height: 0 };
    assert_eq!(settings_inner_rect(tiny), Rect { x: 1, y: 1, width: 0, height: 0 });
}
