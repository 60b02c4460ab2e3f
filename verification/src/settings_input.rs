//! Keyboard handling of the settings screen: moving between tabs and rows,
//! previewing themes, and turning key presses into settings actions.
use vstd::prelude::*;

use crate::pane_template::{template_at, PaneTemplateId};
use crate::settings_catalog::{experiment_toggle_action, experiment_toggle_spec};
use crate::settings_config::{
    experiment_at, toast_delivery_for_index, toast_delivery_for_index_spec, ExperimentSetting,
};
use crate::settings_state::{
    action_opt_view, any_needs_install, section_at, section_position, Palette, SettingsAction,
    SettingsActionView, SettingsPrefs, SettingsSection, SettingsState,
};
use crate::spinner::{style_at, SpinnerStyle};
use crate::text::unicode_lowercase;

verus! {

/// Rows of on/off toggles at the top of the UI tab.
pub const UI_TOGGLE_COUNT: usize = 4;

/// List position of the first spinner on the UI tab.
pub const UI_SPINNER_OFFSET: usize = 4;

/// Items on the UI tab: the toggles and one row per spinner style.
pub const UI_TOTAL_ITEMS: usize = 84;

/// Items on the sound tab: the sound toggle and four toast deliveries.
pub const SOUND_TOTAL: usize = 5;

/// Which key was pressed.
#[derive(Debug, Clone, Copy, PartialEq, Eq, Structural)]
pub enum SettingsKeyCode {
    Up,
    Down,
    Left,
    Right,
    Tab,
    BackTab,
    Enter,
    Esc,
    Char(char),
    Other,
}

/// What the modal key bindings make of a key.
#[derive(Debug, Clone, Copy, PartialEq, Eq, Structural)]
pub enum ModalAction {
    Apply,
    Close,
}

/// A key press on the settings screen, with what the modal key bindings
/// make of it.
#[derive(Debug, Clone, Copy, PartialEq, Eq, Structural)]
pub struct SettingsKey {
    pub code: SettingsKeyCode,
    pub modal: Option<ModalAction>,
}

pub open spec fn is_up(c: SettingsKeyCode) -> bool {
    c == SettingsKeyCode::Up || c == SettingsKeyCode::Char('k')
}

pub open spec fn is_down(c: SettingsKeyCode) -> bool {
    c == SettingsKeyCode::Down || c == SettingsKeyCode::Char('j')
}

pub open spec fn is_left(c: SettingsKeyCode) -> bool {
    c == SettingsKeyCode::Left || c == SettingsKeyCode::Char('h')
}

pub open spec fn is_right(c: SettingsKeyCode) -> bool {
    c == SettingsKeyCode::Right || c == SettingsKeyCode::Char('l')
}

pub open spec fn is_activate(c: SettingsKeyCode) -> bool {
    c == SettingsKeyCode::Enter || c == SettingsKeyCode::Char(' ')
}

fn key_is_up(c: SettingsKeyCode) -> (r: bool)
    ensures
        r == is_up(c),
{
    c == SettingsKeyCode::Up || c == SettingsKeyCode::Char('k')
}

fn key_is_down(c: SettingsKeyCode) -> (r: bool)
    ensures
        r == is_down(c),
{
    c == SettingsKeyCode::Down || c == SettingsKeyCode::Char('j')
}

fn key_is_left(c: SettingsKeyCode) -> (r: bool)
    ensures
        r == is_left(c),
{
    c == SettingsKeyCode::Left || c == SettingsKeyCode::Char('h')
}

fn key_is_right(c: SettingsKeyCode) -> (r: bool)
    ensures
        r == is_right(c),
{
    c == SettingsKeyCode::Right || c == SettingsKeyCode::Char('l')
}

fn key_is_activate(c: SettingsKeyCode) -> (r: bool)
    ensures
        r == is_activate(c),
{
    c == SettingsKeyCode::Enter || c == SettingsKeyCode::Char(' ')
}

/// The part of the settings screen a key press can change.
pub struct CursorView {
    pub section: SettingsSection,
    pub selected: int,
    pub open: bool,
    pub theme: Seq<char>,
    pub original_theme: Option<Seq<char>>,
    pub palette: Palette,
    pub original_palette: Option<Palette>,
}

pub open spec fn opt_seq(o: Option<String>) -> Option<Seq<char>> {
    match o {
        Some(s) => Some(s@),
        None => None,
    }
}

pub open spec fn cursor_of(s: SettingsState) -> CursorView {
    CursorView {
        section: s.section,
        selected: s.selected as int,
        open: s.open,
        theme: s.theme_name@,
        original_theme: opt_seq(s.original_theme),
        palette: s.palette,
        original_palette: s.original_palette,
    }
}

/// The colours theme `i` of the list gives, if any.
pub open spec fn theme_palette(p: SettingsPrefs, i: int) -> Option<Palette> {
    if 0 <= i < p.theme_palettes@.len() {
        p.theme_palettes@[i]
    } else {
        None
    }
}

/// Selecting theme row `sel` and previewing it: when the theme gives
/// colours, it becomes the theme in use with those colours; otherwise only
/// the selection moves.
pub open spec fn preview_at(s: SettingsState, sel: int) -> CursorView {
    let c = CursorView { selected: sel, ..cursor_of(s) };
    match theme_palette(s.prefs, sel) {
        Some(pal) => CursorView { theme: s.prefs.theme_names@[sel]@, palette: pal, ..c },
        None => c,
    }
}

// ── themes ─────────────────────────────────────────────────────────────

/// A theme name compared case-insensitively, with spaces and underscores
/// read as dashes.
pub open spec fn normalize_theme(s: Seq<char>) -> Seq<char> {
    unicode_lowercase(s).map_values(|c: char| if c == ' ' || c == '_' { '-' } else { c })
}

pub open spec fn theme_matches_at(names: Seq<String>, i: int, t: Seq<char>) -> bool {
    normalize_theme(names[i]@) == t
}

/// Position of the first theme that matches `name`, or 0 when none does.
pub open spec fn current_theme_index_spec(names: Seq<String>, name: Seq<char>) -> int {
    let t = normalize_theme(name);
    if exists|i: int| 0 <= i < names.len() && #[trigger] theme_matches_at(names, i, t) {
        choose|i: int|
            0 <= i < names.len() && #[trigger] theme_matches_at(names, i, t) && forall|j: int|
                0 <= j < i ==> !theme_matches_at(names, j, t)
    } else {
        0
    }
}

pub fn normalize_theme_name(name: &str) -> (r: String)
    ensures
        r@ == normalize_theme(name@),
{
    let lower = crate::text::to_lowercase(name);
    let v = crate::text::chars_of(lower.as_str());
    let mut out: Vec<char> = Vec::new();
    let mut i: usize = 0;
    while i < v.len()
        invariant
            i <= v.len(),
            v@ == unicode_lowercase(name@),
            out@ == v@.subrange(0, i as int).map_values(
                |c: char| if c == ' ' || c == '_' { '-' } else { c },
            ),
        decreases v.len() - i,
    {
        let c = v[i];
        if c == ' ' || c == '_' {
            out.push('-');
        } else {
            out.push(c);
        }
        assert(v@.subrange(0, i + 1) =~= v@.subrange(0, i as int).push(c));
        i = i + 1;
    }
    assert(v@.subrange(0, v.len() as int) =~= v@);
    crate::text::string_of(&out)
}

/// Position of the theme in use among `names`.
pub fn current_theme_index(names: &Vec<String>, theme_name: &str) -> (r: usize)
    ensures
        r == current_theme_index_spec(names@, theme_name@),
{
    let t = normalize_theme_name(theme_name);
    let tv = crate::text::chars_of(t.as_str());
    let mut i: usize = 0;
    while i < names.len()
        invariant
            i <= names.len(),
            tv@ == normalize_theme(theme_name@),
            forall|j: int| 0 <= j < i ==> !theme_matches_at(names@, j, tv@),
        decreases names.len() - i,
    {
        let n = normalize_theme_name(names[i].as_str());
        let nv = crate::text::chars_of(n.as_str());
        if crate::text::eq_chars(&nv, &tv) {
            proof {
                let ti = tv@;
                assert(theme_matches_at(names@, i as int, ti));
                let c = choose|c: int|
                    0 <= c < names@.len() && #[trigger] theme_matches_at(names@, c, ti) && forall|
                        j: int,
                    | 0 <= j < c ==> !theme_matches_at(names@, j, ti);
                if c < i {
                    assert(!theme_matches_at(names@, c, ti));
                }
                if c > i {
                    assert(!theme_matches_at(names@, i as int, ti));
                }
            }
            return i;
        }
        i = i + 1;
    }
    0
}

// ── the list cursor ────────────────────────────────────────────────────

pub open spec fn move_prev(sel: int) -> int {
    if sel > 0 {
        sel - 1
    } else {
        0
    }
}

/// The next row, staying on the last row of a list of `len` rows.
pub open spec fn move_next(sel: int, len: int) -> int {
    if sel + 1 < len {
        sel + 1
    } else {
        sel
    }
}

/// Number of rows on a tab.
pub open spec fn section_item_count(p: SettingsPrefs, sec: SettingsSection) -> int {
    match sec {
        SettingsSection::Theme => p.theme_names@.len() as int,
        SettingsSection::Ui => 84,
        SettingsSection::Sound => 5,
        SettingsSection::System => 5,
        SettingsSection::Fleet => 1,
        SettingsSection::Plugins => p.installed_plugins@.len() + p.fleet_ops_plugin_count,
        SettingsSection::Templates => 10,
        SettingsSection::Integrations => p.integration_recommendations@.len() as int,
    }
}

/// The selected row is a row of the current tab (or the first row of an
/// empty tab), and the plugin count fits in a machine word.
pub open spec fn cursor_wf(c: CursorView, p: SettingsPrefs) -> bool {
    &&& 0 <= c.selected
    &&& (c.selected < section_item_count(p, c.section) || c.selected == 0)
    &&& p.installed_plugins@.len() + p.fleet_ops_plugin_count <= usize::MAX
}

pub open spec fn settings_wf(s: SettingsState) -> bool {
    cursor_wf(cursor_of(s), s.prefs)
}

/// What a key press needs of the state: on the theme tab the selected row
/// is at most one past the last theme (moving up then previews a theme
/// that exists), the UI tab's row can move two rows on without overflow,
/// and the plugin count fits in a machine word.
pub open spec fn key_ready(s: SettingsState) -> bool {
    &&& s.section == SettingsSection::Theme ==> s.selected <= s.prefs.theme_names@.len()
    &&& s.section == SettingsSection::Ui ==> s.selected + 2 <= usize::MAX
    &&& s.prefs.installed_plugins@.len() + s.prefs.fleet_ops_plugin_count <= usize::MAX
}

// ── tabs ───────────────────────────────────────────────────────────────

/// The tab `direction` steps away from `current`, wrapping around.
#[verifier::opaque]
pub open spec fn adjacent_section(current: SettingsSection, direction: int) -> SettingsSection {
    section_at((section_position(current) + direction) % 8)
}

/// The row selected when a tab is entered: the theme in use, the sound
/// toggle or first delivery depending on whether sound is on, else the top.
pub open spec fn default_index_spec(s: SettingsState, sec: SettingsSection) -> int {
    match sec {
        SettingsSection::Theme => current_theme_index_spec(s.prefs.theme_names@, s.theme_name@),
        SettingsSection::Sound => if s.prefs.sound_enabled {
            0
        } else {
            1
        },
        _ => 0,
    }
}

pub open spec fn select_view(s: SettingsState, sec: SettingsSection) -> CursorView {
    CursorView { section: sec, selected: default_index_spec(s, sec), ..cursor_of(s) }
}

pub open spec fn cancel_view(s: SettingsState) -> CursorView {
    CursorView {
        open: false,
        theme: match s.original_theme {
            Some(t) => t@,
            None => s.theme_name@,
        },
        original_theme: None,
        palette: match s.original_palette {
            Some(p) => p,
            None => s.palette,
        },
        original_palette: None,
        ..cursor_of(s)
    }
}

/// Applying the current tab: the theme tab saves the previewed theme and
/// closes, the integrations tab installs when something needs installing,
/// the fleet tab flips the ops bar, the plugins tab does nothing, and the
/// other tabs close.
pub open spec fn apply_step(s: SettingsState) -> (CursorView, Option<SettingsActionView>) {
    let c = cursor_of(s);
    match s.section {
        SettingsSection::Theme => (
            CursorView { open: false, original_theme: None, original_palette: None, ..c },
            Some(SettingsActionView::SaveTheme(s.theme_name@)),
        ),
        SettingsSection::Integrations => (
            c,
            if any_needs_install(s.prefs.integration_recommendations@) {
                Some(SettingsActionView::InstallRecommendedIntegrations)
            } else {
                None
            },
        ),
        SettingsSection::Fleet => (c, Some(SettingsActionView::SaveFleetOpsBar(!s.prefs.fleet_ops_bar))),
        SettingsSection::Plugins => (c, None),
        _ => (CursorView { open: false, ..c }, None),
    }
}

/// A key no tab binds: the modal bindings decide. Every tab closes on
/// Close; the theme and integrations tabs apply on Apply, the fleet tab
/// flips the ops bar, the others ignore it.
pub open spec fn modal_step(s: SettingsState, m: Option<ModalAction>) -> (
    CursorView,
    Option<SettingsActionView>,
) {
    let c = cursor_of(s);
    match m {
        Some(ModalAction::Close) => (cancel_view(s), None),
        Some(ModalAction::Apply) => match s.section {
            SettingsSection::Theme | SettingsSection::Integrations | SettingsSection::Fleet => apply_step(s),
            _ => (c, None),
        },
        None => (c, None),
    }
}

/// Moving the theme list selects a new row and previews that theme.
pub open spec fn theme_move(s: SettingsState, sel: int) -> CursorView {
    if sel != s.selected {
        preview_at(s, sel)
    } else {
        cursor_of(s)
    }
}

pub open spec fn with_selected(s: SettingsState, sel: int) -> CursorView {
    CursorView { selected: sel, ..cursor_of(s) }
}

pub open spec fn min_int(a: int, b: int) -> int {
    if a < b {
        a
    } else {
        b
    }
}

/// Activating a row of the UI tab: the toggles flip, a spinner is chosen.
pub open spec fn ui_activate(p: SettingsPrefs, sel: int) -> Option<SettingsActionView> {
    if sel == 0 {
        Some(SettingsActionView::SavePaneBorders(!p.pane_borders))
    } else if sel == 1 {
        Some(SettingsActionView::SavePaneGaps(!p.pane_gaps))
    } else if sel == 2 {
        Some(SettingsActionView::SaveAgentBorderLabels(!p.agent_border_labels))
    } else if sel == 3 {
        Some(SettingsActionView::SaveHideTabBarWhenSingleTab(!p.hide_tab_bar_when_single_tab))
    } else if sel - 4 < 80 {
        Some(SettingsActionView::SaveSpinnerStyle(style_at(sel - 4)))
    } else {
        None
    }
}

/// Activating a row of the sound tab: the first toggles sound, the others
/// pick a toast delivery.
pub open spec fn sound_activate(p: SettingsPrefs, sel: int) -> SettingsActionView {
    if sel == 0 {
        SettingsActionView::SaveSound(!p.sound_enabled)
    } else {
        SettingsActionView::SaveToastDelivery(toast_delivery_for_index_spec(sel - 1))
    }
}

/// Activating a row of the system tab flips that experiment.
pub open spec fn system_activate(p: SettingsPrefs, sel: int) -> Option<SettingsActionView> {
    if sel < 5 {
        Some(experiment_toggle_spec(p, experiment_at(sel)))
    } else {
        None
    }
}

/// Activating a row of the templates tab applies that template.
pub open spec fn templates_activate(sel: int) -> Option<SettingsActionView> {
    if sel < 10 {
        Some(SettingsActionView::ApplyPaneTemplate(template_at(sel)))
    } else {
        None
    }
}

/// The row the UI tab moves to on up: two rows back within the spinner
/// grid, from the first grid row to the last toggle, else one row back.
pub open spec fn ui_up(sel: int) -> int {
    if sel >= 6 {
        sel - 2
    } else if sel >= 4 {
        3
    } else {
        move_prev(sel)
    }
}

/// The row the UI tab moves to on down: one row among the toggles, two
/// within the spinner grid, never past the last spinner.
pub open spec fn ui_down(sel: int) -> int {
    if sel < 4 {
        min_int(sel + 1, 83)
    } else {
        min_int(sel + 2, 83)
    }
}

/// What a key press does to the settings screen, and the action it asks
/// for.
pub open spec fn settings_step(s: SettingsState, k: SettingsKey) -> (
    CursorView,
    Option<SettingsActionView>,
) {
    let c = cursor_of(s);
    let p = s.prefs;
    let sel = s.selected as int;
    let code = k.code;
    let next = (select_view(s, adjacent_section(s.section, 1)), None::<SettingsActionView>);
    let prev = (select_view(s, adjacent_section(s.section, -1)), None::<SettingsActionView>);
    let close_only = match k.modal {
        Some(ModalAction::Close) => (cancel_view(s), None::<SettingsActionView>),
        _ => (c, None::<SettingsActionView>),
    };
    match s.section {
        SettingsSection::Theme => if is_up(code) {
            (theme_move(s, move_prev(sel)), None)
        } else if is_down(code) {
            (theme_move(s, move_next(sel, p.theme_names@.len() as int)), None)
        } else if code == SettingsKeyCode::Tab || is_right(code) {
            next
        } else if code == SettingsKeyCode::BackTab || is_left(code) {
            prev
        } else {
            modal_step(s, k.modal)
        },
        SettingsSection::Ui => if is_up(code) {
            (with_selected(s, ui_up(sel)), None)
        } else if is_down(code) {
            (with_selected(s, ui_down(sel)), None)
        } else if is_left(code) {
            (with_selected(s, move_prev(sel)), None)
        } else if is_right(code) {
            (with_selected(s, min_int(sel + 1, 83)), None)
        } else if is_activate(code) {
            (c, ui_activate(p, sel))
        } else if code == SettingsKeyCode::Tab {
            next
        } else if code == SettingsKeyCode::BackTab {
            prev
        } else {
            close_only
        },
        SettingsSection::Sound => if is_up(code) {
            (with_selected(s, move_prev(sel)), None)
        } else if is_down(code) {
            (with_selected(s, move_next(sel, 5)), None)
        } else if is_activate(code) {
            (c, Some(sound_activate(p, sel)))
        } else if code == SettingsKeyCode::Tab || is_right(code) {
            next
        } else if code == SettingsKeyCode::BackTab || is_left(code) {
            prev
        } else {
            close_only
        },
        SettingsSection::System => if is_up(code) {
            (with_selected(s, move_prev(sel)), None)
        } else if is_down(code) {
            (with_selected(s, move_next(sel, 5)), None)
        } else if is_activate(code) {
            (c, system_activate(p, sel))
        } else if code == SettingsKeyCode::Tab || is_right(code) {
            next
        } else if code == SettingsKeyCode::BackTab || is_left(code) {
            prev
        } else {
            close_only
        },
        SettingsSection::Fleet => if is_up(code) {
            (with_selected(s, move_prev(sel)), None)
        } else if is_down(code) {
            (with_selected(s, move_next(sel, 1)), None)
        } else if is_activate(code) {
            (c, Some(SettingsActionView::SaveFleetOpsBar(!p.fleet_ops_bar)))
        } else if code == SettingsKeyCode::Tab || is_right(code) {
            next
        } else if code == SettingsKeyCode::BackTab || is_left(code) {
            prev
        } else {
            modal_step(s, k.modal)
        },
        SettingsSection::Plugins => if is_up(code) {
            (with_selected(s, move_prev(sel)), None)
        } else if is_down(code) {
            (
                with_selected(
                    s,
                    move_next(sel, p.installed_plugins@.len() + p.fleet_ops_plugin_count),
                ),
                None,
            )
        } else if code == SettingsKeyCode::Tab || is_right(code) {
            next
        } else if code == SettingsKeyCode::BackTab || is_left(code) {
            prev
        } else {
            close_only
        },
        SettingsSection::Templates => if is_up(code) {
            (with_selected(s, move_prev(sel)), None)
        } else if is_down(code) {
            (with_selected(s, move_next(sel, 10)), None)
        } else if is_activate(code) {
            (c, templates_activate(sel))
        } else if code == SettingsKeyCode::Tab || is_right(code) {
            next
        } else if code == SettingsKeyCode::BackTab || is_left(code) {
            prev
        } else {
            close_only
        },
        SettingsSection::Integrations => if is_activate(code) && any_needs_install(
            p.integration_recommendations@,
        ) {
            (c, Some(SettingsActionView::InstallRecommendedIntegrations))
        } else if code == SettingsKeyCode::Tab || is_right(code) {
            next
        } else if code == SettingsKeyCode::BackTab || is_left(code) {
            prev
        } else {
            modal_step(s, k.modal)
        },
    }
}

// ── executable pieces ──────────────────────────────────────────────────

/// The tab `direction` steps away from `current`, wrapping around.
pub fn adjacent_settings_section(current: SettingsSection, direction: isize) -> (r:
    SettingsSection)
    ensures
        r == adjacent_section(current, direction as int),
{
    let idx = current.position();
    let steps: usize = if direction >= 0 {
        (direction as usize) % 8
    } else {
        let m: usize = ((-(direction + 1)) as usize) % 8;
        (8 - (m + 1) % 8) % 8
    };
    proof {
        let d = direction as int;
        let i = idx as int;
        if d >= 0 {
            assert((i + d) % 8 == (i + d % 8) % 8) by (nonlinear_arith)
                requires
                    d >= 0,
                    0 <= i < 8,
            ;
        } else {
            let m = (-(d + 1)) % 8;
            assert((i + d) % 8 == (i + (8 - (m + 1) % 8) % 8) % 8) by (nonlinear_arith)
                requires
                    d < 0,
                    0 <= i < 8,
                    m == (-(d + 1)) % 8,
            ;
        }
    }
    let next = (idx + steps) % 8;
    proof {
        reveal(adjacent_section);
    }
    SettingsSection::from_position(next)
}

fn default_settings_index(state: &SettingsState, section: SettingsSection) -> (r: usize)
    ensures
        r == default_index_spec(*state, section),
{
    match section {
        SettingsSection::Theme => current_theme_index(
            &state.prefs.theme_names,
            state.theme_name.as_str(),
        ),
        SettingsSection::Sound => if state.prefs.sound_enabled {
            0
        } else {
            1
        },
        _ => 0,
    }
}

pub(crate) fn select_settings_section(state: &mut SettingsState, section: SettingsSection)
    ensures
        cursor_of(*final(state)) == select_view(*old(state), section),
        final(state).prefs == old(state).prefs,
        final(state).search == old(state).search,
        final(state).spinner_category == old(state).spinner_category,
{
    let idx = default_settings_index(state, section);
    state.section = section;
    state.selected = idx;
}

pub(crate) fn copy_string(s: &String) -> (r: String)
    ensures
        r@ == s@,
{
    crate::text::string_of(&crate::text::chars_of(s.as_str()))
}

pub(crate) fn cancel_settings(state: &mut SettingsState)
    ensures
        cursor_of(*final(state)) == cancel_view(*old(state)),
        final(state).prefs == old(state).prefs,
        final(state).search == old(state).search,
        final(state).spinner_category == old(state).spinner_category,
{
    match &state.original_theme {
        Some(t) => {
            state.theme_name = copy_string(t);
        },
        None => {},
    }
    match state.original_palette {
        Some(pal) => {
            state.palette = pal;
        },
        None => {},
    }
    state.original_theme = None;
    state.original_palette = None;
    state.open = false;
}

pub(crate) fn apply_settings(state: &mut SettingsState) -> (r: Option<SettingsAction>)
    ensures
        (cursor_of(*final(state)), action_opt_view(r)) == apply_step(*old(state)),
        final(state).prefs == old(state).prefs,
        final(state).search == old(state).search,
        final(state).spinner_category == old(state).spinner_category,
{
    match state.section {
        SettingsSection::Theme => {
            let name = copy_string(&state.theme_name);
            state.original_theme = None;
            state.original_palette = None;
            state.open = false;
            Some(SettingsAction::SaveTheme(name))
        },
        SettingsSection::Integrations => if state.prefs.integrations_need_install() {
            Some(SettingsAction::InstallRecommendedIntegrations)
        } else {
            None
        },
        SettingsSection::Fleet => Some(SettingsAction::SaveFleetOpsBar(!state.prefs.fleet_ops_bar)),
        SettingsSection::Plugins => None,
        _ => {
            state.open = false;
            None
        },
    }
}

fn modal_fallback(state: &mut SettingsState, m: Option<ModalAction>) -> (r: Option<SettingsAction>)
    ensures
        (cursor_of(*final(state)), action_opt_view(r)) == modal_step(*old(state), m),
        final(state).prefs == old(state).prefs,
        final(state).search == old(state).search,
        final(state).spinner_category == old(state).spinner_category,
{
    match m {
        Some(ModalAction::Close) => {
            cancel_settings(state);
            None
        },
        Some(ModalAction::Apply) => match state.section {
            SettingsSection::Theme | SettingsSection::Integrations | SettingsSection::Fleet => {
                apply_settings(state)
            },
            _ => None,
        },
        None => None,
    }
}

fn close_only(state: &mut SettingsState, m: Option<ModalAction>)
    ensures
        cursor_of(*final(state)) == (match m {
            Some(ModalAction::Close) => cancel_view(*old(state)),
            _ => cursor_of(*old(state)),
        }),
        final(state).prefs == old(state).prefs,
        final(state).search == old(state).search,
        final(state).spinner_category == old(state).spinner_category,
{
    match m {
        Some(ModalAction::Close) => cancel_settings(state),
        _ => {},
    }
}

pub(crate) fn preview_row(state: &mut SettingsState, sel: usize)
    requires
        sel < old(state).prefs.theme_names.len(),
    ensures
        cursor_of(*final(state)) == preview_at(*old(state), sel as int),
        final(state).prefs == old(state).prefs,
        final(state).search == old(state).search,
        final(state).spinner_category == old(state).spinner_category,
{
    state.selected = sel;
    if sel < state.prefs.theme_palettes.len() {
        match state.prefs.theme_palettes[sel] {
            Some(pal) => {
                let name = copy_string(&state.prefs.theme_names[sel]);
                state.theme_name = name;
                state.palette = pal;
            },
            None => {},
        }
    }
}

fn preview_theme_at(state: &mut SettingsState, sel: usize)
    requires
        sel == old(state).selected || sel < old(state).prefs.theme_names.len(),
    ensures
        cursor_of(*final(state)) == theme_move(*old(state), sel as int),
        final(state).prefs == old(state).prefs,
        final(state).search == old(state).search,
        final(state).spinner_category == old(state).spinner_category,
{
    if sel != state.selected {
        preview_row(state, sel);
    }
}

fn min_usize(a: usize, b: usize) -> (r: usize)
    ensures
        r == min_int(a as int, b as int),
{
    if a < b {
        a
    } else {
        b
    }
}

fn move_next_exec(sel: usize, len: usize) -> (r: usize)
    ensures
        r == move_next(sel as int, len as int),
{
    if sel < len && sel + 1 < len {
        sel + 1
    } else {
        sel
    }
}

fn move_prev_exec(sel: usize) -> (r: usize)
    ensures
        r == move_prev(sel as int),
{
    if sel > 0 {
        sel - 1
    } else {
        0
    }
}

pub(crate) fn ui_activate_exec(p: &SettingsPrefs, sel: usize) -> (r: Option<SettingsAction>)
    ensures
        action_opt_view(r) == ui_activate(*p, sel as int),
{
    if sel == 0 {
        Some(SettingsAction::SavePaneBorders(!p.pane_borders))
    } else if sel == 1 {
        Some(SettingsAction::SavePaneGaps(!p.pane_gaps))
    } else if sel == 2 {
        Some(SettingsAction::SaveAgentBorderLabels(!p.agent_border_labels))
    } else if sel == 3 {
        Some(SettingsAction::SaveHideTabBarWhenSingleTab(!p.hide_tab_bar_when_single_tab))
    } else {
        match SpinnerStyle::from_index(sel - UI_SPINNER_OFFSET) {
            Some(style) => Some(SettingsAction::SaveSpinnerStyle(style)),
            None => None,
        }
    }
}

pub(crate) fn sound_activate_exec(p: &SettingsPrefs, sel: usize) -> (r: SettingsAction)
    ensures
        r@ == sound_activate(*p, sel as int),
{
    if sel == 0 {
        SettingsAction::SaveSound(!p.sound_enabled)
    } else {
        SettingsAction::SaveToastDelivery(toast_delivery_for_index(sel - 1))
    }
}

pub(crate) fn system_activate_exec(p: &SettingsPrefs, sel: usize) -> (r: Option<SettingsAction>)
    ensures
        action_opt_view(r) == system_activate(*p, sel as int),
{
    match ExperimentSetting::from_index(sel) {
        Some(e) => Some(experiment_toggle_action(p, e)),
        None => None,
    }
}

pub(crate) fn templates_activate_exec(sel: usize) -> (r: Option<SettingsAction>)
    ensures
        action_opt_view(r) == templates_activate(sel as int),
{
    match PaneTemplateId::from_index(sel) {
        Some(t) => Some(SettingsAction::ApplyPaneTemplate(t)),
        None => None,
    }
}

#[verifier::spinoff_prover]
fn theme_key(state: &mut SettingsState, key: SettingsKey) -> (r: Option<SettingsAction>)
    requires
        key_ready(*old(state)),
        old(state).section == SettingsSection::Theme,
    ensures
        (cursor_of(*final(state)), action_opt_view(r)) == settings_step(*old(state), key),
        final(state).prefs == old(state).prefs,
        final(state).search == old(state).search,
        final(state).spinner_category == old(state).spinner_category,
{
    let code = key.code;
    let sel = state.selected;
    let is_tab = code == SettingsKeyCode::Tab;
    let is_backtab = code == SettingsKeyCode::BackTab;

    if key_is_up(code) {
        preview_theme_at(state, move_prev_exec(sel));
        None
    } else if key_is_down(code) {
        preview_theme_at(state, move_next_exec(sel, state.prefs.theme_names.len()));
        None
    } else if is_tab || key_is_right(code) {
        select_settings_section(state, adjacent_settings_section(state.section, 1));
        None
    } else if is_backtab || key_is_left(code) {
        select_settings_section(state, adjacent_settings_section(state.section, -1));
        None
    } else {
        modal_fallback(state, key.modal)
    }
}

#[verifier::spinoff_prover]
fn ui_key(state: &mut SettingsState, key: SettingsKey) -> (r: Option<SettingsAction>)
    requires
        key_ready(*old(state)),
        old(state).section == SettingsSection::Ui,
    ensures
        (cursor_of(*final(state)), action_opt_view(r)) == settings_step(*old(state), key),
        final(state).prefs == old(state).prefs,
        final(state).search == old(state).search,
        final(state).spinner_category == old(state).spinner_category,
{
    let code = key.code;
    let sel = state.selected;
    let is_tab = code == SettingsKeyCode::Tab;
    let is_backtab = code == SettingsKeyCode::BackTab;

    if key_is_up(code) {
        state.selected = if sel >= UI_SPINNER_OFFSET + 2 {
            sel - 2
        } else if sel >= UI_SPINNER_OFFSET {
            UI_SPINNER_OFFSET - 1
        } else {
            move_prev_exec(sel)
        };
        None
    } else if key_is_down(code) {
        let max = UI_TOTAL_ITEMS - 1;
        state.selected = if sel < UI_SPINNER_OFFSET {
            min_usize(sel + 1, max)
        } else {
            min_usize(sel + 2, max)
        };
        None
    } else if key_is_left(code) {
        state.selected = move_prev_exec(sel);
        None
    } else if key_is_right(code) {
        state.selected = min_usize(sel + 1, UI_TOTAL_ITEMS - 1);
        None
    } else if key_is_activate(code) {
        ui_activate_exec(&state.prefs, sel)
    } else if is_tab {
        select_settings_section(state, adjacent_settings_section(state.section, 1));
        None
    } else if is_backtab {
        select_settings_section(state, adjacent_settings_section(state.section, -1));
        None
    } else {
        close_only(state, key.modal);
        None
    }
}

#[verifier::spinoff_prover]
fn sound_key(state: &mut SettingsState, key: SettingsKey) -> (r: Option<SettingsAction>)
    requires
        key_ready(*old(state)),
        old(state).section == SettingsSection::Sound,
    ensures
        (cursor_of(*final(state)), action_opt_view(r)) == settings_step(*old(state), key),
        final(state).prefs == old(state).prefs,
        final(state).search == old(state).search,
        final(state).spinner_category == old(state).spinner_category,
{
    let code = key.code;
    let sel = state.selected;
    let is_tab = code == SettingsKeyCode::Tab;
    let is_backtab = code == SettingsKeyCode::BackTab;

    if key_is_up(code) {
        state.selected = move_prev_exec(sel);
        None
    } else if key_is_down(code) {
        state.selected = move_next_exec(sel, SOUND_TOTAL);
        None
    } else if key_is_activate(code) {
        Some(sound_activate_exec(&state.prefs, sel))
    } else if is_tab || key_is_right(code) {
        select_settings_section(state, adjacent_settings_section(state.section, 1));
        None
    } else if is_backtab || key_is_left(code) {
        select_settings_section(state, adjacent_settings_section(state.section, -1));
        None
    } else {
        close_only(state, key.modal);
        None
    }
}

#[verifier::spinoff_prover]
fn system_key(state: &mut SettingsState, key: SettingsKey) -> (r: Option<SettingsAction>)
    requires
        key_ready(*old(state)),
        old(state).section == SettingsSection::System,
    ensures
        (cursor_of(*final(state)), action_opt_view(r)) == settings_step(*old(state), key),
        final(state).prefs == old(state).prefs,
        final(state).search == old(state).search,
        final(state).spinner_category == old(state).spinner_category,
{
    let code = key.code;
    let sel = state.selected;
    let is_tab = code == SettingsKeyCode::Tab;
    let is_backtab = code == SettingsKeyCode::BackTab;

    if key_is_up(code) {
        state.selected = move_prev_exec(sel);
        None
    } else if key_is_down(code) {
        state.selected = move_next_exec(sel, crate::settings_config::EXPERIMENT_COUNT);
        None
    } else if key_is_activate(code) {
        system_activate_exec(&state.prefs, sel)
    } else if is_tab || key_is_right(code) {
        select_settings_section(state, adjacent_settings_section(state.section, 1));
        None
    } else if is_backtab || key_is_left(code) {
        select_settings_section(state, adjacent_settings_section(state.section, -1));
        None
    } else {
        close_only(state, key.modal);
        None
    }
}

#[verifier::spinoff_prover]
fn fleet_key(state: &mut SettingsState, key: SettingsKey) -> (r: Option<SettingsAction>)
    requires
        key_ready(*old(state)),
        old(state).section == SettingsSection::Fleet,
    ensures
        (cursor_of(*final(state)), action_opt_view(r)) == settings_step(*old(state), key),
        final(state).prefs == old(state).prefs,
        final(state).search == old(state).search,
        final(state).spinner_category == old(state).spinner_category,
{
    let code = key.code;
    let sel = state.selected;
    let is_tab = code == SettingsKeyCode::Tab;
    let is_backtab = code == SettingsKeyCode::BackTab;

    if key_is_up(code) {
        state.selected = move_prev_exec(sel);
        None
    } else if key_is_down(code) {
        state.selected = move_next_exec(sel, 1);
        None
    } else if key_is_activate(code) {
        Some(SettingsAction::SaveFleetOpsBar(!state.prefs.fleet_ops_bar))
    } else if is_tab || key_is_right(code) {
        select_settings_section(state, adjacent_settings_section(state.section, 1));
        None
    } else if is_backtab || key_is_left(code) {
        select_settings_section(state, adjacent_settings_section(state.section, -1));
        None
    } else {
        modal_fallback(state, key.modal)
    }
}

#[verifier::spinoff_prover]
fn plugins_key(state: &mut SettingsState, key: SettingsKey) -> (r: Option<SettingsAction>)
    requires
        key_ready(*old(state)),
        old(state).section == SettingsSection::Plugins,
    ensures
        (cursor_of(*final(state)), action_opt_view(r)) == settings_step(*old(state), key),
        final(state).prefs == old(state).prefs,
        final(state).search == old(state).search,
        final(state).spinner_category == old(state).spinner_category,
{
    let code = key.code;
    let sel = state.selected;
    let is_tab = code == SettingsKeyCode::Tab;
    let is_backtab = code == SettingsKeyCode::BackTab;

    if key_is_up(code) {
        state.selected = move_prev_exec(sel);
        None
    } else if key_is_down(code) {
        let total = state.prefs.installed_plugins.len() + state.prefs.fleet_ops_plugin_count;
        state.selected = move_next_exec(sel, total);
        None
    } else if is_tab || key_is_right(code) {
        select_settings_section(state, adjacent_settings_section(state.section, 1));
        None
    } else if is_backtab || key_is_left(code) {
        select_settings_section(state, adjacent_settings_section(state.section, -1));
        None
    } else {
        close_only(state, key.modal);
        None
    }
}

#[verifier::spinoff_prover]
fn templates_key(state: &mut SettingsState, key: SettingsKey) -> (r: Option<SettingsAction>)
    requires
        key_ready(*old(state)),
        old(state).section == SettingsSection::Templates,
    ensures
        (cursor_of(*final(state)), action_opt_view(r)) == settings_step(*old(state), key),
        final(state).prefs == old(state).prefs,
        final(state).search == old(state).search,
        final(state).spinner_category == old(state).spinner_category,
{
    let code = key.code;
    let sel = state.selected;
    let is_tab = code == SettingsKeyCode::Tab;
    let is_backtab = code == SettingsKeyCode::BackTab;

    if key_is_up(code) {
        state.selected = move_prev_exec(sel);
        None
    } else if key_is_down(code) {
        state.selected = move_next_exec(sel, crate::pane_template::PANE_TEMPLATE_COUNT);
        None
    } else if key_is_activate(code) {
        templates_activate_exec(sel)
    } else if is_tab || key_is_right(code) {
        select_settings_section(state, adjacent_settings_section(state.section, 1));
        None
    } else if is_backtab || key_is_left(code) {
        select_settings_section(state, adjacent_settings_section(state.section, -1));
        None
    } else {
        close_only(state, key.modal);
        None
    }
}

#[verifier::spinoff_prover]
fn integrations_key(state: &mut SettingsState, key: SettingsKey) -> (r: Option<SettingsAction>)
    requires
        key_ready(*old(state)),
        old(state).section == SettingsSection::Integrations,
    ensures
        (cursor_of(*final(state)), action_opt_view(r)) == settings_step(*old(state), key),
        final(state).prefs == old(state).prefs,
        final(state).search == old(state).search,
        final(state).spinner_category == old(state).spinner_category,
{
    let code = key.code;
    let is_tab = code == SettingsKeyCode::Tab;
    let is_backtab = code == SettingsKeyCode::BackTab;

    if key_is_activate(code) && state.prefs.integrations_need_install() {
        Some(SettingsAction::InstallRecommendedIntegrations)
    } else if is_tab || key_is_right(code) {
        select_settings_section(state, adjacent_settings_section(state.section, 1));
        None
    } else if is_backtab || key_is_left(code) {
        select_settings_section(state, adjacent_settings_section(state.section, -1));
        None
    } else {
        modal_fallback(state, key.modal)
    }
}

/// Handles a key press on the settings screen: moves between tabs and
/// rows, previews themes, closes or applies the screen, and returns the
/// settings action the key asks for, if any. The preferences themselves
/// are never changed here.
pub fn update_settings_state(state: &mut SettingsState, key: SettingsKey) -> (r: Option<
    SettingsAction,
>)
    requires
        key_ready(*old(state)),
    ensures
        (cursor_of(*final(state)), action_opt_view(r)) == settings_step(*old(state), key),
        final(state).prefs == old(state).prefs,
        final(state).search == old(state).search,
        final(state).spinner_category == old(state).spinner_category,
{
    match state.section {
        SettingsSection::Theme => theme_key(state, key),
        SettingsSection::Ui => ui_key(state, key),
        SettingsSection::Sound => sound_key(state, key),
        SettingsSection::System => system_key(state, key),
        SettingsSection::Fleet => fleet_key(state, key),
        SettingsSection::Plugins => plugins_key(state, key),
        SettingsSection::Templates => templates_key(state, key),
        SettingsSection::Integrations => integrations_key(state, key),
    }
}

/// What a key press on the settings screen leads to.
pub struct SettingsKeyOutcome {
    /// The settings action the key asks for, if any.
    pub action: Option<SettingsAction>,
    /// Whether the key moved onto the integrations tab from another one;
    /// the integration recommendations are then looked up afresh.
    pub refresh_integrations: bool,
}

/// Handles a key press on the settings screen and tells the caller what to
/// carry out: the action the key asks for, and whether the integrations tab
/// was just entered.
pub fn handle_settings_key(state: &mut SettingsState, key: SettingsKey) -> (r: SettingsKeyOutcome)
    requires
        key_ready(*old(state)),
    ensures
        (cursor_of(*final(state)), action_opt_view(r.action)) == settings_step(*old(state), key),
        final(state).prefs == old(state).prefs,
        final(state).search == old(state).search,
        final(state).spinner_category == old(state).spinner_category,
        r.refresh_integrations == (old(state).section != SettingsSection::Integrations
            && final(state).section == SettingsSection::Integrations),
{
    let previous = state.section;
    let action = update_settings_state(state, key);
    let refresh_integrations = previous != SettingsSection::Integrations && state.section
        == SettingsSection::Integrations;
    SettingsKeyOutcome { action, refresh_integrations }
}

/// Opens the settings screen on a tab, remembering the theme and colours in
/// use so that cancelling restores them.
pub fn open_settings_at(state: &mut SettingsState, section: SettingsSection)
    ensures
        final(state).section == section,
        final(state).selected == default_index_spec(*old(state), section),
        final(state).open,
        final(state).theme_name@ == old(state).theme_name@,
        opt_seq(final(state).original_theme) == Some(old(state).theme_name@),
        final(state).palette == old(state).palette,
        final(state).original_palette == Some(old(state).palette),
        final(state).prefs == old(state).prefs,
        final(state).search == old(state).search,
        final(state).spinner_category == old(state).spinner_category,
{
    state.original_theme = Some(copy_string(&state.theme_name));
    state.original_palette = Some(state.palette);
    let idx = default_settings_index(state, section);
    state.section = section;
    state.selected = idx;
    state.open = true;
}

/// Opens the settings screen on the theme tab.
pub fn open_settings(state: &mut SettingsState)
    ensures
        final(state).section == SettingsSection::Theme,
        final(state).selected == default_index_spec(*old(state), SettingsSection::Theme),
        final(state).open,
        final(state).theme_name@ == old(state).theme_name@,
        opt_seq(final(state).original_theme) == Some(old(state).theme_name@),
        final(state).palette == old(state).palette,
        final(state).original_palette == Some(old(state).palette),
        final(state).prefs == old(state).prefs,
{
    open_settings_at(state, SettingsSection::Theme);
}

// ── laws ───────────────────────────────────────────────────────────────

pub open spec fn next_section(s: SettingsSection) -> SettingsSection {
    match s {
        SettingsSection::Theme => SettingsSection::Ui,
        SettingsSection::Ui => SettingsSection::Sound,
        SettingsSection::Sound => SettingsSection::System,
        SettingsSection::System => SettingsSection::Fleet,
        SettingsSection::Fleet => SettingsSection::Plugins,
        SettingsSection::Plugins => SettingsSection::Templates,
        SettingsSection::Templates => SettingsSection::Integrations,
        SettingsSection::Integrations => SettingsSection::Theme,
    }
}

pub open spec fn prev_section(s: SettingsSection) -> SettingsSection {
    match s {
        SettingsSection::Theme => SettingsSection::Integrations,
        SettingsSection::Ui => SettingsSection::Theme,
        SettingsSection::Sound => SettingsSection::Ui,
        SettingsSection::System => SettingsSection::Sound,
        SettingsSection::Fleet => SettingsSection::System,
        SettingsSection::Plugins => SettingsSection::Fleet,
        SettingsSection::Templates => SettingsSection::Plugins,
        SettingsSection::Integrations => SettingsSection::Templates,
    }
}

/// One step forward is the next tab in tab order, one step back the
/// previous one, wrapping at both ends.
pub proof fn lemma_adjacent_steps(s: SettingsSection)
    ensures
        adjacent_section(s, 1) == next_section(s),
        adjacent_section(s, -1) == prev_section(s),
{
    reveal(adjacent_section);
}

/// Moving one tab forward and one tab back returns to the same tab, and
/// eight steps forward go all the way around.
pub proof fn law_adjacent_sections(s: SettingsSection)
    ensures
        adjacent_section(adjacent_section(s, 1), -1) == s,
        adjacent_section(adjacent_section(s, -1), 1) == s,
        adjacent_section(
            adjacent_section(
                adjacent_section(
                    adjacent_section(
                        adjacent_section(
                            adjacent_section(adjacent_section(adjacent_section(s, 1), 1), 1),
                            1,
                        ),
                        1,
                    ),
                    1,
                ),
                1,
            ),
            1,
        ) == s,
{
    lemma_adjacent_steps(s);
    lemma_adjacent_steps(next_section(s));
    lemma_adjacent_steps(prev_section(s));
    let s1 = next_section(s);
    let s2 = next_section(s1);
    let s3 = next_section(s2);
    let s4 = next_section(s3);
    let s5 = next_section(s4);
    let s6 = next_section(s5);
    let s7 = next_section(s6);
    lemma_adjacent_steps(s1);
    lemma_adjacent_steps(s2);
    lemma_adjacent_steps(s3);
    lemma_adjacent_steps(s4);
    lemma_adjacent_steps(s5);
    lemma_adjacent_steps(s6);
    lemma_adjacent_steps(s7);
}

/// Every key press keeps the selected row on a row of the current tab; a
/// state with its row on a row of its tab is ready for the next key.
#[verifier::spinoff_prover]
#[verifier::rlimit(60)]
pub proof fn law_step_keeps_selection_in_range(s: SettingsState, k: SettingsKey)
    requires
        settings_wf(s),
    ensures
        cursor_wf(settings_step(s, k).0, s.prefs),
        key_ready(s),
{
    let names = s.prefs.theme_names@;
    let t = normalize_theme(s.theme_name@);
    if exists|i: int| 0 <= i < names.len() && #[trigger] theme_matches_at(names, i, t) {
        let w = choose|i: int| 0 <= i < names.len() && #[trigger] theme_matches_at(names, i, t);
        lemma_first_theme_match(names, t, w);
    }
}

proof fn lemma_first_theme_match(names: Seq<String>, t: Seq<char>, w: int)
    requires
        0 <= w < names.len(),
        theme_matches_at(names, w, t),
    ensures
        exists|i: int|
            0 <= i < names.len() && #[trigger] theme_matches_at(names, i, t) && forall|j: int|
                0 <= j < i ==> !theme_matches_at(names, j, t),
    decreases w,
{
    if exists|j: int| 0 <= j < w && theme_matches_at(names, j, t) {
        let j = choose|j: int| 0 <= j < w && theme_matches_at(names, j, t);
        lemma_first_theme_match(names, t, j);
    } else {
        assert(theme_matches_at(names, w, t));
    }
}

/// Cancelling the screen brings back the theme and colours that were in use
/// when it was opened, and while the screen stays open they are remembered
/// unchanged, whatever is previewed meanwhile.
pub proof fn law_cancel_restores_opening_theme(s: SettingsState, k: SettingsKey)
    requires
        key_ready(s),
    ensures
        settings_step(s, k).0.open ==> settings_step(s, k).0.original_theme == opt_seq(
            s.original_theme,
        ) && settings_step(s, k).0.original_palette == s.original_palette,
        k.code == SettingsKeyCode::Esc && k.modal == Some(ModalAction::Close) ==> {
            &&& !settings_step(s, k).0.open
            &&& settings_step(s, k).0.theme == match s.original_theme {
                Some(t) => t@,
                None => s.theme_name@,
            }
            &&& settings_step(s, k).0.palette == match s.original_palette {
                Some(p) => p,
                None => s.palette,
            }
        },
{
}

} // verus!
