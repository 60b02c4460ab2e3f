//! Mouse handling of the settings screen: which tab or row a click lands
//! on, and what the click does.
use vstd::prelude::*;

use crate::settings_input::{
    apply_step, cancel_view, cursor_of, select_view, sound_activate, system_activate,
    templates_activate, ui_activate, CursorView, UI_SPINNER_OFFSET, UI_TOGGLE_COUNT,
};
use crate::settings_state::{
    action_opt_view, any_update_available, section_at, SettingsAction, SettingsActionView,
    SettingsSection, SettingsState,
};

verus! {

/// A rectangle of terminal cells.
#[derive(Debug, Clone, Copy, PartialEq, Eq, Structural)]
pub struct Rect {
    pub x: u16,
    pub y: u16,
    pub width: u16,
    pub height: u16,
}

pub open spec fn rect_contains(r: Rect, col: int, row: int) -> bool {
    r.x <= col < r.x + r.width && r.y <= row < r.y + r.height
}

fn rect_contains_exec(r: Rect, col: u16, row: u16) -> (b: bool)
    ensures
        b == rect_contains(r, col as int, row as int),
{
    let c = col as u32;
    let w = row as u32;
    (r.x as u32) <= c && c < (r.x as u32) + (r.width as u32) && (r.y as u32) <= w && w < (r.y as u32)
        + (r.height as u32)
}

/// Rows above the list: the description and a spacer.
pub const SETTINGS_HEADER_ROWS: u16 = 3;

/// The list below a tab's description.
pub open spec fn list_area_spec(content: Rect) -> Rect {
    Rect {
        x: content.x,
        y: (content.y + 3) as u16,
        width: content.width,
        height: if content.height >= 3 {
            (content.height - 3) as u16
        } else {
            0
        },
    }
}

/// The popup without its one-cell border.
pub fn settings_inner_rect(popup: Rect) -> (r: Rect)
    requires
        popup.x + 1 <= u16::MAX,
        popup.y + 1 <= u16::MAX,
    ensures
        r == (Rect {
            x: (popup.x + 1) as u16,
            y: (popup.y + 1) as u16,
            width: if popup.width >= 2 {
                (popup.width - 2) as u16
            } else {
                0
            },
            height: if popup.height >= 2 {
                (popup.height - 2) as u16
            } else {
                0
            },
        }),
{
    Rect {
        x: popup.x + 1,
        y: popup.y + 1,
        width: if popup.width >= 2 {
            popup.width - 2
        } else {
            0
        },
        height: if popup.height >= 2 {
            popup.height - 2
        } else {
            0
        },
    }
}

pub fn settings_list_area(content: Rect) -> (r: Rect)
    requires
        content.y + 3 <= u16::MAX,
    ensures
        r == list_area_spec(content),
{
    Rect {
        x: content.x,
        y: content.y + SETTINGS_HEADER_ROWS,
        width: content.width,
        height: if content.height >= SETTINGS_HEADER_ROWS {
            content.height - SETTINGS_HEADER_ROWS
        } else {
            0
        },
    }
}

/// The sound tab lists the sound toggle, a gap of two rows, then the four
/// toast deliveries.
pub open spec fn sound_index_spec(list: Rect, col: int, row: int) -> Option<int> {
    if col < list.x || col >= list.x + list.width || row < list.y {
        None
    } else {
        let r = row - list.y;
        if r == 0 {
            Some(0)
        } else if 3 <= r <= 6 {
            Some(r - 2)
        } else {
            None
        }
    }
}

pub fn settings_sound_index_at(list: Rect, col: u16, row: u16) -> (r: Option<usize>)
    ensures
        match r {
            Some(i) => sound_index_spec(list, col as int, row as int) == Some(i as int),
            None => sound_index_spec(list, col as int, row as int) is None,
        },
{
    if (col as u32) < (list.x as u32) || (col as u32) >= (list.x as u32) + (list.width as u32)
        || row < list.y {
        return None;
    }
    let r = row - list.y;
    if r == 0 {
        Some(0)
    } else if 3 <= r && r <= 6 {
        Some((r - 2) as usize)
    } else {
        None
    }
}

/// The UI tab lists its toggles, a blank row, then the spinners in two
/// columns, scrolled so that the selected spinner's row is visible.
pub open spec fn ui_index_spec(list: Rect, col: int, row: int, selected: int) -> Option<int> {
    if col < list.x || col >= list.x + list.width || row < list.y {
        None
    } else {
        let r = row - list.y;
        if r < 4 {
            Some(r)
        } else if r == 4 {
            None
        } else {
            let grid_row = r - 5;
            let col_width = if list.width / 2 > 20 {
                list.width / 2
            } else {
                20
            };
            let col_idx = if col - list.x >= col_width {
                1int
            } else {
                0
            };
            let grid_height = if list.height >= 5 {
                list.height - 5
            } else {
                0
            };
            let spinner_selected = if selected >= 4 {
                selected - 4
            } else {
                0
            };
            let selected_row = spinner_selected / 2;
            let scroll = if selected_row >= grid_height {
                selected_row - grid_height + 1
            } else {
                0
            };
            let idx = (grid_row + scroll) * 2 + col_idx;
            if idx < 80 {
                Some(4 + idx)
            } else {
                None
            }
        }
    }
}

pub fn settings_ui_index_at(list: Rect, col: u16, row: u16, selected: usize) -> (r: Option<usize>)
    ensures
        match r {
            Some(i) => ui_index_spec(list, col as int, row as int, selected as int) == Some(
                i as int,
            ),
            None => ui_index_spec(list, col as int, row as int, selected as int) is None,
        },
{
    if (col as u32) < (list.x as u32) || (col as u32) >= (list.x as u32) + (list.width as u32)
        || row < list.y {
        return None;
    }
    let r = (row - list.y) as u128;
    if r < UI_TOGGLE_COUNT as u128 {
        return Some(r as usize);
    }
    if r == UI_TOGGLE_COUNT as u128 {
        return None;
    }
    let grid_row = r - 5;
    let half = (list.width / 2) as u128;
    let col_width: u128 = if half > 20 {
        half
    } else {
        20
    };
    let col_idx: u128 = if ((col - list.x) as u128) >= col_width {
        1
    } else {
        0
    };
    let grid_height: u128 = if list.height >= 5 {
        (list.height - 5) as u128
    } else {
        0
    };
    let sel = selected as u128;
    let spinner_selected: u128 = if sel >= 4 {
        sel - 4
    } else {
        0
    };
    let selected_row = spinner_selected / 2;
    let scroll: u128 = if selected_row >= grid_height {
        selected_row - grid_height + 1
    } else {
        0
    };
    assert(grid_row + scroll < 0x1_0000_0000_0000_0000_0000);
    let idx = (grid_row + scroll) * 2 + col_idx;
    if idx < 80 {
        Some(UI_SPINNER_OFFSET + idx as usize)
    } else {
        None
    }
}

/// The row a click at (`col`, `row`) lands on in the current tab's list,
/// given the content area of the screen; on the templates tab the card hit
/// is measured by the caller.
pub open spec fn list_index_spec(
    s: SettingsState,
    area: Rect,
    col: int,
    row: int,
    template_hit: Option<usize>,
) -> Option<int> {
    if !rect_contains(area, col, row) {
        None
    } else {
        let list = list_area_spec(area);
        let p = s.prefs;
        match s.section {
            SettingsSection::Ui => ui_index_spec(list, col, row, s.selected as int),
            SettingsSection::Theme => {
                let max_visible = area.height as int;
                let scroll = if s.selected >= max_visible {
                    s.selected - max_visible + 1
                } else {
                    0
                };
                let idx = scroll + (row - area.y);
                if idx < p.theme_names@.len() {
                    Some(idx)
                } else {
                    None
                }
            },
            SettingsSection::Sound => sound_index_spec(list, col, row),
            SettingsSection::System => if list.y <= row < list.y + 5 {
                Some(row - list.y)
            } else {
                None
            },
            SettingsSection::Fleet => if row == list.y {
                Some(0)
            } else {
                None
            },
            SettingsSection::Plugins => {
                let n = p.installed_plugins@.len() as int;
                let browse_y = list.y + (if n > 1 {
                    n
                } else {
                    1
                }) + 1;
                if list.y <= row < list.y + n {
                    Some(row - list.y)
                } else if browse_y <= row < browse_y + p.fleet_ops_plugin_count {
                    Some(n + row - browse_y)
                } else {
                    None
                }
            },
            SettingsSection::Templates => match template_hit {
                Some(i) => Some(i as int),
                None => None,
            },
            SettingsSection::Integrations => {
                let n = p.integration_recommendations@.len() as int;
                if row >= list.y && n > 0 && row < list.y + n {
                    Some(row - list.y)
                } else {
                    None
                }
            },
        }
    }
}

pub fn settings_list_index_at(
    s: &SettingsState,
    area: Rect,
    col: u16,
    row: u16,
    template_hit: Option<usize>,
) -> (r: Option<usize>)
    requires
        area.y + 3 <= u16::MAX,
    ensures
        match r {
            Some(i) => list_index_spec(*s, area, col as int, row as int, template_hit) == Some(
                i as int,
            ),
            None => list_index_spec(*s, area, col as int, row as int, template_hit) is None,
        },
{
    if !rect_contains_exec(area, col, row) {
        return None;
    }
    let list = settings_list_area(area);
    let p = &s.prefs;
    let rw = row as u128;
    let ly = list.y as u128;
    match s.section {
        SettingsSection::Ui => settings_ui_index_at(list, col, row, s.selected),
        SettingsSection::Theme => {
            let max_visible = area.height as u128;
            let sel = s.selected as u128;
            let scroll: u128 = if sel >= max_visible {
                sel - max_visible + 1
            } else {
                0
            };
            let idx = scroll + (rw - area.y as u128);
            if idx < p.theme_names.len() as u128 {
                Some(idx as usize)
            } else {
                None
            }
        },
        SettingsSection::Sound => settings_sound_index_at(list, col, row),
        SettingsSection::System => if ly <= rw && rw < ly + 5 {
            Some((rw - ly) as usize)
        } else {
            None
        },
        SettingsSection::Fleet => if rw == ly {
            Some(0)
        } else {
            None
        },
        SettingsSection::Plugins => {
            let n = p.installed_plugins.len() as u128;
            let browse_y = ly + (if n > 1 {
                n
            } else {
                1
            }) + 1;
            if ly <= rw && rw < ly + n {
                Some((rw - ly) as usize)
            } else if browse_y <= rw && rw < browse_y + p.fleet_ops_plugin_count as u128 {
                Some((n + rw - browse_y) as usize)
            } else {
                None
            }
        },
        SettingsSection::Templates => template_hit,
        SettingsSection::Integrations => {
            let n = p.integration_recommendations.len() as u128;
            if rw >= ly && n > 0 && rw < ly + n {
                Some((rw - ly) as usize)
            } else {
                None
            }
        },
    }
}

// ── tabs ───────────────────────────────────────────────────────────────

/// A tab's label.
pub open spec fn section_label(s: SettingsSection) -> Seq<char> {
    match s {
        SettingsSection::Theme => "theme"@,
        SettingsSection::Ui => "ui"@,
        SettingsSection::Sound => "sound"@,
        SettingsSection::System => "system"@,
        SettingsSection::Fleet => "fleet"@,
        SettingsSection::Plugins => "plugins"@,
        SettingsSection::Templates => "templates"@,
        SettingsSection::Integrations => "integrations"@,
    }
}

proof fn lemma_label_short(s: SettingsSection)
    ensures
        section_label(s).len() <= 12,
{
    reveal_strlit("theme");
    reveal_strlit("ui");
    reveal_strlit("sound");
    reveal_strlit("system");
    reveal_strlit("fleet");
    reveal_strlit("plugins");
    reveal_strlit("templates");
    reveal_strlit("integrations");
}

impl SettingsSection {
    /// The tab's label.
    pub fn label(self) -> (r: &'static str)
        ensures
            r@ == section_label(self),
    {
        match self {
            SettingsSection::Theme => "theme",
            SettingsSection::Ui => "ui",
            SettingsSection::Sound => "sound",
            SettingsSection::System => "system",
            SettingsSection::Fleet => "fleet",
            SettingsSection::Plugins => "plugins",
            SettingsSection::Templates => "templates",
            SettingsSection::Integrations => "integrations",
        }
    }
}

/// The integrations tab carries a badge while an integration update is
/// available.
pub open spec fn has_badge(s: SettingsState, sec: SettingsSection) -> bool {
    sec == SettingsSection::Integrations && any_update_available(
        s.prefs.integration_recommendations@,
    )
}

pub fn settings_section_has_badge(s: &SettingsState, sec: SettingsSection) -> (r: bool)
    ensures
        r == has_badge(*s, sec),
{
    sec == SettingsSection::Integrations && s.prefs.integration_updates_available()
}

/// Width of a tab on the tab row: its label, padding, and the badge.
pub open spec fn tab_width(s: SettingsState, sec: SettingsSection) -> int {
    section_label(sec).len() + 2 + if has_badge(s, sec) {
        2int
    } else {
        0
    }
}

/// The tab under column `col`, scanning tabs from position `k` that starts
/// at column `x`; tabs are separated by one column.
pub open spec fn tab_from(s: SettingsState, k: int, x: int, col: int) -> Option<SettingsSection>
    decreases 8 - k,
{
    if k >= 8 || k < 0 {
        None
    } else {
        let sec = section_at(k);
        let w = tab_width(s, sec);
        if x <= col < x + w {
            Some(sec)
        } else {
            tab_from(s, k + 1, x + w + 1, col)
        }
    }
}

/// The tab under a click, on the row just below the screen's top border.
pub open spec fn tab_at_spec(s: SettingsState, inner: Rect, col: int, row: int) -> Option<
    SettingsSection,
> {
    if row != inner.y + 1 {
        None
    } else {
        tab_from(s, 0, inner.x as int, col)
    }
}

pub fn settings_tab_at(s: &SettingsState, inner: Rect, col: u16, row: u16) -> (r: Option<
    SettingsSection,
>)
    ensures
        r == tab_at_spec(*s, inner, col as int, row as int),
{
    if (row as u32) != (inner.y as u32) + 1 {
        return None;
    }
    let mut x: u32 = inner.x as u32;
    let mut k: usize = 0;
    while k < crate::settings_state::SETTINGS_SECTION_COUNT
        invariant
            k <= 8,
            x <= 65535 + 22 * k,
            tab_at_spec(*s, inner, col as int, row as int) == tab_from(*s, k as int, x as int, col as int),
        decreases 8 - k,
    {
        let section = SettingsSection::from_position(k);
        proof {
            lemma_label_short(section);
        }
        let badge: u32 = if settings_section_has_badge(s, section) {
            2
        } else {
            0
        };
        let width = section.label().unicode_len() as u32 + 2 + badge;
        if (col as u32) >= x && (col as u32) < x + width {
            return Some(section);
        }
        x = x + width + 1;
        k = k + 1;
    }
    None
}

// ── clicks ─────────────────────────────────────────────────────────────

/// A mouse event on the settings screen.
#[derive(Debug, Clone, Copy, PartialEq, Eq, Structural)]
pub struct SettingsMouse {
    /// Whether this is a press of the left button.
    pub left_down: bool,
    pub col: u16,
    pub row: u16,
}

/// Where the parts of the settings screen are drawn.
#[derive(Debug, Clone, Copy, PartialEq, Eq, Structural)]
pub struct SettingsGeometry {
    pub popup: Rect,
    /// The popup without its border.
    pub inner: Rect,
    pub content: Rect,
    pub apply_button: Option<Rect>,
    pub close_button: Rect,
    /// The template card under the click, on the templates tab.
    pub template_hit: Option<usize>,
}

/// What clicking list row `idx` does on the current tab: the theme tab
/// previews the theme, the other tabs activate the row as Enter would
/// (the fleet tab only on its single row; plugins and integrations only
/// select).
pub open spec fn click_row(s: SettingsState, idx: int) -> (CursorView, Option<SettingsActionView>) {
    let c = CursorView { selected: idx, ..cursor_of(s) };
    let p = s.prefs;
    match s.section {
        SettingsSection::Theme => (crate::settings_input::preview_at(s, idx), None),
        SettingsSection::Ui => (c, ui_activate(p, idx)),
        SettingsSection::Sound => (c, Some(sound_activate(p, idx))),
        SettingsSection::System => (c, system_activate(p, idx)),
        SettingsSection::Fleet => (
            c,
            if idx == 0 {
                Some(SettingsActionView::SaveFleetOpsBar(!p.fleet_ops_bar))
            } else {
                None
            },
        ),
        SettingsSection::Templates => (c, templates_activate(idx)),
        _ => (c, None),
    }
}

fn click_list_row(state: &mut SettingsState, idx: usize) -> (r: Option<SettingsAction>)
    requires
        old(state).section == SettingsSection::Theme ==> idx < old(state).prefs.theme_names.len(),
    ensures
        (cursor_of(*final(state)), action_opt_view(r)) == click_row(*old(state), idx as int),
        final(state).prefs == old(state).prefs,
        final(state).search == old(state).search,
        final(state).spinner_category == old(state).spinner_category,
{
    state.selected = idx;
    match state.section {
        SettingsSection::Theme => {
            crate::settings_input::preview_row(state, idx);
            None
        },
        SettingsSection::Ui => crate::settings_input::ui_activate_exec(&state.prefs, idx),
        SettingsSection::Sound => Some(crate::settings_input::sound_activate_exec(&state.prefs, idx)),
        SettingsSection::System => crate::settings_input::system_activate_exec(&state.prefs, idx),
        SettingsSection::Fleet => if idx == 0 {
            Some(SettingsAction::SaveFleetOpsBar(!state.prefs.fleet_ops_bar))
        } else {
            None
        },
        SettingsSection::Templates => crate::settings_input::templates_activate_exec(idx),
        _ => None,
    }
}

/// What a mouse event does: a left click on a tab selects it, on a row
/// selects and activates it, on the apply or close button applies or
/// cancels, and outside the popup cancels; anything else does nothing.
pub open spec fn mouse_step(s: SettingsState, m: SettingsMouse, g: SettingsGeometry) -> (
    CursorView,
    Option<SettingsActionView>,
) {
    let col = m.col as int;
    let row = m.row as int;
    if !m.left_down {
        (cursor_of(s), None)
    } else if let Some(sec) = tab_at_spec(s, g.inner, col, row) {
        (select_view(s, sec), None)
    } else if let Some(idx) = list_index_spec(s, g.content, col, row, g.template_hit) {
        click_row(s, idx)
    } else if g.apply_button is Some && rect_contains(g.apply_button->0, col, row) {
        apply_step(s)
    } else if rect_contains(g.close_button, col, row) || !rect_contains(g.popup, col, row) {
        (cancel_view(s), None)
    } else {
        (cursor_of(s), None)
    }
}

/// Handles a mouse event on the settings screen and returns the settings
/// action it asks for, if any.
#[verifier::spinoff_prover]
#[verifier::rlimit(40)]
pub fn handle_settings_mouse(
    state: &mut SettingsState,
    mouse: SettingsMouse,
    geometry: SettingsGeometry,
) -> (r: Option<SettingsAction>)
    requires
        geometry.content.y + 3 <= u16::MAX,
    ensures
        (cursor_of(*final(state)), action_opt_view(r)) == mouse_step(*old(state), mouse, geometry),
        final(state).prefs == old(state).prefs,
        final(state).search == old(state).search,
        final(state).spinner_category == old(state).spinner_category,
{
    if !mouse.left_down {
        return None;
    }
    match settings_tab_at(state, geometry.inner, mouse.col, mouse.row) {
        Some(section) => {
            crate::settings_input::select_settings_section(state, section);
            return None;
        },
        None => {},
    }
    match settings_list_index_at(state, geometry.content, mouse.col, mouse.row, geometry.template_hit) {
        Some(idx) => {
            return click_list_row(state, idx);
        },
        None => {},
    }
    let on_apply = match geometry.apply_button {
        Some(b) => rect_contains_exec(b, mouse.col, mouse.row),
        None => false,
    };
    if on_apply {
        return crate::settings_input::apply_settings(state);
    }
    if rect_contains_exec(geometry.close_button, mouse.col, mouse.row) || !rect_contains_exec(
        geometry.popup,
        mouse.col,
        mouse.row,
    ) {
        crate::settings_input::cancel_settings(state);
    }
    None
}

/// The label of the primary button: integrations install, the rest apply.
pub fn settings_primary_button_label(section: SettingsSection) -> (r: &'static str)
    ensures
        r@ == (if section == SettingsSection::Integrations {
            "install"@
        } else {
            "apply"@
        }),
{
    match section {
        SettingsSection::Integrations => "install",
        _ => "apply",
    }
}

/// The primary button shows everywhere but on the integrations tab, where
/// it shows only while something can be installed.
pub fn settings_show_primary_action(s: &SettingsState) -> (r: bool)
    ensures
        r == (s.section != SettingsSection::Integrations || crate::settings_state::any_needs_install(
            s.prefs.integration_recommendations@,
        )),
{
    match s.section {
        SettingsSection::Integrations => s.prefs.integrations_need_install(),
        _ => true,
    }
}

/// Width of the settings popup, in cells.
pub const SETTINGS_POPUP_WIDTH: u16 = 76;

/// Height of the settings popup on most tabs, in cells.
pub const SETTINGS_POPUP_BASE_HEIGHT: u16 = 22;

/// Height of the settings popup: taller for the UI tab's spinner grid and
/// the templates' previews; on the integrations tab, room for one row per
/// recommendation (at least one) and the footer (`footer_rows` lines as
/// laid out), but never less than the usual height.
pub open spec fn popup_height_spec(s: SettingsState, footer_rows: u16) -> int {
    match s.section {
        SettingsSection::Ui => 30,
        SettingsSection::Templates => 28,
        SettingsSection::Integrations => {
            let n = s.prefs.integration_recommendations@.len() as int;
            let list_rows = (if n > 1 {
                n
            } else {
                1
            }) % 65536;
            let h = 14 + list_rows + footer_rows;
            if h > 22 {
                h
            } else {
                22
            }
        },
        _ => 22,
    }
}

pub fn settings_popup_height(s: &SettingsState, footer_rows: u16) -> (r: u16)
    requires
        s.section == SettingsSection::Integrations ==> 14 + ((if s.prefs.integration_recommendations@.len()
            > 1 {
            s.prefs.integration_recommendations@.len() as int
        } else {
            1
        }) % 65536) + footer_rows <= u16::MAX,
    ensures
        r == popup_height_spec(*s, footer_rows),
{
    match s.section {
        SettingsSection::Ui => 30,
        SettingsSection::Templates => 28,
        SettingsSection::Integrations => {
            let n = s.prefs.integration_recommendations.len();
            let rows = if n > 1 {
                n
            } else {
                1
            };
            let list_rows = (rows % 65536) as u16;
            let h = 14 + list_rows + footer_rows;
            if h > SETTINGS_POPUP_BASE_HEIGHT {
                h
            } else {
                SETTINGS_POPUP_BASE_HEIGHT
            }
        },
        _ => SETTINGS_POPUP_BASE_HEIGHT,
    }
}

} // verus!
