//! Pane layout templates.
//!
//! Predefined split structures that can be applied to the current tab to
//! quickly arrange panes for common workflows (dual-agent review, monitoring,
//! ops dashboards, etc.).
use vstd::prelude::*;

use crate::template::SplitDirection;

verus! {

/// Number of built-in templates.
pub const PANE_TEMPLATE_COUNT: usize = 10;

/// A predefined pane layout that can be applied to the current tab.
#[derive(Debug, Clone, Copy)]
pub struct PaneTemplate {
    pub id: PaneTemplateId,
    pub name: &'static str,
    pub description: &'static str,
}

/// Identifier for a built-in pane template.
#[derive(Debug, Clone, Copy, PartialEq, Eq, Structural)]
pub enum PaneTemplateId {
    /// Single pane, no splits.
    Single,
    /// Two panes side by side.
    HorizontalSplit,
    /// Two panes stacked vertically.
    VerticalSplit,
    /// Four panes in a 2x2 grid.
    Quad,
    /// Three panes side by side.
    TripleHorizontal,
    /// One large pane (70%) + one narrow sidebar (30%).
    MainSidebar,
    /// Large agent pane on top, monitor/logs strip below.
    MonitorBottom,
    /// Agent left, stacked monitor panes on the right.
    MonitorSide,
    /// Three equal columns: agent, status, logs.
    OpsTriple,
    /// Wide main + two stacked side panels (review / preview).
    ReviewDeck,
}

/// Display position of a template.
pub open spec fn template_position(id: PaneTemplateId) -> int {
    match id {
        PaneTemplateId::Single => 0,
        PaneTemplateId::HorizontalSplit => 1,
        PaneTemplateId::VerticalSplit => 2,
        PaneTemplateId::MainSidebar => 3,
        PaneTemplateId::MonitorBottom => 4,
        PaneTemplateId::MonitorSide => 5,
        PaneTemplateId::OpsTriple => 6,
        PaneTemplateId::ReviewDeck => 7,
        PaneTemplateId::TripleHorizontal => 8,
        PaneTemplateId::Quad => 9,
    }
}

/// The template shown at a display position (the last one beyond the end).
pub open spec fn template_at(i: int) -> PaneTemplateId {
    if i == 0 {
        PaneTemplateId::Single
    } else if i == 1 {
        PaneTemplateId::HorizontalSplit
    } else if i == 2 {
        PaneTemplateId::VerticalSplit
    } else if i == 3 {
        PaneTemplateId::MainSidebar
    } else if i == 4 {
        PaneTemplateId::MonitorBottom
    } else if i == 5 {
        PaneTemplateId::MonitorSide
    } else if i == 6 {
        PaneTemplateId::OpsTriple
    } else if i == 7 {
        PaneTemplateId::ReviewDeck
    } else if i == 8 {
        PaneTemplateId::TripleHorizontal
    } else {
        PaneTemplateId::Quad
    }
}

/// All built-in templates in display order.
pub open spec fn all_templates_spec() -> Seq<PaneTemplateId> {
    Seq::new(10, |i: int| template_at(i))
}

pub open spec fn template_name_spec(id: PaneTemplateId) -> Seq<char> {
    match id {
        PaneTemplateId::Single => "focus"@,
        PaneTemplateId::HorizontalSplit => "side by side"@,
        PaneTemplateId::VerticalSplit => "stacked"@,
        PaneTemplateId::Quad => "quad"@,
        PaneTemplateId::TripleHorizontal => "three wide"@,
        PaneTemplateId::MainSidebar => "main + rail"@,
        PaneTemplateId::MonitorBottom => "monitor strip"@,
        PaneTemplateId::MonitorSide => "monitor column"@,
        PaneTemplateId::OpsTriple => "ops board"@,
        PaneTemplateId::ReviewDeck => "review deck"@,
    }
}

pub open spec fn template_description_spec(id: PaneTemplateId) -> Seq<char> {
    match id {
        PaneTemplateId::Single => "one pane, full attention"@,
        PaneTemplateId::HorizontalSplit => "two agents or agent + tool"@,
        PaneTemplateId::VerticalSplit => "two panes, one above the other"@,
        PaneTemplateId::Quad => "four panes in a 2\u{d7}2 grid"@,
        PaneTemplateId::TripleHorizontal => "three panes across"@,
        PaneTemplateId::MainSidebar => "wide work area with a narrow side pane"@,
        PaneTemplateId::MonitorBottom => "agent on top, logs/metrics along the bottom"@,
        PaneTemplateId::MonitorSide => "agent left, two stacked monitors on the right"@,
        PaneTemplateId::OpsTriple => "agent \u{b7} status \u{b7} logs \u{2014} three equal columns"@,
        PaneTemplateId::ReviewDeck => "wide main plus two stacked side panels"@,
    }
}

/// Every template appears in the display order exactly once, at its own
/// position.
pub proof fn law_template_positions(id: PaneTemplateId, i: int)
    requires
        0 <= i < 10,
    ensures
        0 <= template_position(id) < 10,
        all_templates_spec()[template_position(id)] == id,
        all_templates_spec()[i] == id <==> i == template_position(id),
{
}

impl PaneTemplateId {
    /// All built-in templates in display order.
    pub fn all() -> (r: Vec<PaneTemplateId>)
        ensures
            r@ == all_templates_spec(),
    {
        let mut r: Vec<PaneTemplateId> = Vec::new();
        let mut i: usize = 0;
        while i < PANE_TEMPLATE_COUNT
            invariant
                i <= 10,
                r.len() == i,
                forall|k: int| 0 <= k < i ==> #[trigger] r@[k] == template_at(k),
            decreases 10 - i,
        {
            match PaneTemplateId::from_index(i) {
                Some(t) => r.push(t),
                None => {},
            }
            i = i + 1;
        }
        assert(r@ == all_templates_spec());
        r
    }

    /// The template at a display position, if there is one.
    pub fn from_index(i: usize) -> (r: Option<PaneTemplateId>)
        ensures
            r == (if i < 10 { Some(template_at(i as int)) } else { None::<PaneTemplateId> }),
    {
        match i {
            0 => Some(PaneTemplateId::Single),
            1 => Some(PaneTemplateId::HorizontalSplit),
            2 => Some(PaneTemplateId::VerticalSplit),
            3 => Some(PaneTemplateId::MainSidebar),
            4 => Some(PaneTemplateId::MonitorBottom),
            5 => Some(PaneTemplateId::MonitorSide),
            6 => Some(PaneTemplateId::OpsTriple),
            7 => Some(PaneTemplateId::ReviewDeck),
            8 => Some(PaneTemplateId::TripleHorizontal),
            9 => Some(PaneTemplateId::Quad),
            _ => None,
        }
    }

    /// The display name and description of this template.
    pub fn template(self) -> (r: PaneTemplate)
        ensures
            r.id == self,
            r.name@ == template_name_spec(self),
            r.description@ == template_description_spec(self),
    {
        match self {
            PaneTemplateId::Single => PaneTemplate {
                id: self,
                name: "focus",
                description: "one pane, full attention",
            },
            PaneTemplateId::HorizontalSplit => PaneTemplate {
                id: self,
                name: "side by side",
                description: "two agents or agent + tool",
            },
            PaneTemplateId::VerticalSplit => PaneTemplate {
                id: self,
                name: "stacked",
                description: "two panes, one above the other",
            },
            PaneTemplateId::Quad => PaneTemplate {
                id: self,
                name: "quad",
                description: "four panes in a 2\u{d7}2 grid",
            },
            PaneTemplateId::TripleHorizontal => PaneTemplate {
                id: self,
                name: "three wide",
                description: "three panes across",
            },
            PaneTemplateId::MainSidebar => PaneTemplate {
                id: self,
                name: "main + rail",
                description: "wide work area with a narrow side pane",
            },
            PaneTemplateId::MonitorBottom => PaneTemplate {
                id: self,
                name: "monitor strip",
                description: "agent on top, logs/metrics along the bottom",
            },
            PaneTemplateId::MonitorSide => PaneTemplate {
                id: self,
                name: "monitor column",
                description: "agent left, two stacked monitors on the right",
            },
            PaneTemplateId::OpsTriple => PaneTemplate {
                id: self,
                name: "ops board",
                description: "agent \u{b7} status \u{b7} logs \u{2014} three equal columns",
            },
            PaneTemplateId::ReviewDeck => PaneTemplate {
                id: self,
                name: "review deck",
                description: "wide main plus two stacked side panels",
            },
        }
    }
}

/// Direction in which focus moves between panes.
#[derive(Debug, Clone, Copy, PartialEq, Eq, Structural)]
pub enum NavDirection {
    Left,
    Right,
}

/// One step of arranging the current tab's panes.
#[derive(Debug, Clone, Copy, PartialEq, Eq, Structural)]
pub enum LayoutStep {
    /// Close every pane of the tab but the focused one.
    CloseOtherPanes,
    /// Split the focused pane; the new pane takes the given share of the
    /// space, in percent, or half when none is given.
    Split { direction: SplitDirection, percent: Option<u8> },
    /// Move focus to the neighbouring pane.
    Focus(NavDirection),
}

pub open spec fn split(d: SplitDirection) -> LayoutStep {
    LayoutStep::Split { direction: d, percent: None }
}

/// The steps that arrange a tab after a template. The monitor, ops and
/// review templates have no steps yet.
pub open spec fn template_steps_spec(id: PaneTemplateId) -> Seq<LayoutStep> {
    match id {
        PaneTemplateId::Single => seq![LayoutStep::CloseOtherPanes],
        PaneTemplateId::HorizontalSplit => seq![split(SplitDirection::Right)],
        PaneTemplateId::VerticalSplit => seq![split(SplitDirection::Down)],
        PaneTemplateId::Quad => seq![
            split(SplitDirection::Right),
            LayoutStep::Focus(NavDirection::Left),
            split(SplitDirection::Down),
            LayoutStep::Focus(NavDirection::Right),
            split(SplitDirection::Down),
        ],
        PaneTemplateId::TripleHorizontal => seq![
            split(SplitDirection::Right),
            LayoutStep::Focus(NavDirection::Left),
            split(SplitDirection::Right),
        ],
        PaneTemplateId::MainSidebar => seq![
            LayoutStep::Split { direction: SplitDirection::Right, percent: Some(70u8) },
        ],
        _ => Seq::empty(),
    }
}

/// The steps that apply a template to the current tab.
pub fn template_steps(id: PaneTemplateId) -> (r: Vec<LayoutStep>)
    ensures
        r@ == template_steps_spec(id),
{
    let right = LayoutStep::Split { direction: SplitDirection::Right, percent: None };
    let down = LayoutStep::Split { direction: SplitDirection::Down, percent: None };
    let r = match id {
        PaneTemplateId::Single => vec![LayoutStep::CloseOtherPanes],
        PaneTemplateId::HorizontalSplit => vec![right],
        PaneTemplateId::VerticalSplit => vec![down],
        PaneTemplateId::Quad => vec![
            right,
            LayoutStep::Focus(NavDirection::Left),
            down,
            LayoutStep::Focus(NavDirection::Right),
            down,
        ],
        PaneTemplateId::TripleHorizontal => vec![right, LayoutStep::Focus(NavDirection::Left), right],
        PaneTemplateId::MainSidebar => vec![
            LayoutStep::Split { direction: SplitDirection::Right, percent: Some(70) },
        ],
        _ => Vec::new(),
    };
    assert(r@ =~= template_steps_spec(id));
    r
}

/// A step with its split turned a quarter: right becomes down and down
/// becomes right.
pub open spec fn turned(s: LayoutStep) -> LayoutStep {
    match s {
        LayoutStep::Split { direction: SplitDirection::Right, percent } => LayoutStep::Split {
            direction: SplitDirection::Down,
            percent,
        },
        LayoutStep::Split { direction: SplitDirection::Down, percent } => LayoutStep::Split {
            direction: SplitDirection::Right,
            percent,
        },
        _ => s,
    }
}

/// The stacked template is the side-by-side template turned a quarter: one
/// split of the focused pane, downward instead of to the right; and only
/// the stacked and quad templates split anything downward.
pub proof fn law_stacked_splits_down(id: PaneTemplateId, i: int)
    ensures
        template_steps_spec(PaneTemplateId::VerticalSplit) == template_steps_spec(
            PaneTemplateId::HorizontalSplit,
        ).map_values(|s: LayoutStep| turned(s)),
        template_steps_spec(PaneTemplateId::HorizontalSplit) == seq![
            LayoutStep::Split { direction: SplitDirection::Right, percent: None },
        ],
        template_steps_spec(PaneTemplateId::VerticalSplit) != template_steps_spec(
            PaneTemplateId::HorizontalSplit,
        ),
        0 <= i < template_steps_spec(id).len() && (template_steps_spec(id)[i] matches LayoutStep::Split {
            direction: SplitDirection::Down,
            ..
        }) ==> (id == PaneTemplateId::VerticalSplit || id == PaneTemplateId::Quad),
        (id == PaneTemplateId::VerticalSplit || id == PaneTemplateId::Quad) ==> exists|j: int|
            0 <= j < template_steps_spec(id).len() && #[trigger] template_steps_spec(id)[j]
                == split(SplitDirection::Down),
{
    let h = template_steps_spec(PaneTemplateId::HorizontalSplit);
    assert(h.map_values(|s: LayoutStep| turned(s)) =~= template_steps_spec(
        PaneTemplateId::VerticalSplit,
    ));
    assert(template_steps_spec(PaneTemplateId::VerticalSplit)[0] != h[0]);
    if id == PaneTemplateId::VerticalSplit {
        assert(template_steps_spec(id)[0] == split(SplitDirection::Down));
    } else if id == PaneTemplateId::Quad {
        assert(template_steps_spec(id)[2] == split(SplitDirection::Down));
    }
}

} // verus!
