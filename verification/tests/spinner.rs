use herdr::pane_template::{template_steps, LayoutStep, NavDirection, PaneTemplateId};
use herdr::spinner::{
    active_spinner_category, spinner_categories, spinner_style_count, spinner_style_toml_value,
    SpinnerStyle,
};
use herdr::template::SplitDirection;

#[test]
fn spinner_categories_cover_all_styles() {
    let categorized: usize = spinner_categories().iter().map(|c| c.styles.len()).sum();
    assert_eq!(categorized, spinner_style_count());
}

#[test]
fn every_style_sits_in_exactly_one_category() {
    for style in SpinnerStyle::all() {
        let holders = spinner_categories()
            .iter()
            .filter(|c| c.styles.contains(&style))
            .count();
        assert_eq!(holders, 1);
        assert_eq!(SpinnerStyle::from_index(style.index()), Some(style));
    }
    assert_eq!(SpinnerStyle::from_index(80), None);
}

#[test]
fn categories_keep_their_labels_and_fall_back_to_classic() {
    let labels: Vec<&str> = spinner_categories().iter().map(|c| c.label).collect();
    assert_eq!(labels, vec!["classic", "motion", "play", "emoji", "fantasy"]);
    let fallback = active_spinner_category(9);
    assert_eq!(fallback.label, "classic");
    assert_eq!(fallback.styles[0], SpinnerStyle::Dots);
    assert_eq!(active_spinner_category(4).styles[15], SpinnerStyle::DwarfFortress);
}

#[test]
fn spinner_styles_are_saved_by_name() {
    assert_eq!(spinner_style_toml_value(SpinnerStyle::Dots8Bit), "\"dots8-bit\"");
    assert_eq!(SpinnerStyle::GhostSpinner.config_name(), "ghost");
}

#[test]
fn templates_come_in_display_order() {
    let all = PaneTemplateId::all();
    assert_eq!(all.len(), 10);
    assert_eq!(all[0], PaneTemplateId::Single);
    assert_eq!(all[3], PaneTemplateId::MainSidebar);
    assert_eq!(all[9], PaneTemplateId::Quad);
    let t = PaneTemplateId::OpsTriple.template();
    assert_eq!(t.id, PaneTemplateId::OpsTriple);
    assert_eq!(t.name, "ops board");
    assert_eq!(t.description, "agent \u{b7} status \u{b7} logs \u{2014} three equal columns");
    assert_eq!(PaneTemplateId::Quad.template().description, "four panes in a 2\u{d7}2 grid");
}

#[test]
fn template_steps_build_the_layout() {
    let right = LayoutStep::Split { direction: SplitDirection::Right, percent: None };
    let down = LayoutStep::Split { direction: SplitDirection::Down, percent: None };
    assert_eq!(template_steps(PaneTemplateId::Single), vec![LayoutStep::CloseOtherPanes]);
    assert_eq!(
        template_steps(PaneTemplateId::Quad),
        vec![
            right,
            LayoutStep::Focus(NavDirection::Left),
            down,
            LayoutStep::Focus(NavDirection::Right),
            down
        ]
    );
    assert_eq!(
        template_steps(PaneTemplateId::MainSidebar),
        vec![LayoutStep::Split { direction: SplitDirection::Right, percent: Some(70) }]
    );
}

#[test]
fn every_style_has_its_own_config_name() {
    let all = SpinnerStyle::all();
    for (i, a) in all.iter().enumerate() {
        for b in &all[i + 1..] {
            assert_ne!(a.config_name(), b.config_name());
        }
    }
    assert_eq!(SpinnerStyle::DotsFull.config_name(), "dots-full");
    assert_eq!(SpinnerStyle::DwarfFortress.config_name(), "dwarf-fortress");
}
