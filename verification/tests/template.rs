use herdr::template::{
    choose_template_path, pane_split_directions, split_direction, template_file_candidate,
    validate_template, SplitDirection, TemplatePane, TemplateTab, TemplateWorkspace,
    WorkspaceTemplate,
};

fn pane(split: Option<&str>) -> TemplatePane {
    TemplatePane { split: split.map(|s| s.to_string()), label: None, cwd: None, command: None, env: None }
}

fn template(tabs: Vec<TemplateTab>) -> WorkspaceTemplate {
    WorkspaceTemplate {
        name: "test".to_string(),
        description: None,
        version: None,
        workspace: TemplateWorkspace { label: None, cwd: None, focus: None },
        tabs,
    }
}

#[test]
fn test_validate_empty_tabs() {
    let tmpl = template(vec![]);
    assert!(validate_template(&tmpl).is_err());
}

#[test]
fn validation_names_the_first_bad_tab() {
    let ok = TemplateTab { label: None, focus: None, panes: vec![pane(None), pane(Some("down"))] };
    let split_first = TemplateTab { label: None, focus: None, panes: vec![pane(Some("right"))] };
    let empty = TemplateTab { label: None, focus: None, panes: vec![] };
    let crowded = TemplateTab { label: None, focus: None, panes: (0..25).map(|_| pane(None)).collect() };
    assert_eq!(validate_template(&template(vec![ok.clone()])), Ok(()));
    assert_eq!(
        validate_template(&template(vec![ok.clone(), split_first])),
        Err("tab 1 first pane must not have a split".to_string())
    );
    assert_eq!(
        validate_template(&template(vec![empty])),
        Err("tab 0 must have at least one pane".to_string())
    );
    assert_eq!(
        validate_template(&template(vec![ok, crowded])),
        Err("tab 1 has too many panes (max 24)".to_string())
    );
}

#[test]
fn splits_go_right_unless_stacked() {
    assert_eq!(split_direction(&None), SplitDirection::Right);
    assert_eq!(split_direction(&Some("below".to_string())), SplitDirection::Down);
    assert_eq!(split_direction(&Some("Down".to_string())), SplitDirection::Right);
    let tab = TemplateTab {
        label: None,
        focus: None,
        panes: vec![pane(None), pane(Some("right")), pane(Some("vertical"))],
    };
    assert_eq!(pane_split_directions(&tab), vec![SplitDirection::Right, SplitDirection::Down]);
}

#[test]
fn template_paths_resolve_by_name_or_path() {
    assert_eq!(template_file_candidate("dev", "/home/me/.config/herdr"), "/home/me/.config/herdr/templates/dev.toml");
    assert_eq!(template_file_candidate("/abs/dev", "/cfg"), "/abs/dev.toml");
    assert_eq!(choose_template_path("a.toml", true, "/c/a.toml", true).as_deref(), Some("a.toml"));
    assert_eq!(choose_template_path("a", false, "/c/a.toml", true).as_deref(), Some("/c/a.toml"));
    assert_eq!(choose_template_path("a", false, "/c/a.toml", false), None);
}
