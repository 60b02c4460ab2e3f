use herdr::tab::{
    is_tab_create_option, parse_env_assignment, parse_tab_create_args, parse_tab_list_args,
    single_tab_id, tab_rename_args, tab_subcommand, TabSubcommand,
};

fn args(values: &[&str]) -> Vec<String> {
    values.iter().map(|value| (*value).to_string()).collect()
}

#[test]
fn parse_tab_create_args_argv_does_not_swallow_later_flags() {
    let params = parse_tab_create_args(&args(&[
        "--argv",
        "bash",
        "-lc",
        "echo hi",
        "--cwd",
        "/tmp",
    ]))
    .unwrap();

    assert_eq!(
        params.command,
        Some(vec!["bash".into(), "-lc".into(), "echo hi".into()])
    );
    assert_eq!(params.cwd, Some("/tmp".into()));
}

#[test]
fn parse_tab_create_args_accepts_command_after_separator() {
    let params = parse_tab_create_args(&args(&[
        "--label",
        "run",
        "--",
        "cargo",
        "test",
    ]))
    .unwrap();

    assert_eq!(
        params.command,
        Some(vec!["cargo".into(), "test".into()])
    );
    assert_eq!(params.label, Some("run".into()));
}

#[test]
fn parse_tab_create_args_rejects_combining_argv_and_separator() {
    let err = parse_tab_create_args(&args(&["--argv", "bash", "--", "zsh"])).unwrap_err();
    assert!(err.contains("cannot combine"));
}

#[test]
fn parse_tab_create_args_errors() {
    assert_eq!(
        parse_tab_create_args(&args(&["--cwd"])).unwrap_err(),
        "missing value for --cwd"
    );
    assert_eq!(
        parse_tab_create_args(&args(&["--argv", "--focus"])).unwrap_err(),
        "missing value for --argv"
    );
    assert_eq!(
        parse_tab_create_args(&args(&["--argv", "a", "--command", "b"])).unwrap_err(),
        "command specified more than once"
    );
    assert_eq!(
        parse_tab_create_args(&args(&["--label", "x", "--"])).unwrap_err(),
        "missing command after --"
    );
    assert_eq!(
        parse_tab_create_args(&args(&["--frobnicate"])).unwrap_err(),
        "unknown option: --frobnicate"
    );
    assert!(parse_tab_create_args(&args(&["--env", "NOEQUALS"])).is_err());
}

#[test]
fn parse_tab_create_args_env_focus_and_workspace() {
    let params = parse_tab_create_args(&args(&[
        "--env", "A=1", "--env", "B=2=3", "--env", "A=4", "--focus", "--no-focus", "--workspace",
        "w1",
    ]))
    .unwrap();
    assert!(!params.focus);
    assert_eq!(params.workspace_id, Some("w1".into()));
    assert_eq!(params.command, None);
    let mut env = params.env.clone();
    env.sort();
    assert_eq!(
        env,
        vec![("A".to_string(), "4".to_string()), ("B".to_string(), "2=3".to_string())]
    );
}

#[test]
fn env_assignment_and_options() {
    assert_eq!(
        parse_env_assignment("K=V"),
        Ok(("K".to_string(), "V".to_string()))
    );
    assert!(parse_env_assignment("=V").is_err());
    assert!(is_tab_create_option("--label"));
    assert!(!is_tab_create_option("--lc"));
}

#[test]
fn tab_subcommands_and_small_parsers() {
    assert_eq!(tab_subcommand(&args(&[])), TabSubcommand::Missing);
    assert_eq!(tab_subcommand(&args(&["-h"])), TabSubcommand::Help);
    assert_eq!(tab_subcommand(&args(&["create", "x"])), TabSubcommand::Create);
    assert_eq!(tab_subcommand(&args(&["nope"])), TabSubcommand::Unknown);
    assert_eq!(parse_tab_list_args(&args(&["--workspace", "a", "--workspace", "b"])), Ok(Some("b".to_string())));
    assert_eq!(parse_tab_list_args(&args(&["--workspace"])), Err("missing value for --workspace".to_string()));
    assert_eq!(parse_tab_list_args(&args(&["x"])), Err("unknown option: x".to_string()));
    assert_eq!(single_tab_id(&args(&["t1"])), Some("t1".to_string()));
    assert_eq!(single_tab_id(&args(&["t1", "t2"])), None);
    assert_eq!(
        tab_rename_args(&args(&["t1", "my", "new", "name"])),
        Some(("t1".to_string(), "my new name".to_string()))
    );
    assert_eq!(tab_rename_args(&args(&["t1"])), None);
}
