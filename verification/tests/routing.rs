use td::cli::{Cli, Commands, ConfigCommands, ProjectsCommands, Shell};
use td::dispatch::{AuthDispatch, NoAuthDispatch};

fn cli_with(command: Option<Commands>) -> Cli {
    Cli { verbose: false, quiet: false, json: false, no_color: false, token: None, sync: false, command }
}

fn list_command(filter: Option<String>) -> Commands {
    Commands::List {
        filter,
        project: None,
        label: None,
        priority: None,
        section: None,
        overdue: false,
        no_due: false,
        limit: 50,
        all: false,
        cursor: None,
        sort: None,
        reverse: false,
    }
}

#[test]
fn test_no_auth_dispatch_config_show() {
    let cli = cli_with(Some(Commands::Config { command: Some(ConfigCommands::Show) }));
    let dispatch = NoAuthDispatch::try_from_cli(&cli);
    assert!(matches!(dispatch, Some(NoAuthDispatch::Config(_))));
}

#[test]
fn test_no_auth_dispatch_completions() {
    let cli = cli_with(Some(Commands::Completions { shell: Shell::Zsh }));
    let dispatch = NoAuthDispatch::try_from_cli(&cli);
    assert!(matches!(dispatch, Some(NoAuthDispatch::Completions(_))));
}

#[test]
fn test_no_auth_dispatch_help() {
    let cli = cli_with(None);
    let dispatch = NoAuthDispatch::try_from_cli(&cli);
    assert!(matches!(dispatch, Some(NoAuthDispatch::Help)));
}

#[test]
fn test_no_auth_dispatch_returns_none_for_list() {
    let cli = cli_with(Some(list_command(None)));
    let dispatch = NoAuthDispatch::try_from_cli(&cli);
    assert!(dispatch.is_none());
}

#[test]
fn test_auth_dispatch_list() {
    let cli = cli_with(Some(list_command(Some("today".to_string()))));
    let dispatch = AuthDispatch::from_cli(&cli);
    assert!(matches!(dispatch, Some(AuthDispatch::List { .. })));
}

#[test]
fn test_auth_dispatch_add() {
    let cli = cli_with(Some(Commands::Add {
        content: "Test task".to_string(),
        project: None,
        priority: None,
        due: None,
        label: vec![],
        section: None,
        parent: None,
        description: None,
    }));
    let dispatch = AuthDispatch::from_cli(&cli);
    assert!(matches!(dispatch, Some(AuthDispatch::Add { .. })));
}

#[test]
fn test_auth_dispatch_projects() {
    let cli = cli_with(Some(Commands::Projects {
        command: Some(ProjectsCommands::List { tree: false, archived: false, limit: None }),
    }));
    let dispatch = AuthDispatch::from_cli(&cli);
    assert!(matches!(dispatch, Some(AuthDispatch::Projects(_))));
}

#[test]
fn test_auth_dispatch_returns_none_for_config() {
    let cli = cli_with(Some(Commands::Config { command: Some(ConfigCommands::Show) }));
    let dispatch = AuthDispatch::from_cli(&cli);
    assert!(dispatch.is_none());
}
