use td::cli::{Cli, Commands};
use td::commands::config::Config;
use td::commands::keyring::Platform;
use td::startup::resolve_token_optional;


/// Helper to create a test CLI with specified token.
fn cli_with_token(token: Option<String>) -> Cli {
    Cli {
        verbose: false,
        quiet: false,
        json: false,
        no_color: false,
        token,
        sync: false,
        command: Some(Commands::List {
            filter: None,
            project: None,
            label: None,
            priority: None,
            section: None,
            overdue: false,
            no_due: false,
            limit: 50,
            all: false,
            cursor: None,
            sort: None,
            reverse: false,
        }),
    }
}

#[test]
fn test_resolve_token_optional_from_flag() {
    // Token from flag takes highest priority
    let cli = cli_with_token(Some("flag-token".to_string()));
    let result = resolve_token_optional(&cli, Ok(Config::default()), Platform::Linux);
    assert!(result.is_ok());
    assert_eq!(result.unwrap(), Some("flag-token".to_string()));
}

#[test]
fn test_resolve_token_optional_no_token() {
    // No flag, no token in the config: no token, and no error
    let cli = cli_with_token(None);
    let result = resolve_token_optional(&cli, Ok(Config::default()), Platform::Linux);
    assert!(result.is_ok());
    assert!(result.unwrap().is_none());
}

#[test]
fn test_resolve_token_optional_from_config() {
    let config = Config { token: Some("config-token".to_string()), ..Config::default() };
    let cli = cli_with_token(None);
    let result = resolve_token_optional(&cli, Ok(config), Platform::Linux);
    assert!(result.is_ok(), "Expected Ok but got: {:?}", result);
    assert_eq!(result.unwrap(), Some("config-token".to_string()));
}

#[test]
fn test_resolve_token_optional_flag_overrides_config() {
    let config = Config { token: Some("config-token".to_string()), ..Config::default() };
    let cli = cli_with_token(Some("flag-token".to_string()));
    let result = resolve_token_optional(&cli, Ok(config), Platform::Linux);
    assert!(result.is_ok());
    assert_eq!(result.unwrap(), Some("flag-token".to_string()));
}
