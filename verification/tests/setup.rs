use td::commands::config::Config;
use td::commands::setup::{TokenStorage, check_token_input, is_first_run, setup_config, trimmed_token};


#[test]
fn test_token_storage_as_str() {
    assert_eq!(TokenStorage::Keyring.as_str(), "keyring");
    assert_eq!(TokenStorage::Config.as_str(), "config");
    assert_eq!(TokenStorage::Env.as_str(), "env");
}

#[test]
fn test_is_first_run_with_token_flag() {
    // When token is provided via flag, not a first run
    let token = Some(String::from("test-token"));
    assert!(!is_first_run(token.as_ref(), &Ok(Config::default()), &Ok(None)));
}

#[test]
fn test_is_first_run_without_token() {
    // No token provided and a config without a token: first run
    assert!(is_first_run(None, &Ok(Config::default()), &Ok(None)));
}

#[test]
fn test_is_first_run_with_config_token() {
    // The loaded config holds a token: not a first run
    let config = Config { token: Some("existing-token".to_string()), ..Config::default() };
    assert!(!is_first_run(None, &Ok(config), &Ok(None)));
}

#[test]
fn test_save_setup_config_with_token() {
    let config = setup_config("test-token-12345", TokenStorage::Config);
    assert_eq!(config.token, Some("test-token-12345".to_string()));
    assert_eq!(config.token_storage, Some("config".to_string()));
}

#[test]
fn test_save_setup_config_env_only() {
    let config = setup_config("test-token-12345", TokenStorage::Env);
    assert_eq!(config.token, None);
    assert_eq!(config.token_storage, Some("env".to_string()));
}

#[test]
fn setup_config_keyring_keeps_token_out_of_file() {
    let config = setup_config("secret", TokenStorage::Keyring);
    assert_eq!(config.token, None);
    assert_eq!(config.token_storage, Some("keyring".to_string()));
}

#[test]
fn first_run_consults_the_keyring_only_when_it_keeps_the_token() {
    let config = Config { token_storage: Some("keyring".to_string()), ..Config::default() };
    assert!(!is_first_run(None, &Ok(config.clone()), &Ok(Some("stored".to_string()))));
    assert!(is_first_run(None, &Ok(config), &Ok(None)));
    // A token left in the store is not used unless the settings keep it there.
    let config = Config { token_storage: Some("config".to_string()), ..Config::default() };
    assert!(is_first_run(None, &Ok(config), &Ok(Some("stored".to_string()))));
    assert!(is_first_run(None, &Ok(Config::default()), &Ok(Some("stored".to_string()))));
}

#[test]
fn typed_tokens_are_checked_and_trimmed() {
    assert_eq!(check_token_input("   "), Err("Token cannot be empty"));
    assert_eq!(check_token_input("short"), Err("Token seems too short - check your token"));
    assert_eq!(check_token_input("0123456789abcdef0123"), Ok(()));
    assert_eq!(trimmed_token("  0123456789abcdef0123\n"), "0123456789abcdef0123");
    assert_eq!(trimmed_token("\u{3000}tok en\t"), "tok en");
}
