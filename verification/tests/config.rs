use td::commands::config::{
    CONFIG_VERSION, CacheConfig, Config, OutputConfig, default_version, mask_token, migrate_config, parse_bool,
};


#[test]
fn test_parse_bool_true_values() {
    assert!(parse_bool("true").unwrap());
    assert!(parse_bool("True").unwrap());
    assert!(parse_bool("TRUE").unwrap());
    assert!(parse_bool("yes").unwrap());
    assert!(parse_bool("1").unwrap());
    assert!(parse_bool("on").unwrap());
}

#[test]
fn test_parse_bool_false_values() {
    assert!(!parse_bool("false").unwrap());
    assert!(!parse_bool("False").unwrap());
    assert!(!parse_bool("FALSE").unwrap());
    assert!(!parse_bool("no").unwrap());
    assert!(!parse_bool("0").unwrap());
    assert!(!parse_bool("off").unwrap());
}

#[test]
fn test_parse_bool_invalid() {
    assert!(parse_bool("maybe").is_err());
    assert!(parse_bool("").is_err());
    assert!(parse_bool("2").is_err());
}

#[test]
fn test_default_config() {
    let config = Config::default();
    assert_eq!(config.version, CONFIG_VERSION);
    assert!(config.token.is_none());
    assert!(config.token_storage.is_none());
    assert!(config.output.color.is_none());
    assert!(config.cache.enabled.is_none());
}





#[test]
fn test_mask_token_ascii() {
    // Long token gets masked with first 4 and last 4 visible
    assert_eq!(mask_token("abcdefghijklmnop"), "abcd...mnop");
    // Token at threshold (exactly 9 chars = still masks)
    assert_eq!(mask_token("123456789"), "1234...6789");
    // Token at min length (8 chars) gets fully masked
    assert_eq!(mask_token("12345678"), "****");
    // Short token gets fully masked
    assert_eq!(mask_token("short"), "****");
}

#[test]
fn test_mask_token_utf8_emoji() {
    // Emoji tokens (4 bytes per emoji, but counted as 1 character each)
    // "🔑🔐🔒🔓🎉🎊🎁🎄🎅" = 9 emoji characters -> should mask
    assert_eq!(mask_token("🔑🔐🔒🔓🎉🎊🎁🎄🎅"), "🔑🔐🔒🔓...🎊🎁🎄🎅");
    // "🔑🔐🔒🔓🎉🎊🎁🎄" = 8 emoji characters -> too short, fully mask
    assert_eq!(mask_token("🔑🔐🔒🔓🎉🎊🎁🎄"), "****");
}

#[test]
fn test_mask_token_utf8_chinese() {
    // Chinese characters (3 bytes each, but counted as 1 character)
    // "密码钥匙令牌凭证安全" = 10 characters -> should mask
    // First 4: 密码钥匙, Last 4: 凭证安全
    assert_eq!(mask_token("密码钥匙令牌凭证安全"), "密码钥匙...凭证安全");
    // "密码钥匙令牌凭证" = 8 characters -> too short
    assert_eq!(mask_token("密码钥匙令牌凭证"), "****");
}

#[test]
fn test_mask_token_mixed_utf8() {
    // Mixed ASCII, emoji, and Chinese
    // "key🔑密码token" = 11 characters -> should mask
    assert_eq!(mask_token("key🔑密码token"), "key🔑...oken");
}

#[test]
fn test_config_version_constant() {
    // Verify the current version constant
    assert_eq!(CONFIG_VERSION, 1);
}

#[test]
fn test_config_version_default_function() {
    // Verify the default version function returns current version
    assert_eq!(default_version(), CONFIG_VERSION);
}

#[test]
fn test_migrate_config_preserves_data() {
    // Migration should preserve all config data
    let config = Config {
        version: 1,
        token: Some("test-token".to_string()),
        token_storage: Some("keyring".to_string()),
        output: OutputConfig {
            color: Some(true),
            date_format: Some("iso".to_string()),
        },
        cache: CacheConfig {
            enabled: Some(true),
        },
    };

    let migrated = migrate_config(config).unwrap();
    assert_eq!(migrated.version, CONFIG_VERSION);
    assert_eq!(migrated.token, Some("test-token".to_string()));
    assert_eq!(migrated.token_storage, Some("keyring".to_string()));
    assert_eq!(migrated.output.color, Some(true));
    assert_eq!(migrated.output.date_format, Some("iso".to_string()));
    assert_eq!(migrated.cache.enabled, Some(true));
}

