use td::commands::keyring::{Platform, is_available, platform_access_hint, platform_failure_hint, platform_hint};

#[test]
fn test_is_available() {
    // Either answer is fine; the call must not panic.
    let available = is_available();
    println!("Keyring available: {}", available);
}

#[test]
fn test_platform_hint_no_entry_returns_base_error() {
    let error = keyring::Error::NoEntry;
    let hint = platform_hint(&error, Platform::Linux);
    assert!(!hint.contains("Hint:"));
}

#[test]
fn test_platform_hint_bad_encoding_returns_base_error() {
    let error = keyring::Error::BadEncoding(vec![0x80, 0x81]);
    let hint = platform_hint(&error, Platform::Linux);
    assert!(!hint.contains("Hint:"));
}

#[test]
fn test_platform_access_hint_contains_alternative() {
    for platform in [Platform::Linux, Platform::MacOs, Platform::Windows, Platform::Other] {
        let hint = platform_access_hint(platform);
        assert!(hint.contains("TODOIST_API_TOKEN"));
        assert!(hint.contains("td config set token"));
    }
}

#[test]
fn test_platform_failure_hint_contains_alternative() {
    for platform in [Platform::Linux, Platform::MacOs, Platform::Windows, Platform::Other] {
        let hint = platform_failure_hint(platform);
        assert!(hint.contains("TODOIST_API_TOKEN"));
        assert!(hint.contains("td config set token"));
    }
}

#[test]
fn test_linux_access_hint_mentions_secret_service() {
    let hint = platform_access_hint(Platform::Linux);
    assert!(hint.contains("Secret Service"));
    assert!(hint.contains("gnome-keyring"));
}

#[test]
fn test_macos_access_hint_mentions_keychain() {
    let hint = platform_access_hint(Platform::MacOs);
    assert!(hint.contains("Keychain"));
}

#[test]
fn test_windows_access_hint_mentions_credential_manager() {
    let hint = platform_access_hint(Platform::Windows);
    assert!(hint.contains("Credential Manager"));
}

#[test]
fn platform_hint_adds_access_hint_for_storage_errors() {
    let error = keyring::Error::NoStorageAccess(Box::new(std::io::Error::other("locked")));
    let hint = platform_hint(&error, Platform::Linux);
    assert!(hint.starts_with("Couldn't access platform secure storage: locked"));
    assert!(hint.contains("\n\nHint: On Linux, td uses the Secret Service API"));
}
