//! Token storage in the operating system's credential store.
//!
//! The token lives in one entry of the store (service `td-todoist-cli`, user
//! `api_token`). What the store answers depends on the machine, so the
//! functions that reach it state what holds of every answer; the functions
//! that turn an answer into a result are verified for each answer.

use vstd::prelude::*;
use crate::commands::{CommandError, Result};
use crate::text::{push_str, string_of};

verus! {

/// The store's error type.
#[verifier::external_type_specification]
#[verifier::external_body]
pub struct ExKeyringError(::keyring::Error);

/// A handle on one entry of the store.
#[verifier::external_type_specification]
#[verifier::external_body]
pub struct ExKeyringEntry(::keyring::Entry);

/// The operating systems whose credential stores the hints describe.
#[derive(Debug, Clone, Copy, PartialEq, Eq, Structural)]
pub enum Platform {
    Linux,
    MacOs,
    Windows,
    Other,
}

/// The kinds of failure the store reports.
#[derive(Debug, Clone, Copy, PartialEq, Eq, Structural)]
pub enum KeyringErrorKind {
    PlatformFailure,
    NoStorageAccess,
    NoEntry,
    BadEncoding,
    TooLong,
    Invalid,
    Ambiguous,
    /// A variant added to the store's error type after these.
    Other,
}

/// A failure of the store: its kind and its message.
#[derive(Debug, Clone)]
pub struct KeyringFailure {
    pub kind: KeyringErrorKind,
    pub message: String,
}

/// Service name of the entry.
pub const SERVICE: &'static str = "td-todoist-cli";

/// User name of the entry that holds the token.
pub const USERNAME: &'static str = "api_token";

/// User name of the entry opened to see whether the store can be reached.
pub const AVAILABILITY_USER: &'static str = "test";

/// How to make the store reachable, per platform.
pub open spec fn access_hint(platform: Platform) -> &'static str {
    match platform {
        Platform::Linux => "On Linux, td uses the Secret Service API (libsecret) for secure storage.\n\
     To fix this:\n\
     1. Install a secret service provider:\n\
        - GNOME/GTK: gnome-keyring (usually pre-installed)\n\
        - KDE: kwallet or ksecretservice\n\
        - Headless: Install 'gnome-keyring' and run 'dbus-run-session -- gnome-keyring-daemon --unlock'\n\
     2. Ensure the keyring daemon is running:\n\
        - Check: 'systemctl --user status gnome-keyring-daemon'\n\
        - Start: 'systemctl --user start gnome-keyring-daemon'\n\
     3. For SSH sessions, ensure D-Bus is available\n\
     \n\
     Alternative: Set TODOIST_API_TOKEN environment variable or use 'td config set token <TOKEN>'",
        Platform::MacOs => "On macOS, td uses the Keychain for secure storage.\n\
     To fix this:\n\
     1. Check if Keychain Access is locked (open Keychain Access app)\n\
     2. If prompted, allow 'td' to access the keychain\n\
     3. Try unlocking your login keychain: 'security unlock-keychain ~/Library/Keychains/login.keychain-db'\n\
     \n\
     Alternative: Set TODOIST_API_TOKEN environment variable or use 'td config set token <TOKEN>'",
        Platform::Windows => "On Windows, td uses Credential Manager for secure storage.\n\
     To fix this:\n\
     1. Open Credential Manager (search in Start menu)\n\
     2. Check if there are issues with Windows Credentials\n\
     3. Try running td as administrator if access is denied\n\
     \n\
     Alternative: Set TODOIST_API_TOKEN environment variable or use 'td config set token <TOKEN>'",
        Platform::Other => "Your platform's credential storage is not accessible.\n\
     Alternative: Set TODOIST_API_TOKEN environment variable or use 'td config set token <TOKEN>'",
    }
}

/// What commonly makes the store fail, per platform.
pub open spec fn failure_hint(platform: Platform) -> &'static str {
    match platform {
        Platform::Linux => "The Secret Service API encountered an error.\n\
     Common causes:\n\
     1. D-Bus session bus not available (common in containers/SSH)\n\
        - Try: 'eval $(dbus-launch --sh-syntax)'\n\
     2. No secret service provider installed\n\
        - Install: 'sudo apt install gnome-keyring' (Debian/Ubuntu)\n\
        - Install: 'sudo dnf install gnome-keyring' (Fedora)\n\
     3. Keyring daemon not running\n\
        - Start: 'gnome-keyring-daemon --start --components=secrets'\n\
     \n\
     Alternative: Set TODOIST_API_TOKEN environment variable or use 'td config set token <TOKEN>'",
        Platform::MacOs => "The Keychain encountered an error.\n\
     Common causes:\n\
     1. Keychain is corrupted - try 'Keychain First Aid' in Keychain Access\n\
     2. Code signing issue - the app may need to be re-signed\n\
     3. System Integrity Protection preventing access\n\
     \n\
     Alternative: Set TODOIST_API_TOKEN environment variable or use 'td config set token <TOKEN>'",
        Platform::Windows => "Windows Credential Manager encountered an error.\n\
     Common causes:\n\
     1. Credential Manager service not running\n\
        - Open Services (services.msc) and start 'Credential Manager'\n\
     2. User profile issues\n\
        - Try logging out and back in\n\
     3. Antivirus blocking credential access\n\
     \n\
     Alternative: Set TODOIST_API_TOKEN environment variable or use 'td config set token <TOKEN>'",
        Platform::Other => "Your platform's credential storage encountered an error.\n\
     Alternative: Set TODOIST_API_TOKEN environment variable or use 'td config set token <TOKEN>'",
    }
}

/// The hint for storage access errors on `platform`.
pub fn platform_access_hint(platform: Platform) -> (r: &'static str)
    ensures
        r == access_hint(platform),
{
    match platform {
        Platform::Linux => "On Linux, td uses the Secret Service API (libsecret) for secure storage.\n\
     To fix this:\n\
     1. Install a secret service provider:\n\
        - GNOME/GTK: gnome-keyring (usually pre-installed)\n\
        - KDE: kwallet or ksecretservice\n\
        - Headless: Install 'gnome-keyring' and run 'dbus-run-session -- gnome-keyring-daemon --unlock'\n\
     2. Ensure the keyring daemon is running:\n\
        - Check: 'systemctl --user status gnome-keyring-daemon'\n\
        - Start: 'systemctl --user start gnome-keyring-daemon'\n\
     3. For SSH sessions, ensure D-Bus is available\n\
     \n\
     Alternative: Set TODOIST_API_TOKEN environment variable or use 'td config set token <TOKEN>'",
        Platform::MacOs => "On macOS, td uses the Keychain for secure storage.\n\
     To fix this:\n\
     1. Check if Keychain Access is locked (open Keychain Access app)\n\
     2. If prompted, allow 'td' to access the keychain\n\
     3. Try unlocking your login keychain: 'security unlock-keychain ~/Library/Keychains/login.keychain-db'\n\
     \n\
     Alternative: Set TODOIST_API_TOKEN environment variable or use 'td config set token <TOKEN>'",
        Platform::Windows => "On Windows, td uses Credential Manager for secure storage.\n\
     To fix this:\n\
     1. Open Credential Manager (search in Start menu)\n\
     2. Check if there are issues with Windows Credentials\n\
     3. Try running td as administrator if access is denied\n\
     \n\
     Alternative: Set TODOIST_API_TOKEN environment variable or use 'td config set token <TOKEN>'",
        Platform::Other => "Your platform's credential storage is not accessible.\n\
     Alternative: Set TODOIST_API_TOKEN environment variable or use 'td config set token <TOKEN>'",
    }
}

/// The hint for platform failures on `platform`.
pub fn platform_failure_hint(platform: Platform) -> (r: &'static str)
    ensures
        r == failure_hint(platform),
{
    match platform {
        Platform::Linux => "The Secret Service API encountered an error.\n\
     Common causes:\n\
     1. D-Bus session bus not available (common in containers/SSH)\n\
        - Try: 'eval $(dbus-launch --sh-syntax)'\n\
     2. No secret service provider installed\n\
        - Install: 'sudo apt install gnome-keyring' (Debian/Ubuntu)\n\
        - Install: 'sudo dnf install gnome-keyring' (Fedora)\n\
     3. Keyring daemon not running\n\
        - Start: 'gnome-keyring-daemon --start --components=secrets'\n\
     \n\
     Alternative: Set TODOIST_API_TOKEN environment variable or use 'td config set token <TOKEN>'",
        Platform::MacOs => "The Keychain encountered an error.\n\
     Common causes:\n\
     1. Keychain is corrupted - try 'Keychain First Aid' in Keychain Access\n\
     2. Code signing issue - the app may need to be re-signed\n\
     3. System Integrity Protection preventing access\n\
     \n\
     Alternative: Set TODOIST_API_TOKEN environment variable or use 'td config set token <TOKEN>'",
        Platform::Windows => "Windows Credential Manager encountered an error.\n\
     Common causes:\n\
     1. Credential Manager service not running\n\
        - Open Services (services.msc) and start 'Credential Manager'\n\
     2. User profile issues\n\
        - Try logging out and back in\n\
     3. Antivirus blocking credential access\n\
     \n\
     Alternative: Set TODOIST_API_TOKEN environment variable or use 'td config set token <TOKEN>'",
        Platform::Other => "Your platform's credential storage encountered an error.\n\
     Alternative: Set TODOIST_API_TOKEN environment variable or use 'td config set token <TOKEN>'",
    }
}

/// The message shown for a store failure: the store's own message, followed
/// by a platform hint for access errors and platform failures.
pub open spec fn hint_message(kind: KeyringErrorKind, base: Seq<char>, platform: Platform) -> Seq<char> {
    match kind {
        KeyringErrorKind::NoStorageAccess => base + "\n\nHint: "@ + access_hint(platform)@,
        KeyringErrorKind::PlatformFailure => base + "\n\nHint: "@ + failure_hint(platform)@,
        _ => base,
    }
}

/// The message for a store failure of `kind` whose own text is `base`.
pub fn hint_for_failure(kind: KeyringErrorKind, base: &str, platform: Platform) -> (r: String)
    ensures
        r@ == hint_message(kind, base@, platform),
{
    let mut r = string_of(base);
    match kind {
        KeyringErrorKind::NoStorageAccess => {
            push_str(&mut r, "\n\nHint: ");
            push_str(&mut r, platform_access_hint(platform));
        },
        KeyringErrorKind::PlatformFailure => {
            push_str(&mut r, "\n\nHint: ");
            push_str(&mut r, platform_failure_hint(platform));
        },
        _ => {},
    }
    r
}

/// What `keyring::Error`'s `Display` writes for an error of `kind`: a fixed
/// text for the variants without data, and a fixed beginning for the others.
pub open spec fn message_fits(kind: KeyringErrorKind, m: Seq<char>) -> bool {
    match kind {
        KeyringErrorKind::PlatformFailure => "Platform secure storage failure: "@.is_prefix_of(m),
        KeyringErrorKind::NoStorageAccess => "Couldn't access platform secure storage: "@.is_prefix_of(m),
        KeyringErrorKind::NoEntry => m == "No matching entry found in secure storage"@,
        KeyringErrorKind::BadEncoding => m == "Data is not UTF-8 encoded"@,
        KeyringErrorKind::TooLong => "Attribute '"@.is_prefix_of(m),
        KeyringErrorKind::Invalid => "Attribute "@.is_prefix_of(m),
        KeyringErrorKind::Ambiguous => "Entry is matched by "@.is_prefix_of(m),
        KeyringErrorKind::Other => false,
    }
}

/// A failure as the store reports it: one of the seven kinds of the store's
/// error type, with the message its `Display` gives for that kind.
pub open spec fn failure_fits(kind: KeyringErrorKind, m: Seq<char>) -> bool {
    kind != KeyringErrorKind::Other && message_fits(kind, m)
}

/// Which variant of `keyring::Error` an error is, and the text of its
/// `Display`. In the version used, the error type has exactly the seven
/// variants named here, and `Display` writes for each the text that
/// `message_fits` gives (the data a variant carries is not stated).
#[verifier::external_body]
fn keyring_error_parts(error: &::keyring::Error) -> (r: (KeyringErrorKind, String))
    ensures
        failure_fits(r.0, r.1@),
{
    let kind = match error {
        ::keyring::Error::PlatformFailure(_) => KeyringErrorKind::PlatformFailure,
        ::keyring::Error::NoStorageAccess(_) => KeyringErrorKind::NoStorageAccess,
        ::keyring::Error::NoEntry => KeyringErrorKind::NoEntry,
        ::keyring::Error::BadEncoding(_) => KeyringErrorKind::BadEncoding,
        ::keyring::Error::TooLong(_, _) => KeyringErrorKind::TooLong,
        ::keyring::Error::Invalid(_, _) => KeyringErrorKind::Invalid,
        ::keyring::Error::Ambiguous(_) => KeyringErrorKind::Ambiguous,
        _ => KeyringErrorKind::Other,
    };
    (kind, format!("{}", error))
}

/// A store error as a kind and a message.
pub fn describe_failure(error: &::keyring::Error) -> (f: KeyringFailure)
    ensures
        failure_fits(f.kind, f.message@),
{
    let (kind, message) = keyring_error_parts(error);
    KeyringFailure { kind, message }
}

/// The store's message for `error`, with the platform hint where one helps.
pub fn platform_hint(error: &::keyring::Error, platform: Platform) -> (r: String)
    ensures
        exists|k: KeyringErrorKind, base: Seq<char>| failure_fits(k, base) && r@ == hint_message(k, base, platform),
{
    let f = describe_failure(error);
    hint_for_failure(f.kind, f.message.as_str(), platform)
}

/// An entry of the store, opened for a service and a user.
pub struct OpenEntry {
    entry: ::keyring::Entry,
    /// The service the entry was opened for.
    pub service: String,
    /// The user the entry was opened for.
    pub user: String,
}

/// `keyring::Entry::new`: opens the entry for `service` and `user`, kept
/// beside it; whether it opens depends on the machine's store.
#[verifier::external_body]
fn open_entry(service: &str, user: &str) -> (r: core::result::Result<OpenEntry, ::keyring::Error>)
    ensures
        r matches Ok(e) ==> e.service@ == service@ && e.user@ == user@,
{
    match ::keyring::Entry::new(service, user) {
        Ok(entry) => Ok(OpenEntry { entry, service: service.to_string(), user: user.to_string() }),
        Err(e) => Err(e),
    }
}

/// `keyring::Entry::set_password`.
#[verifier::external_body]
fn entry_set_password(entry: &OpenEntry, password: &str) -> (r: core::result::Result<(), ::keyring::Error>) {
    entry.entry.set_password(password)
}

/// `keyring::Entry::get_password`.
#[verifier::external_body]
fn entry_get_password(entry: &OpenEntry) -> (r: core::result::Result<String, ::keyring::Error>) {
    entry.entry.get_password()
}

/// `keyring::Entry::delete_credential`.
#[verifier::external_body]
fn entry_delete_credential(entry: &OpenEntry) -> (r: core::result::Result<(), ::keyring::Error>) {
    entry.entry.delete_credential()
}

/// A configuration error whose message is `prefix` and then the hinted store message.
pub fn failure_error(prefix: &str, f: &KeyringFailure, platform: Platform) -> (e: CommandError)
    ensures
        e matches CommandError::Config(m) && m@ == prefix@ + hint_message(f.kind, f.message@, platform),
{
    let mut m = string_of(prefix);
    let h = hint_for_failure(f.kind, f.message.as_str(), platform);
    push_str(&mut m, h.as_str());
    CommandError::Config(m)
}

/// A configuration error whose message is `prefix` and then a store
/// failure's message, hinted for `platform`.
pub open spec fn is_failure_error(e: CommandError, prefix: Seq<char>, platform: Platform) -> bool {
    e matches CommandError::Config(m) && exists|k: KeyringErrorKind, base: Seq<char>|
        failure_fits(k, base) && m@ == prefix + hint_message(k, base, platform)
}

/// What storing the token answered, as a result.
pub fn store_outcome(answer: core::result::Result<(), KeyringFailure>, platform: Platform) -> (r: Result<()>)
    ensures
        match answer {
            Ok(()) => r is Ok,
            Err(f) => r matches Err(CommandError::Config(m))
                && m@ == "Failed to store token: "@ + hint_message(f.kind, f.message@, platform),
        },
{
    match answer {
        Ok(()) => Ok(()),
        Err(f) => Err(failure_error("Failed to store token: ", &f, platform)),
    }
}

/// What reading the token answered, as a result: no entry, or several
/// entries, count as no token.
pub fn read_outcome(answer: core::result::Result<String, KeyringFailure>, platform: Platform) -> (r: Result<Option<String>>)
    ensures
        match answer {
            Ok(t) => r == Ok::<Option<String>, CommandError>(Some(t)),
            Err(f) => if f.kind == KeyringErrorKind::NoEntry || f.kind == KeyringErrorKind::Ambiguous {
                r == Ok::<Option<String>, CommandError>(None)
            } else {
                r matches Err(CommandError::Config(m))
                    && m@ == "Failed to read token: "@ + hint_message(f.kind, f.message@, platform)
            },
        },
{
    match answer {
        Ok(t) => Ok(Some(t)),
        Err(f) => match f.kind {
            KeyringErrorKind::NoEntry => Ok(None),
            KeyringErrorKind::Ambiguous => Ok(None),
            _ => Err(failure_error("Failed to read token: ", &f, platform)),
        },
    }
}

/// What deleting the token answered, as a result: no entry counts as deleted.
pub fn delete_outcome(answer: core::result::Result<(), KeyringFailure>, platform: Platform) -> (r: Result<()>)
    ensures
        match answer {
            Ok(()) => r is Ok,
            Err(f) => if f.kind == KeyringErrorKind::NoEntry {
                r is Ok
            } else {
                r matches Err(CommandError::Config(m))
                    && m@ == "Failed to delete token: "@ + hint_message(f.kind, f.message@, platform)
            },
        },
{
    match answer {
        Ok(()) => Ok(()),
        Err(f) => match f.kind {
            KeyringErrorKind::NoEntry => Ok(()),
            _ => Err(failure_error("Failed to delete token: ", &f, platform)),
        },
    }
}

/// Opens the token's entry (service `td-todoist-cli`, user `api_token`); a
/// failure becomes a configuration error.
fn token_entry(platform: Platform) -> (r: Result<OpenEntry>)
    ensures
        r matches Ok(e) ==> e.service@ == SERVICE@ && e.user@ == USERNAME@,
        r matches Err(e) ==> is_failure_error(e, "Keyring error: "@, platform),
{
    match open_entry(SERVICE, USERNAME) {
        Ok(entry) => Ok(entry),
        Err(e) => {
            let f = describe_failure(&e);
            Err(failure_error("Keyring error: ", &f, platform))
        },
    }
}

/// Stores `token` in the store.
pub fn store_token(token: &str, platform: Platform) -> (r: Result<()>)
    ensures
        r matches Err(e) ==> is_failure_error(e, "Keyring error: "@, platform)
            || is_failure_error(e, "Failed to store token: "@, platform),
{
    let entry = token_entry(platform)?;
    let answer = match entry_set_password(&entry, token) {
        Ok(()) => Ok(()),
        Err(e) => Err(describe_failure(&e)),
    };
    store_outcome(answer, platform)
}

/// Reads the token from the store: `None` where none (or more than one) is stored.
pub fn get_token(platform: Platform) -> (r: Result<Option<String>>)
    ensures
        r matches Err(e) ==> is_failure_error(e, "Keyring error: "@, platform)
            || is_failure_error(e, "Failed to read token: "@, platform),
{
    let entry = token_entry(platform)?;
    let answer = match entry_get_password(&entry) {
        Ok(t) => Ok(t),
        Err(e) => Err(describe_failure(&e)),
    };
    read_outcome(answer, platform)
}

/// Deletes the token from the store; succeeds where none was stored.
pub fn delete_token(platform: Platform) -> (r: Result<()>)
    ensures
        r matches Err(e) ==> is_failure_error(e, "Keyring error: "@, platform)
            || is_failure_error(e, "Failed to delete token: "@, platform),
{
    let entry = token_entry(platform)?;
    let answer = match entry_delete_credential(&entry) {
        Ok(()) => Ok(()),
        Err(e) => Err(describe_failure(&e)),
    };
    delete_outcome(answer, platform)
}

/// Whether an entry of the store can be opened at all.
pub fn is_available() -> (r: bool) {
    open_entry(SERVICE, AVAILABILITY_USER).is_ok()
}

} // verus!
