//! Starting a run: which token a command runs with, and how a failed
//! command reports its error.

use vstd::prelude::*;
use crate::cli::Cli;
use crate::commands::{CommandError, Result, SyncErrorKind};
use crate::commands::config::Config;
use crate::commands::entities::opt_chars;
use crate::commands::keyring::{Platform, get_token};
use crate::text::{str_eq, string_of};

verus! {

/// The code of an error in JSON output.
pub open spec fn error_code_spec(e: CommandError) -> Seq<char> {
    match e {
        CommandError::Sync(_) => "SYNC_ERROR"@,
        CommandError::CacheStore(_) => "CACHE_ERROR"@,
        CommandError::Filter(_) => "FILTER_ERROR"@,
        CommandError::Api(_) => "API_ERROR"@,
        CommandError::Config(_) => "CONFIG_ERROR"@,
        CommandError::Io(_) => "IO_ERROR"@,
        CommandError::Json(_) => "JSON_ERROR"@,
    }
}

/// Returns the error code string for JSON output.
pub fn error_code(e: &CommandError) -> (r: &'static str)
    ensures
        r@ == error_code_spec(*e),
{
    match e {
        CommandError::Sync(_) => "SYNC_ERROR",
        CommandError::CacheStore(_) => "CACHE_ERROR",
        CommandError::Filter(_) => "FILTER_ERROR",
        CommandError::Api(_) => "API_ERROR",
        CommandError::Config(_) => "CONFIG_ERROR",
        CommandError::Io(_) => "IO_ERROR",
        CommandError::Json(_) => "JSON_ERROR",
    }
}

/// The exit status of a failed run: configuration and cache problems 5,
/// API problems 2, I/O 3, filter and serialization errors 1.
pub open spec fn exit_code_spec(e: CommandError) -> u8 {
    match e {
        CommandError::Config(_) => 5,
        CommandError::Filter(_) => 1,
        CommandError::Api(_) => 2,
        CommandError::Sync(s) => match s.kind {
            SyncErrorKind::Api => 2,
            SyncErrorKind::Cache => 5,
            SyncErrorKind::NotFound => 5,
            SyncErrorKind::SyncTokenInvalid => 2,
        },
        CommandError::CacheStore(_) => 5,
        CommandError::Io(_) => 3,
        CommandError::Json(_) => 1,
    }
}

/// Returns the exit status for an error.
pub fn error_exit_code(e: &CommandError) -> (r: u8)
    ensures
        r == exit_code_spec(*e),
{
    match e {
        CommandError::Config(_) => 5,
        CommandError::Filter(_) => 1,
        CommandError::Api(_) => 2,
        CommandError::Sync(s) => match s.kind {
            SyncErrorKind::Api => 2,
            SyncErrorKind::Cache => 5,
            SyncErrorKind::NotFound => 5,
            SyncErrorKind::SyncTokenInvalid => 2,
        },
        CommandError::CacheStore(_) => 5,
        CommandError::Io(_) => 3,
        CommandError::Json(_) => 1,
    }
}

/// The token chosen: the command line's (flag or environment); else, with
/// a readable settings file, the keyring's when the file says the token is
/// kept there and the keyring has one, else the file's own; else none.
/// `keyring` is what asking the keyring answered (asked only in that case).
pub open spec fn token_choice_spec(
    cli_token: Option<String>,
    config: core::result::Result<Config, CommandError>,
    keyring: Result<Option<String>>,
    r: Result<Option<String>>,
) -> bool {
    match cli_token {
        Some(t) => r matches Ok(Some(x)) && x@ == t@,
        None => match config {
            Err(_) => r matches Ok(None),
            Ok(c) => {
                let from_file = r matches Ok(x) && opt_chars(x) == opt_chars(c.token);
                if opt_chars(c.token_storage) == Some("keyring"@) {
                    match keyring {
                        Err(e) => r == Err::<Option<String>, CommandError>(e),
                        Ok(Some(t)) => r matches Ok(Some(x)) && x@ == t@,
                        Ok(None) => from_file,
                    }
                } else {
                    from_file
                }
            },
        },
    }
}

/// Whether the settings say the token is kept in the keyring.
pub fn uses_keyring(config: &Result<Config>) -> (r: bool)
    ensures
        r == (config matches Ok(c) && opt_chars(c.token_storage) == Some("keyring"@)),
{
    match config {
        Ok(c) => match &c.token_storage {
            Some(s) => str_eq(s.as_str(), "keyring"),
            None => false,
        },
        Err(_) => false,
    }
}

/// Chooses the token from the command line, the keyring's answer and the settings.
pub fn token_choice(cli_token: &Option<String>, config: Result<Config>, keyring: Result<Option<String>>) -> (r: Result<
    Option<String>,
>)
    ensures
        token_choice_spec(*cli_token, config, keyring, r),
{
    if let Some(t) = cli_token {
        return Ok(Some(string_of(t.as_str())));
    }
    let keyring_first = uses_keyring(&config);
    match config {
        Err(_) => Ok(None),
        Ok(c) => {
            if keyring_first {
                match keyring {
                    Err(e) => {
                        return Err(e);
                    },
                    Ok(Some(t)) => {
                        return Ok(Some(t));
                    },
                    Ok(None) => {},
                }
            }
            match &c.token {
                Some(t) => Ok(Some(string_of(t.as_str()))),
                None => Ok(None),
            }
        },
    }
}

/// Resolves the API token with priority: flag or environment, then the
/// keyring (where the settings keep it there), then the settings file;
/// `config` is what loading the settings gave.
pub fn resolve_token_optional(cli: &Cli, config: Result<Config>, platform: Platform) -> (r: Result<Option<String>>)
    ensures
        exists|keyring: Result<Option<String>>| #[trigger] token_choice_spec(cli.token, config, keyring, r),
{
    let ask = cli.token.is_none() && uses_keyring(&config);
    let keyring = if ask {
        get_token(platform)
    } else {
        Ok(None)
    };
    let ghost k = keyring;
    let r = token_choice(&cli.token, config, keyring);
    assert(token_choice_spec(cli.token, config, k, r));
    r
}

} // verus!

verus! {

/// A token on the command line (the flag or `TODOIST_TOKEN`) wins over the
/// keyring and the settings file.
pub proof fn law_command_line_token_wins(
    t: String,
    config: core::result::Result<Config, CommandError>,
    keyring: Result<Option<String>>,
    r: Result<Option<String>>,
)
    requires
        token_choice_spec(Some(t), config, keyring, r),
    ensures
        r matches Ok(Some(x)) && x@ == t@,
{
}

/// When the settings keep the token in the keyring and the keyring has one,
/// it wins over a token written in the file.
pub proof fn law_keyring_over_file(c: Config, k: String, r: Result<Option<String>>)
    requires
        opt_chars(c.token_storage) == Some("keyring"@),
        token_choice_spec(None, Ok(c), Ok(Some(k)), r),
    ensures
        r matches Ok(Some(x)) && x@ == k@,
{
}

/// Without a token on the command line or a readable settings file there is
/// none: the first-run setup follows.
pub proof fn law_no_source_no_token(e: CommandError, keyring: Result<Option<String>>, r: Result<Option<String>>)
    requires
        token_choice_spec(None, Err(e), keyring, r),
    ensures
        r matches Ok(None),
{
}

} // verus!
