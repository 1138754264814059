//! First-run setup: when it is needed, where the token goes, and what the
//! settings file then holds. The prompts, the validating sync and the file
//! itself stay with the program.

use vstd::prelude::*;
use crate::commands::Result;
use crate::commands::config::{Config, ConfigView, CacheConfig, OutputConfig, CONFIG_VERSION, empty_config};
use crate::commands::entities::opt_chars;
use crate::startup::uses_keyring;
use crate::text::{byte_len, chars_of, push_range, str_byte_len, string_of};

verus! {

/// Token storage options.
#[derive(Debug, Clone, Copy, PartialEq, Eq, Structural)]
pub enum TokenStorage {
    /// Store in OS keyring (most secure).
    Keyring,
    /// Store in config file.
    Config,
    /// Expect from environment variable (don't store).
    Env,
}

/// The name of a storage method, as the settings file writes it.
pub open spec fn storage_name(s: TokenStorage) -> Seq<char> {
    match s {
        TokenStorage::Keyring => "keyring"@,
        TokenStorage::Config => "config"@,
        TokenStorage::Env => "env"@,
    }
}

impl TokenStorage {
    /// The name of the storage method.
    pub fn as_str(&self) -> (r: &'static str)
        ensures
            r@ == storage_name(*self),
    {
        match self {
            TokenStorage::Keyring => "keyring",
            TokenStorage::Config => "config",
            TokenStorage::Env => "env",
        }
    }
}

/// Whether no token is configured anywhere: none on the command line, none
/// in the settings file (`config` is what loading it gave), and, where the
/// settings keep the token in the credential store, none there either
/// (`keyring` is what reading the store answered; it is not consulted
/// otherwise, as token resolution does not consult it then).
pub fn is_first_run(cli_token: Option<&String>, config: &Result<Config>, keyring: &Result<Option<String>>) -> (r:
    bool)
    ensures
        r == (cli_token is None && match config {
            Ok(c) => c.token is None && !(opt_chars(c.token_storage) == Some("keyring"@) && keyring matches Ok(
                Some(_),
            )),
            Err(_) => true,
        }),
{
    if cli_token.is_some() {
        return false;
    }
    if uses_keyring(config) {
        if let Ok(Some(_)) = keyring {
            return false;
        }
    }
    match config {
        Ok(c) => c.token.is_none(),
        Err(_) => true,
    }
}

/// The storage the user picked: with a keyring the choices are keyring,
/// config file, environment; without one, config file and environment.
pub open spec fn storage_choice_spec(keyring_available: bool, selection: usize) -> TokenStorage {
    if keyring_available {
        if selection == 0 {
            TokenStorage::Keyring
        } else if selection == 1 {
            TokenStorage::Config
        } else {
            TokenStorage::Env
        }
    } else if selection == 0 {
        TokenStorage::Config
    } else {
        TokenStorage::Env
    }
}

/// The storage for the `selection`-th entry of the menu shown.
pub fn storage_choice(keyring_available: bool, selection: usize) -> (r: TokenStorage)
    ensures
        r == storage_choice_spec(keyring_available, selection),
{
    if keyring_available {
        if selection == 0 {
            TokenStorage::Keyring
        } else if selection == 1 {
            TokenStorage::Config
        } else {
            TokenStorage::Env
        }
    } else if selection == 0 {
        TokenStorage::Config
    } else {
        TokenStorage::Env
    }
}

/// The settings written by setup: the token only where the config file
/// stores it, and the storage method's name.
pub open spec fn setup_config_spec(token: Seq<char>, storage: TokenStorage) -> ConfigView {
    ConfigView {
        token: if storage == TokenStorage::Config { Some(token) } else { None },
        token_storage: Some(storage_name(storage)),
        ..empty_config()
    }
}

/// The configuration setup saves.
pub fn setup_config(token: &str, storage: TokenStorage) -> (c: Config)
    ensures
        c@ == setup_config_spec(token@, storage),
{
    let t = match storage {
        TokenStorage::Config => Some(string_of(token)),
        TokenStorage::Keyring => None,
        TokenStorage::Env => None,
    };
    Config {
        version: CONFIG_VERSION,
        token: t,
        token_storage: Some(string_of(storage.as_str())),
        output: OutputConfig { color: None, date_format: None },
        cache: CacheConfig { enabled: None },
    }
}

/// The characters Unicode calls white space (`char::is_whitespace`).
pub open spec fn is_white(c: char) -> bool {
    ||| '\u{9}' <= c <= '\u{d}'
    ||| c == ' '
    ||| c == '\u{85}'
    ||| c == '\u{a0}'
    ||| c == '\u{1680}'
    ||| '\u{2000}' <= c <= '\u{200a}'
    ||| c == '\u{2028}'
    ||| c == '\u{2029}'
    ||| c == '\u{202f}'
    ||| c == '\u{205f}'
    ||| c == '\u{3000}'
}

fn white(c: char) -> (r: bool)
    ensures
        r == is_white(c),
{
    ('\u{9}' <= c && c <= '\u{d}') || c == ' ' || c == '\u{85}' || c == '\u{a0}' || c == '\u{1680}' || ('\u{2000}'
        <= c && c <= '\u{200a}') || c == '\u{2028}' || c == '\u{2029}' || c == '\u{202f}' || c == '\u{205f}' || c
        == '\u{3000}'
}

/// `s` without its leading white space.
pub open spec fn trim_start(s: Seq<char>) -> Seq<char>
    decreases s.len(),
{
    if s.len() > 0 && is_white(s[0]) {
        trim_start(s.skip(1))
    } else {
        s
    }
}

/// `s` without its trailing white space.
pub open spec fn trim_end(s: Seq<char>) -> Seq<char>
    decreases s.len(),
{
    if s.len() > 0 && is_white(s.last()) {
        trim_end(s.drop_last())
    } else {
        s
    }
}

/// `s.trim()`: `s` without white space at either end.
pub open spec fn trimmed(s: Seq<char>) -> Seq<char> {
    trim_end(trim_start(s))
}

/// The token as typed, without white space at either end.
pub fn trimmed_token(input: &str) -> (r: String)
    ensures
        r@ == trimmed(input@),
{
    let cs = chars_of(input);
    let n = cs.len();
    let mut i: usize = 0;
    assert(input@.skip(0) =~= input@);
    while i < n && white(cs[i])
        invariant
            cs@ == input@,
            n == cs.len(),
            i <= n,
            trim_start(input@) == trim_start(input@.skip(i as int)),
        decreases n - i,
    {
        assert(input@.skip(i as int).skip(1) =~= input@.skip(i + 1));
        i = i + 1;
    }
    assert(trim_start(input@) == input@.skip(i as int));
    let mut j: usize = n;
    while j > i && white(cs[j - 1])
        invariant
            cs@ == input@,
            n == cs.len(),
            i <= j <= n,
            trim_start(input@) == input@.skip(i as int),
            trimmed(input@) == trim_end(input@.subrange(i as int, j as int)),
        decreases j - i,
    {
        assert(input@.subrange(i as int, j as int).drop_last() =~= input@.subrange(i as int, j - 1));
        j = j - 1;
    }
    let mut r = String::new();
    push_range(&mut r, &cs, i, j);
    r
}

/// The answer to a typed token: empty (after trimming) or shorter than 20
/// bytes is refused with a reason; anything else is accepted.
pub fn check_token_input(input: &str) -> (r: core::result::Result<(), &'static str>)
    ensures
        trimmed(input@).len() == 0 ==> (r matches Err(m) && m@ == "Token cannot be empty"@),
        trimmed(input@).len() > 0 && byte_len(input@) < 20 ==> (r matches Err(m) && m@
            == "Token seems too short - check your token"@),
        trimmed(input@).len() > 0 && byte_len(input@) >= 20 ==> r is Ok,
{
    let t = trimmed_token(input);
    if t.unicode_len() == 0 {
        Err("Token cannot be empty")
    } else if str_byte_len(input) < 20 {
        Err("Token seems too short - check your token")
    } else {
        Ok(())
    }
}

} // verus!
