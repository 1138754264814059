//! Configuration: the settings file's model, its defaults and migration,
//! `td config set`, and how a token is shown.
//!
//! Reading and writing the file and finding its path stay with the program;
//! what they hand over is checked and changed here.

use vstd::prelude::*;
use crate::commands::{CommandError, Result};
use crate::text::{chars_of, lowercase, push_range, push_str, str_eq, string_of, to_lower};

verus! {

/// Current config file version.
pub const CONFIG_VERSION: u32 = 1;

/// Tokens longer than this many characters are shown in part.
pub const TOKEN_MASK_MIN_LENGTH: usize = 8;

/// Characters shown at each end of a masked token.
pub const TOKEN_MASK_VISIBLE_CHARS: usize = 4;

/// Contents of a newly created config file.
pub const DEFAULT_CONFIG: &'static str = "# td - Todoist CLI Configuration
# https://github.com/your-org/todoist-rs

# Config schema version (do not modify)
version = 1

# API token (can also use TODOIST_TOKEN env var)
# token = \"your-api-token-here\"

# Token storage method: \"config\", \"keyring\", or \"env\"
# token_storage = \"config\"

# Output preferences
[output]
# color = true              # Enable colors (respects NO_COLOR env)
# date_format = \"relative\"  # \"relative\", \"iso\", \"short\"

# Cache settings
[cache]
# enabled = true
";

/// Output configuration.
#[derive(Debug, Clone)]
pub struct OutputConfig {
    /// Enable colors.
    pub color: Option<bool>,
    /// Date format.
    pub date_format: Option<String>,
}

/// Cache configuration.
#[derive(Debug, Clone)]
pub struct CacheConfig {
    /// Enable caching.
    pub enabled: Option<bool>,
}

/// Configuration file structure.
#[derive(Debug, Clone)]
pub struct Config {
    /// Config schema version for migrations.
    pub version: u32,
    /// API token.
    pub token: Option<String>,
    /// Token storage method.
    pub token_storage: Option<String>,
    /// Output settings.
    pub output: OutputConfig,
    /// Cache settings.
    pub cache: CacheConfig,
}

/// A configuration as values.
pub struct ConfigView {
    pub version: u32,
    pub token: Option<Seq<char>>,
    pub token_storage: Option<Seq<char>>,
    pub color: Option<bool>,
    pub date_format: Option<Seq<char>>,
    pub cache_enabled: Option<bool>,
}

/// The characters of an optional string.
pub open spec fn opt_view(o: Option<String>) -> Option<Seq<char>> {
    match o {
        Some(s) => Some(s@),
        None => None,
    }
}

impl View for Config {
    type V = ConfigView;

    open spec fn view(&self) -> ConfigView {
        ConfigView {
            version: self.version,
            token: opt_view(self.token),
            token_storage: opt_view(self.token_storage),
            color: self.output.color,
            date_format: opt_view(self.output.date_format),
            cache_enabled: self.cache.enabled,
        }
    }
}

/// The configuration with nothing set.
pub open spec fn empty_config() -> ConfigView {
    ConfigView {
        version: CONFIG_VERSION,
        token: None,
        token_storage: None,
        color: None,
        date_format: None,
        cache_enabled: None,
    }
}

impl Default for OutputConfig {
    fn default() -> (r: Self)
        ensures
            r.color is None,
            r.date_format is None,
    {
        OutputConfig { color: None, date_format: None }
    }
}

impl Default for CacheConfig {
    fn default() -> (r: Self)
        ensures
            r.enabled is None,
    {
        CacheConfig { enabled: None }
    }
}

impl Default for Config {
    fn default() -> (r: Self)
        ensures
            r@ == empty_config(),
    {
        Config {
            version: CONFIG_VERSION,
            token: None,
            token_storage: None,
            output: OutputConfig { color: None, date_format: None },
            cache: CacheConfig { enabled: None },
        }
    }
}

/// The version a file without one is read as.
pub fn default_version() -> (v: u32)
    ensures
        v == CONFIG_VERSION,
{
    CONFIG_VERSION
}

/// `c` with its version set to `v`.
pub open spec fn with_version(c: ConfigView, v: u32) -> ConfigView {
    ConfigView { version: v, ..c }
}

/// Brings a configuration to the current version, keeping every setting.
pub fn migrate_config(config: Config) -> (r: Result<Config>)
    ensures
        r matches Ok(c) && c@ == with_version(config@, CONFIG_VERSION),
{
    let mut config = config;
    config.version = CONFIG_VERSION;
    Ok(config)
}

/// A token as it is shown: its first and last four characters where it is
/// longer than eight characters, else only stars.
pub open spec fn masked(t: Seq<char>) -> Seq<char> {
    if t.len() > TOKEN_MASK_MIN_LENGTH {
        t.take(TOKEN_MASK_VISIBLE_CHARS as int) + "..."@ + t.skip(t.len() - TOKEN_MASK_VISIBLE_CHARS)
    } else {
        "****"@
    }
}

/// Masks a token for display, counting characters, not bytes.
pub fn mask_token(token: &str) -> (r: String)
    ensures
        r@ == masked(token@),
{
    let cs = chars_of(token);
    let n = cs.len();
    if n > TOKEN_MASK_MIN_LENGTH {
        let mut r = String::new();
        push_range(&mut r, &cs, 0, TOKEN_MASK_VISIBLE_CHARS);
        push_str(&mut r, "...");
        push_range(&mut r, &cs, n - TOKEN_MASK_VISIBLE_CHARS, n);
        assert(cs@.subrange(0, 4) =~= token@.take(4));
        assert(cs@.subrange(n - 4, n as int) =~= token@.skip(n - 4));
        r
    } else {
        string_of("****")
    }
}

/// The value of a lower-cased boolean word.
pub open spec fn bool_word_spec(w: Seq<char>) -> Option<bool> {
    if w == "true"@ || w == "yes"@ || w == "1"@ || w == "on"@ {
        Some(true)
    } else if w == "false"@ || w == "no"@ || w == "0"@ || w == "off"@ {
        Some(false)
    } else {
        None
    }
}

/// Reads a lower-cased boolean word: true/yes/1/on or false/no/0/off.
pub fn bool_word(w: &str) -> (r: Option<bool>)
    ensures
        r == bool_word_spec(w@),
{
    if str_eq(w, "true") || str_eq(w, "yes") || str_eq(w, "1") || str_eq(w, "on") {
        Some(true)
    } else if str_eq(w, "false") || str_eq(w, "no") || str_eq(w, "0") || str_eq(w, "off") {
        Some(false)
    } else {
        None
    }
}

/// The message for a value that is no boolean.
pub open spec fn bool_error(s: Seq<char>) -> Seq<char> {
    "Invalid boolean value '"@ + s + "'. Use true/false, yes/no, 1/0, or on/off"@
}

/// Parses a boolean setting, ignoring case.
pub fn parse_bool(s: &str) -> (r: Result<bool>)
    ensures
        match bool_word_spec(lowercase(s@)) {
            Some(b) => r == Ok::<bool, CommandError>(b),
            None => r matches Err(CommandError::Config(m)) && m@ == bool_error(s@),
        },
{
    let lower = to_lower(s);
    match bool_word(lower.as_str()) {
        Some(b) => Ok(b),
        None => {
            let mut m = string_of("Invalid boolean value '");
            push_str(&mut m, s);
            push_str(&mut m, "'. Use true/false, yes/no, 1/0, or on/off");
            Err(CommandError::Config(m))
        },
    }
}

/// Options for the config set command.
#[derive(Debug)]
pub struct ConfigSetOptions {
    /// Configuration key.
    pub key: String,
    /// Configuration value.
    pub value: String,
}

/// The settings `td config set` knows.
#[derive(Debug, Clone, Copy, PartialEq, Eq, Structural)]
pub enum ConfigKey {
    Token,
    TokenStorage,
    OutputColor,
    OutputDateFormat,
    CacheEnabled,
}

/// The setting a key names.
pub open spec fn config_key_spec(k: Seq<char>) -> Option<ConfigKey> {
    if k == "token"@ {
        Some(ConfigKey::Token)
    } else if k == "token_storage"@ {
        Some(ConfigKey::TokenStorage)
    } else if k == "output.color"@ {
        Some(ConfigKey::OutputColor)
    } else if k == "output.date_format"@ {
        Some(ConfigKey::OutputDateFormat)
    } else if k == "cache.enabled"@ {
        Some(ConfigKey::CacheEnabled)
    } else {
        None
    }
}

/// The setting a key names, if any.
pub fn config_key(k: &str) -> (r: Option<ConfigKey>)
    ensures
        r == config_key_spec(k@),
{
    if str_eq(k, "token") {
        Some(ConfigKey::Token)
    } else if str_eq(k, "token_storage") {
        Some(ConfigKey::TokenStorage)
    } else if str_eq(k, "output.color") {
        Some(ConfigKey::OutputColor)
    } else if str_eq(k, "output.date_format") {
        Some(ConfigKey::OutputDateFormat)
    } else if str_eq(k, "cache.enabled") {
        Some(ConfigKey::CacheEnabled)
    } else {
        None
    }
}

/// Valid token storage methods.
pub open spec fn valid_token_storage(v: Seq<char>) -> bool {
    v == "config"@ || v == "keyring"@ || v == "env"@
}

/// Valid date formats.
pub open spec fn valid_date_format(v: Seq<char>) -> bool {
    v == "relative"@ || v == "iso"@ || v == "short"@
}

/// What `td config set key value` makes of a configuration: the new
/// configuration, or the message it fails with.
pub open spec fn set_outcome(c: ConfigView, key: Seq<char>, value: Seq<char>) -> core::result::Result<ConfigView, Seq<char>> {
    match config_key_spec(key) {
        Some(ConfigKey::Token) => Ok(ConfigView { token: Some(value), ..c }),
        Some(ConfigKey::TokenStorage) => if valid_token_storage(value) {
            Ok(ConfigView { token_storage: Some(value), ..c })
        } else {
            Err("Invalid token_storage value '"@ + value + "'. Valid values: config, keyring, env"@)
        },
        Some(ConfigKey::OutputColor) => match bool_word_spec(lowercase(value)) {
            Some(b) => Ok(ConfigView { color: Some(b), ..c }),
            None => Err(bool_error(value)),
        },
        Some(ConfigKey::OutputDateFormat) => if valid_date_format(value) {
            Ok(ConfigView { date_format: Some(value), ..c })
        } else {
            Err("Invalid date_format value '"@ + value + "'. Valid values: relative, iso, short"@)
        },
        Some(ConfigKey::CacheEnabled) => match bool_word_spec(lowercase(value)) {
            Some(b) => Ok(ConfigView { cache_enabled: Some(b), ..c }),
            None => Err(bool_error(value)),
        },
        None => Err("Unknown config key '"@ + key
            + "'. Valid keys: token, token_storage, output.color, output.date_format, cache.enabled"@),
    }
}

/// Sets `key` to `value` in `config`; on failure the configuration is unchanged.
pub fn apply_setting(config: &mut Config, key: &str, value: &str) -> (r: Result<()>)
    ensures
        match set_outcome(old(config)@, key@, value@) {
            Ok(c) => r is Ok && final(config)@ == c,
            Err(m) => r matches Err(CommandError::Config(x)) && x@ == m && final(config)@ == old(config)@,
        },
{
    match config_key(key) {
        Some(ConfigKey::Token) => {
            config.token = Some(string_of(value));
            Ok(())
        },
        Some(ConfigKey::TokenStorage) => {
            if str_eq(value, "config") || str_eq(value, "keyring") || str_eq(value, "env") {
                config.token_storage = Some(string_of(value));
                Ok(())
            } else {
                let mut m = string_of("Invalid token_storage value '");
                push_str(&mut m, value);
                push_str(&mut m, "'. Valid values: config, keyring, env");
                Err(CommandError::Config(m))
            }
        },
        Some(ConfigKey::OutputColor) => {
            let b = parse_bool(value)?;
            config.output.color = Some(b);
            Ok(())
        },
        Some(ConfigKey::OutputDateFormat) => {
            if str_eq(value, "relative") || str_eq(value, "iso") || str_eq(value, "short") {
                config.output.date_format = Some(string_of(value));
                Ok(())
            } else {
                let mut m = string_of("Invalid date_format value '");
                push_str(&mut m, value);
                push_str(&mut m, "'. Valid values: relative, iso, short");
                Err(CommandError::Config(m))
            }
        },
        Some(ConfigKey::CacheEnabled) => {
            let b = parse_bool(value)?;
            config.cache.enabled = Some(b);
            Ok(())
        },
        None => {
            let mut m = string_of("Unknown config key '");
            push_str(&mut m, key);
            push_str(
                &mut m,
                "'. Valid keys: token, token_storage, output.color, output.date_format, cache.enabled",
            );
            Err(CommandError::Config(m))
        },
    }
}

} // verus!

verus! {

/// A setting that `td config set` accepts reads back as what was set: the
/// text for the text settings, the boolean the word names for the others.
pub proof fn law_set_then_read(c: ConfigView, key: Seq<char>, value: Seq<char>)
    ensures
        set_outcome(c, key, value) matches Ok(c1) ==> match config_key_spec(key) {
            Some(ConfigKey::Token) => c1.token == Some(value),
            Some(ConfigKey::TokenStorage) => c1.token_storage == Some(value),
            Some(ConfigKey::OutputColor) => c1.color == bool_word_spec(lowercase(value)),
            Some(ConfigKey::OutputDateFormat) => c1.date_format == Some(value),
            Some(ConfigKey::CacheEnabled) => c1.cache_enabled == bool_word_spec(lowercase(value)),
            None => false,
        },
        set_outcome(c, key, value) matches Ok(c1) ==> c1.version == c.version,
{
}

/// Setting a key twice to the same value is setting it once.
pub proof fn law_set_idempotent(c: ConfigView, key: Seq<char>, value: Seq<char>)
    ensures
        set_outcome(c, key, value) matches Ok(c1) ==> set_outcome(c1, key, value) == Ok::<ConfigView, Seq<char>>(c1),
{
}

/// Any token can be set, and only the token changes.
pub proof fn law_token_always_set(c: ConfigView, value: Seq<char>)
    ensures
        set_outcome(c, "token"@, value) == Ok::<ConfigView, Seq<char>>(ConfigView { token: Some(value), ..c }),
{
}

/// Migrating a migrated configuration changes nothing more.
pub proof fn law_migrate_idempotent(c: ConfigView)
    ensures
        with_version(with_version(c, CONFIG_VERSION), CONFIG_VERSION) == with_version(c, CONFIG_VERSION),
{
}

} // verus!
