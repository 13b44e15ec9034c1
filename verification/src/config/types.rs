//! The configuration of the demonstrations and of the external tool.

use vstd::prelude::*;
use crate::text::{texts, opt_text, owned, concat2, lowercase, lowercase_of, same_text,
    holds_text};
use crate::system::{now, home_directory, join_path, path_joined};
use crate::workflow::types::{Timestamp, MicroUsd};
use crate::resource::types::CleanupPolicy;

verus! {

/// How much the system writes to its log.
#[derive(Debug, Clone, Copy, PartialEq, Eq, Structural)]
pub enum LogLevel {
    Error,
    Warn,
    Info,
    Debug,
    Trace,
}

impl Default for LogLevel {
    fn default() -> (l: Self)
        ensures
            l == LogLevel::Info,
    {
        LogLevel::Info
    }
}

/// The level that a text names, without regard to case.
pub open spec fn level_named(s: Seq<char>) -> Option<LogLevel> {
    let l = lowercase_of(s);
    if l == "error"@ {
        Some(LogLevel::Error)
    } else if l == "warn"@ {
        Some(LogLevel::Warn)
    } else if l == "info"@ {
        Some(LogLevel::Info)
    } else if l == "debug"@ {
        Some(LogLevel::Debug)
    } else if l == "trace"@ {
        Some(LogLevel::Trace)
    } else {
        None
    }
}

impl LogLevel {
    /// The name of the level, in lower case.
    pub open spec fn name(self) -> Seq<char> {
        match self {
            LogLevel::Error => "error"@,
            LogLevel::Warn => "warn"@,
            LogLevel::Info => "info"@,
            LogLevel::Debug => "debug"@,
            LogLevel::Trace => "trace"@,
        }
    }

    /// The name of the level, in lower case.
    pub fn to_string(&self) -> (s: String)
        ensures
            s@ == self.name(),
    {
        match self {
            LogLevel::Error => owned("error"),
            LogLevel::Warn => owned("warn"),
            LogLevel::Info => owned("info"),
            LogLevel::Debug => owned("debug"),
            LogLevel::Trace => owned("trace"),
        }
    }

    /// The level that a text names, without regard to case; an error for
    /// any other text.
    pub fn parse(s: &str) -> (r: Result<LogLevel, String>)
        ensures
            match level_named(s@) {
                Some(l) => r == Ok::<LogLevel, String>(l),
                None => r is Err && r->Err_0@ == "Invalid log level: "@ + s@,
            },
    {
        let l = lowercase(s);
        if same_text(l.as_str(), "error") {
            Ok(LogLevel::Error)
        } else if same_text(l.as_str(), "warn") {
            Ok(LogLevel::Warn)
        } else if same_text(l.as_str(), "info") {
            Ok(LogLevel::Info)
        } else if same_text(l.as_str(), "debug") {
            Ok(LogLevel::Debug)
        } else if same_text(l.as_str(), "trace") {
            Ok(LogLevel::Trace)
        } else {
            Err(concat2("Invalid log level: ", s))
        }
    }
}

impl std::str::FromStr for LogLevel {
    type Err = String;

    fn from_str(s: &str) -> (r: Result<Self, String>)
        ensures
            match level_named(s@) {
                Some(l) => r == Ok::<LogLevel, String>(l),
                None => r is Err && r->Err_0@ == "Invalid log level: "@ + s@,
            },
    {
        LogLevel::parse(s)
    }
}

/// The settings of the demonstrations.
#[derive(Debug, Clone)]
pub struct DemoConfig {
    pub default_cleanup_policy: CleanupPolicy,
    pub max_concurrent_workflows: usize,
    pub log_level: LogLevel,
    pub asset_base_path: String,
    pub temp_dir_base: String,
    pub max_execution_timeout_seconds: u64,
    pub show_cost_warnings: bool,
    /// The cost above which the user is warned.
    pub cost_warning_threshold: MicroUsd,
}

impl DemoConfig {
    /// The default settings, with temporary files below the directory
    /// given.
    pub fn with_temp_dir(temp_dir_base: String) -> (c: Self)
        ensures
            c.default_cleanup_policy == CleanupPolicy::Immediate,
            c.max_concurrent_workflows == 3,
            c.log_level == LogLevel::Info,
            c.asset_base_path@ == "Assets"@,
            c.temp_dir_base == temp_dir_base,
            c.max_execution_timeout_seconds == 1800,
            c.show_cost_warnings,
            c.cost_warning_threshold == 1_000_000,
    {
        DemoConfig {
            default_cleanup_policy: CleanupPolicy::default(),
            max_concurrent_workflows: 3,
            log_level: LogLevel::default(),
            asset_base_path: owned("Assets"),
            temp_dir_base,
            max_execution_timeout_seconds: 1800,
            show_cost_warnings: true,
            cost_warning_threshold: 1_000_000,
        }
    }
}

/// The tokens of a login.
#[derive(Debug, Clone, PartialEq, Eq)]
pub struct AuthTokens {
    pub access_token: String,
    pub refresh_token: Option<String>,
    pub expires_at: Timestamp,
    pub scopes: Vec<String>,
}

impl AuthTokens {
    /// The access token has expired at the time given.
    pub open spec fn expired_at(&self, now: Timestamp) -> bool {
        now >= self.expires_at
    }

    /// The access token expires within the seconds given, counted from the
    /// time given.
    pub open spec fn expiring_at(&self, seconds: i64, now: Timestamp) -> bool {
        now + seconds >= self.expires_at
    }

    /// Whether the access token has expired at the time given.
    pub fn is_expired_at(&self, now: Timestamp) -> (b: bool)
        ensures
            b == self.expired_at(now),
    {
        now >= self.expires_at
    }

    /// Whether the access token has expired.
    pub fn is_expired(&self) -> (b: bool)
        ensures
            exists|t: Timestamp| b == #[trigger] self.expired_at(t),
    {
        self.is_expired_at(now())
    }

    /// Whether the access token expires within the seconds given, counted
    /// from the time given.
    pub fn expires_within_at(&self, seconds: i64, now: Timestamp) -> (b: bool)
        ensures
            b == self.expiring_at(seconds, now),
    {
        (now as i128) + (seconds as i128) >= self.expires_at as i128
    }

    /// Whether the access token expires within the seconds given.
    pub fn expires_within(&self, seconds: i64) -> (b: bool)
        ensures
            exists|t: Timestamp| b == #[trigger] self.expiring_at(seconds, t),
    {
        self.expires_within_at(seconds, now())
    }

    /// Whether the token has the scope given.
    pub fn has_scope(&self, scope: &str) -> (b: bool)
        ensures
            b == texts(self.scopes@).contains(scope@),
    {
        holds_text(&self.scopes, scope)
    }
}

/// The settings of the external tool.
#[derive(Debug, Clone, PartialEq, Eq)]
pub struct RapsConfig {
    pub client_id: String,
    pub client_secret: String,
    pub callback_url: Option<String>,
    pub current_profile: Option<String>,
    pub auth_tokens: Option<AuthTokens>,
    pub environment: String,
    pub base_url: String,
}

impl Default for RapsConfig {
    fn default() -> (c: Self)
        ensures
            c.client_id@.len() == 0,
            c.client_secret@.len() == 0,
            c.callback_url is None,
            c.current_profile is None,
            c.auth_tokens is None,
            c.environment@ == "production"@,
            c.base_url@ == "https://developer.api.autodesk.com"@,
    {
        RapsConfig {
            client_id: String::new(),
            client_secret: String::new(),
            callback_url: None,
            current_profile: None,
            auth_tokens: None,
            environment: owned("production"),
            base_url: owned("https://developer.api.autodesk.com"),
        }
    }
}

impl RapsConfig {
    /// The client identifier and the client secret are both set.
    pub open spec fn credentials_set(&self) -> bool {
        self.client_id@.len() > 0 && self.client_secret@.len() > 0
    }

    /// There are tokens and they have not expired at the time given.
    pub open spec fn authenticated_at(&self, now: Timestamp) -> bool {
        self.auth_tokens is Some && !self.auth_tokens->0.expired_at(now)
    }

    /// Whether the client identifier and the client secret are both set.
    pub fn has_credentials(&self) -> (b: bool)
        ensures
            b == self.credentials_set(),
    {
        self.client_id.as_str().unicode_len() > 0 && self.client_secret.as_str().unicode_len() > 0
    }

    /// Whether there are tokens that have not expired at the time given.
    pub fn is_authenticated_at(&self, now: Timestamp) -> (b: bool)
        ensures
            b == self.authenticated_at(now),
    {
        match &self.auth_tokens {
            Some(tokens) => !tokens.is_expired_at(now),
            None => false,
        }
    }

    /// Whether there are tokens that have not expired.
    pub fn is_authenticated(&self) -> (b: bool)
        ensures
            exists|t: Timestamp| b == #[trigger] self.authenticated_at(t),
            self.auth_tokens is None ==> !b,
    {
        self.is_authenticated_at(now())
    }

    /// The access token as it is handed out at the time given: the one
    /// of the tokens, unless there are none or they have expired.
    pub open spec fn access_token_at(&self, now: Timestamp) -> Option<Seq<char>> {
        if self.authenticated_at(now) {
            Some(self.auth_tokens->0.access_token@)
        } else {
            None
        }
    }

    /// The access token, if it has not expired at the time given.
    pub fn get_access_token_at(&self, now: Timestamp) -> (token: Option<&str>)
        ensures
            shown(token) == self.access_token_at(now),
            self.authenticated_at(now) ==> token is Some && token->0@
                == self.auth_tokens->0.access_token@,
            !self.authenticated_at(now) ==> token is None,
    {
        match &self.auth_tokens {
            Some(tokens) => if tokens.is_expired_at(now) {
                None
            } else {
                Some(tokens.access_token.as_str())
            },
            None => None,
        }
    }

    /// The access token, if it has not expired: what `get_access_token_at`
    /// gives for the present time.
    pub fn get_access_token(&self) -> (token: Option<&str>)
        ensures
            exists|t: Timestamp| shown(token) == #[trigger] self.access_token_at(t),
            self.auth_tokens is None ==> token is None,
            token is Some ==> token->0@ == self.auth_tokens->0.access_token@,
    {
        let t = now();
        let token = self.get_access_token_at(t);
        assert(shown(token) == self.access_token_at(t));
        token
    }
}

/// The text of a string that may be absent.
pub open spec fn shown(text: Option<&str>) -> Option<Seq<char>> {
    match text {
        Some(s) => Some(s@),
        None => None,
    }
}

/// The settings of one environment or account.
#[derive(Debug, Clone)]
pub struct Profile {
    pub name: String,
    pub description: Option<String>,
    pub raps_config: RapsConfig,
    pub demo_config: DemoConfig,
    pub created_at: Timestamp,
    pub last_used_at: Option<Timestamp>,
}

impl Profile {
    /// A profile with default settings, created at the time given.
    pub fn new_at(name: String, description: Option<String>, temp_dir_base: String, now: Timestamp)
        -> (p: Self)
        ensures
            p.name == name,
            p.description == description,
            !p.raps_config.credentials_set(),
            p.raps_config.auth_tokens is None,
            p.demo_config.temp_dir_base == temp_dir_base,
            p.created_at == now,
            p.last_used_at is None,
    {
        Profile {
            name,
            description,
            raps_config: RapsConfig::default(),
            demo_config: DemoConfig::with_temp_dir(temp_dir_base),
            created_at: now,
            last_used_at: None,
        }
    }

    /// A profile with default settings, created now.
    pub fn new(name: String, description: Option<String>, temp_dir_base: String) -> (p: Self)
        ensures
            p.name == name,
            p.description == description,
            !p.raps_config.credentials_set(),
            p.raps_config.auth_tokens is None,
            p.demo_config.temp_dir_base == temp_dir_base,
            p.last_used_at is None,
    {
        Self::new_at(name, description, temp_dir_base, now())
    }

    /// Notes that the profile was used at the time given.
    pub fn mark_used_at(&mut self, now: Timestamp)
        ensures
            final(self).last_used_at == Some(now),
            final(self).name == old(self).name,
            final(self).description == old(self).description,
            final(self).raps_config == old(self).raps_config,
            final(self).demo_config == old(self).demo_config,
            final(self).created_at == old(self).created_at,
    {
        self.last_used_at = Some(now);
    }

    /// Notes that the profile was used now.
    pub fn mark_used(&mut self)
        ensures
            final(self).last_used_at is Some,
            final(self).name == old(self).name,
            final(self).description == old(self).description,
            final(self).raps_config == old(self).raps_config,
            final(self).demo_config == old(self).demo_config,
            final(self).created_at == old(self).created_at,
    {
        self.mark_used_at(now());
    }

    /// The profile has credentials and tokens that have not expired at
    /// the time given.
    pub open spec fn ready_at(&self, now: Timestamp) -> bool {
        self.raps_config.credentials_set() && self.raps_config.authenticated_at(now)
    }

    /// Whether the profile has credentials and tokens that have not
    /// expired at the time given.
    pub fn is_ready_at(&self, now: Timestamp) -> (b: bool)
        ensures
            b == self.ready_at(now),
    {
        self.raps_config.has_credentials() && self.raps_config.is_authenticated_at(now)
    }

    /// Whether the profile has credentials and tokens that have not
    /// expired: what `is_ready_at` gives for the present time. Without
    /// credentials or without tokens it is not.
    pub fn is_ready(&self) -> (b: bool)
        ensures
            exists|t: Timestamp| b == #[trigger] self.ready_at(t),
            !self.raps_config.credentials_set() || self.raps_config.auth_tokens is None ==> !b,
    {
        let t = now();
        let b = self.is_ready_at(t);
        assert(b == self.ready_at(t));
        b
    }
}

/// The outcome of validating a configuration.
#[derive(Debug, Clone, PartialEq, Eq)]
pub struct ValidationResult {
    pub is_valid: bool,
    pub errors: Vec<String>,
    pub warnings: Vec<String>,
}

impl ValidationResult {
    /// A valid result without messages.
    pub fn new() -> (r: Self)
        ensures
            r.is_valid,
            r.errors@.len() == 0,
            r.warnings@.len() == 0,
    {
        ValidationResult { is_valid: true, errors: Vec::new(), warnings: Vec::new() }
    }

    /// Adds an error; the result is invalid from then on.
    pub fn add_error(&mut self, error: String)
        ensures
            !final(self).is_valid,
            final(self).errors@ == old(self).errors@.push(error),
            final(self).warnings == old(self).warnings,
    {
        self.is_valid = false;
        self.errors.push(error);
    }

    /// Adds a warning; whether the result is valid stays as it is.
    pub fn add_warning(&mut self, warning: String)
        ensures
            final(self).is_valid == old(self).is_valid,
            final(self).errors == old(self).errors,
            final(self).warnings@ == old(self).warnings@.push(warning),
    {
        self.warnings.push(warning);
    }

    /// Whether there is an error or a warning.
    pub fn has_issues(&self) -> (b: bool)
        ensures
            b == (self.errors@.len() > 0 || self.warnings@.len() > 0),
    {
        self.errors.len() > 0 || self.warnings.len() > 0
    }
}

impl Default for ValidationResult {
    fn default() -> (r: Self)
        ensures
            r.is_valid,
            r.errors@.len() == 0,
            r.warnings@.len() == 0,
    {
        Self::new()
    }
}

/// The names of the environment variables that the external tool reads.
pub struct EnvVars;

impl EnvVars {
    pub const CLIENT_ID: &'static str = "APS_CLIENT_ID";

    pub const CLIENT_SECRET: &'static str = "APS_CLIENT_SECRET";

    pub const CALLBACK_URL: &'static str = "APS_CALLBACK_URL";

    pub const ENVIRONMENT: &'static str = "APS_ENVIRONMENT";

    pub const BASE_URL: &'static str = "APS_BASE_URL";

    pub const ACCESS_TOKEN: &'static str = "APS_ACCESS_TOKEN";

    pub const PROFILE: &'static str = "RAPS_PROFILE";

    pub const CONFIG_DIR: &'static str = "RAPS_CONFIG_DIR";

    pub const LOG_LEVEL: &'static str = "RAPS_LOG_LEVEL";
}

/// Why the configuration refused.
#[derive(Debug, Clone, PartialEq, Eq)]
pub enum ConfigError {
    /// The home directory of the user cannot be found.
    NoHomeDirectory,
    /// There is no profile of this name.
    ProfileNotFound(String),
    /// There is a profile of this name already.
    ProfileExists(String),
    /// The profile in use cannot be deleted.
    CannotDeleteCurrentProfile,
}

impl ConfigError {
    /// The error as a sentence.
    pub open spec fn sentence(self) -> Seq<char> {
        match self {
            ConfigError::NoHomeDirectory => "Failed to determine home directory"@,
            ConfigError::ProfileNotFound(name) => "Profile '"@ + name@ + "' not found"@,
            ConfigError::ProfileExists(name) => "Profile '"@ + name@ + "' already exists"@,
            ConfigError::CannotDeleteCurrentProfile => "Cannot delete the current profile"@,
        }
    }

    /// The error as a sentence.
    pub fn to_string(&self) -> (s: String)
        ensures
            s@ == self.sentence(),
    {
        match self {
            ConfigError::NoHomeDirectory => owned("Failed to determine home directory"),
            ConfigError::ProfileNotFound(name) => crate::text::concat3(
                "Profile '",
                name.as_str(),
                "' not found",
            ),
            ConfigError::ProfileExists(name) => crate::text::concat3(
                "Profile '",
                name.as_str(),
                "' already exists",
            ),
            ConfigError::CannotDeleteCurrentProfile => owned("Cannot delete the current profile"),
        }
    }
}

/// Where the configuration lies.
pub struct ConfigPaths;

impl ConfigPaths {
    pub const CONFIG_DIR_NAME: &'static str = ".raps";

    pub const RAPS_CONFIG_FILE: &'static str = "config.toml";

    pub const DEMO_CONFIG_FILE: &'static str = "demo.toml";

    pub const PROFILES_DIR: &'static str = "profiles";

    pub const CREDENTIALS_FILE: &'static str = "credentials.toml";

    /// The directory of the configuration below the home directory given.
    pub open spec fn config_dir_of(home: Option<Seq<char>>) -> Option<Seq<char>> {
        match home {
            Some(h) => Some(path_joined(h, ".raps"@)),
            None => None,
        }
    }

    /// The path of `name` in the directory of the configuration below the
    /// home directory given.
    pub open spec fn file_of(home: Option<Seq<char>>, name: Seq<char>) -> Option<Seq<char>> {
        match home {
            Some(h) => Some(path_joined(path_joined(h, ".raps"@), name)),
            None => None,
        }
    }

    /// The directory of the configuration below the home directory given;
    /// an error where there is none.
    pub fn config_dir_in(home: Option<String>) -> (r: Result<String, ConfigError>)
        ensures
            found(r) == Self::config_dir_of(opt_text(home)),
            home is None <==> r is Err,
            r is Err ==> r->Err_0 is NoHomeDirectory,
    {
        match home {
            Some(h) => Ok(join_path(h.as_str(), ".raps")),
            None => Err(ConfigError::NoHomeDirectory),
        }
    }

    /// The path of `name` in the directory of the configuration below the
    /// home directory given; an error where there is none.
    pub fn file_in(home: Option<String>, name: &str) -> (r: Result<String, ConfigError>)
        ensures
            found(r) == Self::file_of(opt_text(home), name@),
            home is None <==> r is Err,
            r is Err ==> r->Err_0 is NoHomeDirectory,
    {
        match Self::config_dir_in(home) {
            Ok(dir) => Ok(join_path(dir.as_str(), name)),
            Err(e) => Err(e),
        }
    }

    /// The directory of the configuration below the home directory of the
    /// user: what `config_dir_in` gives for the home directory that the
    /// system names.
    pub fn default_config_dir() -> (r: Result<String, ConfigError>)
        ensures
            exists|home: Option<Seq<char>>| found(r) == #[trigger] Self::config_dir_of(home),
            r is Err ==> r->Err_0 is NoHomeDirectory,
    {
        let home = home_directory();
        let ghost h = opt_text(home);
        let r = Self::config_dir_in(home);
        assert(found(r) == Self::config_dir_of(h));
        r
    }

    /// The path of the settings of the external tool: `config.toml` in
    /// the directory of the configuration.
    pub fn raps_config_file() -> (r: Result<String, ConfigError>)
        ensures
            exists|home: Option<Seq<char>>|
                found(r) == #[trigger] Self::file_of(home, "config.toml"@),
            r is Err ==> r->Err_0 is NoHomeDirectory,
    {
        let home = home_directory();
        let ghost h = opt_text(home);
        let r = Self::file_in(home, "config.toml");
        assert(found(r) == Self::file_of(h, "config.toml"@));
        r
    }

    /// The path of the settings of the demonstrations: `demo.toml` in the
    /// directory of the configuration.
    pub fn demo_config_file() -> (r: Result<String, ConfigError>)
        ensures
            exists|home: Option<Seq<char>>|
                found(r) == #[trigger] Self::file_of(home, "demo.toml"@),
            r is Err ==> r->Err_0 is NoHomeDirectory,
    {
        let home = home_directory();
        let ghost h = opt_text(home);
        let r = Self::file_in(home, "demo.toml");
        assert(found(r) == Self::file_of(h, "demo.toml"@));
        r
    }

    /// The path of the directory of the profiles: `profiles` in the
    /// directory of the configuration.
    pub fn profiles_dir() -> (r: Result<String, ConfigError>)
        ensures
            exists|home: Option<Seq<char>>|
                found(r) == #[trigger] Self::file_of(home, "profiles"@),
            r is Err ==> r->Err_0 is NoHomeDirectory,
    {
        let home = home_directory();
        let ghost h = opt_text(home);
        let r = Self::file_in(home, "profiles");
        assert(found(r) == Self::file_of(h, "profiles"@));
        r
    }

    /// The path of the file of the credentials: `credentials.toml` in the
    /// directory of the configuration.
    pub fn credentials_file() -> (r: Result<String, ConfigError>)
        ensures
            exists|home: Option<Seq<char>>|
                found(r) == #[trigger] Self::file_of(home, "credentials.toml"@),
            r is Err ==> r->Err_0 is NoHomeDirectory,
    {
        let home = home_directory();
        let ghost h = opt_text(home);
        let r = Self::file_in(home, "credentials.toml");
        assert(found(r) == Self::file_of(h, "credentials.toml"@));
        r
    }
}

/// The path that was found, if one was.
pub open spec fn found(r: Result<String, ConfigError>) -> Option<Seq<char>> {
    match r {
        Ok(path) => Some(path@),
        Err(_) => None,
    }
}

} // verus!
