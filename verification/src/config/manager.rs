//! The configuration in use: the settings of the external tool and of the
//! demonstrations, merged from the environment, the files and the
//! profiles.
//!
//! The host reads the environment and the files and hands what it found
//! to the manager; what wins over what is decided here. Settings from the
//! environment come first, then those of the file, then those of the
//! profile: a later source only fills what the earlier ones left open.

use vstd::prelude::*;
use crate::text::{texts, opt_text, owned, copy_opt, copy_texts};
use crate::text_map::TextMap;
use crate::system::now;
use crate::workflow::types::Timestamp;
use crate::config::types::{AuthTokens, RapsConfig, DemoConfig, Profile, ValidationResult,
    ConfigError, ConfigPaths, LogLevel, level_named};
use crate::config::auth::{AuthValidator, AuthSetupGuide, SetupInstructions, TroubleshootingGuide,
    setup_views, setup_steps, solution_views, error_solutions, warning_solutions};

verus! {

/// What the environment says, variable by variable.
#[derive(Debug, Clone, Default)]
pub struct EnvSettings {
    pub client_id: Option<String>,
    pub client_secret: Option<String>,
    pub callback_url: Option<String>,
    pub environment: Option<String>,
    pub base_url: Option<String>,
    pub access_token: Option<String>,
    pub profile: Option<String>,
    pub log_level: Option<String>,
}

/// The text that wins: the new one where there is one, else the old.
pub open spec fn overridden(old: Seq<char>, new: Option<String>) -> Seq<char> {
    match new {
        Some(n) => n@,
        None => old,
    }
}

/// The optional text that wins: the new one where there is one, else the
/// old.
pub open spec fn opt_overridden(old: Option<String>, new: Option<String>) -> Option<Seq<char>> {
    match new {
        Some(n) => Some(n@),
        None => opt_text(old),
    }
}

/// The text that stays: the old one unless it is empty.
pub open spec fn filled(old: Seq<char>, new: Seq<char>) -> Seq<char> {
    if old.len() == 0 {
        new
    } else {
        old
    }
}

/// The optional text that stays: the old one unless there is none.
pub open spec fn opt_filled(old: Option<String>, new: Option<String>) -> Option<Seq<char>> {
    match old {
        Some(o) => Some(o@),
        None => opt_text(new),
    }
}

/// The view of tokens that may be absent.
pub open spec fn tokens_view(t: Option<AuthTokens>) -> Option<
    (Seq<char>, Option<Seq<char>>, Timestamp, Seq<Seq<char>>),
> {
    match t {
        Some(t) => Some((t.access_token@, opt_text(t.refresh_token), t.expires_at, texts(t.scopes@))),
        None => None,
    }
}

/// The end of the hour that begins at the time given, as far as a 64-bit
/// number with sign holds it.
pub open spec fn hour_from(now: Timestamp) -> Timestamp {
    if now + 3600 > i64::MAX {
        i64::MAX
    } else {
        (now + 3600) as i64
    }
}

fn copy_tokens(t: &Option<AuthTokens>) -> (r: Option<AuthTokens>)
    ensures
        tokens_view(r) == tokens_view(*t),
{
    match t {
        Some(t) => Some(
            AuthTokens {
                access_token: t.access_token.clone(),
                refresh_token: copy_opt(&t.refresh_token),
                expires_at: t.expires_at,
                scopes: copy_texts(&t.scopes),
            },
        ),
        None => None,
    }
}

/// The errors of a configuration: credentials are missing, or no workflow
/// may run at a time.
pub open spec fn settings_errors(raps: RapsConfig, demo: DemoConfig) -> Seq<Seq<char>> {
    (if raps.credentials_set() {
        Seq::empty()
    } else {
        seq!["Missing APS credentials (client_id and client_secret)"@]
    }) + (if demo.max_concurrent_workflows == 0 {
        seq!["max_concurrent_workflows must be greater than 0"@]
    } else {
        Seq::empty()
    })
}

/// The warnings of a configuration at the time given: there are no valid
/// tokens, or the directory of the assets does not exist.
pub open spec fn settings_warnings(
    raps: RapsConfig,
    demo: DemoConfig,
    asset_base_exists: bool,
    now: Timestamp,
) -> Seq<Seq<char>> {
    (if raps.authenticated_at(now) {
        Seq::empty()
    } else {
        seq!["No valid authentication tokens found"@]
    }) + (if asset_base_exists {
        Seq::empty()
    } else {
        seq!["Asset base path does not exist: "@ + demo.asset_base_path@]
    })
}

/// The configuration in use.
#[derive(Debug, Clone)]
pub struct ConfigManager {
    raps_config: RapsConfig,
    demo_config: DemoConfig,
    profiles: TextMap<Profile>,
    config_dir: String,
    auth_validator: AuthValidator,
}

impl ConfigManager {
    /// The settings of the external tool.
    pub closed spec fn raps(&self) -> RapsConfig {
        self.raps_config
    }

    /// The settings of the demonstrations.
    pub closed spec fn demo(&self) -> DemoConfig {
        self.demo_config
    }

    /// The profiles by name.
    pub closed spec fn known_profiles(&self) -> Map<Seq<char>, Profile> {
        self.profiles@
    }

    /// The directory of the configuration.
    pub closed spec fn directory(&self) -> Seq<char> {
        self.config_dir@
    }

    /// The validator of the login that the manager holds.
    pub closed spec fn validator(&self) -> AuthValidator {
        self.auth_validator
    }

    /// The directory of the configuration: the one that the environment
    /// names, and else the default below the home directory.
    pub fn determine_config_dir(from_environment: Option<String>) -> (r: Result<String, ConfigError>)
        ensures
            from_environment is Some ==> r == Ok::<String, ConfigError>(from_environment->0),
    {
        match from_environment {
            Some(dir) => Ok(dir),
            None => ConfigPaths::default_config_dir(),
        }
    }

    /// A manager with default settings and without profiles.
    pub fn with_config_dir(config_dir: String, temp_dir_base: String) -> (m: Self)
        ensures
            m.directory() == config_dir@,
            !m.raps().credentials_set(),
            m.raps().auth_tokens is None,
            m.raps().current_profile is None,
            m.raps().callback_url is None,
            m.raps().environment@ == "production"@,
            m.raps().base_url@ == "https://developer.api.autodesk.com"@,
            m.demo().temp_dir_base == temp_dir_base,
            m.demo().max_concurrent_workflows == 3,
            m.demo().log_level == LogLevel::Info,
            m.known_profiles() == Map::<Seq<char>, Profile>::empty(),
            m.validator().base() == "https://developer.api.autodesk.com"@,
    {
        ConfigManager {
            raps_config: RapsConfig::default(),
            demo_config: DemoConfig::with_temp_dir(temp_dir_base),
            profiles: TextMap::new(),
            config_dir,
            auth_validator: AuthValidator::new(owned("https://developer.api.autodesk.com")),
        }
    }

    /// Takes in what the environment says, at the time given. Each
    /// variable that is set replaces the setting it stands for. An access
    /// token from the environment counts as valid for an hour, with the
    /// scopes `data:read` and `data:write`. A log level that names no
    /// level is passed over.
    pub fn load_from_environment_at(&mut self, env: EnvSettings, now: Timestamp)
        ensures
            final(self).validator() == old(self).validator(),
            final(self).raps().client_id@ == overridden(old(self).raps().client_id@, env.client_id),
            final(self).raps().client_secret@ == overridden(
                old(self).raps().client_secret@,
                env.client_secret,
            ),
            opt_text(final(self).raps().callback_url) == opt_overridden(
                old(self).raps().callback_url,
                env.callback_url,
            ),
            final(self).raps().environment@ == overridden(
                old(self).raps().environment@,
                env.environment,
            ),
            final(self).raps().base_url@ == overridden(old(self).raps().base_url@, env.base_url),
            opt_text(final(self).raps().current_profile) == opt_overridden(
                old(self).raps().current_profile,
                env.profile,
            ),
            match env.access_token {
                Some(token) => tokens_view(final(self).raps().auth_tokens) == Some(
                    (token@, None::<Seq<char>>, hour_from(now), seq!["data:read"@, "data:write"@]),
                ),
                None => final(self).raps().auth_tokens == old(self).raps().auth_tokens,
            },
            final(self).demo().log_level == match env.log_level {
                Some(l) => match level_named(l@) {
                    Some(level) => level,
                    None => old(self).demo().log_level,
                },
                None => old(self).demo().log_level,
            },
            final(self).known_profiles() == old(self).known_profiles(),
            final(self).directory() == old(self).directory(),
    {
        match env.client_id {
            Some(v) => {
                self.raps_config.client_id = v;
            },
            None => {},
        }
        match env.client_secret {
            Some(v) => {
                self.raps_config.client_secret = v;
            },
            None => {},
        }
        match env.callback_url {
            Some(v) => {
                self.raps_config.callback_url = Some(v);
            },
            None => {},
        }
        match env.environment {
            Some(v) => {
                self.raps_config.environment = v;
            },
            None => {},
        }
        match env.base_url {
            Some(v) => {
                self.raps_config.base_url = v;
            },
            None => {},
        }
        match env.access_token {
            Some(token) => {
                let mut scopes: Vec<String> = Vec::new();
                scopes.push(owned("data:read"));
                scopes.push(owned("data:write"));
                assert(texts(scopes@) =~= seq!["data:read"@, "data:write"@]);
                let expires_at: i64 = if now > i64::MAX - 3600 {
                    i64::MAX
                } else {
                    now + 3600
                };
                self.raps_config.auth_tokens = Some(
                    AuthTokens { access_token: token, refresh_token: None, expires_at, scopes },
                );
            },
            None => {},
        }
        match env.profile {
            Some(v) => {
                self.raps_config.current_profile = Some(v);
            },
            None => {},
        }
        match env.log_level {
            Some(l) => {
                match LogLevel::parse(l.as_str()) {
                    Ok(level) => {
                        self.demo_config.log_level = level;
                    },
                    Err(_) => {},
                }
            },
            None => {},
        }
    }

    /// Takes in what the environment says, as of now.
    pub fn load_from_environment(&mut self, env: EnvSettings)
        ensures
            final(self).validator() == old(self).validator(),
            final(self).raps().client_id@ == overridden(old(self).raps().client_id@, env.client_id),
            final(self).raps().client_secret@ == overridden(
                old(self).raps().client_secret@,
                env.client_secret,
            ),
            final(self).known_profiles() == old(self).known_profiles(),
            final(self).directory() == old(self).directory(),
    {
        self.load_from_environment_at(env, now());
    }

    /// Fills what is still open with the settings of a file or a profile:
    /// the client identifier and the client secret where they are empty,
    /// and the callback address, the profile in use and the tokens where
    /// there are none. `with_profile` says whether the profile in use may
    /// be filled too.
    fn fill_from(&mut self, source: &RapsConfig, with_profile: bool)
        ensures
            final(self).validator() == old(self).validator(),
            final(self).raps().client_id@ == filled(old(self).raps().client_id@, source.client_id@),
            final(self).raps().client_secret@ == filled(
                old(self).raps().client_secret@,
                source.client_secret@,
            ),
            opt_text(final(self).raps().callback_url) == opt_filled(
                old(self).raps().callback_url,
                source.callback_url,
            ),
            opt_text(final(self).raps().current_profile) == if with_profile {
                opt_filled(old(self).raps().current_profile, source.current_profile)
            } else {
                opt_text(old(self).raps().current_profile)
            },
            !with_profile ==> final(self).raps().current_profile == old(self).raps().current_profile,
            tokens_view(final(self).raps().auth_tokens) == match old(self).raps().auth_tokens {
                Some(t) => tokens_view(old(self).raps().auth_tokens),
                None => tokens_view(source.auth_tokens),
            },
            final(self).raps().environment == old(self).raps().environment,
            final(self).raps().base_url == old(self).raps().base_url,
            final(self).demo() == old(self).demo(),
            final(self).known_profiles() == old(self).known_profiles(),
            final(self).directory() == old(self).directory(),
    {
        if self.raps_config.client_id.as_str().unicode_len() == 0 {
            self.raps_config.client_id = source.client_id.clone();
        }
        if self.raps_config.client_secret.as_str().unicode_len() == 0 {
            self.raps_config.client_secret = source.client_secret.clone();
        }
        if self.raps_config.callback_url.is_none() {
            self.raps_config.callback_url = copy_opt(&source.callback_url);
        }
        if with_profile && self.raps_config.current_profile.is_none() {
            self.raps_config.current_profile = copy_opt(&source.current_profile);
        }
        if self.raps_config.auth_tokens.is_none() {
            self.raps_config.auth_tokens = copy_tokens(&source.auth_tokens);
        }
    }

    /// Takes in the settings of the external tool that a file holds: they
    /// fill what the environment left open.
    pub fn load_raps_config(&mut self, file_config: &RapsConfig)
        ensures
            final(self).validator() == old(self).validator(),
            final(self).raps().client_id@ == filled(
                old(self).raps().client_id@,
                file_config.client_id@,
            ),
            final(self).raps().client_secret@ == filled(
                old(self).raps().client_secret@,
                file_config.client_secret@,
            ),
            opt_text(final(self).raps().callback_url) == opt_filled(
                old(self).raps().callback_url,
                file_config.callback_url,
            ),
            opt_text(final(self).raps().current_profile) == opt_filled(
                old(self).raps().current_profile,
                file_config.current_profile,
            ),
            tokens_view(final(self).raps().auth_tokens) == match old(self).raps().auth_tokens {
                Some(t) => tokens_view(old(self).raps().auth_tokens),
                None => tokens_view(file_config.auth_tokens),
            },
            final(self).raps().environment == old(self).raps().environment,
            final(self).raps().base_url == old(self).raps().base_url,
            final(self).demo() == old(self).demo(),
            final(self).known_profiles() == old(self).known_profiles(),
            final(self).directory() == old(self).directory(),
    {
        self.fill_from(file_config, true);
    }

    /// Takes in the settings of the demonstrations that a file holds, in
    /// the place of those in use.
    pub fn load_demo_config(&mut self, file_config: DemoConfig)
        ensures
            final(self).validator() == old(self).validator(),
            final(self).demo() == file_config,
            final(self).raps() == old(self).raps(),
            final(self).known_profiles() == old(self).known_profiles(),
            final(self).directory() == old(self).directory(),
    {
        self.demo_config = file_config;
    }

    /// Takes in a profile that a file holds, under its name.
    pub fn load_profile(&mut self, profile: Profile)
        ensures
            final(self).validator() == old(self).validator(),
            final(self).known_profiles() == old(self).known_profiles().insert(
                profile.name@,
                profile,
            ),
            final(self).raps() == old(self).raps(),
            final(self).demo() == old(self).demo(),
            final(self).directory() == old(self).directory(),
    {
        let name = profile.name.clone();
        self.profiles.insert(name, profile);
    }

    /// Puts a profile to use: its settings of the external tool fill what
    /// is still open, and its settings of the demonstrations take the
    /// place of those in use. There has to be a profile of the name.
    pub fn apply_profile(&mut self, profile_name: &str) -> (r: Result<(), ConfigError>)
        ensures
            final(self).validator() == old(self).validator(),
            final(self).known_profiles() == old(self).known_profiles(),
            final(self).directory() == old(self).directory(),
            !old(self).known_profiles().contains_key(profile_name@) ==> {
                &&& r is Err
                &&& r->Err_0 matches ConfigError::ProfileNotFound(n) && n@ == profile_name@
                &&& final(self).raps() == old(self).raps()
                &&& final(self).demo() == old(self).demo()
            },
            old(self).known_profiles().contains_key(profile_name@) ==> {
                let profile = old(self).known_profiles()[profile_name@];
                &&& r is Ok
                &&& final(self).raps().client_id@ == filled(
                    old(self).raps().client_id@,
                    profile.raps_config.client_id@,
                )
                &&& final(self).raps().client_secret@ == filled(
                    old(self).raps().client_secret@,
                    profile.raps_config.client_secret@,
                )
                &&& opt_text(final(self).raps().callback_url) == opt_filled(
                    old(self).raps().callback_url,
                    profile.raps_config.callback_url,
                )
                &&& final(self).raps().current_profile == old(self).raps().current_profile
                &&& tokens_view(final(self).raps().auth_tokens) == match old(self).raps().auth_tokens {
                    Some(t) => tokens_view(old(self).raps().auth_tokens),
                    None => tokens_view(profile.raps_config.auth_tokens),
                }
                &&& final(self).demo().max_concurrent_workflows
                    == profile.demo_config.max_concurrent_workflows
                &&& final(self).demo().log_level == profile.demo_config.log_level
                &&& final(self).demo().default_cleanup_policy
                    == profile.demo_config.default_cleanup_policy
                &&& final(self).demo().asset_base_path@ == profile.demo_config.asset_base_path@
                &&& final(self).demo().temp_dir_base@ == profile.demo_config.temp_dir_base@
                &&& final(self).demo().max_execution_timeout_seconds
                    == profile.demo_config.max_execution_timeout_seconds
                &&& final(self).demo().show_cost_warnings == profile.demo_config.show_cost_warnings
                &&& final(self).demo().cost_warning_threshold
                    == profile.demo_config.cost_warning_threshold
            },
    {
        let (source, demo) = match self.profiles.get(profile_name) {
            Some(profile) => {
                let source = RapsConfig {
                    client_id: profile.raps_config.client_id.clone(),
                    client_secret: profile.raps_config.client_secret.clone(),
                    callback_url: copy_opt(&profile.raps_config.callback_url),
                    current_profile: None,
                    auth_tokens: copy_tokens(&profile.raps_config.auth_tokens),
                    environment: String::new(),
                    base_url: String::new(),
                };
                let demo = DemoConfig {
                    default_cleanup_policy: profile.demo_config.default_cleanup_policy,
                    max_concurrent_workflows: profile.demo_config.max_concurrent_workflows,
                    log_level: profile.demo_config.log_level,
                    asset_base_path: profile.demo_config.asset_base_path.clone(),
                    temp_dir_base: profile.demo_config.temp_dir_base.clone(),
                    max_execution_timeout_seconds: profile.demo_config.max_execution_timeout_seconds,
                    show_cost_warnings: profile.demo_config.show_cost_warnings,
                    cost_warning_threshold: profile.demo_config.cost_warning_threshold,
                };
                (source, demo)
            },
            None => {
                return Err(ConfigError::ProfileNotFound(owned(profile_name)));
            },
        };
        self.fill_from(&source, false);
        self.demo_config = demo;
        Ok(())
    }

    /// The settings of the external tool.
    pub fn raps_config(&self) -> (c: &RapsConfig)
        ensures
            *c == self.raps(),
    {
        &self.raps_config
    }

    /// The settings of the demonstrations.
    pub fn demo_config(&self) -> (c: &DemoConfig)
        ensures
            *c == self.demo(),
    {
        &self.demo_config
    }

    /// The profiles by name.
    pub fn profiles(&self) -> (p: &TextMap<Profile>)
        ensures
            p@ == self.known_profiles(),
    {
        &self.profiles
    }

    /// The directory of the configuration.
    pub fn config_dir(&self) -> (dir: &String)
        ensures
            dir@ == self.directory(),
    {
        &self.config_dir
    }

    /// The name of the profile in use, if there is one.
    pub fn current_profile(&self) -> (name: Option<&str>)
        ensures
            match name {
                Some(n) => self.raps().current_profile is Some && n@
                    == self.raps().current_profile->0@,
                None => self.raps().current_profile is None,
            },
    {
        match &self.raps_config.current_profile {
            Some(n) => Some(n.as_str()),
            None => None,
        }
    }

    /// Whether the profile of the name given is the one in use.
    pub fn is_current_profile(&self, name: &str) -> (b: bool)
        ensures
            b == (self.raps().current_profile is Some && self.raps().current_profile->0@ == name@),
    {
        match &self.raps_config.current_profile {
            Some(n) => crate::text::same_text(n.as_str(), name),
            None => false,
        }
    }

    /// Makes the profile of the name given the one in use, puts it to use
    /// and notes the time. Nothing changes where there is no such profile.
    pub fn switch_profile_at(&mut self, profile_name: &str, now: Timestamp) -> (r: Result<
        (),
        ConfigError,
    >)
        ensures
            final(self).validator() == old(self).validator(),
            final(self).directory() == old(self).directory(),
            !old(self).known_profiles().contains_key(profile_name@) ==> {
                &&& r is Err
                &&& r->Err_0 matches ConfigError::ProfileNotFound(n) && n@ == profile_name@
                &&& final(self).raps() == old(self).raps()
                &&& final(self).demo() == old(self).demo()
                &&& final(self).known_profiles() == old(self).known_profiles()
            },
            old(self).known_profiles().contains_key(profile_name@) ==> {
                let profile = old(self).known_profiles()[profile_name@];
                &&& r is Ok
                &&& final(self).raps().current_profile is Some
                &&& final(self).raps().current_profile->0@ == profile_name@
                &&& final(self).raps().client_id@ == filled(
                    old(self).raps().client_id@,
                    profile.raps_config.client_id@,
                )
                &&& final(self).raps().client_secret@ == filled(
                    old(self).raps().client_secret@,
                    profile.raps_config.client_secret@,
                )
                &&& final(self).demo().log_level == profile.demo_config.log_level
                &&& final(self).demo().max_concurrent_workflows
                    == profile.demo_config.max_concurrent_workflows
                &&& final(self).known_profiles().dom() == old(self).known_profiles().dom()
                &&& final(self).known_profiles()[profile_name@].last_used_at == Some(now)
                &&& final(self).known_profiles().remove(profile_name@) == old(self).known_profiles().remove(profile_name@)
            },
    {
        if !self.profiles.contains_key(profile_name) {
            return Err(ConfigError::ProfileNotFound(owned(profile_name)));
        }
        self.raps_config.current_profile = Some(owned(profile_name));
        let _ = self.apply_profile(profile_name);
        let ghost before = self.profiles@;
        let used: Option<Profile> = match self.profiles.get(profile_name) {
            Some(p) => {
                let mut copy = p.clone();
                copy.last_used_at = Some(now);
                Some(copy)
            },
            None => None,
        };
        match used {
            Some(p) => {
                self.profiles.insert(owned(profile_name), p);
                proof {
                    assert(self.profiles@.dom() =~= before.dom());
                    assert(self.profiles@.remove(profile_name@) =~= before.remove(profile_name@));
                }
            },
            None => {},
        }
        Ok(())
    }

    /// Makes the profile of the name given the one in use, as of now.
    pub fn switch_profile(&mut self, profile_name: &str) -> (r: Result<(), ConfigError>)
        ensures
            final(self).validator() == old(self).validator(),
            final(self).directory() == old(self).directory(),
            old(self).known_profiles().contains_key(profile_name@) <==> r is Ok,
            r is Ok ==> final(self).raps().current_profile is Some && final(self).raps().current_profile->0@ == profile_name@,
            r is Err ==> final(self).raps() == old(self).raps() && final(self).known_profiles()
                == old(self).known_profiles(),
    {
        self.switch_profile_at(profile_name, now())
    }

    /// Validates the configuration at the time given. `asset_base_exists`
    /// says whether the directory of the assets is on disk. The result is
    /// valid exactly when there is no error.
    pub fn validate_at(&self, asset_base_exists: bool, now: Timestamp) -> (r: ValidationResult)
        ensures
            texts(r.errors@) == settings_errors(self.raps(), self.demo()),
            texts(r.warnings@) == settings_warnings(
                self.raps(),
                self.demo(),
                asset_base_exists,
                now,
            ),
            r.is_valid == (settings_errors(self.raps(), self.demo()).len() == 0),
    {
        let mut r = ValidationResult::new();
        let ghost none = Seq::<Seq<char>>::empty();
        assert(texts(r.errors@) =~= none);
        assert(texts(r.warnings@) =~= none);
        if !self.raps_config.has_credentials() {
            r.add_error(owned("Missing APS credentials (client_id and client_secret)"));
        }
        let ghost e1 = texts(r.errors@);
        assert(e1 =~= if self.raps().credentials_set() {
            none
        } else {
            seq!["Missing APS credentials (client_id and client_secret)"@]
        });
        if !self.raps_config.is_authenticated_at(now) {
            r.add_warning(owned("No valid authentication tokens found"));
        }
        let ghost w1 = texts(r.warnings@);
        assert(w1 =~= if self.raps().authenticated_at(now) {
            none
        } else {
            seq!["No valid authentication tokens found"@]
        });
        if !asset_base_exists {
            r.add_warning(
                crate::text::concat2(
                    "Asset base path does not exist: ",
                    self.demo_config.asset_base_path.as_str(),
                ),
            );
        }
        assert(texts(r.warnings@) =~= w1 + (if asset_base_exists {
            none
        } else {
            seq!["Asset base path does not exist: "@ + self.demo().asset_base_path@]
        }));
        if self.demo_config.max_concurrent_workflows == 0 {
            r.add_error(owned("max_concurrent_workflows must be greater than 0"));
        }
        assert(texts(r.errors@) =~= e1 + (if self.demo().max_concurrent_workflows == 0 {
            seq!["max_concurrent_workflows must be greater than 0"@]
        } else {
            none
        }));
        r
    }

    /// Validates the configuration as of now.
    pub fn validate(&self, asset_base_exists: bool) -> (r: ValidationResult)
        ensures
            texts(r.errors@) == settings_errors(self.raps(), self.demo()),
            r.is_valid == (settings_errors(self.raps(), self.demo()).len() == 0),
    {
        self.validate_at(asset_base_exists, now())
    }

    /// The configuration is valid and the tokens have not expired at the
    /// time given.
    pub open spec fn ready_at(&self, now: Timestamp) -> bool {
        settings_errors(self.raps(), self.demo()).len() == 0 && self.raps().authenticated_at(now)
    }

    /// Whether the configuration is valid and the tokens have not expired
    /// at the time given.
    pub fn is_ready_at(&self, now: Timestamp) -> (b: bool)
        ensures
            b == self.ready_at(now),
    {
        self.validate_at(true, now).is_valid && self.raps_config.is_authenticated_at(now)
    }

    /// Whether the configuration is valid and the tokens have not expired:
    /// what `is_ready_at` gives for the present time. With an invalid
    /// configuration or without tokens it is not.
    pub fn is_ready(&self) -> (b: bool)
        ensures
            exists|t: Timestamp| b == #[trigger] self.ready_at(t),
            settings_errors(self.raps(), self.demo()).len() > 0 || self.raps().auth_tokens is None
                ==> !b,
    {
        let t = now();
        let b = self.is_ready_at(t);
        assert(b == self.ready_at(t));
        b
    }

    /// Makes a new profile with default settings at the time given. A
    /// second profile of one name is refused.
    pub fn create_profile_at(
        &mut self,
        name: String,
        description: Option<String>,
        temp_dir_base: String,
        now: Timestamp,
    ) -> (r: Result<(), ConfigError>)
        ensures
            final(self).validator() == old(self).validator(),
            final(self).raps() == old(self).raps(),
            final(self).demo() == old(self).demo(),
            final(self).directory() == old(self).directory(),
            old(self).known_profiles().contains_key(name@) ==> {
                &&& r is Err
                &&& r->Err_0 matches ConfigError::ProfileExists(n) && n@ == name@
                &&& final(self).known_profiles() == old(self).known_profiles()
            },
            !old(self).known_profiles().contains_key(name@) ==> {
                &&& r is Ok
                &&& final(self).known_profiles().dom() == old(self).known_profiles().dom().insert(
                    name@,
                )
                &&& final(self).known_profiles().remove(name@) == old(self).known_profiles()
                &&& final(self).known_profiles()[name@].name@ == name@
                &&& final(self).known_profiles()[name@].description == description
                &&& final(self).known_profiles()[name@].created_at == now
                &&& final(self).known_profiles()[name@].last_used_at is None
            },
    {
        if self.profiles.contains_key(name.as_str()) {
            return Err(ConfigError::ProfileExists(name));
        }
        let ghost before = self.profiles@;
        let key = name.clone();
        let profile = Profile::new_at(name, description, temp_dir_base, now);
        self.profiles.insert(key, profile);
        proof {
            assert(self.profiles@.dom() =~= before.dom().insert(key@));
            assert(self.profiles@.remove(key@) =~= before);
        }
        Ok(())
    }

    /// Makes a new profile with default settings, as of now.
    pub fn create_profile(&mut self, name: String, description: Option<String>, temp_dir_base: String)
        -> (r: Result<(), ConfigError>)
        ensures
            final(self).validator() == old(self).validator(),
            final(self).raps() == old(self).raps(),
            final(self).demo() == old(self).demo(),
            final(self).directory() == old(self).directory(),
            old(self).known_profiles().contains_key(name@) <==> r is Err,
            r is Err ==> final(self).known_profiles() == old(self).known_profiles(),
            r is Ok ==> final(self).known_profiles().dom() == old(self).known_profiles().dom().insert(
                name@,
            ),
    {
        self.create_profile_at(name, description, temp_dir_base, now())
    }

    /// Deletes the profile of the name given. A profile that does not
    /// exist and the profile in use cannot be deleted.
    pub fn delete_profile(&mut self, name: &str) -> (r: Result<(), ConfigError>)
        ensures
            final(self).validator() == old(self).validator(),
            final(self).raps() == old(self).raps(),
            final(self).demo() == old(self).demo(),
            final(self).directory() == old(self).directory(),
            !old(self).known_profiles().contains_key(name@) ==> {
                &&& r is Err
                &&& r->Err_0 matches ConfigError::ProfileNotFound(n) && n@ == name@
                &&& final(self).known_profiles() == old(self).known_profiles()
            },
            old(self).known_profiles().contains_key(name@) && old(self).raps().current_profile
                is Some && old(self).raps().current_profile->0@ == name@ ==> {
                &&& r == Err::<(), ConfigError>(ConfigError::CannotDeleteCurrentProfile)
                &&& final(self).known_profiles() == old(self).known_profiles()
            },
            old(self).known_profiles().contains_key(name@) && !(old(self).raps().current_profile
                is Some && old(self).raps().current_profile->0@ == name@) ==> {
                &&& r is Ok
                &&& final(self).known_profiles() == old(self).known_profiles().remove(name@)
            },
    {
        if !self.profiles.contains_key(name) {
            return Err(ConfigError::ProfileNotFound(owned(name)));
        }
        if self.is_current_profile(name) {
            return Err(ConfigError::CannotDeleteCurrentProfile);
        }
        self.profiles.remove(name);
        Ok(())
    }

    /// The steps that the configuration still needs.
    pub fn get_setup_instructions(&self) -> (instructions: SetupInstructions)
        ensures
            setup_views(instructions.steps@) == setup_steps(self.raps()),
    {
        AuthSetupGuide::generate_setup_instructions(&self.raps_config)
    }

    /// What to try for the errors and the warnings of a validation.
    pub fn get_troubleshooting_guide(&self, validation_result: &ValidationResult) -> (guide:
        TroubleshootingGuide)
        ensures
            solution_views(guide.solutions@) == error_solutions(
                texts(validation_result.errors@),
                validation_result.errors@.len() as int,
            ) + warning_solutions(
                texts(validation_result.warnings@),
                validation_result.warnings@.len() as int,
            ),
    {
        AuthSetupGuide::generate_troubleshooting_guide(validation_result)
    }

    /// The validator of the login.
    pub fn auth_validator(&self) -> (v: &AuthValidator)
        ensures
            *v == self.validator(),
    {
        &self.auth_validator
    }

    /// Puts new tokens in the place of the old.
    pub fn update_auth_tokens(&mut self, tokens: AuthTokens)
        ensures
            final(self).validator() == old(self).validator(),
            final(self).raps().auth_tokens == Some(tokens),
            final(self).raps().client_id == old(self).raps().client_id,
            final(self).raps().client_secret == old(self).raps().client_secret,
            final(self).raps().callback_url == old(self).raps().callback_url,
            final(self).raps().current_profile == old(self).raps().current_profile,
            final(self).raps().environment == old(self).raps().environment,
            final(self).raps().base_url == old(self).raps().base_url,
            final(self).demo() == old(self).demo(),
            final(self).known_profiles() == old(self).known_profiles(),
            final(self).directory() == old(self).directory(),
    {
        self.raps_config.auth_tokens = Some(tokens);
    }

    /// Forgets the tokens.
    pub fn clear_auth_tokens(&mut self)
        ensures
            final(self).validator() == old(self).validator(),
            final(self).raps().auth_tokens is None,
            final(self).raps().client_id == old(self).raps().client_id,
            final(self).raps().client_secret == old(self).raps().client_secret,
            final(self).raps().callback_url == old(self).raps().callback_url,
            final(self).raps().current_profile == old(self).raps().current_profile,
            final(self).raps().environment == old(self).raps().environment,
            final(self).raps().base_url == old(self).raps().base_url,
            final(self).demo() == old(self).demo(),
            final(self).known_profiles() == old(self).known_profiles(),
            final(self).directory() == old(self).directory(),
    {
        self.raps_config.auth_tokens = None;
    }

    /// There are tokens that have not expired at the time given and will
    /// not within five minutes.
    pub open spec fn healthy_at(&self, now: Timestamp) -> bool {
        self.raps().auth_tokens is Some && !self.raps().auth_tokens->0.expired_at(now)
            && !self.raps().auth_tokens->0.expiring_at(300, now)
    }

    /// Whether there are tokens that have not expired at the time given
    /// and will not within five minutes.
    pub fn is_auth_healthy_at(&self, now: Timestamp) -> (b: bool)
        ensures
            b == self.healthy_at(now),
    {
        match &self.raps_config.auth_tokens {
            Some(tokens) => !tokens.is_expired_at(now) && !tokens.expires_within_at(300, now),
            None => false,
        }
    }

    /// Whether there are tokens that have not expired and will not within
    /// five minutes: what `is_auth_healthy_at` gives for the present time.
    /// Without tokens it is not.
    pub fn is_auth_healthy(&self) -> (b: bool)
        ensures
            exists|t: Timestamp| b == #[trigger] self.healthy_at(t),
            self.raps().auth_tokens is None ==> !b,
    {
        let t = now();
        let b = self.is_auth_healthy_at(t);
        assert(b == self.healthy_at(t));
        b
    }

    /// Whether the tokens should be renewed at the time given: there are
    /// tokens and they have expired or will within five minutes.
    pub fn needs_refresh_at(&self, now: Timestamp) -> (b: bool)
        ensures
            b == (self.raps().auth_tokens is Some && (self.raps().auth_tokens->0.expired_at(now)
                || self.raps().auth_tokens->0.expiring_at(300, now))),
    {
        match &self.raps_config.auth_tokens {
            Some(tokens) => tokens.is_expired_at(now) || tokens.expires_within_at(300, now),
            None => false,
        }
    }
}

} // verus!
