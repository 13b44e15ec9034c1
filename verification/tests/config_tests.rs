use raps_demo_workflows::config::auth::{
    AuthSetupGuide, AuthValidator, SetupAction, SetupInstructions, SetupStep, TokenRefresher,
    TroubleshootingGuide,
};
use raps_demo_workflows::config::types::{
    AuthTokens, ConfigError, ConfigPaths, DemoConfig, EnvVars, LogLevel, Profile, RapsConfig,
    ValidationResult,
};
use raps_demo_workflows::resource::types::CleanupPolicy;

fn now() -> i64 {
    chrono::Utc::now().timestamp()
}

#[test]
fn test_auth_validator_creation() {
    let validator = AuthValidator::new("https://developer.api.autodesk.com".to_string());
    assert_eq!(validator.base_url(), "https://developer.api.autodesk.com");
}

#[test]
fn test_validate_credentials_missing() {
    let validator = AuthValidator::new("https://developer.api.autodesk.com".to_string());
    let config = RapsConfig::default();

    let result = validator.validate_credentials(&config, &Ok(true));
    assert!(!result.is_valid);
    assert!(!result.errors.is_empty());
}

#[test]
fn test_setup_instructions_generation() {
    let config = RapsConfig::default();
    let instructions = AuthSetupGuide::generate_setup_instructions(&config);

    assert!(!instructions.steps.is_empty());
    assert!(!instructions.required_steps().is_empty());
}

#[test]
fn test_troubleshooting_guide_generation() {
    let mut validation_result = ValidationResult::new();
    validation_result.add_error("Missing APS credentials".to_string());
    validation_result.add_warning("Access token has expired".to_string());

    let guide = AuthSetupGuide::generate_troubleshooting_guide(&validation_result);
    assert!(!guide.is_empty());
    assert_eq!(guide.solutions.len(), 2);
}

#[test]
fn test_setup_instructions_filtering() {
    let mut instructions = SetupInstructions::new();
    instructions.add_step(SetupStep {
        title: "Required Step".to_string(),
        description: "This is required".to_string(),
        action: SetupAction::RunCommand {
            command: "test".to_string(),
            description: "Test command".to_string(),
        },
        required: true,
    });
    instructions.add_step(SetupStep {
        title: "Optional Step".to_string(),
        description: "This is optional".to_string(),
        action: SetupAction::RunCommand {
            command: "test".to_string(),
            description: "Test command".to_string(),
        },
        required: false,
    });

    assert_eq!(instructions.required_steps().len(), 1);
    assert_eq!(instructions.optional_steps().len(), 1);
}

#[test]
fn test_log_level_parsing() {
    assert_eq!("info".parse::<LogLevel>().unwrap(), LogLevel::Info);
    assert_eq!("DEBUG".parse::<LogLevel>().unwrap(), LogLevel::Debug);
    assert!("invalid".parse::<LogLevel>().is_err());
}

#[test]
fn test_log_level_display() {
    assert_eq!(LogLevel::Error.to_string(), "error");
    assert_eq!(LogLevel::Info.to_string(), "info");
    assert_eq!(LogLevel::Debug.to_string(), "debug");
}

#[test]
fn test_demo_config_default() {
    let config = DemoConfig::with_temp_dir("/tmp".to_string());
    assert_eq!(config.max_concurrent_workflows, 3);
    assert_eq!(config.log_level, LogLevel::Info);
    assert!(config.show_cost_warnings);
    assert_eq!(config.cost_warning_threshold, 1_000_000);
}

#[test]
fn test_auth_tokens_expiration() {
    let expired_tokens = AuthTokens {
        access_token: "token".to_string(),
        refresh_token: None,
        expires_at: now() - 3600,
        scopes: vec!["data:read".to_string()],
    };

    let valid_tokens = AuthTokens {
        access_token: "token".to_string(),
        refresh_token: None,
        expires_at: now() + 3600,
        scopes: vec!["data:read".to_string()],
    };

    assert!(expired_tokens.is_expired());
    assert!(!valid_tokens.is_expired());
    assert!(valid_tokens.expires_within(7200));
    assert!(!valid_tokens.expires_within(1800));
}

#[test]
fn test_auth_tokens_scopes() {
    let tokens = AuthTokens {
        access_token: "token".to_string(),
        refresh_token: None,
        expires_at: now() + 3600,
        scopes: vec!["data:read".to_string(), "data:write".to_string()],
    };

    assert!(tokens.has_scope("data:read"));
    assert!(tokens.has_scope("data:write"));
    assert!(!tokens.has_scope("bucket:create"));
}

#[test]
fn test_raps_config_validation() {
    let mut config = RapsConfig::default();
    assert!(!config.has_credentials());
    assert!(!config.is_authenticated());
    assert!(config.get_access_token().is_none());

    config.client_id = "test_id".to_string();
    config.client_secret = "test_secret".to_string();
    assert!(config.has_credentials());

    config.auth_tokens = Some(AuthTokens {
        access_token: "valid_token".to_string(),
        refresh_token: None,
        expires_at: now() + 3600,
        scopes: vec!["data:read".to_string()],
    });
    assert!(config.is_authenticated());
    assert_eq!(config.get_access_token(), Some("valid_token"));
}

#[test]
fn test_profile_creation() {
    let mut profile = Profile::new(
        "test-profile".to_string(),
        Some("Test profile".to_string()),
        "/tmp".to_string(),
    );

    assert_eq!(profile.name, "test-profile");
    assert!(!profile.is_ready());
    assert!(profile.last_used_at.is_none());

    profile.mark_used();
    assert!(profile.last_used_at.is_some());
}

#[test]
fn test_validation_result() {
    let mut result = ValidationResult::new();
    assert!(result.is_valid);
    assert!(!result.has_issues());

    result.add_warning("Test warning".to_string());
    assert!(result.is_valid);
    assert!(result.has_issues());

    result.add_error("Test error".to_string());
    assert!(!result.is_valid);
    assert!(result.has_issues());
}

#[test]
fn test_config_paths() {
    let _config_dir = ConfigPaths::default_config_dir();
    let _raps_config = ConfigPaths::raps_config_file();
    let _demo_config = ConfigPaths::demo_config_file();
    let _profiles_dir = ConfigPaths::profiles_dir();
    let _credentials = ConfigPaths::credentials_file();
}

#[test]
fn config_paths_lie_below_the_home_directory() {
    assert_eq!(ConfigPaths::config_dir_in(None), Err(ConfigError::NoHomeDirectory));
    assert_eq!(ConfigPaths::file_in(None, "x"), Err(ConfigError::NoHomeDirectory));
    assert_eq!(ConfigError::NoHomeDirectory.to_string(), "Failed to determine home directory");
    let dir = ConfigPaths::config_dir_in(Some("/home/u".to_string())).unwrap();
    assert_eq!(std::path::Path::new(&dir), std::path::Path::new("/home/u").join(".raps"));
    let file = ConfigPaths::file_in(Some("/home/u".to_string()), "demo.toml").unwrap();
    assert_eq!(
        std::path::Path::new(&file),
        std::path::Path::new("/home/u").join(".raps").join("demo.toml")
    );
    assert_eq!(ConfigPaths::RAPS_CONFIG_FILE, "config.toml");
    assert_eq!(ConfigPaths::CONFIG_DIR_NAME, ".raps");
    assert_eq!(EnvVars::CLIENT_ID, "APS_CLIENT_ID");
    assert_eq!(EnvVars::LOG_LEVEL, "RAPS_LOG_LEVEL");
    if let Ok(found) = ConfigPaths::credentials_file() {
        assert!(found.ends_with("credentials.toml"));
    }
}

#[test]
fn log_levels_are_named_without_regard_to_case() {
    assert_eq!(LogLevel::parse("Warn"), Ok(LogLevel::Warn));
    assert_eq!(LogLevel::parse("TRACE"), Ok(LogLevel::Trace));
    assert_eq!(LogLevel::parse("error"), Ok(LogLevel::Error));
    assert_eq!(LogLevel::parse("Loud"), Err("Invalid log level: Loud".to_string()));
    assert_eq!(LogLevel::parse(""), Err("Invalid log level: ".to_string()));
    assert_eq!(LogLevel::default(), LogLevel::Info);
    assert_eq!(LogLevel::Warn.to_string(), "warn");
    assert_eq!(LogLevel::Trace.to_string(), "trace");
    assert_eq!(
        DemoConfig::with_temp_dir("t".to_string()).default_cleanup_policy,
        CleanupPolicy::Immediate
    );
}

#[test]
fn tokens_expire_at_their_time() {
    let tokens = AuthTokens {
        access_token: "t".to_string(),
        refresh_token: None,
        expires_at: 1_000,
        scopes: vec![],
    };
    assert!(!tokens.is_expired_at(999));
    assert!(tokens.is_expired_at(1_000));
    assert!(!tokens.expires_within_at(300, 699));
    assert!(tokens.expires_within_at(300, 700));
    assert!(tokens.expires_within_at(i64::MAX, i64::MAX));
    let mut config = RapsConfig::default();
    config.auth_tokens = Some(tokens);
    assert!(config.is_authenticated_at(999));
    assert!(!config.is_authenticated_at(1_000));
    assert_eq!(config.get_access_token_at(999), Some("t"));
    assert_eq!(config.get_access_token_at(1_000), None);
    let mut profile = Profile::new_at("p".to_string(), None, "/tmp".to_string(), 5);
    assert_eq!(profile.created_at, 5);
    assert!(!profile.is_ready_at(0));
    profile.raps_config = config;
    assert!(!profile.is_ready_at(0));
    profile.raps_config.client_id = "id".to_string();
    profile.raps_config.client_secret = "secret".to_string();
    assert!(profile.is_ready_at(0));
    assert!(!profile.is_ready_at(1_000));
    profile.mark_used_at(9);
    assert_eq!(profile.last_used_at, Some(9));
}

#[test]
fn credentials_are_checked_in_order() {
    let validator = AuthValidator::new("https://x".to_string());
    assert_eq!(validator.health_url(), "https://x/health");
    let mut config = RapsConfig::default();
    let missing = validator.validate_credentials_at(&config, &Ok(false), 0);
    assert_eq!(
        missing.errors,
        vec!["Missing APS credentials (client_id and client_secret)".to_string()]
    );
    assert!(missing.warnings.is_empty());
    config.client_id = "id".to_string();
    config.client_secret = "secret".to_string();
    let no_tokens = validator.validate_credentials_at(&config, &Ok(true), 0);
    assert_eq!(no_tokens.errors, vec!["No authentication tokens found".to_string()]);
    config.auth_tokens = Some(AuthTokens {
        access_token: "t".to_string(),
        refresh_token: None,
        expires_at: 1_000,
        scopes: vec![],
    });
    let fine = validator.validate_credentials_at(&config, &Ok(true), 0);
    assert!(fine.is_valid && !fine.has_issues());
    let soon = validator.validate_credentials_at(&config, &Ok(true), 800);
    assert!(soon.is_valid);
    assert_eq!(soon.warnings, vec!["Access token expires soon".to_string()]);
    let expired = validator.validate_credentials_at(&config, &Ok(false), 2_000);
    assert!(!expired.is_valid);
    assert_eq!(expired.errors, vec!["Authentication token is invalid".to_string()]);
    assert_eq!(expired.warnings, vec!["Access token has expired".to_string()]);
    let unchecked = validator.validate_credentials_at(&config, &Err("no tool".to_string()), 2_000);
    assert!(unchecked.is_valid);
    assert_eq!(
        unchecked.warnings,
        vec![
            "Access token has expired".to_string(),
            "Could not validate token: no tool".to_string()
        ]
    );
}

#[test]
fn setup_instructions_name_what_is_missing() {
    let empty = AuthSetupGuide::generate_setup_instructions(&RapsConfig::default());
    let titles: Vec<&str> = empty.steps.iter().map(|s| s.title.as_str()).collect();
    assert_eq!(
        titles,
        vec![
            "Obtain APS Client ID",
            "Obtain APS Client Secret",
            "Authenticate with APS",
            "Set Environment Variables (Optional)"
        ]
    );
    assert_eq!(empty.required_steps().len(), 3);
    assert_eq!(empty.optional_steps().len(), 1);
    assert_eq!(
        empty.steps[3].action,
        SetupAction::SetEnvironmentVariables {
            variables: vec![
                ("APS_CLIENT_ID".to_string(), "your_client_id".to_string()),
                ("APS_CLIENT_SECRET".to_string(), "your_client_secret".to_string()),
            ]
        }
    );
    let mut config = RapsConfig::default();
    config.client_id = "id".to_string();
    config.client_secret = "secret".to_string();
    config.auth_tokens = Some(AuthTokens {
        access_token: "t".to_string(),
        refresh_token: None,
        expires_at: 0,
        scopes: vec![],
    });
    let complete = AuthSetupGuide::generate_setup_instructions(&config);
    assert_eq!(complete.steps.len(), 1);
    assert!(complete.required_steps().is_empty());
    assert!(SetupInstructions::default().steps.is_empty());
}

#[test]
fn troubleshooting_follows_the_messages() {
    let mut result = ValidationResult::new();
    result.add_error("No authentication tokens found; Authentication token is invalid".to_string());
    result.add_error("unrelated".to_string());
    result.add_warning("Access token expires soon".to_string());
    let guide = AuthSetupGuide::generate_troubleshooting_guide(&result);
    let problems: Vec<&str> = guide.solutions.iter().map(|s| s.problem.as_str()).collect();
    assert_eq!(
        problems,
        vec![
            "No authentication tokens found",
            "Authentication token is invalid",
            "Access token expires soon"
        ]
    );
    assert_eq!(
        guide.solutions[1].commands,
        vec!["raps auth logout".to_string(), "raps auth login".to_string()]
    );
    assert_eq!(
        guide.solutions[2].links,
        vec!["https://aps.autodesk.com/en/docs/oauth/v2/tutorials/get-3-legged-token/".to_string()]
    );
    let nothing = AuthSetupGuide::generate_troubleshooting_guide(&ValidationResult::default());
    assert!(nothing.is_empty());
    assert!(TroubleshootingGuide::default().is_empty());
}

#[test]
fn renewed_tokens_take_over_what_the_answer_leaves_out() {
    let previous = AuthTokens {
        access_token: "old".to_string(),
        refresh_token: Some("r-old".to_string()),
        expires_at: 10,
        scopes: vec!["data:read".to_string()],
    };
    let kept = TokenRefresher::refreshed_tokens(&previous, "new".to_string(), None, None, None, 100);
    assert_eq!(
        kept,
        AuthTokens {
            access_token: "new".to_string(),
            refresh_token: Some("r-old".to_string()),
            expires_at: 3_700,
            scopes: vec!["data:read".to_string()],
        }
    );
    let replaced = TokenRefresher::refreshed_tokens(
        &previous,
        "new".to_string(),
        Some("r-new".to_string()),
        Some(60),
        Some(vec!["a".to_string(), "b".to_string()]),
        100,
    );
    assert_eq!(replaced.refresh_token, Some("r-new".to_string()));
    assert_eq!(replaced.expires_at, 160);
    assert_eq!(replaced.scopes, vec!["a".to_string(), "b".to_string()]);
    assert_eq!(TokenRefresher::refresh_args(), vec!["auth", "refresh", "--json"]);
    let mut config = RapsConfig::default();
    assert!(!TokenRefresher::can_refresh(&config));
    config.auth_tokens = Some(previous);
    assert!(TokenRefresher::can_refresh(&config));
}

fn lasting_tokens() -> AuthTokens {
    AuthTokens {
        access_token: "lasting".to_string(),
        refresh_token: None,
        expires_at: i64::MAX,
        scopes: vec![],
    }
}

#[test]
fn a_level_is_read_from_its_name() {
    assert_eq!("TRACE".parse::<LogLevel>(), Ok(LogLevel::Trace));
    assert_eq!("info".parse::<LogLevel>(), Ok(LogLevel::Info));
    assert_eq!("loud".parse::<LogLevel>(), Err("Invalid log level: loud".to_string()));
    assert_eq!("".parse::<LogLevel>(), LogLevel::parse(""));
}

#[test]
fn readiness_follows_credentials_and_tokens() {
    let mut profile = Profile::new("p".to_string(), None, "tmp".to_string());
    profile.raps_config.auth_tokens = Some(lasting_tokens());
    assert!(!profile.is_ready());
    profile.raps_config.client_id = "id".to_string();
    profile.raps_config.client_secret = "secret".to_string();
    assert!(profile.is_ready());
    assert_eq!(profile.raps_config.get_access_token(), Some("lasting"));
    profile.raps_config.auth_tokens = Some(AuthTokens { expires_at: 0, ..lasting_tokens() });
    assert!(!profile.is_ready());
    assert_eq!(profile.raps_config.get_access_token(), None);
    profile.raps_config.auth_tokens = None;
    assert!(!profile.is_ready());
}

#[test]
fn the_named_paths_lie_in_the_directory_of_the_configuration() {
    let dir = ConfigPaths::default_config_dir();
    for (file, name) in [
        (ConfigPaths::raps_config_file(), "config.toml"),
        (ConfigPaths::demo_config_file(), "demo.toml"),
        (ConfigPaths::profiles_dir(), "profiles"),
        (ConfigPaths::credentials_file(), "credentials.toml"),
    ] {
        match (&dir, file) {
            (Ok(dir), Ok(file)) => {
                assert_eq!(std::path::Path::new(&file), std::path::Path::new(dir).join(name));
            }
            (Err(e), Err(f)) => {
                assert_eq!(e, &ConfigError::NoHomeDirectory);
                assert_eq!(f, ConfigError::NoHomeDirectory);
            }
            (dir, file) => panic!("{:?} and {:?} disagree", dir, file),
        }
    }
    if let Ok(dir) = dir {
        assert!(std::path::Path::new(&dir).ends_with(".raps"));
    }
}
