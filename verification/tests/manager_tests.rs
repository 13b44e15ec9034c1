use raps_demo_workflows::assets::AssetCategory;
use raps_demo_workflows::config::manager::{ConfigManager, EnvSettings};
use raps_demo_workflows::config::types::{
    AuthTokens, ConfigError, DemoConfig, LogLevel, Profile, RapsConfig,
};
use raps_demo_workflows::demo::DemoManager;
use raps_demo_workflows::preflight::{CheckAction, PreflightChecker};
use raps_demo_workflows::resource::manager::ResourceManager;
use raps_demo_workflows::resource::types::{ResourceType, TrackedResource};
use raps_demo_workflows::workflow::discovery::WorkflowDefinition;
use raps_demo_workflows::workflow::engine::WorkflowEngine;
use raps_demo_workflows::workflow::executor::EventKind;
use raps_demo_workflows::workflow::types::{
    AuthAction, ExecutionOptions, ExecutionStep, Prerequisite, PrerequisiteType, RapsCommand,
    WorkflowCategory, WorkflowMetadata,
};

fn manager() -> ConfigManager {
    ConfigManager::with_config_dir("/cfg".to_string(), "/tmp".to_string())
}

fn tokens(expires_at: i64) -> AuthTokens {
    AuthTokens {
        access_token: "file-token".to_string(),
        refresh_token: Some("r".to_string()),
        expires_at,
        scopes: vec!["s".to_string()],
    }
}

fn metadata(id: &str, category: WorkflowCategory) -> WorkflowMetadata {
    WorkflowMetadata {
        id: id.to_string(),
        name: format!("Workflow {}", id),
        description: "d".to_string(),
        category,
        prerequisites: vec![],
        estimated_duration: 1,
        cost_estimate: None,
        required_assets: vec![],
        script_path: String::new(),
    }
}

fn workflow(id: &str, category: WorkflowCategory) -> WorkflowDefinition {
    WorkflowDefinition {
        metadata: metadata(id, category),
        steps: vec![ExecutionStep {
            id: "s".to_string(),
            name: "S".to_string(),
            description: "d".to_string(),
            command: RapsCommand::Auth { action: AuthAction::Status },
            expected_duration: None,
            cleanup_commands: vec![],
        }],
        cleanup: vec![],
        dependencies: None,
    }
}

#[test]
fn the_environment_wins_over_the_file() {
    let mut m = manager();
    assert_eq!(m.config_dir(), "/cfg");
    m.load_from_environment_at(
        EnvSettings {
            client_id: Some("env-id".to_string()),
            access_token: Some("env-token".to_string()),
            log_level: Some("DEBUG".to_string()),
            base_url: Some("https://b".to_string()),
            ..Default::default()
        },
        1_000,
    );
    assert_eq!(m.raps_config().client_id, "env-id");
    assert_eq!(m.raps_config().base_url, "https://b");
    assert_eq!(m.raps_config().environment, "production");
    assert_eq!(m.demo_config().log_level, LogLevel::Debug);
    assert_eq!(
        m.raps_config().auth_tokens,
        Some(AuthTokens {
            access_token: "env-token".to_string(),
            refresh_token: None,
            expires_at: 4_600,
            scopes: vec!["data:read".to_string(), "data:write".to_string()],
        })
    );
    let mut file = RapsConfig::default();
    file.client_id = "file-id".to_string();
    file.client_secret = "file-secret".to_string();
    file.callback_url = Some("cb".to_string());
    file.current_profile = Some("work".to_string());
    file.auth_tokens = Some(tokens(9));
    file.environment = "staging".to_string();
    m.load_raps_config(&file);
    assert_eq!(m.raps_config().client_id, "env-id");
    assert_eq!(m.raps_config().client_secret, "file-secret");
    assert_eq!(m.raps_config().callback_url, Some("cb".to_string()));
    assert_eq!(m.current_profile(), Some("work"));
    assert_eq!(m.raps_config().auth_tokens.as_ref().unwrap().access_token, "env-token");
    assert_eq!(m.raps_config().environment, "production");
    m.load_from_environment_at(
        EnvSettings { log_level: Some("loud".to_string()), ..Default::default() },
        i64::MAX,
    );
    assert_eq!(m.demo_config().log_level, LogLevel::Debug);
    assert_eq!(m.raps_config().client_id, "env-id");
    m.load_from_environment_at(
        EnvSettings { access_token: Some("t".to_string()), ..Default::default() },
        i64::MAX - 5,
    );
    assert_eq!(m.raps_config().auth_tokens.as_ref().unwrap().expires_at, i64::MAX);
    assert_eq!(
        ConfigManager::determine_config_dir(Some("/x".to_string())),
        Ok("/x".to_string())
    );
}

#[test]
fn profiles_are_created_switched_and_deleted() {
    let mut m = manager();
    assert_eq!(m.create_profile_at("work".to_string(), Some("d".to_string()), "/t".to_string(), 5), Ok(()));
    assert_eq!(
        m.create_profile("work".to_string(), None, "/t".to_string()),
        Err(ConfigError::ProfileExists("work".to_string()))
    );
    assert_eq!(
        ConfigError::ProfileExists("work".to_string()).to_string(),
        "Profile 'work' already exists"
    );
    let mut home = Profile::new_at("home".to_string(), None, "/t".to_string(), 6);
    home.raps_config.client_id = "home-id".to_string();
    home.raps_config.client_secret = "home-secret".to_string();
    home.raps_config.auth_tokens = Some(tokens(100));
    home.demo_config = DemoConfig::with_temp_dir("/home-tmp".to_string());
    home.demo_config.log_level = LogLevel::Trace;
    home.demo_config.max_concurrent_workflows = 0;
    m.load_profile(home);
    assert_eq!(m.profiles().len(), 2);
    assert_eq!(
        m.switch_profile_at("nowhere", 7),
        Err(ConfigError::ProfileNotFound("nowhere".to_string()))
    );
    assert_eq!(
        ConfigError::ProfileNotFound("nowhere".to_string()).to_string(),
        "Profile 'nowhere' not found"
    );
    assert_eq!(m.current_profile(), None);
    assert_eq!(m.switch_profile_at("home", 7), Ok(()));
    assert_eq!(m.current_profile(), Some("home"));
    assert!(m.is_current_profile("home"));
    assert_eq!(m.raps_config().client_id, "home-id");
    assert_eq!(m.demo_config().log_level, LogLevel::Trace);
    assert_eq!(m.demo_config().temp_dir_base, "/home-tmp");
    assert_eq!(m.profiles().get("home").unwrap().last_used_at, Some(7));
    assert_eq!(m.profiles().get("work").unwrap().last_used_at, None);
    assert_eq!(m.delete_profile("home"), Err(ConfigError::CannotDeleteCurrentProfile));
    assert_eq!(
        ConfigError::CannotDeleteCurrentProfile.to_string(),
        "Cannot delete the current profile"
    );
    assert_eq!(m.delete_profile("gone"), Err(ConfigError::ProfileNotFound("gone".to_string())));
    assert_eq!(m.delete_profile("work"), Ok(()));
    assert_eq!(m.profiles().len(), 1);
    assert_eq!(m.switch_profile("home"), Ok(()));
    assert!(m.apply_profile("work").is_err());
}

#[test]
fn the_configuration_is_validated() {
    let mut m = manager();
    let bare = m.validate_at(false, 50);
    assert!(!bare.is_valid);
    assert_eq!(
        bare.errors,
        vec!["Missing APS credentials (client_id and client_secret)".to_string()]
    );
    assert_eq!(
        bare.warnings,
        vec![
            "No valid authentication tokens found".to_string(),
            "Asset base path does not exist: Assets".to_string()
        ]
    );
    assert!(!m.is_ready_at(50));
    assert!(!m.is_ready());
    let mut file = RapsConfig::default();
    file.client_id = "id".to_string();
    file.client_secret = "secret".to_string();
    m.load_raps_config(&file);
    m.update_auth_tokens(tokens(1_000));
    let fine = m.validate_at(true, 50);
    assert!(fine.is_valid && !fine.has_issues());
    assert!(m.is_ready_at(50));
    assert!(!m.is_ready_at(1_000));
    assert!(m.is_auth_healthy_at(699));
    assert!(!m.is_auth_healthy_at(700));
    assert!(!m.needs_refresh_at(699));
    assert!(m.needs_refresh_at(700));
    let mut none = DemoConfig::with_temp_dir("/t".to_string());
    none.max_concurrent_workflows = 0;
    m.load_demo_config(none);
    assert_eq!(
        m.validate(true).errors,
        vec!["max_concurrent_workflows must be greater than 0".to_string()]
    );
    m.clear_auth_tokens();
    assert!(!m.is_auth_healthy());
    assert!(!m.needs_refresh_at(0));
    assert_eq!(m.get_setup_instructions().steps.len(), 2);
    let guide = m.get_troubleshooting_guide(&bare);
    assert_eq!(guide.solutions.len(), 1);
    assert_eq!(m.auth_validator().base_url(), "https://developer.api.autodesk.com");
}

#[test]
fn test_preflight_checker_creation() {
    let checker = PreflightChecker::new();
    assert!(std::path::Path::new(checker.assets_dir()).ends_with("autodesk"));
}

#[test]
fn the_checks_before_a_run_name_what_is_missing() {
    let checker = PreflightChecker::default().with_assets_dir("assets".to_string());
    assert_eq!(checker.assets_dir(), "assets");
    let mut m = metadata("w", WorkflowCategory::ModelDerivative);
    let free = checker.check(&m, false, &vec![]);
    assert!(free.all_passed);
    assert_eq!(free.summary(), "✓ Ready to run");
    assert_eq!(free.auth_status().unwrap().message, "Not required for this workflow");
    assert_eq!(free.assets_status().unwrap().message, "No assets required");
    m.prerequisites = vec![
        Prerequisite { prerequisite_type: PrerequisiteType::Permissions, description: "p".to_string() },
        Prerequisite { prerequisite_type: PrerequisiteType::Authentication, description: "a".to_string() },
        Prerequisite { prerequisite_type: PrerequisiteType::ExternalTool, description: "t".to_string() },
        Prerequisite { prerequisite_type: PrerequisiteType::Assets, description: "f".to_string() },
    ];
    m.required_assets = vec![
        "models/Revit/basic.rvt".to_string(),
        "models/revit/ADVANCED.rvt".to_string(),
        "models/inventor/stapler.iam".to_string(),
        "models/revit/basic-two.rvt".to_string(),
    ];
    let status = checker.check(&m, false, &vec!["models/revit/ADVANCED.rvt".to_string()]);
    assert!(!status.all_passed);
    assert_eq!(status.blocking_checks, vec!["Authentication".to_string(), "Assets".to_string()]);
    assert_eq!(status.summary(), "✗ Missing: Authentication, Assets");
    let names: Vec<&str> = status.checks.iter().map(|c| c.name.as_str()).collect();
    assert_eq!(names, vec!["Authentication", "Assets", "Permissions", "External Tool"]);
    let auth = status.auth_status().unwrap();
    assert_eq!(auth.message, "APS authentication required");
    assert!(matches!(auth.action, Some(CheckAction::Login)));
    let assets = status.assets_status().unwrap();
    assert_eq!(assets.message, "2 asset(s) need download");
    match &assets.action {
        Some(CheckAction::DownloadAssets(offered)) => {
            let offered: Vec<&str> = offered.iter().map(|a| a.name.as_str()).collect();
            assert_eq!(offered, vec!["Revit MEP Basic Sample Family", "Inventor 2022 Samples"]);
        }
        other => panic!("expected assets to download, got {:?}", other),
    }
    let logged_in = checker.check(&m, true, &m.required_assets.clone());
    assert!(logged_in.all_passed);
    assert_eq!(logged_in.auth_status().unwrap().message, "APS credentials found");
    assert_eq!(logged_in.assets_status().unwrap().message, "4 asset(s) available");
    m.required_assets = vec!["plain/a.txt".to_string(), "plain/b \"x\".txt".to_string()];
    let unknown = checker.check_assets(&m, &vec![]);
    assert!(!unknown.passed);
    assert_eq!(unknown.message, "2 file(s) missing");
    match unknown.action {
        Some(CheckAction::Instruction(text)) => {
            assert_eq!(text, "Missing files: [\"plain/a.txt\", \"plain/b \\\"x\\\".txt\"]");
        }
        other => panic!("expected an instruction, got {:?}", other),
    }
}

#[test]
fn a_missing_path_is_matched_to_an_asset_by_its_product() {
    let checker = PreflightChecker::new();
    let name = |path: &str| checker.find_matching_asset(path).map(|a| a.name);
    assert_eq!(name("x/Inventor/Stapler.iam"), Some("Inventor 2022 Samples".to_string()));
    assert_eq!(name("x/inventor/other.ipt"), Some("Inventor 2022 Samples".to_string()));
    assert_eq!(
        name("revit/advanced-structure.rvt"),
        Some("Revit MEP Advanced Sample Family".to_string())
    );
    assert_eq!(name("revit/plain.rvt"), Some("Revit MEP Advanced Sample Family".to_string()));
    assert_eq!(name("autocad/plan.dwg"), None);
    assert_eq!(name("fusion/part.f3d"), None);
    assert_eq!(name("civil/site.dwg"), None);
    assert_eq!(name("somewhere/else.bin"), None);
    let all = checker.get_all_assets_with_status(&vec![false, true]);
    assert_eq!(all.len(), 9);
    assert!(!all[0].1 && all[1].1 && !all[8].1);
    assert_eq!(all[1].0.category, AssetCategory::Inventor);
    assert_eq!(checker.registry().all().len(), 9);
}

#[test]
fn the_demo_manager_groups_workflows_by_category() {
    let mut demo = DemoManager::with_workflows_dir("flows".to_string());
    assert_eq!(demo.workflows_dir(), "flows");
    assert!(demo.get_workflows().is_empty());
    assert!(demo.get_workflow(&"a".to_string()).is_none());
    demo.initialize(vec![
        workflow("a", WorkflowCategory::ObjectStorage),
        workflow("b", WorkflowCategory::Webhooks),
        workflow("c", WorkflowCategory::ObjectStorage),
    ]);
    assert_eq!(demo.get_workflows().len(), 3);
    assert_eq!(demo.get_workflow(&"b".to_string()).unwrap().metadata.name, "Workflow b");
    let groups = demo.get_workflows_by_category();
    assert_eq!(groups.len(), 2);
    let storage: Vec<&str> =
        groups.get("Object Storage").unwrap().iter().map(|m| m.id.as_str()).collect();
    assert_eq!(storage, vec!["a", "c"]);
    assert_eq!(groups.get("Webhooks").unwrap().len(), 1);
    let found = demo.refresh(vec![workflow("z", WorkflowCategory::EndToEnd)]);
    assert_eq!(found.len(), 1);
    assert_eq!(found[0].id, "z");
    assert!(demo.get_workflow(&"a".to_string()).is_none());
    assert_eq!(DemoManager::new().workflows_dir(), "./workflows");
    assert_eq!(DemoManager::default().get_workflows().len(), 0);
}

#[test]
fn the_engine_runs_what_it_has_found() {
    let mut engine = WorkflowEngine::new("flows".to_string());
    assert!(engine.get_workflows().is_empty());
    let found = engine.refresh(vec![workflow("a", WorkflowCategory::ObjectStorage)]);
    assert_eq!(found.len(), 1);
    assert!(engine.get_workflow(&"a".to_string()).is_some());
    let options = ExecutionOptions::default();
    let missing = engine.execute(&"nope".to_string(), options, &vec![], String::new());
    assert_eq!(missing.unwrap_err().message, "Workflow not found: nope");
    let blocked =
        engine.execute(&"a".to_string(), options, &vec!["no login".to_string()], String::new());
    assert_eq!(blocked.unwrap_err().message, "Prerequisite validation failed:\nno login");
    let (handle, update) =
        engine.execute(&"a".to_string(), options, &vec![], "/tmp/x".to_string()).unwrap();
    assert_eq!(handle.workflow_id, "a");
    assert_eq!(update.event_kind(), EventKind::Started);
    assert!(engine.executor().get_execution(&handle).is_some());
}

#[test]
fn the_resource_manager_holds_the_ledger() {
    let mut manager = ResourceManager::with_state_file("state.json".to_string());
    assert!(manager.tracker().get_all_resources().is_empty());
    assert_eq!(manager.tracker().state_file(), "state.json");
    let resource = TrackedResource::with_identity(
        1,
        0,
        ResourceType::Photoscene { scene_type: "s".to_string() },
        "a".to_string(),
        "demo-a".to_string(),
        "w".to_string(),
        vec![],
    );
    manager.tracker_mut().track_resource(resource);
    assert_eq!(manager.tracker().get_all_resources().len(), 1);
    let tracker = manager.into_tracker();
    let again = ResourceManager::with_tracker(tracker);
    assert_eq!(again.tracker().get_all_resources().len(), 1);
}

#[test]
fn lasting_tokens_make_a_valid_configuration_ready() {
    let mut m = manager();
    m.update_auth_tokens(tokens(i64::MAX));
    assert!(m.is_auth_healthy());
    assert!(!m.is_ready());
    let mut file = RapsConfig::default();
    file.client_id = "id".to_string();
    file.client_secret = "secret".to_string();
    m.load_raps_config(&file);
    m.update_auth_tokens(tokens(i64::MAX));
    assert!(m.is_ready());
    assert!(m.is_auth_healthy());
    assert_eq!(m.auth_validator().base_url(), "https://developer.api.autodesk.com");
    m.update_auth_tokens(tokens(0));
    assert!(!m.is_ready());
    assert!(!m.is_auth_healthy());
    assert_eq!(m.auth_validator().health_url(), "https://developer.api.autodesk.com/health");
}
