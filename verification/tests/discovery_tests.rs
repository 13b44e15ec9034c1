use raps_demo_workflows::workflow::discovery::{
    is_workflow_extension, validate_command, DiscoveryError, ValidationResult, WorkflowDefinition,
    WorkflowDiscovery,
};
use raps_demo_workflows::workflow::graph::{dependency_order, has_cycle};
use raps_demo_workflows::text_map::TextMap;
use raps_demo_workflows::workflow::types::{
    AuthAction, BucketAction, BucketParams, ExecutionStep, ObjectAction, ObjectParams,
    Prerequisite, PrerequisiteType, RapsCommand, WorkflowCategory, WorkflowMetadata,
};

fn metadata(id: &str, name: &str, description: &str) -> WorkflowMetadata {
    WorkflowMetadata {
        id: id.to_string(),
        name: name.to_string(),
        description: description.to_string(),
        category: WorkflowCategory::ObjectStorage,
        prerequisites: vec![],
        estimated_duration: 300,
        cost_estimate: None,
        required_assets: vec![],
        script_path: String::new(),
    }
}

fn step(id: &str, name: &str, command: RapsCommand) -> ExecutionStep {
    ExecutionStep {
        id: id.to_string(),
        name: name.to_string(),
        description: "Test step".to_string(),
        command,
        expected_duration: Some(30),
        cleanup_commands: vec![],
    }
}

fn status_step(id: &str) -> ExecutionStep {
    step(id, "Step 1", RapsCommand::Auth { action: AuthAction::Status })
}

fn create_bucket(name: Option<&str>) -> RapsCommand {
    RapsCommand::Bucket {
        action: BucketAction::Create,
        params: BucketParams {
            bucket_name: name.map(|n| n.to_string()),
            retention_policy: Some("transient".to_string()),
            region: None,
            force: None,
        },
    }
}

fn test_workflow() -> WorkflowDefinition {
    let mut m = metadata("test-workflow", "Test Workflow", "A test workflow for unit testing");
    m.prerequisites = vec![Prerequisite {
        prerequisite_type: PrerequisiteType::Authentication,
        description: "Valid APS credentials".to_string(),
    }];
    WorkflowDefinition {
        metadata: m,
        steps: vec![step("step1", "Create Bucket", create_bucket(Some("test-bucket")))],
        cleanup: vec![RapsCommand::Bucket {
            action: BucketAction::Delete,
            params: BucketParams {
                bucket_name: Some("test-bucket".to_string()),
                retention_policy: None,
                region: None,
                force: Some(true),
            },
        }],
        dependencies: None,
    }
}

fn workflow(id: &str, dependencies: Option<Vec<&str>>) -> WorkflowDefinition {
    WorkflowDefinition {
        metadata: metadata(id, "Workflow", "A workflow"),
        steps: vec![status_step("step1")],
        cleanup: vec![],
        dependencies: dependencies.map(|d| d.iter().map(|s| s.to_string()).collect()),
    }
}

fn discovery_of(definitions: Vec<WorkflowDefinition>) -> WorkflowDiscovery {
    let mut discovery = WorkflowDiscovery::new("./workflows".to_string());
    discovery.discover_workflows(definitions);
    discovery
}

#[test]
fn test_workflow_discovery() {
    let mut discovery = WorkflowDiscovery::new("./workflows".to_string());
    let metadata_list = discovery.discover_workflows(vec![test_workflow()]);
    let workflows = discovery.get_workflows();

    assert_eq!(workflows.len(), 1);
    assert_eq!(metadata_list.len(), 1);
    assert!(workflows.contains_key("test-workflow"));
}

#[test]
fn test_workflow_validation() {
    let discovery = discovery_of(vec![test_workflow()]);
    let result = discovery.validate_workflow(&"test-workflow".to_string(), &vec![]).unwrap();

    assert!(result.is_valid);
    assert!(result.errors.is_empty());
}

#[test]
fn test_invalid_workflow_validation() {
    let invalid = WorkflowDefinition {
        metadata: metadata("invalid-workflow", "", ""),
        steps: vec![],
        cleanup: vec![],
        dependencies: None,
    };
    let discovery = discovery_of(vec![invalid]);
    let result = discovery.validate_workflow(&"invalid-workflow".to_string(), &vec![]).unwrap();

    assert!(!result.is_valid);
    assert!(!result.errors.is_empty());
}

#[test]
fn test_dependency_resolution() {
    let discovery = discovery_of(vec![
        workflow("workflow-a", Some(vec!["workflow-b"])),
        workflow("workflow-b", None),
    ]);
    let deps = discovery.get_workflow_dependencies(&"workflow-a".to_string()).unwrap();

    assert_eq!(deps, vec!["workflow-b".to_string(), "workflow-a".to_string()]);
}

#[test]
fn validation_of_a_minimal_workflow() {
    let minimal = WorkflowDefinition {
        metadata: metadata("test", "T", "d"),
        steps: vec![step("s1", "n", create_bucket(Some("b")))],
        cleanup: vec![],
        dependencies: None,
    };
    let discovery = discovery_of(vec![minimal]);
    let result = discovery.validate_workflow(&"test".to_string(), &vec![]).unwrap();
    assert!(result.is_valid);
    assert!(result.errors.is_empty());
    assert_eq!(result.warnings, vec!["".to_string()]);
}

#[test]
fn duplicate_step_ids_are_reported() {
    let doubled = WorkflowDefinition {
        metadata: metadata("test", "T", "d"),
        steps: vec![
            step("s1", "n", create_bucket(Some("b"))),
            step("s1", "m", create_bucket(Some("c"))),
        ],
        cleanup: vec![],
        dependencies: None,
    };
    let discovery = discovery_of(vec![doubled]);
    let result = discovery.validate_workflow(&"test".to_string(), &vec![]).unwrap();
    assert!(!result.is_valid);
    assert_eq!(result.errors, vec!["Duplicate step ID: s1".to_string()]);
}

#[test]
fn every_structural_error_is_listed_in_order() {
    let mut m = metadata("", "", "");
    m.required_assets = vec!["a.dwg".to_string(), "b.dwg".to_string()];
    let broken = WorkflowDefinition {
        metadata: m,
        steps: vec![
            step("", "", create_bucket(None)),
            step(
                "up",
                "Upload",
                RapsCommand::Object {
                    action: ObjectAction::Upload,
                    params: ObjectParams {
                        bucket_name: String::new(),
                        object_key: None,
                        file_path: None,
                        batch: None,
                        expires_in: None,
                    },
                },
            ),
            step("c", "Custom", RapsCommand::Custom { command: String::new(), args: vec![] }),
        ],
        cleanup: vec![],
        dependencies: Some(vec!["missing".to_string()]),
    };
    let discovery = discovery_of(vec![broken]);
    let result = discovery.validate_workflow(&"".to_string(), &vec!["b.dwg".to_string()]).unwrap();
    assert!(!result.is_valid);
    assert_eq!(
        result.errors,
        vec![
            "Workflow ID cannot be empty".to_string(),
            "Workflow name cannot be empty".to_string(),
            "Step ID cannot be empty".to_string(),
            "Step '' name cannot be empty".to_string(),
            "Invalid command in step '': Bucket command requires bucket_name".to_string(),
            "Invalid command in step 'up': Object command requires bucket_name".to_string(),
            "Invalid command in step 'c': Custom command cannot be empty".to_string(),
            "Dependency workflow not found: missing".to_string(),
        ]
    );
    assert_eq!(
        result.warnings,
        vec!["Workflow description is empty; Required asset not found: a.dwg".to_string()]
    );
}

#[test]
fn a_workflow_without_steps_is_invalid() {
    let empty = WorkflowDefinition {
        metadata: metadata("w", "W", "d"),
        steps: vec![],
        cleanup: vec![],
        dependencies: None,
    };
    let discovery = discovery_of(vec![empty]);
    let result = discovery.validate_workflow(&"w".to_string(), &vec![]).unwrap();
    assert_eq!(result.errors, vec!["Workflow must have at least one step".to_string()]);
}

#[test]
fn an_unknown_workflow_cannot_be_validated() {
    let discovery = discovery_of(vec![test_workflow()]);
    let result = discovery.validate_workflow(&"nope".to_string(), &vec![]);
    assert_eq!(result, Err(DiscoveryError::WorkflowNotFound("nope".to_string())));
    assert_eq!(
        DiscoveryError::WorkflowNotFound("nope".to_string()).to_string(),
        "Workflow not found: nope"
    );
}

#[test]
fn a_cycle_is_reported_by_validation() {
    let discovery = discovery_of(vec![
        workflow("a", Some(vec!["b"])),
        workflow("b", Some(vec!["a"])),
        workflow("c", None),
        workflow("d", Some(vec!["a"])),
    ]);
    assert!(discovery.has_circular_dependency(&"a".to_string()));
    assert!(discovery.has_circular_dependency(&"b".to_string()));
    assert!(!discovery.has_circular_dependency(&"c".to_string()));
    assert!(discovery.has_circular_dependency(&"d".to_string()));
    let result = discovery.validate_workflow(&"a".to_string(), &vec![]).unwrap();
    assert!(!result.is_valid);
    assert_eq!(
        result.errors,
        vec!["Circular dependency detected involving workflow: a".to_string()]
    );
    assert!(discovery.validate_workflow(&"c".to_string(), &vec![]).unwrap().is_valid);
}

#[test]
fn a_workflow_that_depends_on_itself_is_cyclic() {
    let discovery = discovery_of(vec![workflow("a", Some(vec!["a"]))]);
    assert!(discovery.has_circular_dependency(&"a".to_string()));
}

#[test]
fn dependencies_come_before_their_dependants() {
    let discovery = discovery_of(vec![
        workflow("app", Some(vec!["lib", "tools"])),
        workflow("lib", Some(vec!["base"])),
        workflow("tools", Some(vec!["base", "lib"])),
        workflow("base", None),
        workflow("other", None),
    ]);
    for id in ["app", "lib", "tools", "base", "other"] {
        assert!(discovery.validate_workflow(&id.to_string(), &vec![]).unwrap().is_valid);
    }
    let order = discovery.get_workflow_dependencies(&"app".to_string()).unwrap();
    assert_eq!(
        order,
        vec!["base".to_string(), "lib".to_string(), "tools".to_string(), "app".to_string()]
    );
    let graph = discovery.dependency_graph();
    for (place, id) in order.iter().enumerate() {
        for dep in graph.get(id).unwrap() {
            let before = order.iter().position(|x| x == dep).unwrap();
            assert!(before < place);
        }
    }
}

#[test]
fn an_unknown_dependency_stands_in_the_order() {
    let discovery = discovery_of(vec![workflow("a", Some(vec!["x"]))]);
    let order = discovery.get_workflow_dependencies(&"a".to_string()).unwrap();
    assert_eq!(order, vec!["x".to_string(), "a".to_string()]);
    let alone = discovery.get_workflow_dependencies(&"unknown".to_string()).unwrap();
    assert_eq!(alone, vec!["unknown".to_string()]);
}

#[test]
fn graph_functions_work_on_a_plain_map() {
    let mut graph: TextMap<Vec<String>> = TextMap::new();
    graph.insert("a".to_string(), vec!["b".to_string(), "c".to_string()]);
    graph.insert("b".to_string(), vec!["c".to_string()]);
    graph.insert("c".to_string(), vec![]);
    assert!(!has_cycle(&graph, &"a".to_string()));
    assert_eq!(
        dependency_order(&graph, &"a".to_string()),
        vec!["c".to_string(), "b".to_string(), "a".to_string()]
    );
    graph.insert("c".to_string(), vec!["a".to_string()]);
    assert!(has_cycle(&graph, &"b".to_string()));
}

#[test]
fn a_later_definition_replaces_an_earlier_one() {
    let mut first = workflow("w", None);
    first.metadata.name = "First".to_string();
    let mut second = workflow("w", None);
    second.metadata.name = "Second".to_string();
    let mut discovery = WorkflowDiscovery::new("dir".to_string());
    let found = discovery.discover_workflows(vec![first, second]);
    assert_eq!(found.len(), 2);
    assert_eq!(discovery.get_workflows().len(), 1);
    assert_eq!(discovery.get_workflow(&"w".to_string()).unwrap().metadata.name, "Second");
    assert!(discovery.get_workflow(&"v".to_string()).is_none());
    assert_eq!(discovery.workflows_dir(), "dir");
    let again = discovery.refresh(vec![]);
    assert!(again.is_empty());
    assert!(discovery.get_workflows().is_empty());
}

#[test]
fn workflows_are_found_by_category() {
    let mut md = workflow("md", None);
    md.metadata.category = WorkflowCategory::ModelDerivative;
    let discovery = discovery_of(vec![workflow("a", None), md, workflow("b", None)]);
    let storage = discovery.get_workflows_by_category(&WorkflowCategory::ObjectStorage);
    let ids: Vec<&str> = storage.iter().map(|w| w.metadata.id.as_str()).collect();
    assert_eq!(ids, vec!["a", "b"]);
    assert!(discovery.get_workflows_by_category(&WorkflowCategory::Webhooks).is_empty());
}

#[test]
fn validation_results_are_built_step_by_step() {
    let ok = ValidationResult::success();
    assert!(ok.is_valid && ok.errors.is_empty() && ok.warnings.is_empty());
    let bad = ValidationResult::with_errors(vec!["e".to_string()]).with_warning("w".to_string());
    assert!(!bad.is_valid);
    assert_eq!(bad.errors, vec!["e".to_string()]);
    assert_eq!(bad.warnings, vec!["w".to_string()]);
}

#[test]
fn commands_are_checked_for_their_shape() {
    assert_eq!(
        validate_command(&create_bucket(None)),
        Err("Bucket command requires bucket_name".to_string())
    );
    assert_eq!(validate_command(&create_bucket(Some("b"))), Ok(()));
    assert_eq!(validate_command(&RapsCommand::Auth { action: AuthAction::Login }), Ok(()));
    assert_eq!(
        validate_command(&RapsCommand::Custom { command: String::new(), args: vec![] }),
        Err("Custom command cannot be empty".to_string())
    );
}

#[test]
fn only_yaml_files_hold_workflows() {
    assert!(is_workflow_extension("yaml"));
    assert!(is_workflow_extension("yml"));
    assert!(!is_workflow_extension("json"));
    assert!(!is_workflow_extension("YAML"));
    assert!(!is_workflow_extension(""));
}

#[test]
fn categories_have_display_names() {
    assert_eq!(WorkflowCategory::ObjectStorage.to_string(), "Object Storage");
    assert_eq!(WorkflowCategory::EndToEnd.to_string(), "End-to-End");
    assert_eq!(WorkflowCategory::DesignAutomation.to_string(), "Design Automation");
}
