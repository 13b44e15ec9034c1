use raps_demo_workflows::text_map::TextMap;
use raps_demo_workflows::workflow::client::{CommandResult, JsonMember, JsonOutput, RapsClient};
use raps_demo_workflows::workflow::discovery::WorkflowDefinition;
use raps_demo_workflows::workflow::executor::{
    capture_json_outputs, generate_recovery_suggestions, resolve_step, seconds_between, EventKind,
    ExecutionError, ExecutionState, ExecutionUpdate, RunAction, WorkflowExecutor,
};
use raps_demo_workflows::workflow::placeholders::{substitute, substitute_command};
use raps_demo_workflows::workflow::types::{
    AuthAction, BucketAction, BucketParams, ExecutionHandle, ExecutionOptions, ExecutionStatus,
    ExecutionStep, ObjectAction, ObjectParams, RapsCommand, TranslateAction, TranslateParams,
    WorkflowCategory, WorkflowMetadata,
};

fn placeholders(pairs: &[(&str, &str)]) -> TextMap<String> {
    let mut m: TextMap<String> = TextMap::new();
    for (k, v) in pairs {
        m.insert(k.to_string(), v.to_string());
    }
    m
}

fn translate(urn: &str) -> RapsCommand {
    RapsCommand::Translate {
        action: TranslateAction::Start,
        params: TranslateParams {
            urn: Some(urn.to_string()),
            format: Some("svf2".to_string()),
            output_dir: None,
            wait: None,
        },
    }
}

fn step(id: &str, command: RapsCommand) -> ExecutionStep {
    ExecutionStep {
        id: id.to_string(),
        name: format!("Step {}", id),
        description: "d".to_string(),
        command,
        expected_duration: None,
        cleanup_commands: vec![],
    }
}

fn workflow(id: &str, steps: Vec<ExecutionStep>) -> WorkflowDefinition {
    WorkflowDefinition {
        metadata: WorkflowMetadata {
            id: id.to_string(),
            name: "W".to_string(),
            description: "d".to_string(),
            category: WorkflowCategory::ModelDerivative,
            prerequisites: vec![],
            estimated_duration: 60,
            cost_estimate: None,
            required_assets: vec!["model.rvt".to_string()],
            script_path: String::new(),
        },
        steps,
        cleanup: vec![],
        dependencies: None,
    }
}

fn options(interactive: bool) -> ExecutionOptions {
    ExecutionOptions { interactive, verbose: false, auto_cleanup: true, timeout: 1800 }
}

fn two_steps() -> WorkflowDefinition {
    workflow(
        "w",
        vec![
            step(
                "upload",
                RapsCommand::Object {
                    action: ObjectAction::Upload,
                    params: ObjectParams {
                        bucket_name: "b-{uuid}".to_string(),
                        object_key: None,
                        file_path: Some("model.rvt".to_string()),
                        batch: None,
                        expires_in: None,
                    },
                },
            ),
            step("translate", translate("{urn}")),
        ],
    )
}

fn started(interactive: bool) -> ExecutionState {
    let handle = ExecutionHandle::with_id(7, "w".to_string());
    let (state, update) = ExecutionState::start(
        handle,
        two_steps(),
        options(interactive),
        "/tmp/run".to_string(),
        "0000-uuid".to_string(),
        1_000,
    );
    assert_eq!(update.event_kind(), EventKind::Started);
    state
}

fn ok(stdout: &str) -> CommandResult {
    CommandResult::new(0, stdout.to_string(), String::new(), 5)
}

fn failed(stderr: &str) -> CommandResult {
    CommandResult::new(2, String::new(), stderr.to_string(), 5)
}

fn expect_step(action: RunAction) -> ExecutionStep {
    match action {
        RunAction::Execute { step, update } => {
            assert_eq!(update.event_kind(), EventKind::StepStarted);
            step
        }
        other => panic!("expected a step, got {:?}", other),
    }
}

fn expect_event(action: RunAction) -> ExecutionUpdate {
    match action {
        RunAction::Publish(update) => update,
        other => panic!("expected an event, got {:?}", other),
    }
}

#[test]
fn substitution_replaces_known_names_only() {
    let m = placeholders(&[("urn", "u-123"), ("a.b", "scoped"), ("empty", "")]);
    assert_eq!(substitute("x {urn} y", &m), "x u-123 y");
    assert_eq!(substitute("{urn}{urn}", &m), "u-123u-123");
    assert_eq!(substitute("{a.b}", &m), "scoped");
    assert_eq!(substitute("{unknown}", &m), "{unknown}");
    assert_eq!(substitute("[{empty}]", &m), "[]");
    assert_eq!(substitute("{urn", &m), "{urn");
    assert_eq!(substitute("urn}", &m), "urn}");
    assert_eq!(substitute("{{urn}", &m), "{u-123");
    assert_eq!(substitute("{x{urn}}", &m), "{xu-123}");
    assert_eq!(substitute("", &m), "");
}

#[test]
fn substitution_does_not_read_values_again() {
    let m = placeholders(&[("a", "{b}"), ("b", "end")]);
    assert_eq!(substitute("{a}", &m), "{b}");
    assert_eq!(substitute("{a}{b}", &m), "{b}end");
}

#[test]
fn substitution_leaves_texts_without_patterns_alone() {
    let m = placeholders(&[("urn", "u-123")]);
    for text in ["plain", "}{", "a } b { c", "{", "}}}", "no braces at all"] {
        let once = substitute(text, &m);
        assert_eq!(once, text);
        assert_eq!(substitute(&once, &m), once);
    }
}

#[test]
fn substitution_reaches_every_text_of_a_command() {
    let m = placeholders(&[("n", "1")]);
    let command = RapsCommand::Custom {
        command: "run-{n}".to_string(),
        args: vec!["{n}".to_string(), "x".to_string(), "{m}".to_string()],
    };
    assert_eq!(
        substitute_command(&command, &m),
        RapsCommand::Custom {
            command: "run-1".to_string(),
            args: vec!["1".to_string(), "x".to_string(), "{m}".to_string()],
        }
    );
    let bucket = RapsCommand::Bucket {
        action: BucketAction::Create,
        params: BucketParams {
            bucket_name: Some("b{n}".to_string()),
            retention_policy: Some("{n}".to_string()),
            region: None,
            force: Some(true),
        },
    };
    assert_eq!(
        substitute_command(&bucket, &m),
        RapsCommand::Bucket {
            action: BucketAction::Create,
            params: BucketParams {
                bucket_name: Some("b1".to_string()),
                retention_policy: Some("1".to_string()),
                region: None,
                force: Some(true),
            },
        }
    );
    let auth = RapsCommand::Auth { action: AuthAction::Login };
    assert_eq!(substitute_command(&auth, &m), auth);
}

#[test]
fn a_step_is_resolved_with_its_cleanup_commands() {
    let m = placeholders(&[("urn", "u-9")]);
    let mut s = step("t", translate("{urn}"));
    s.cleanup_commands = vec![translate("{urn}-old")];
    let resolved = resolve_step(&s, &m);
    assert_eq!(resolved.id, "t");
    assert_eq!(resolved.command, translate("u-9"));
    assert_eq!(resolved.cleanup_commands, vec![translate("u-9-old")]);
}

fn member(
    key: &str,
    text: Option<&str>,
    number: Option<&str>,
    integer: Option<i64>,
    flag: Option<bool>,
) -> JsonMember {
    JsonMember {
        key: key.to_string(),
        text: text.map(|t| t.to_string()),
        number: number.map(|n| n.to_string()),
        integer,
        flag,
    }
}

#[test]
fn outputs_are_captured_under_both_names() {
    let mut m = placeholders(&[("urn", "old")]);
    let json = JsonOutput::Object(vec![
        member("count", None, Some("3"), Some(3), None),
        member("nothing", None, None, None, None),
        member("big", None, None, Some(-12), None),
        member("ready", None, None, None, Some(true)),
        member("urn", Some("u-123"), None, None, None),
    ]);
    capture_json_outputs(&json, "step1", &mut m);
    assert_eq!(m.get("urn"), Some(&"u-123".to_string()));
    assert_eq!(m.get("step1.urn"), Some(&"u-123".to_string()));
    assert_eq!(m.get("count"), Some(&"3".to_string()));
    assert_eq!(m.get("step1.count"), Some(&"3".to_string()));
    assert_eq!(m.get("big"), Some(&"-12".to_string()));
    assert_eq!(m.get("ready"), Some(&"true".to_string()));
    assert_eq!(m.get("step1.ready"), Some(&"true".to_string()));
    assert_eq!(m.get("nothing"), None);
    assert_eq!(m.len(), 8);
    capture_json_outputs(&JsonOutput::Other, "step2", &mut m);
    assert_eq!(m.len(), 8);
}

#[test]
fn printed_json_is_read() {
    let result = ok("{\"urn\":\"u-123\",\"size\":42,\"ratio\":1.5,\"ok\":true,\"nested\":{\"a\":1}}");
    let members = match result.json_output {
        Some(JsonOutput::Object(members)) => members,
        other => panic!("expected an object, got {:?}", other),
    };
    let keys: Vec<&str> = members.iter().map(|m| m.key.as_str()).collect();
    assert_eq!(keys, vec!["nested", "ok", "ratio", "size", "urn"]);
    let urn = members.iter().find(|m| m.key == "urn").unwrap();
    assert_eq!(urn.text, Some("u-123".to_string()));
    assert_eq!(urn.number, None);
    let size = members.iter().find(|m| m.key == "size").unwrap();
    assert_eq!(size.number, Some("42".to_string()));
    assert_eq!(size.integer, Some(42));
    let ratio = members.iter().find(|m| m.key == "ratio").unwrap();
    assert_eq!(ratio.number, Some("1.5".to_string()));
    assert_eq!(ratio.integer, None);
    let flag = members.iter().find(|m| m.key == "ok").unwrap();
    assert_eq!((flag.text.clone(), flag.number.clone(), flag.integer), (None, None, None));
    assert_eq!(flag.flag, Some(true));
    let nested = members.iter().find(|m| m.key == "nested").unwrap();
    assert_eq!(
        (nested.text.clone(), nested.number.clone(), nested.integer, nested.flag),
        (None, None, None, None)
    );
}

#[test]
fn output_that_is_no_json_is_no_error() {
    assert_eq!(ok("not json").json_output, None);
    assert_eq!(ok("   \n").json_output, None);
    assert_eq!(ok("").json_output, None);
    assert_eq!(ok("[1, 2]").json_output, Some(JsonOutput::Other));
    assert_eq!(ok("17").json_output, Some(JsonOutput::Other));
    let failure = CommandResult::new(1, "{\"a\":1}".to_string(), String::new(), 1);
    assert_eq!(failure.json_output, None);
    assert!(!failure.success);
}

#[test]
fn the_message_of_a_failure_names_code_and_output() {
    let result = CommandResult::new(-3, "out".to_string(), "err".to_string(), 1);
    assert_eq!(
        result.error_message(),
        Some(
            "RAPS CLI command failed with exit code -3\nError output: err\nStandard output: out"
                .to_string()
        )
    );
    let bare = CommandResult::new(1, String::new(), String::new(), 1);
    assert_eq!(
        bare.error_message(),
        Some("RAPS CLI command failed with exit code 1".to_string())
    );
    assert_eq!(
        RapsClient::validate_raps_cli(&bare),
        Err("RAPS CLI validation failed: RAPS CLI command failed with exit code 1".to_string())
    );
    assert_eq!(RapsClient::validate_raps_cli(&ok("raps 1.0")), Ok(()));
    assert!(RapsClient::check_auth_status(&ok("")));
    assert!(!RapsClient::check_auth_status(&bare));
}

#[test]
fn placeholder_flow_from_one_step_to_the_next() {
    let mut state = started(false);
    let first = expect_step(state.next_action(1_001));
    assert_eq!(first.id, "upload");
    let client = RapsClient::new();
    assert_eq!(
        client.build_command_args(&first.command),
        vec![
            "object",
            "upload",
            "b-0000-uuid",
            "model.rvt",
            "--non-interactive",
            "--output",
            "json"
        ]
    );
    let update = state.record_step_result(&first, ok("{\"urn\":\"u-123\"}"), 1_001, 1_003);
    assert_eq!(update.unwrap().event_kind(), EventKind::StepCompleted);
    let second = expect_step(state.next_action(1_004));
    assert_eq!(second.command, translate("u-123"));
    let args = client.build_command_args(&second.command);
    assert!(args.contains(&"u-123".to_string()));
    assert_eq!(state.placeholders.get("upload.urn"), Some(&"u-123".to_string()));
    assert_eq!(state.placeholders.get("timestamp"), Some(&"1000".to_string()));
}

#[test]
fn a_run_without_failures_follows_the_pattern() {
    let mut state = started(false);
    let mut kinds = vec![EventKind::Started];
    let first = expect_step(state.next_action(1_001));
    kinds.push(EventKind::StepStarted);
    kinds.push(state.record_step_result(&first, ok("{}"), 1_001, 1_002).unwrap().event_kind());
    let second = expect_step(state.next_action(1_002));
    kinds.push(EventKind::StepStarted);
    kinds.push(state.record_step_result(&second, ok(""), 1_002, 1_005).unwrap().event_kind());
    let done = expect_event(state.next_action(1_010));
    kinds.push(done.event_kind());
    assert_eq!(
        kinds,
        vec![
            EventKind::Started,
            EventKind::StepStarted,
            EventKind::StepCompleted,
            EventKind::StepStarted,
            EventKind::StepCompleted,
            EventKind::Completed
        ]
    );
    match done {
        ExecutionUpdate::Completed { handle, result } => {
            assert_eq!(handle.id, 7);
            assert!(result.success);
            assert_eq!(result.duration, 10);
            assert_eq!(result.steps_completed, 2);
            assert_eq!(result.total_steps, 2);
            assert!(!result.cleanup_performed);
        }
        other => panic!("expected completion, got {:?}", other),
    }
    assert_eq!(state.status, ExecutionStatus::Completed);
    assert!(matches!(state.next_action(1_011), RunAction::Stop));
}

#[test]
fn an_interactive_run_pauses_between_steps() {
    let mut state = started(true);
    let first = expect_step(state.next_action(1_001));
    state.record_step_result(&first, ok(""), 1_001, 1_002);
    let paused = expect_event(state.next_action(1_002));
    match paused {
        ExecutionUpdate::Paused { next_step, .. } => assert_eq!(next_step.id, "translate"),
        other => panic!("expected a pause, got {:?}", other),
    }
    assert_eq!(state.status, ExecutionStatus::Paused);
    assert!(matches!(state.next_action(1_003), RunAction::Stop));
    assert!(state.resume());
    assert!(!state.resume());
    assert_eq!(state.status, ExecutionStatus::Running);
    let second = expect_step(state.next_action(1_004));
    assert_eq!(second.id, "translate");
}

#[test]
fn a_failed_step_fails_the_run_with_advice() {
    let mut state = started(false);
    let first = expect_step(state.next_action(1_001));
    let update = state.record_step_result(&first, failed("object not found: network down"), 1_001, 1_002);
    match update {
        Some(ExecutionUpdate::Failed { error, .. }) => {
            assert_eq!(error.failed_step, Some("upload".to_string()));
            assert!(error.is_recoverable);
            assert_eq!(
                error.recovery_suggestions,
                vec![
                    "Verify the bucket exists and the object key is correct".to_string(),
                    "Check your internet connection and try again".to_string()
                ]
            );
            assert_eq!(
                error.message,
                "RAPS CLI command failed with exit code 2\nError output: object not found: network down"
            );
        }
        other => panic!("expected a failure, got {:?}", other),
    }
    assert_eq!(state.status, ExecutionStatus::Failed);
    assert_eq!(state.current_step_index, 0);
    assert_eq!(state.completed_steps.len(), 1);
    assert_eq!(state.completed_steps[0].status, ExecutionStatus::Failed);
    assert!(matches!(state.next_action(1_003), RunAction::Stop));
}

#[test]
fn a_result_that_comes_after_cancellation_is_dropped() {
    let mut state = started(false);
    let first = expect_step(state.next_action(1_001));
    let cancelled = state.cancel();
    assert_eq!(cancelled.event_kind(), EventKind::Cancelled);
    assert!(state.record_step_result(&first, ok("{\"urn\":\"x\"}"), 1_001, 1_002).is_none());
    assert_eq!(state.status, ExecutionStatus::Cancelled);
    assert!(state.completed_steps.is_empty());
    assert_eq!(state.current_step_index, 0);
    assert!(!state.placeholders.contains_key("urn"));
    assert!(matches!(state.next_action(1_003), RunAction::Stop));
}

#[test]
fn a_run_past_its_deadline_fails() {
    let mut state = started(false);
    assert!(!state.is_expired(2_800));
    assert!(state.is_expired(2_801));
    let update = expect_event(state.next_action(2_801));
    match update {
        ExecutionUpdate::Failed { error, .. } => {
            assert_eq!(error.message, "Workflow timed out");
            assert!(!error.is_recoverable);
        }
        other => panic!("expected a failure, got {:?}", other),
    }
    assert_eq!(state.status, ExecutionStatus::Failed);
}

#[test]
fn no_second_step_is_handed_out_while_one_is_in_flight() {
    let mut state = started(false);
    let _first = expect_step(state.next_action(1_001));
    assert!(matches!(state.next_action(1_001), RunAction::Stop));
    let stray = step("x", translate("u"));
    let mut idle = started(false);
    assert!(idle.record_step_result(&stray, ok(""), 1, 2).is_none());
    assert!(idle.completed_steps.is_empty());
}

#[test]
fn progress_counts_steps_and_estimates_the_rest() {
    let mut state = started(false);
    let p = state.progress();
    assert_eq!((p.completed_steps, p.total_steps, p.progress_percent), (0, 2, 0));
    assert_eq!(p.current_step, Some("upload".to_string()));
    assert_eq!(p.estimated_remaining, None);
    assert_eq!(p.status, ExecutionStatus::Running);
    assert_eq!(p.workflow_id, "w");
    let first = expect_step(state.next_action(1_001));
    state.record_step_result(&first, ok(""), 1_001, 1_008);
    let p = state.progress();
    assert_eq!((p.completed_steps, p.total_steps, p.progress_percent), (1, 2, 50));
    assert_eq!(p.current_step, Some("translate".to_string()));
    assert_eq!(p.estimated_remaining, Some(7));
    let second = expect_step(state.next_action(1_008));
    state.record_step_result(&second, ok(""), 1_008, 1_011);
    let p = state.progress();
    assert_eq!(p.progress_percent, 100);
    assert_eq!(p.current_step, None);
    assert_eq!(p.estimated_remaining, Some(0));
    assert_eq!(state.estimate_remaining_time(), Some(0));
}

#[test]
fn a_workflow_without_steps_is_complete_at_once() {
    let handle = ExecutionHandle::with_id(1, "empty".to_string());
    let (mut state, _) = ExecutionState::start(
        handle,
        workflow("empty", vec![]),
        options(true),
        String::new(),
        "u".to_string(),
        0,
    );
    assert_eq!(state.progress().progress_percent, 100);
    let done = expect_event(state.next_action(5));
    assert_eq!(done.event_kind(), EventKind::Completed);
}

#[test]
fn seconds_between_never_goes_below_zero() {
    assert_eq!(seconds_between(10, 25), 15);
    assert_eq!(seconds_between(25, 10), 0);
    assert_eq!(seconds_between(i64::MIN, i64::MAX), i64::MAX);
    assert_eq!(seconds_between(-5, -5), 0);
}

#[test]
fn advice_depends_on_the_kind_of_command() {
    let auth = RapsCommand::Auth { action: AuthAction::Login };
    assert_eq!(
        generate_recovery_suggestions(&auth, &failed("")),
        vec![
            "Check your APS credentials and try 'raps auth login'".to_string(),
            "Verify your client ID and client secret are correct".to_string()
        ]
    );
    let bucket = RapsCommand::Bucket {
        action: BucketAction::Create,
        params: BucketParams { bucket_name: None, retention_policy: None, region: None, force: None },
    };
    assert_eq!(
        generate_recovery_suggestions(&bucket, &failed("bucket already exists; permission")),
        vec!["Bucket name already exists, try a different name".to_string()]
    );
    assert_eq!(
        generate_recovery_suggestions(&bucket, &failed("no permission")),
        vec!["Check that you have OSS permissions in your APS app".to_string()]
    );
    assert!(generate_recovery_suggestions(&bucket, &failed("other")).is_empty());
    assert_eq!(
        generate_recovery_suggestions(&translate("u"), &failed("bad urn")),
        vec!["Verify the URN is valid and the file was uploaded successfully".to_string()]
    );
    assert_eq!(
        generate_recovery_suggestions(&translate("u"), &failed("format? timeout")),
        vec![
            "Check that the requested output format is supported".to_string(),
            "Check your internet connection and try again".to_string()
        ]
    );
    let custom = RapsCommand::Custom { command: "x".to_string(), args: vec![] };
    assert_eq!(
        generate_recovery_suggestions(&custom, &failed("")),
        vec![
            "Check the RAPS CLI documentation for this command".to_string(),
            "Verify your APS permissions and authentication".to_string()
        ]
    );
}

#[test]
fn errors_are_built_step_by_step() {
    let e = ExecutionError::new("m".to_string());
    assert_eq!(e.message, "m");
    assert!(e.failed_step.is_none() && e.command_result.is_none() && !e.is_recoverable);
    let e = e.with_suggestion("try again".to_string()).recoverable();
    assert_eq!(e.recovery_suggestions, vec!["try again".to_string()]);
    assert!(e.is_recoverable);
    let from_success = ExecutionError::from_command_failure("s".to_string(), ok(""), vec![]);
    assert_eq!(from_success.message, "Command failed");
}

#[test]
fn the_executor_lists_every_missing_prerequisite() {
    let executor = WorkflowExecutor::new();
    let w = two_steps();
    let errors = executor.validate_prerequisites(
        &w,
        &Err("Failed to execute RAPS CLI: raps".to_string()),
        false,
        &vec![],
    );
    assert_eq!(
        errors,
        vec![
            "RAPS CLI not available: Failed to execute RAPS CLI: raps".to_string(),
            "APS authentication required. Run 'raps auth login' first.".to_string(),
            "Required asset not found: model.rvt".to_string()
        ]
    );
    let none = executor.validate_prerequisites(&w, &Ok(()), true, &vec!["model.rvt".to_string()]);
    assert!(none.is_empty());
}

#[test]
fn the_executor_refuses_to_start_without_prerequisites() {
    let mut executor = WorkflowExecutor::new();
    let errors = vec!["a".to_string(), "b".to_string()];
    let refused = executor.execute_workflow(two_steps(), options(false), &errors, String::new());
    assert_eq!(refused.unwrap_err().message, "Prerequisite validation failed:\na\nb");
    let handle = ExecutionHandle::new("w".to_string());
    assert!(executor.get_execution(&handle).is_none());
    assert_eq!(
        executor.get_execution_progress(&handle).unwrap_err().message,
        "Execution not found"
    );
    assert_eq!(executor.next_action(&handle, 0).unwrap_err().message, "Execution not found");
    assert!(executor.cancel_execution(&handle).is_none());
    assert!(!executor.resume_execution(&handle));
}

#[test]
fn the_executor_drives_runs_by_their_handles() {
    let mut executor = WorkflowExecutor::new();
    let (first, update) = executor
        .execute_workflow(two_steps(), options(true), &vec![], "/tmp/a".to_string())
        .unwrap();
    assert_eq!(update.event_kind(), EventKind::Started);
    assert_eq!(first.workflow_id, "w");
    let (second, _) = executor
        .execute_workflow_with(two_steps(), options(false), &vec![], "/tmp/b".to_string(), 42, 43, 100)
        .unwrap();
    assert_eq!(second.id, 42);
    let run = executor.get_execution(&second).unwrap();
    assert_eq!(run.placeholders.get("timestamp"), Some(&"100".to_string()));
    assert_eq!(
        run.placeholders.get("uuid"),
        Some(&"00000000-0000-0000-0000-00000000002b".to_string())
    );
    let step = expect_step(executor.next_action(&second, 101).unwrap());
    let update = executor.record_step_result(&second, &step, ok("{\"urn\":\"u\"}"), 101, 102);
    assert_eq!(update.unwrap().event_kind(), EventKind::StepCompleted);
    let progress = executor.get_execution_progress(&second).unwrap();
    assert_eq!(progress.completed_steps, 1);
    let other = executor.get_execution_progress(&first).unwrap();
    assert_eq!(other.completed_steps, 0);
    let cancelled = executor.cancel_execution(&first).unwrap();
    assert_eq!(cancelled.event_kind(), EventKind::Cancelled);
    assert_eq!(executor.get_execution(&first).unwrap().status, ExecutionStatus::Cancelled);
    assert!(!executor.resume_execution(&first));
    assert_eq!(executor.client().config().raps_binary_path, "raps");
}

#[test]
fn fresh_handles_differ() {
    let a = ExecutionHandle::new("w".to_string());
    let b = ExecutionHandle::new("w".to_string());
    assert_ne!(a.id, b.id);
    assert_eq!(a.workflow_id, "w");
    assert_eq!(ExecutionOptions::default(), options(true));
}

#[test]
fn a_started_run_stands_under_its_handle() {
    let mut executor = WorkflowExecutor::new();
    let (kept, _) = executor
        .execute_workflow_with(two_steps(), options(false), &vec![], "/tmp/k".to_string(), 7, 8, 50)
        .unwrap();
    let (handle, update) = executor
        .execute_workflow(two_steps(), options(false), &vec![], "/tmp/a".to_string())
        .unwrap();
    assert_eq!(update.event_kind(), EventKind::Started);
    let run = executor.get_execution(&handle).expect("the run is kept");
    assert_eq!(run.handle, handle);
    assert_eq!(run.status, ExecutionStatus::Running);
    assert_eq!(run.current_step_index, 0);
    assert!(run.completed_steps.is_empty());
    assert_eq!(run.workflow.metadata.id, "w");
    assert_eq!(run.context.temp_dir, "/tmp/a");
    assert_eq!(run.placeholders.len(), 2);
    assert_eq!(run.placeholders.get("uuid").map(|u| u.len()), Some(36));
    assert_eq!(run.placeholders.get("timestamp"), Some(&run.start_time.to_string()));
    // The run that was there before is as it was.
    let other = executor.get_execution(&kept).expect("the older run is kept");
    assert_eq!(other.start_time, 50);
    assert_eq!(other.context.temp_dir, "/tmp/k");
    // A missing prerequisite starts nothing.
    let refused = executor.execute_workflow(
        two_steps(),
        options(false),
        &vec!["RAPS CLI not available".to_string()],
        "/tmp/b".to_string(),
    );
    assert_eq!(
        refused.unwrap_err().message,
        "Prerequisite validation failed:\nRAPS CLI not available"
    );
}
