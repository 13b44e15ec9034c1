use raps_demo_workflows::dashboard::chart::{
    build_lines, center_text, first_chars, format_chart_command, ChartLine, Tone,
};
use raps_demo_workflows::dashboard::events::{find_step, first_lines, format_command};
use raps_demo_workflows::dashboard::state::{
    Area, Dashboard, Key, MouseKind, Request, SidebarItem,
};
use raps_demo_workflows::flowchart::FlowchartState;
use raps_demo_workflows::preflight::{CheckAction, CheckResult, PreflightStatus};
use raps_demo_workflows::text_map::TextMap;
use raps_demo_workflows::workflow::discovery::WorkflowDefinition;
use raps_demo_workflows::workflow::executor::{ExecutionError, ExecutionUpdate};
use raps_demo_workflows::workflow::types::{
    AuthAction, BucketAction, BucketParams, DataMgmtAction, DataMgmtParams, ExecutionHandle,
    ExecutionResult, ExecutionStatus, ExecutionStep, ObjectAction, ObjectParams, RapsCommand,
    StepResult, TranslateAction, TranslateParams, WorkflowCategory, WorkflowMetadata,
};

fn board_metadata(id: &str, name: &str, category: WorkflowCategory) -> WorkflowMetadata {
    WorkflowMetadata {
        id: id.to_string(),
        name: name.to_string(),
        description: "A workflow".to_string(),
        category,
        prerequisites: vec![],
        estimated_duration: 60,
        cost_estimate: None,
        required_assets: vec![],
        script_path: String::new(),
    }
}

fn board_step(id: &str, name: &str, command: RapsCommand) -> ExecutionStep {
    ExecutionStep {
        id: id.to_string(),
        name: name.to_string(),
        description: "A step".to_string(),
        command,
        expected_duration: None,
        cleanup_commands: vec![],
    }
}

fn bucket(action: BucketAction, name: Option<&str>) -> RapsCommand {
    RapsCommand::Bucket {
        action,
        params: BucketParams {
            bucket_name: name.map(|n| n.to_string()),
            retention_policy: None,
            region: None,
            force: None,
        },
    }
}

fn object(action: ObjectAction, bucket_name: &str, key: Option<&str>) -> RapsCommand {
    RapsCommand::Object {
        action,
        params: ObjectParams {
            bucket_name: bucket_name.to_string(),
            object_key: key.map(|k| k.to_string()),
            file_path: None,
            batch: None,
            expires_in: None,
        },
    }
}

fn board_definition(id: &str, name: &str, category: WorkflowCategory) -> WorkflowDefinition {
    WorkflowDefinition {
        metadata: board_metadata(id, name, category),
        steps: vec![
            board_step("create", "Create Bucket", bucket(BucketAction::Create, Some("test-bucket"))),
            board_step("upload", "Upload", object(ObjectAction::Upload, "test-bucket", Some("a.dwg"))),
        ],
        cleanup: vec![bucket(BucketAction::Delete, Some("test-bucket"))],
        dependencies: None,
    }
}

/// Three workflows: two of object storage around one of model derivative.
fn board() -> Dashboard {
    let definitions = vec![
        board_definition("oss-basic", "Basic Storage", WorkflowCategory::ObjectStorage),
        board_definition("translate-model", "Translate", WorkflowCategory::ModelDerivative),
        board_definition("oss-batch", "Batch Storage", WorkflowCategory::ObjectStorage),
    ];
    let workflows: Vec<WorkflowMetadata> = definitions.iter().map(|d| d.metadata.clone()).collect();
    let mut map: TextMap<WorkflowDefinition> = TextMap::new();
    for d in definitions {
        map.insert(d.metadata.id.clone(), d);
    }
    let mut d = Dashboard::new(workflows, map);
    d.sidebar_area = Area { x: 0, y: 0, width: 30, height: 20 };
    d.detail_area = Area { x: 30, y: 0, width: 50, height: 20 };
    d.help_bar_area = Area { x: 0, y: 23, width: 80, height: 1 };
    d
}

fn heading(name: &str, count: usize) -> SidebarItem {
    SidebarItem::Category { name: name.to_string(), count }
}

fn entry(index: usize) -> SidebarItem {
    SidebarItem::Workflow { index }
}

fn handle(id: &str) -> ExecutionHandle {
    ExecutionHandle::with_id(7, id.to_string())
}

fn step_result(step_id: &str, status: ExecutionStatus, stdout: &str, stderr: &str) -> StepResult {
    StepResult {
        step_id: step_id.to_string(),
        status,
        start_time: 0,
        end_time: Some(1),
        stdout: stdout.to_string(),
        stderr: stderr.to_string(),
        exit_code: Some(0),
        created_resources: vec![],
    }
}

fn run_result(id: &str, success: bool, steps_completed: usize) -> ExecutionResult {
    ExecutionResult {
        workflow_id: id.to_string(),
        success,
        duration: 3,
        steps_completed,
        total_steps: 2,
        resources_created: vec![],
        cleanup_performed: false,
        step_results: vec![],
    }
}

fn text_of(line: &ChartLine) -> String {
    line.segments.iter().map(|s| s.text.as_str()).collect()
}

#[test]
fn a_new_dashboard_lists_the_categories_by_name() {
    let d = board();
    assert_eq!(
        d.sidebar_items,
        vec![
            heading("Model Derivative", 1),
            entry(1),
            heading("Object Storage", 2),
            entry(0),
            entry(2),
        ]
    );
    assert_eq!(d.selected, Some(0));
    assert!(d.get_selected_workflow().is_none());
    assert_eq!(d.detail_tab, 0);
    assert_eq!(d.sidebar_percent, 30);
    assert_eq!(d.console_height, 10);
    assert!(!d.should_quit);
    assert_eq!(d.logs, vec!["Welcome to RAPS CLI Demo Workflows! Press ? for help.".to_string()]);
}

#[test]
fn a_dashboard_without_workflows_selects_nothing() {
    let mut d = Dashboard::new(vec![], TextMap::new());
    assert!(d.sidebar_items.is_empty());
    assert_eq!(d.selected, None);
    d.next_workflow();
    assert_eq!(d.selected, None);
    d.previous_workflow();
    assert_eq!(d.selected, None);
    assert!(d.get_selected_workflow().is_none());
}

#[test]
fn the_selection_skips_headings_and_goes_around() {
    let mut d = board();
    d.next_workflow();
    assert_eq!(d.selected, Some(1));
    assert_eq!(d.get_selected_workflow().map(|w| w.id.as_str()), Some("translate-model"));
    d.next_workflow();
    assert_eq!(d.selected, Some(3));
    assert_eq!(d.get_selected_workflow().map(|w| w.id.as_str()), Some("oss-basic"));
    d.next_workflow();
    assert_eq!(d.selected, Some(4));
    d.next_workflow();
    assert_eq!(d.selected, Some(1));
    d.previous_workflow();
    assert_eq!(d.selected, Some(4));
    d.previous_workflow();
    assert_eq!(d.selected, Some(3));
    d.previous_workflow();
    assert_eq!(d.selected, Some(1));
}

#[test]
fn keys_change_tabs_and_sizes() {
    let mut d = board();
    assert_eq!(d.handle_key(Key::Tab, 9), Request::Nothing);
    assert_eq!(d.detail_tab, 1);
    for _ in 0..4 {
        d.handle_key(Key::Tab, 9);
    }
    assert_eq!(d.detail_tab, 0);
    d.handle_key(Key::Left, 9);
    assert_eq!(d.detail_tab, 0);
    for _ in 0..7 {
        d.handle_key(Key::Char('l'), 9);
    }
    assert_eq!(d.detail_tab, 4);
    d.handle_key(Key::Char('3'), 9);
    assert_eq!(d.detail_tab, 2);

    for _ in 0..5 {
        d.handle_key(Key::Char('['), 9);
    }
    assert_eq!(d.sidebar_percent, 15);
    for _ in 0..12 {
        d.handle_key(Key::Char(']'), 9);
    }
    assert_eq!(d.sidebar_percent, 60);
    for _ in 0..5 {
        d.handle_key(Key::Char('-'), 9);
    }
    assert_eq!(d.console_height, 4);
    for _ in 0..15 {
        d.handle_key(Key::Char('+'), 9);
    }
    assert_eq!(d.console_height, 26);
    d.handle_key(Key::Char('='), 9);
    assert_eq!(d.console_height, 26);

    assert!(!d.should_quit);
    d.handle_key(Key::Char('q'), 9);
    assert!(d.should_quit);
}

#[test]
fn keys_scroll_what_the_tab_shows() {
    let mut d = board();
    assert_eq!(d.handle_key(Key::Down, 9), Request::SelectionChanged);
    assert_eq!(d.selected, Some(1));
    assert_eq!(d.handle_key(Key::Char('k'), 9), Request::SelectionChanged);
    assert_eq!(d.selected, Some(4));
    assert_eq!(d.handle_key(Key::Enter, 9), Request::RunSelected);

    d.handle_key(Key::Char('2'), 9);
    assert_eq!(d.handle_key(Key::Down, 9), Request::Nothing);
    d.handle_key(Key::PageDown, 9);
    assert_eq!(d.steps_scroll, 6);
    d.handle_key(Key::Up, 9);
    assert_eq!(d.steps_scroll, 5);
    d.handle_key(Key::PageUp, 9);
    d.handle_key(Key::PageUp, 9);
    assert_eq!(d.steps_scroll, 0);
    assert_eq!(d.selected, Some(4));

    d.handle_key(Key::Char('3'), 9);
    d.handle_key(Key::PageDown, 9);
    d.handle_key(Key::Down, 9);
    assert_eq!(d.flowchart_state.scroll, 6);
    d.handle_key(Key::Home, 9);
    assert_eq!(d.flowchart_state.scroll, 0);

    d.handle_key(Key::Char('4'), 9);
    d.handle_key(Key::PageDown, 9);
    assert_eq!(d.selected_asset, 5);
    d.handle_key(Key::PageDown, 9);
    assert_eq!(d.selected_asset, 8);
    d.handle_key(Key::Down, 9);
    assert_eq!(d.selected_asset, 8);
    d.handle_key(Key::Up, 9);
    assert_eq!(d.selected_asset, 7);
    assert_eq!(d.pending_download, None);
    d.handle_key(Key::Char('d'), 9);
    assert_eq!(d.pending_download, Some(7));
}

#[test]
fn a_download_is_asked_for_on_the_assets_tab_only() {
    let mut d = board();
    d.handle_key(Key::Char('D'), 9);
    assert_eq!(d.pending_download, None);
}

#[test]
fn a_click_selects_and_a_double_click_runs() {
    let mut d = board();
    let request = d.handle_mouse_event(MouseKind::LeftDown, 5, 2, 1_000);
    assert_eq!(request, Request::SelectionChanged);
    assert_eq!(d.selected, Some(1));
    assert!(!d.pending_run);
    assert!(d.last_click.is_some());

    d.handle_mouse_event(MouseKind::LeftDown, 5, 2, 1_400);
    assert!(!d.pending_run);
    d.handle_mouse_event(MouseKind::LeftDown, 5, 2, 1_799);
    assert!(d.pending_run);
    assert!(d.last_click.is_none());

    let mut d = board();
    d.handle_mouse_event(MouseKind::LeftDown, 21, 4, 0);
    assert_eq!(d.selected, Some(3));
    assert!(!d.pending_run);
    d.handle_mouse_event(MouseKind::LeftDown, 22, 5, 5_000);
    assert_eq!(d.selected, Some(4));
    assert!(d.pending_run);
}

#[test]
fn a_click_on_a_heading_folds_the_category() {
    let mut d = board();
    assert_eq!(d.handle_mouse_event(MouseKind::LeftDown, 3, 3, 0), Request::Nothing);
    assert_eq!(d.collapsed_categories, vec!["Object Storage".to_string()]);
    assert_eq!(
        d.sidebar_items,
        vec![heading("Model Derivative", 1), entry(1), heading("Object Storage", 2)]
    );
    d.handle_mouse_event(MouseKind::LeftDown, 3, 3, 10);
    assert!(d.collapsed_categories.is_empty());
    assert_eq!(d.sidebar_items.len(), 5);
    // Below the last line nothing is hit.
    assert_eq!(d.handle_mouse_event(MouseKind::LeftDown, 3, 9, 20), Request::Nothing);
    assert_eq!(d.sidebar_items.len(), 5);
    assert_eq!(d.selected, Some(0));
}

#[test]
fn clicks_on_the_tabs_and_the_help_bar() {
    let mut d = board();
    d.steps_scroll = 4;
    d.handle_mouse_event(MouseKind::LeftDown, 30 + 15, 1, 0);
    assert_eq!(d.detail_tab, 1);
    assert_eq!(d.steps_scroll, 0);
    d.handle_mouse_event(MouseKind::LeftDown, 30 + 35, 2, 0);
    assert_eq!(d.detail_tab, 3);
    d.handle_mouse_event(MouseKind::LeftDown, 30 + 45, 0, 0);
    assert_eq!(d.detail_tab, 3);
    d.handle_mouse_event(MouseKind::LeftDown, 30 + 5, 0, 0);
    assert_eq!(d.detail_tab, 0);

    let lines = d.logs.len();
    d.handle_mouse_event(MouseKind::LeftDown, 50, 23, 0);
    assert_eq!(d.logs.len(), lines + 1);
    assert_eq!(d.logs[lines], "Click: Run workflow...");
    assert!(!d.should_quit);
    d.handle_mouse_event(MouseKind::LeftDown, 59, 23, 0);
    assert!(!d.should_quit);
    d.handle_mouse_event(MouseKind::LeftDown, 60, 23, 0);
    assert!(d.should_quit);
}

#[test]
fn the_wheel_scrolls_details_or_moves_the_selection() {
    let mut d = board();
    d.handle_mouse_event(MouseKind::ScrollDown, 10, 5, 0);
    assert_eq!(d.selected, Some(1));
    d.handle_mouse_event(MouseKind::ScrollUp, 10, 5, 0);
    assert_eq!(d.selected, Some(4));
    d.detail_tab = 2;
    d.handle_mouse_event(MouseKind::ScrollDown, 40, 5, 0);
    d.handle_mouse_event(MouseKind::ScrollDown, 40, 5, 0);
    assert_eq!(d.flowchart_state.scroll, 4);
    d.handle_mouse_event(MouseKind::ScrollUp, 40, 5, 0);
    assert_eq!(d.flowchart_state.scroll, 2);
    d.detail_tab = 1;
    d.handle_mouse_event(MouseKind::ScrollUp, 40, 5, 0);
    assert_eq!(d.steps_scroll, 0);
    d.handle_mouse_event(MouseKind::ScrollDown, 40, 5, 0);
    assert_eq!(d.steps_scroll, 2);
    assert_eq!(d.handle_mouse_event(MouseKind::Other, 40, 5, 0), Request::Nothing);
    assert_eq!(d.steps_scroll, 2);
}

#[test]
fn the_events_of_a_run_show_on_the_console() {
    let mut d = board();
    let start = d.logs.len();
    d.handle_execution_update(&ExecutionUpdate::Started {
        handle: handle("oss-basic"),
        workflow_id: "oss-basic".to_string(),
    });
    assert_eq!(d.executing_workflow_id.as_deref(), Some("oss-basic"));
    assert_eq!(d.executing_step, Some(0));
    d.handle_execution_update(&ExecutionUpdate::StepStarted {
        handle: handle("oss-basic"),
        step: board_step("upload", "Upload", bucket(BucketAction::List, None)),
    });
    assert_eq!(d.executing_step, Some(1));
    d.handle_execution_update(&ExecutionUpdate::StepStarted {
        handle: handle("oss-basic"),
        step: board_step("unknown", "Elsewhere", bucket(BucketAction::List, None)),
    });
    assert_eq!(d.executing_step, Some(1));
    d.handle_execution_update(&ExecutionUpdate::StepCompleted {
        handle: handle("oss-basic"),
        result: step_result("create", ExecutionStatus::Completed, "{\"a\":1,\"b\":\"x\"}", ""),
    });
    assert_eq!(d.completed_steps, vec![0]);
    d.handle_execution_update(&ExecutionUpdate::StepCompleted {
        handle: handle("oss-basic"),
        result: step_result("upload", ExecutionStatus::Failed, "", "one\r\ntwo\nthree\nfour"),
    });
    assert_eq!(d.completed_steps, vec![0, 1]);
    d.handle_execution_update(&ExecutionUpdate::Completed {
        handle: handle("oss-basic"),
        result: run_result("oss-basic", false, 1),
    });
    assert!(d.executing_workflow_id.is_none());
    assert!(d.executing_step.is_none());
    assert!(d.popup.is_none());
    let expected = vec![
        ">>> Started workflow: oss-basic",
        "  > Step: Upload",
        "  > Step: Elsewhere",
        "  [OK] Step 'create' finished",
        "      {",
        "        \"a\": 1,",
        "        \"b\": \"x\"",
        "      }",
        "  [FAIL] Step 'upload' failed",
        "      ERR: one",
        "      ERR: two",
        "      ERR: three",
        "=== Workflow oss-basic FAILED (1 steps) ===",
    ];
    assert_eq!(d.logs[start..].to_vec(), expected);
}

#[test]
fn long_output_is_cut_on_the_console() {
    let mut d = board();
    let start = d.logs.len();
    d.handle_execution_update(&ExecutionUpdate::StepCompleted {
        handle: handle("w"),
        result: step_result("s", ExecutionStatus::Completed, "[1,2,3,4,5,6,7,8,9,10,11,12]", ""),
    });
    let shown = &d.logs[start..];
    assert_eq!(shown.len(), 12);
    assert_eq!(shown[0], "  [OK] Step 's' finished");
    assert_eq!(shown[1], "      [");
    assert_eq!(shown[2], "        1,");
    assert_eq!(shown[10], "        9,");
    assert_eq!(shown[11], "      ... (truncated)");
    assert!(d.completed_steps.is_empty());

    let start = d.logs.len();
    d.handle_execution_update(&ExecutionUpdate::StepCompleted {
        handle: handle("w"),
        result: step_result("s", ExecutionStatus::Completed, "a\nb\nc\nd\ne\nf\ng", ""),
    });
    assert_eq!(
        d.logs[start..].to_vec(),
        vec![
            "  [OK] Step 's' finished",
            "      a",
            "      b",
            "      c",
            "      d",
            "      e",
        ]
    );
    let start = d.logs.len();
    d.handle_execution_update(&ExecutionUpdate::StepCompleted {
        handle: handle("w"),
        result: step_result("s", ExecutionStatus::Completed, "", "ignored"),
    });
    assert_eq!(d.logs[start..].to_vec(), vec!["  [OK] Step 's' finished"]);
}

#[test]
fn a_success_puts_up_a_message() {
    let mut d = board();
    d.handle_execution_update(&ExecutionUpdate::Completed {
        handle: handle("translate-model"),
        result: run_result("translate-model", true, 2),
    });
    assert_eq!(d.logs.last().unwrap(), "=== Workflow translate-model COMPLETED (2 steps) ===");
    let popup = d.popup.clone().expect("a message is shown");
    assert_eq!(popup.title, " Workflow Complete ");
    assert_eq!(popup.message, "Model translation 'translate-model' completed successfully!");
    assert_eq!(popup.url.as_deref(), Some("https://aps.autodesk.com/viewer"));
    // While the message is shown, a key closes it and does nothing else.
    let tab = d.detail_tab;
    assert_eq!(
        d.handle_key(Key::Char('o'), 9),
        Request::OpenUrl("https://aps.autodesk.com/viewer".to_string())
    );
    assert!(d.popup.is_none());
    assert_eq!(d.detail_tab, tab);

    d.handle_execution_update(&ExecutionUpdate::Completed {
        handle: handle("oss-basic"),
        result: run_result("oss-basic", true, 2),
    });
    let popup = d.popup.clone().expect("a message is shown");
    assert_eq!(popup.message, "Workflow 'oss-basic' completed successfully!");
    assert_eq!(popup.url, None);
    assert_eq!(d.handle_key(Key::Char('o'), 9), Request::Nothing);
    assert!(d.popup.is_none());

    d.handle_execution_update(&ExecutionUpdate::Completed {
        handle: handle("svf-export"),
        result: run_result("svf-export", true, 2),
    });
    assert!(d.popup.is_some());
    assert_eq!(d.handle_key(Key::Char('q'), 9), Request::Nothing);
    assert!(d.popup.is_none());
    assert!(!d.should_quit);
    d.handle_execution_update(&ExecutionUpdate::Completed {
        handle: handle("x"),
        result: run_result("x", true, 0),
    });
    assert_eq!(d.handle_mouse_event(MouseKind::LeftDown, 5, 2, 0), Request::Nothing);
    assert!(d.popup.is_none());
    assert_eq!(d.selected, Some(0));
}

#[test]
fn a_failure_shows_the_error_and_its_suggestions() {
    let mut d = board();
    d.handle_execution_update(&ExecutionUpdate::Started {
        handle: handle("oss-basic"),
        workflow_id: "oss-basic".to_string(),
    });
    let start = d.logs.len();
    let error = ExecutionError {
        message: "Step failed".to_string(),
        failed_step: Some("create".to_string()),
        command_result: None,
        recovery_suggestions: vec!["Check your login".to_string(), "Try again".to_string()],
        is_recoverable: true,
    };
    d.handle_execution_update(&ExecutionUpdate::Failed { handle: handle("oss-basic"), error });
    assert!(d.executing_workflow_id.is_none());
    assert_eq!(
        d.logs[start..].to_vec(),
        vec![
            "!!! Error: Step failed",
            "    Suggestion: Check your login",
            "    Suggestion: Try again",
        ]
    );
    let before = d.logs.clone();
    d.handle_execution_update(&ExecutionUpdate::Cancelled { handle: handle("oss-basic") });
    assert_eq!(d.logs, before);
}

#[test]
fn a_run_begins_only_when_the_checks_pass() {
    let mut d = board();
    let passed = PreflightStatus { checks: vec![], all_passed: true, blocking_checks: vec![] };
    // A heading is selected: nothing to run.
    assert!(d.begin_run(&passed).is_none());
    assert_eq!(d.logs.len(), 1);

    d.next_workflow();
    let blocked = PreflightStatus {
        checks: vec![CheckResult {
            name: "Sample Files".to_string(),
            passed: false,
            message: "1 file(s) missing".to_string(),
            action: Some(CheckAction::DownloadAssets(vec![])),
        }],
        all_passed: false,
        blocking_checks: vec!["Authentication".to_string(), "Sample Files".to_string()],
    };
    assert!(d.begin_run(&blocked).is_none());
    let popup = d.popup.clone().expect("a message is shown");
    assert_eq!(popup.title, " Missing Requirements ");
    assert_eq!(
        popup.message,
        "Cannot run 'Translate'\n\nMissing: Authentication, Sample Files\n\n\
         Go to Assets tab (press 4) to download required files."
    );
    assert_eq!(popup.url, None);

    let blocked = PreflightStatus {
        checks: vec![CheckResult {
            name: "Authentication".to_string(),
            passed: false,
            message: "Not logged in".to_string(),
            action: Some(CheckAction::Login),
        }],
        all_passed: false,
        blocking_checks: vec!["Authentication".to_string()],
    };
    d.popup = None;
    assert!(d.begin_run(&blocked).is_none());
    assert_eq!(
        d.popup.clone().unwrap().message,
        "Cannot run 'Translate'\n\nMissing: Authentication\n\n\
         Please resolve these requirements first."
    );

    d.popup = None;
    let definition = d.begin_run(&passed).expect("the workflow is handed out");
    assert_eq!(definition.metadata.id, "translate-model");
    assert_eq!(d.logs.last().unwrap(), ">>> Executing workflow: Translate");
    assert!(d.popup.is_none());

    d.workflow_definitions = TextMap::new();
    assert!(d.begin_run(&passed).is_none());
    assert_eq!(d.logs.last().unwrap(), "!!! Workflow definition not found: translate-model");
}

#[test]
fn texts_are_split_into_lines() {
    assert_eq!(first_lines("a\r\nb\n\nc", 10), (vec!["a".into(), "b".into(), "".into(), "c".into()], false));
    assert_eq!(first_lines("a\n", 10), (vec!["a".to_string()], false));
    assert_eq!(first_lines("", 10), (Vec::<String>::new(), false));
    assert_eq!(first_lines("\n", 10), (vec![String::new()], false));
    assert_eq!(first_lines("a\r", 10), (vec!["a\r".to_string()], false));
    assert_eq!(first_lines("\r\n", 10), (vec![String::new()], false));
    assert_eq!(first_lines("a\nb\nc", 2), (vec!["a".to_string(), "b".to_string()], true));
    assert_eq!(first_lines("a\nb\n", 2), (vec!["a".to_string(), "b".to_string()], false));
    assert_eq!(first_lines("a\nb", 0), (Vec::<String>::new(), true));
    for text in ["x\ny\r\n\r\nz\r", "\n\n", "no break", "tail\r\n", "\rmid\r\nend"] {
        let expected: Vec<String> = text.lines().map(|l| l.to_string()).collect();
        assert_eq!(first_lines(text, 100).0, expected, "{:?}", text);
    }
}

#[test]
fn a_step_is_found_by_its_identifier() {
    let definition = board_definition("w", "W", WorkflowCategory::Webhooks);
    assert_eq!(find_step(&definition, "create"), Some(0));
    assert_eq!(find_step(&definition, "upload"), Some(1));
    assert_eq!(find_step(&definition, "Upload"), None);
}

#[test]
fn commands_are_written_for_the_list_of_steps() {
    assert_eq!(format_command(&RapsCommand::Auth { action: AuthAction::Login }), "auth login");
    assert_eq!(
        format_command(&bucket(BucketAction::Create, Some("Test-Bucket"))),
        "bucket create --key Test-Bucket"
    );
    assert_eq!(format_command(&bucket(BucketAction::List, None)), "bucket list");
    assert_eq!(
        format_command(&object(ObjectAction::Upload, "MyBucket", Some("File.DWG"))),
        "object upload mybucket File.DWG"
    );
    assert_eq!(format_command(&object(ObjectAction::SignedUrl, "b", None)), "object signedurl b");
    assert_eq!(
        format_command(&RapsCommand::Translate {
            action: TranslateAction::Start,
            params: TranslateParams {
                urn: Some("urn:X".to_string()),
                format: Some("svf2".to_string()),
                output_dir: None,
                wait: None,
            },
        }),
        "translate start urn:X --format svf2"
    );
    assert_eq!(
        format_command(&RapsCommand::DataManagement {
            action: DataMgmtAction::HubList,
            params: DataMgmtParams {
                hub_id: None,
                project_id: None,
                folder_id: None,
                item_id: None,
                folder_name: None,
            },
        }),
        "dm hublist"
    );
    assert_eq!(
        format_command(&RapsCommand::Custom {
            command: "echo".to_string(),
            args: vec!["a".to_string(), "b".to_string(), "c".to_string(), "d".to_string()],
        }),
        "echo a b c d"
    );
}

#[test]
fn commands_are_cut_for_the_flowchart() {
    assert_eq!(
        format_chart_command(&bucket(BucketAction::Create, Some("a-very-long-bucket-name"))),
        "raps bucket create --key a-very-long-buc..."
    );
    assert_eq!(
        format_chart_command(&bucket(BucketAction::Create, Some("exactly-15-long"))),
        "raps bucket create --key exactly-15-long"
    );
    assert_eq!(
        format_chart_command(&object(ObjectAction::Upload, "My-Bucket-Of-Objects", Some("k"))),
        "raps object upload my-bucket-of..."
    );
    assert_eq!(
        format_chart_command(&object(ObjectAction::List, "Short", None)),
        "raps object list short"
    );
    assert_eq!(
        format_chart_command(&RapsCommand::Custom {
            command: "echo".to_string(),
            args: vec!["a".to_string(), "b".to_string(), "c".to_string(), "d".to_string()],
        }),
        "echo a b c"
    );
    assert_eq!(
        format_chart_command(&RapsCommand::Auth { action: AuthAction::Status }),
        "raps auth status"
    );
}

#[test]
fn texts_are_cut_and_centred() {
    assert_eq!(first_chars("abcdef", 3), "abc");
    assert_eq!(first_chars("abc", 3), "abc");
    assert_eq!(first_chars("äöü", 2), "äö");
    assert_eq!(center_text("abc", 6), " abc  ");
    assert_eq!(center_text("abc", 7), "  abc  ");
    assert_eq!(center_text("abcdefgh", 4), "abcd");
    assert_eq!(center_text("", 2), "  ");
}

#[test]
fn the_flowchart_has_a_box_for_each_step() {
    let hint = build_lines(None, &FlowchartState::default());
    assert_eq!(hint.len(), 1);
    assert_eq!(text_of(&hint[0]), "<- Select a workflow to view its flowchart");
    assert_eq!(hint[0].segments[0].tone, Tone::Hint);

    let definition = board_definition("w", "W", WorkflowCategory::Webhooks);
    let mut state = FlowchartState::default();
    state.set_execution_state(Some(1), &[0]);
    let lines = build_lines(Some(&definition), &state);
    let texts: Vec<String> = lines.iter().map(text_of).collect();
    let expected = vec![
        "",
        "    +====================================+",
        "    |              [START]               |",
        "    +=================+=================+",
        "                   |",
        "                   v",
        "    +-- Step 1 [OK] ---------------------",
        "    |           Create Bucket            |",
        "    | raps bucket create --key test-buck |",
        "    +----------------+----------------+",
        "                   |",
        "                   v",
        "    +-- Step 2 [>>] ---------------------",
        "    |               Upload               |",
        "    | raps object upload test-bucket     |",
        "    +----------------+----------------+",
        "                   |",
        "                   v",
        "        +--------------------------+",
        "        |     Cleanup (1 cmds)     |",
        "        +-----------+-----------+",
        "                   |",
        "                   v",
        "    +====================================+",
        "    |               [END]                |",
        "    +====================================+",
        "",
    ];
    assert_eq!(texts, expected);
    assert_eq!(lines[6].segments[0].tone, Tone::DoneStep);
    assert_eq!(lines[12].segments[0].tone, Tone::ActiveStep);
    assert_eq!(lines[7].segments[1].tone, Tone::Title);
    assert_eq!(lines[8].segments[1].tone, Tone::Command);
    assert_eq!(lines[18].segments[0].tone, Tone::Cleanup);
    assert_eq!(lines[24].segments[1].tone, Tone::EndTitle);

    let mut plain = definition.clone();
    plain.cleanup.clear();
    let lines = build_lines(Some(&plain), &FlowchartState::default());
    assert_eq!(lines.len(), 22);
    assert_eq!(text_of(&lines[6]), "    +-- Step 1      ---------------------");
    assert_eq!(lines[6].segments[0].tone, Tone::Step);
}

#[test]
fn the_flowchart_is_not_scrolled_past_its_end() {
    let mut state = FlowchartState::default();
    state.scroll = 50;
    state.clamp_scroll(27, 10);
    assert_eq!(state.scroll, 17);
    state.clamp_scroll(27, 10);
    assert_eq!(state.scroll, 17);
    state.clamp_scroll(27, 40);
    assert_eq!(state.scroll, 0);
    state.scroll = 3;
    state.clamp_scroll(27, 10);
    assert_eq!(state.scroll, 3);
}
