use raps_demo_workflows::resource::cleanup::{
    task_outcome, CleanupMode, CleanupOrchestrationResult, CleanupOrchestrator, CleanupStrategy,
    WorkflowOutcome,
};
use raps_demo_workflows::resource::tracker::FileBasedResourceTracker;
use raps_demo_workflows::resource::types::{CleanupPolicy, ResourceType, TrackedResource};
use raps_demo_workflows::workflow::client::CommandResult;
use raps_demo_workflows::workflow::types::RapsCommand;

fn create_test_orchestrator() -> (CleanupOrchestrator, FileBasedResourceTracker) {
    let tracker = FileBasedResourceTracker::new("tracker_state.json".to_string());
    (CleanupOrchestrator::new(), tracker)
}

fn bucket_type() -> ResourceType {
    ResourceType::Bucket { region: "US".to_string(), retention_policy: "transient".to_string() }
}

fn resource(id: u128, kind: ResourceType, name: &str, workflow: &str, created_at: i64) -> TrackedResource {
    TrackedResource::with_identity(
        id,
        created_at,
        kind,
        format!("aps-{}", id),
        name.to_string(),
        workflow.to_string(),
        vec![],
    )
}

fn mixed_ledger() -> FileBasedResourceTracker {
    let mut tracker = FileBasedResourceTracker::new("state.json".to_string());
    tracker.track_resource_at(resource(1, bucket_type(), "demo-b", "w", 1_000), 1_000);
    tracker.track_resource_at(
        resource(
            2,
            ResourceType::Translation { source_urn: "urn:x".to_string(), formats: vec!["svf".to_string()] },
            "demo-t",
            "w",
            5_000,
        ),
        5_000,
    );
    tracker.track_resource_at(
        resource(
            3,
            ResourceType::Folder { project_id: "p1".to_string(), parent_folder_id: "f".to_string() },
            "demo-f",
            "w",
            9_000,
        ),
        9_000,
    );
    tracker.track_resource_at(resource(4, bucket_type(), "demo-x", "other", 1_000), 1_000);
    tracker
}

#[test]
fn test_cleanup_mode_dry_run() {
    let (orchestrator, mut tracker) = create_test_orchestrator();

    let resource = TrackedResource::new(
        bucket_type(),
        "test-bucket".to_string(),
        "demo-bucket".to_string(),
        "test-workflow".to_string(),
        vec![],
    );
    let id = tracker.track_resource(resource);

    let plan = orchestrator.cleanup_completed_workflow(
        &tracker,
        &"test-workflow".to_string(),
        CleanupMode::DryRun,
        &vec![],
        2_000_000_000,
    );
    assert!(!plan.execute);
    let result = plan.finish(&vec![], 0);

    assert!(result.success);
    assert_eq!(result.cleaned_resources.len(), 1);
    assert_eq!(result.cleaned_resources, vec![id]);
}

#[test]
fn test_interrupted_workflow_handling() {
    let (mut orchestrator, mut tracker) = create_test_orchestrator();

    let workflow_id = "interrupted-workflow".to_string();
    let interrupted_at = 1_700_000_000;

    let resource = TrackedResource::new(
        ResourceType::Object { bucket_name: "test-bucket".to_string(), size_bytes: 1024 },
        "test-object".to_string(),
        "demo-object".to_string(),
        workflow_id.clone(),
        vec![],
    );
    tracker.track_resource(resource);

    let cleanup_info =
        orchestrator.handle_interrupted_workflow(&tracker, workflow_id.clone(), interrupted_at);

    assert_eq!(cleanup_info.workflow_id, workflow_id);
    assert_eq!(cleanup_info.created_resources.len(), 1);
    assert!(!cleanup_info.manual_instructions.is_empty());
}

#[test]
fn test_cleanup_strategy_immediate() {
    let (mut orchestrator, _tracker) = create_test_orchestrator();

    let workflow_id = "test-workflow".to_string();
    orchestrator.set_workflow_strategy(workflow_id.clone(), CleanupStrategy::Immediate);

    let strategy = orchestrator.get_workflow_strategy(&workflow_id);
    assert_eq!(strategy, CleanupStrategy::Immediate);
}

#[test]
fn test_cost_based_cleanup() {
    let (mut orchestrator, mut tracker) = create_test_orchestrator();

    let workflow_id = "cost-test-workflow".to_string();

    let expensive_resource = TrackedResource::new(
        ResourceType::Photoscene { scene_type: "aerial".to_string() },
        "expensive-scene".to_string(),
        "demo-photoscene".to_string(),
        workflow_id.clone(),
        vec![],
    );
    let expensive_id = expensive_resource.id;

    let cheap_resource = TrackedResource::new(
        bucket_type(),
        "cheap-bucket".to_string(),
        "demo-bucket".to_string(),
        workflow_id.clone(),
        vec![],
    );

    tracker.track_resource(expensive_resource);
    tracker.track_resource(cheap_resource);

    orchestrator.set_workflow_strategy(
        workflow_id.clone(),
        CleanupStrategy::CostBasedCleanup { cost_threshold: 500_000 },
    );
    let plan = orchestrator.cleanup_completed_workflow(
        &tracker,
        &workflow_id,
        CleanupMode::Automatic,
        &vec![],
        2_000_000_000,
    );
    let result = plan.finish(&vec![Ok(())], 1);

    assert!(result.success);
    assert!(!result.cleaned_resources.is_empty());
    assert_eq!(result.cleaned_resources, vec![expensive_id]);
}

#[test]
fn test_orchestration_multiple_workflows() {
    let (orchestrator, mut tracker) = create_test_orchestrator();

    let workflow_ids = vec!["workflow-1".to_string(), "workflow-2".to_string()];

    for workflow_id in &workflow_ids {
        let resource = TrackedResource::new(
            bucket_type(),
            format!("bucket-{}", workflow_id),
            format!("demo-bucket-{}", workflow_id),
            workflow_id.clone(),
            vec![],
        );
        tracker.track_resource(resource);
    }

    let plans = orchestrator.orchestrate_cleanup(
        &tracker,
        &workflow_ids,
        CleanupMode::DryRun,
        &vec![],
        2_000_000_000,
    );
    let outcomes: Vec<WorkflowOutcome> = plans
        .into_iter()
        .map(|p| WorkflowOutcome {
            result: p.plan.finish(&vec![], 0),
            workflow_id: p.workflow_id,
            estimated_cost: p.estimated_cost,
        })
        .collect();
    let result = CleanupOrchestrationResult::collect(CleanupMode::DryRun, outcomes, 3);

    assert!(result.success);
    assert_eq!(result.workflow_results.len(), 2);
    assert_eq!(result.cost_savings, 20_000);
    assert_eq!(result.total_duration, 3);
    assert_eq!(result.mode, CleanupMode::DryRun);
    assert!(result.failed_cleanups.is_empty());
}

#[test]
fn a_dry_run_explains_what_is_left() {
    let (orchestrator, _) = create_test_orchestrator();
    let tracker = mixed_ledger();
    let plan = orchestrator.cleanup_completed_workflow(
        &tracker,
        &"w".to_string(),
        CleanupMode::DryRun,
        &vec![],
        10_000,
    );
    let ids: Vec<u128> = plan.tasks.iter().map(|t| t.resource_id).collect();
    assert_eq!(ids, vec![1]);
    assert_eq!(
        plan.skipped,
        vec![
            (2, "Resource too young".to_string()),
            (3, "Manual cleanup policy".to_string())
        ]
    );
    assert!(!plan.execute);
    let result = plan.finish(&vec![Err("ignored".to_string())], 4);
    assert!(result.success);
    assert_eq!(result.cleaned_resources, vec![1]);
    assert_eq!(result.failed_resources, plan.skipped);
    assert_eq!(result.duration, 4);
    let later = orchestrator.cleanup_completed_workflow(
        &tracker,
        &"w".to_string(),
        CleanupMode::DryRun,
        &vec![],
        12_200,
    );
    let ids: Vec<u128> = later.tasks.iter().map(|t| t.resource_id).collect();
    assert_eq!(ids, vec![1, 2]);
    assert_eq!(
        orchestrator.get_resource_policy(&bucket_type()),
        CleanupPolicy::Immediate
    );
}

#[test]
fn the_automatic_mode_runs_what_the_ledger_says_is_due() {
    let (orchestrator, _) = create_test_orchestrator();
    let mut tracker = mixed_ledger();
    tracker.set_cleanup_policy("Folder".to_string(), CleanupPolicy::Immediate);
    let plan = orchestrator.cleanup_completed_workflow(
        &tracker,
        &"w".to_string(),
        CleanupMode::Automatic,
        &vec![],
        6_000,
    );
    let ids: Vec<u128> = plan.tasks.iter().map(|t| t.resource_id).collect();
    assert_eq!(ids, vec![1, 3]);
    assert!(plan.skipped.is_empty());
    assert!(plan.execute);
    assert!(plan.instructions.is_empty());
    let result = plan.finish(&vec![Ok(()), Err("boom".to_string())], 2);
    assert!(!result.success);
    assert_eq!(result.cleaned_resources, vec![1]);
    assert_eq!(result.failed_resources, vec![(3, "boom".to_string())]);
    let unreported = plan.finish(&vec![Ok(())], 2);
    assert_eq!(unreported.failed_resources, vec![(3, "No outcome reported".to_string())]);
    let fine = plan.finish(&vec![Ok(()), Ok(())], 2);
    assert!(fine.success);
    assert_eq!(fine.cleaned_resources, vec![1, 3]);
}

#[test]
fn the_manual_mode_only_tells_what_to_do() {
    let (orchestrator, _) = create_test_orchestrator();
    let mut tracker = mixed_ledger();
    tracker.track_resource_at(
        resource(5, ResourceType::Object { bucket_name: "bk".to_string(), size_bytes: 1 }, "demo-o", "w", 0),
        0,
    );
    tracker.track_resource_at(
        resource(6, ResourceType::DesignAutomationWorkItem { activity_id: "act".to_string() }, "demo-w", "w", 0),
        0,
    );
    tracker.track_resource_at(
        resource(7, ResourceType::Photoscene { scene_type: "s".to_string() }, "demo-p", "w", 0),
        0,
    );
    tracker.track_resource_at(
        resource(8, ResourceType::Webhook { event_type: "e".to_string(), callback_url: "c".to_string() }, "demo-h", "w", 0),
        0,
    );
    tracker.track_resource_at(
        resource(9, ResourceType::Item { project_id: "p2".to_string(), folder_id: "f".to_string() }, "demo-i", "w", 0),
        0,
    );
    let plan = orchestrator.cleanup_completed_workflow(
        &tracker,
        &"w".to_string(),
        CleanupMode::Manual,
        &vec![],
        0,
    );
    assert!(!plan.execute);
    assert_eq!(
        plan.instructions,
        vec![
            "Delete bucket 'demo-b' using: raps bucket delete aps-1".to_string(),
            "Translation 'demo-t' for URN 'urn:x' will expire automatically".to_string(),
            "Delete folder 'demo-f' in project 'p1' manually through ACC interface".to_string(),
            "Delete object 'demo-o' from bucket 'bk' using: raps object delete bk aps-5".to_string(),
            "Work item 'demo-w' for activity 'act' will expire automatically".to_string(),
            "Delete photoscene 'demo-p' using: raps reality delete aps-7".to_string(),
            "Delete webhook 'demo-h' using: raps webhook delete aps-8".to_string(),
            "Delete item 'demo-i' in project 'p2' manually through ACC interface".to_string(),
        ]
    );
    assert!(!plan.dry_run);
    let recorded: Vec<u128> = plan.tasks.iter().map(|t| t.resource_id).collect();
    assert_eq!(recorded, vec![1, 2, 3, 5, 6, 7, 8, 9]);
    // Nothing is run, so nothing counts as removed, whatever is reported.
    for outcomes in [vec![], vec![Ok(()); 8]] {
        let result = plan.finish(&outcomes, 0);
        assert!(result.success);
        assert!(result.cleaned_resources.is_empty());
        assert!(result.failed_resources.is_empty());
    }
}

#[test]
fn the_interactive_mode_removes_what_was_confirmed() {
    let (orchestrator, _) = create_test_orchestrator();
    let tracker = mixed_ledger();
    let plan = orchestrator.cleanup_completed_workflow(
        &tracker,
        &"w".to_string(),
        CleanupMode::Interactive,
        &vec![3, 1, 99],
        0,
    );
    let ids: Vec<u128> = plan.tasks.iter().map(|t| t.resource_id).collect();
    assert_eq!(ids, vec![1, 3]);
    assert_eq!(plan.skipped, vec![(2, "User declined cleanup".to_string())]);
    assert!(plan.execute);
    let result = plan.finish(&vec![Ok(()), Ok(())], 1);
    assert!(!result.success);
    assert_eq!(result.cleaned_resources, vec![1, 3]);
    assert_eq!(result.failed_resources, vec![(2, "User declined cleanup".to_string())]);
}

#[test]
fn a_scheduled_cleanup_only_records_the_work() {
    let (mut orchestrator, _) = create_test_orchestrator();
    let tracker = mixed_ledger();
    orchestrator
        .set_workflow_strategy("w".to_string(), CleanupStrategy::Scheduled { execute_at: 99_999 });
    assert_eq!(
        orchestrator.get_workflow_strategy(&"w".to_string()),
        CleanupStrategy::Scheduled { execute_at: 99_999 }
    );
    assert_eq!(
        orchestrator.get_workflow_strategy(&"other".to_string()),
        CleanupStrategy::Immediate
    );
    let plan = orchestrator.cleanup_completed_workflow(
        &tracker,
        &"w".to_string(),
        CleanupMode::Automatic,
        &vec![],
        0,
    );
    assert!(!plan.execute);
    assert!(!plan.dry_run);
    assert!(plan.skipped.is_empty());
    assert!(plan.instructions.is_empty());
    // The work is recorded for later, and nothing is removed now.
    let recorded: Vec<u128> = plan.tasks.iter().map(|t| t.resource_id).collect();
    assert_eq!(recorded, vec![1, 2, 3]);
    let result = plan.finish(&vec![], 4);
    assert!(result.success);
    assert!(result.cleaned_resources.is_empty());
    assert!(result.failed_resources.is_empty());
    assert_eq!(result.duration, 4);
    // The same holds in every mode, a dry run included.
    for mode in [CleanupMode::Manual, CleanupMode::Interactive, CleanupMode::DryRun] {
        let plan =
            orchestrator.cleanup_completed_workflow(&tracker, &"w".to_string(), mode, &vec![1], 0);
        assert!(!plan.execute && !plan.dry_run);
        let result = plan.finish(&vec![Ok(()), Ok(()), Ok(())], 0);
        assert!(result.success);
        assert!(result.cleaned_resources.is_empty());
        assert!(result.failed_resources.is_empty());
    }
}

#[test]
fn only_a_dry_run_reports_without_running() {
    let (mut orchestrator, _) = create_test_orchestrator();
    let tracker = mixed_ledger();
    orchestrator
        .set_workflow_strategy("w".to_string(), CleanupStrategy::AgeBasedCleanup { max_age: 0 });
    let id = "w".to_string();
    let dry = orchestrator.cleanup_completed_workflow(&tracker, &id, CleanupMode::DryRun, &vec![], 10_000);
    assert!(!dry.execute && dry.dry_run);
    assert_eq!(dry.finish(&vec![], 0).cleaned_resources, vec![1, 2, 3]);
    let manual =
        orchestrator.cleanup_completed_workflow(&tracker, &id, CleanupMode::Manual, &vec![], 10_000);
    assert!(!manual.execute && !manual.dry_run);
    assert_eq!(manual.tasks.len(), 3);
    let told = manual.finish(&vec![], 0);
    assert!(told.success);
    assert!(told.cleaned_resources.is_empty());
    let run =
        orchestrator.cleanup_completed_workflow(&tracker, &id, CleanupMode::Automatic, &vec![], 10_000);
    assert!(run.execute && !run.dry_run);
    let done = run.finish(&vec![Ok(()), Err("no".to_string()), Ok(())], 0);
    assert!(!done.success);
    assert_eq!(done.cleaned_resources, vec![1, 3]);
    assert_eq!(done.failed_resources, vec![(2, "no".to_string())]);
}

#[test]
fn an_age_based_cleanup_leaves_the_young() {
    let (mut orchestrator, _) = create_test_orchestrator();
    let tracker = mixed_ledger();
    orchestrator
        .set_workflow_strategy("w".to_string(), CleanupStrategy::AgeBasedCleanup { max_age: 5_000 });
    let plan = orchestrator.cleanup_completed_workflow(
        &tracker,
        &"w".to_string(),
        CleanupMode::Automatic,
        &vec![],
        10_000,
    );
    let ids: Vec<u128> = plan.tasks.iter().map(|t| t.resource_id).collect();
    assert_eq!(ids, vec![1, 2]);
    assert_eq!(plan.skipped, vec![(3, "Resource too young".to_string())]);
    assert!(plan.execute);
    assert!(!plan.finish(&vec![Ok(()), Ok(())], 0).success);
    let dry = orchestrator.cleanup_completed_workflow(
        &tracker,
        &"w".to_string(),
        CleanupMode::DryRun,
        &vec![],
        20_000,
    );
    assert!(!dry.execute);
    assert!(dry.skipped.is_empty());
    assert!(dry.finish(&vec![], 0).success);
}

#[test]
fn a_cost_based_cleanup_takes_the_costliest_first() {
    let (mut orchestrator, _) = create_test_orchestrator();
    let mut tracker = FileBasedResourceTracker::new("s".to_string());
    tracker.track_resource_at(resource(1, bucket_type(), "demo-1", "w", 0), 0);
    tracker.track_resource_at(
        resource(2, ResourceType::DesignAutomationWorkItem { activity_id: "a".to_string() }, "demo-2", "w", 0),
        0,
    );
    tracker.track_resource_at(
        resource(3, ResourceType::Photoscene { scene_type: "s".to_string() }, "demo-3", "w", 0),
        0,
    );
    tracker.track_resource_at(
        resource(4, ResourceType::DesignAutomationWorkItem { activity_id: "b".to_string() }, "demo-4", "w", 0),
        0,
    );
    tracker.track_resource_at(
        resource(5, ResourceType::Photoscene { scene_type: "t".to_string() }, "demo-5", "w", 0),
        0,
    );
    let plan_for = |orchestrator: &mut CleanupOrchestrator, threshold: u64| -> Vec<u128> {
        orchestrator.set_workflow_strategy(
            "w".to_string(),
            CleanupStrategy::CostBasedCleanup { cost_threshold: threshold },
        );
        orchestrator
            .cleanup_completed_workflow(&tracker, &"w".to_string(), CleanupMode::DryRun, &vec![], 0)
            .tasks
            .iter()
            .map(|t| t.resource_id)
            .collect()
    };
    assert_eq!(plan_for(&mut orchestrator, 2_210_000), Vec::<u128>::new());
    assert_eq!(plan_for(&mut orchestrator, 2_209_999), vec![3]);
    assert_eq!(plan_for(&mut orchestrator, 1_210_000), vec![3]);
    assert_eq!(plan_for(&mut orchestrator, 1_000_000), vec![3, 5]);
    assert_eq!(plan_for(&mut orchestrator, 150_000), vec![3, 5, 2]);
    assert_eq!(plan_for(&mut orchestrator, 50_000), vec![3, 5, 2, 4]);
    assert_eq!(plan_for(&mut orchestrator, 0), vec![3, 5, 2, 4, 1]);
}

#[test]
fn an_interrupted_run_is_recorded_until_it_is_cleared() {
    let (mut orchestrator, _) = create_test_orchestrator();
    let mut tracker = mixed_ledger();
    let mut own = resource(10, bucket_type(), "demo-own", "w", 0);
    own.cleanup_commands = vec![
        RapsCommand::Custom { command: "one".to_string(), args: vec![] },
        RapsCommand::Custom { command: "two".to_string(), args: vec![] },
    ];
    tracker.track_resource_at(own, 0);
    let record = orchestrator.handle_interrupted_workflow(&tracker, "w".to_string(), 77);
    assert_eq!(record.interrupted_at, 77);
    assert_eq!(record.created_resources, vec![1, 2, 3, 10]);
    assert_eq!(
        record.manual_instructions,
        vec![
            "Clean up Bucket 'demo-b' (APS ID: aps-1) created before interruption".to_string(),
            "Clean up Translation 'demo-t' (APS ID: aps-2) created before interruption".to_string(),
            "Clean up Folder 'demo-f' (APS ID: aps-3) created before interruption".to_string(),
            "Clean up Bucket 'demo-own' (APS ID: aps-10) created before interruption".to_string(),
        ]
    );
    assert_eq!(record.automated_commands.len(), 2);
    orchestrator.handle_interrupted_workflow(&tracker, "other".to_string(), 78);
    let kept = orchestrator.get_interrupted_workflows();
    assert_eq!(kept.len(), 2);
    assert_eq!(kept[0].workflow_id, "w");
    assert_eq!(kept[0].created_resources, vec![1, 2, 3, 10]);
    orchestrator.clear_interrupted_workflow(&"w".to_string());
    let kept = orchestrator.get_interrupted_workflows();
    assert_eq!(kept.len(), 1);
    assert_eq!(kept[0].workflow_id, "other");
}

#[test]
fn the_first_failing_command_decides_the_outcome_of_a_task() {
    let ok = CommandResult::new(0, String::new(), String::new(), 1);
    let bad = CommandResult::new(3, String::new(), "denied".to_string(), 1);
    let worse = CommandResult::new(4, String::new(), "later".to_string(), 1);
    assert_eq!(task_outcome(&vec![]), Ok(()));
    assert_eq!(task_outcome(&vec![ok.clone(), ok.clone()]), Ok(()));
    assert_eq!(
        task_outcome(&vec![ok, bad, worse]),
        Err("RAPS CLI command failed with exit code 3\nError output: denied".to_string())
    );
}
