use raps_demo_workflows::resource::tracker::{FileBasedResourceTracker, LedgerError, TrackerState};
use raps_demo_workflows::resource::types::{
    add_amounts, CleanupPolicy, CostSummary, ResourceNaming, ResourceType, TrackedResource,
};
use raps_demo_workflows::workflow::types::{
    BucketAction, BucketParams, ObjectAction, ObjectParams, RapsCommand, TranslateAction,
    TranslateParams,
};

fn bucket_type() -> ResourceType {
    ResourceType::Bucket { region: "US".to_string(), retention_policy: "transient".to_string() }
}

fn create_test_resource() -> TrackedResource {
    TrackedResource::new(
        bucket_type(),
        "test-bucket-123".to_string(),
        "test-bucket".to_string(),
        "test-workflow".to_string(),
        vec![],
    )
}

fn create_test_tracker() -> FileBasedResourceTracker {
    FileBasedResourceTracker::new("tracker_state.json".to_string())
}

fn resource(id: u128, kind: ResourceType, name: &str, workflow: &str, created_at: i64) -> TrackedResource {
    TrackedResource::with_identity(
        id,
        created_at,
        kind,
        format!("aps-{}", id),
        name.to_string(),
        workflow.to_string(),
        vec![],
    )
}

#[test]
fn test_tracked_resource_creation() {
    let resource = TrackedResource::new(
        bucket_type(),
        "test-bucket-123".to_string(),
        "raps-demo-bucket-456".to_string(),
        "test-workflow".to_string(),
        vec![],
    );

    assert!(resource.id != 0);
    assert_eq!(resource.aps_id, "test-bucket-123");
    assert!(resource.has_demo_naming());
}

#[test]
fn test_demo_naming_conventions() {
    assert!(ResourceNaming::is_demo_name("raps-demo-bucket-123"));
    assert!(ResourceNaming::is_demo_name("demo-object-456"));
    assert!(ResourceNaming::is_demo_name("test-resource"));
    assert!(ResourceNaming::is_demo_name("RAPS Demo - Test Folder"));
    assert!(!ResourceNaming::is_demo_name("production-bucket"));
}

#[test]
fn types_test_cost_estimation() {
    let bucket_resource = TrackedResource::new(
        bucket_type(),
        "bucket-123".to_string(),
        "demo-bucket".to_string(),
        "test-workflow".to_string(),
        vec![],
    );

    let object_resource = TrackedResource::new(
        ResourceType::Object { bucket_name: "demo-bucket".to_string(), size_bytes: 1_073_741_824 },
        "object-456".to_string(),
        "demo-object".to_string(),
        "test-workflow".to_string(),
        vec![],
    );

    assert_eq!(bucket_resource.estimated_monthly_cost(), 10_000);
    assert_eq!(object_resource.estimated_monthly_cost(), 23_000);
}

#[test]
fn test_cost_summary() {
    let mut summary = CostSummary::new();

    let resource = TrackedResource::new(
        bucket_type(),
        "bucket-123".to_string(),
        "demo-bucket".to_string(),
        "test-workflow".to_string(),
        vec![],
    );

    summary.add_resource(&resource);

    assert_eq!(summary.total_cost, 10_000);
    assert_eq!(summary.cost_by_type.get("Bucket"), Some(&10_000));
    assert!(summary.cost_by_resource.contains_key(&resource.id));
}

#[test]
fn test_cleanup_policy_default() {
    let policy = CleanupPolicy::default();
    assert_eq!(policy, CleanupPolicy::Immediate);
}

#[test]
fn test_track_and_untrack_resource() {
    let mut tracker = create_test_tracker();
    let resource = create_test_resource();
    let resource_id = resource.id;

    let tracked_id = tracker.track_resource(resource);
    assert_eq!(tracked_id, resource_id);
    assert_eq!(tracker.get_all_resources().len(), 1);

    tracker.untrack_resource(&resource_id);
    assert_eq!(tracker.get_all_resources().len(), 0);
}

#[test]
fn test_demo_naming_application() {
    let tracker = create_test_tracker();

    let demo_name = tracker.apply_demo_naming(&bucket_type(), "production-bucket");
    assert!(ResourceNaming::is_demo_name(&demo_name));

    let existing_demo = tracker.apply_demo_naming(&bucket_type(), "demo-bucket-123");
    assert_eq!(existing_demo, "demo-bucket-123");
}

#[test]
fn test_cleanup_policy_application() {
    let tracker = create_test_tracker();
    let policy = tracker.get_cleanup_policy(&bucket_type());
    assert_eq!(policy, CleanupPolicy::Immediate);
}

#[test]
fn tracker_test_cost_estimation() {
    let tracker = create_test_tracker();

    let commands = vec![
        RapsCommand::Bucket {
            action: BucketAction::Create,
            params: BucketParams {
                bucket_name: Some("test-bucket".to_string()),
                retention_policy: None,
                region: None,
                force: None,
            },
        },
        RapsCommand::Translate {
            action: TranslateAction::Start,
            params: TranslateParams {
                urn: Some("test-urn".to_string()),
                format: Some("svf2".to_string()),
                output_dir: None,
                wait: None,
            },
        },
    ];

    let summary = tracker.estimate_workflow_cost(&commands);
    assert!(summary.total_cost > 0);
    assert!(summary.cost_by_type.contains_key("Bucket"));
    assert!(summary.cost_by_type.contains_key("Translation"));
    assert_eq!(summary.total_cost, 510_000);
    assert_eq!(summary.cost_by_type.get("Translation"), Some(&500_000));
}

#[test]
fn test_state_persistence() {
    let state: TrackerState = {
        let mut tracker = create_test_tracker();
        let resource = create_test_resource();
        tracker.track_resource(resource);
        tracker.save_state(1_700_000_000)
    };

    {
        let mut tracker = create_test_tracker();
        tracker.load_state(state).unwrap();
        assert_eq!(tracker.get_all_resources().len(), 1);
    }
}

#[test]
fn test_workflow_resource_grouping() {
    let mut tracker = create_test_tracker();

    let resource1 = TrackedResource::new(
        bucket_type(),
        "bucket-1".to_string(),
        "demo-bucket-1".to_string(),
        "workflow-1".to_string(),
        vec![],
    );

    let resource2 = TrackedResource::new(
        ResourceType::Object { bucket_name: "demo-bucket-1".to_string(), size_bytes: 1024 },
        "object-1".to_string(),
        "demo-object-1".to_string(),
        "workflow-1".to_string(),
        vec![],
    );

    let resource3 = TrackedResource::new(
        bucket_type(),
        "bucket-2".to_string(),
        "demo-bucket-2".to_string(),
        "workflow-2".to_string(),
        vec![],
    );

    tracker.track_resource(resource1);
    tracker.track_resource(resource2);
    tracker.track_resource(resource3);

    let workflow1_resources = tracker.get_resources_for_workflow(&"workflow-1".to_string());
    let workflow2_resources = tracker.get_resources_for_workflow(&"workflow-2".to_string());

    assert_eq!(workflow1_resources.len(), 2);
    assert_eq!(workflow2_resources.len(), 1);
}

#[test]
fn every_resource_in_the_ledger_has_a_demo_name() {
    let mut tracker = create_test_tracker();
    let kinds = vec![
        bucket_type(),
        ResourceType::Object { bucket_name: "b".to_string(), size_bytes: 1 },
        ResourceType::Translation { source_urn: "u".to_string(), formats: vec![] },
        ResourceType::DesignAutomationWorkItem { activity_id: "a".to_string() },
        ResourceType::Photoscene { scene_type: "aerial".to_string() },
        ResourceType::Webhook { event_type: "e".to_string(), callback_url: "c".to_string() },
        ResourceType::Folder { project_id: "p".to_string(), parent_folder_id: "f".to_string() },
        ResourceType::Item { project_id: "p".to_string(), folder_id: "f".to_string() },
    ];
    for (i, kind) in kinds.into_iter().enumerate() {
        tracker.track_resource_at(resource(i as u128 + 1, kind, "production", "w", 10), 1234);
    }
    tracker.track_resource_at(resource(100, bucket_type(), "RAPS Demo thing", "w", 10), 1234);
    let names: Vec<String> =
        tracker.get_all_resources().iter().map(|r| r.name.clone()).collect();
    assert_eq!(
        names,
        vec![
            "raps-demo-bucket-1234".to_string(),
            "demo-1234-production".to_string(),
            "demo-production".to_string(),
            "demo-production".to_string(),
            "raps-demo-photoscene-1234".to_string(),
            "demo-production".to_string(),
            "RAPS Demo - production - 1234".to_string(),
            "demo-production".to_string(),
            "RAPS Demo thing".to_string(),
        ]
    );
    for name in &names {
        assert!(ResourceNaming::is_demo_name(name));
    }
}

#[test]
fn generated_names_carry_the_time() {
    assert_eq!(ResourceNaming::demo_bucket_name_at(5), "raps-demo-bucket-5");
    assert_eq!(ResourceNaming::demo_object_key_at("a.dwg", -7), "demo--7-a.dwg");
    assert_eq!(ResourceNaming::demo_folder_name_at("Docs", 0), "RAPS Demo - Docs - 0");
    assert_eq!(ResourceNaming::demo_photoscene_name_at(12), "raps-demo-photoscene-12");
    assert!(ResourceNaming::demo_bucket_name().starts_with("raps-demo-bucket-"));
    assert!(ResourceNaming::demo_object_key("x").ends_with("-x"));
    assert!(ResourceNaming::demo_folder_name("x").starts_with("RAPS Demo - x - "));
    assert!(ResourceNaming::demo_photoscene_name().starts_with("raps-demo-photoscene-"));
}

#[test]
fn tracking_the_same_identifier_again_replaces_the_resource() {
    let mut tracker = create_test_tracker();
    tracker.track_resource_at(resource(1, bucket_type(), "demo-a", "w1", 0), 0);
    tracker.track_resource_at(resource(2, bucket_type(), "demo-b", "w1", 0), 0);
    tracker.track_resource_at(resource(1, bucket_type(), "demo-c", "w2", 0), 0);
    let ids: Vec<u128> = tracker.get_all_resources().iter().map(|r| r.id).collect();
    assert_eq!(ids, vec![2, 1]);
    assert_eq!(tracker.get_resource(1).unwrap().name, "demo-c");
    assert_eq!(tracker.get_resources_for_workflow(&"w1".to_string()).len(), 1);
    assert_eq!(tracker.get_resources_for_workflow(&"w2".to_string()).len(), 1);
    assert!(tracker.get_resource(3).is_none());
    tracker.untrack_resource(&3);
    assert_eq!(tracker.get_all_resources().len(), 2);
}

#[test]
fn costs_follow_the_kind() {
    let cost = |kind: ResourceType| kind.estimated_monthly_cost();
    assert_eq!(cost(bucket_type()), 10_000);
    assert_eq!(cost(ResourceType::Object { bucket_name: "b".to_string(), size_bytes: 0 }), 0);
    assert_eq!(
        cost(ResourceType::Object { bucket_name: "b".to_string(), size_bytes: 536_870_912 }),
        11_500
    );
    assert_eq!(
        cost(ResourceType::Object { bucket_name: "b".to_string(), size_bytes: u64::MAX }),
        395_136_991_231_999
    );
    assert_eq!(
        cost(ResourceType::Translation {
            source_urn: "u".to_string(),
            formats: vec!["svf".to_string(), "obj".to_string(), "stl".to_string()]
        }),
        1_500_000
    );
    assert_eq!(cost(ResourceType::DesignAutomationWorkItem { activity_id: "a".to_string() }), 100_000);
    assert_eq!(cost(ResourceType::Photoscene { scene_type: "s".to_string() }), 1_000_000);
    assert_eq!(
        cost(ResourceType::Webhook { event_type: "e".to_string(), callback_url: "c".to_string() }),
        0
    );
    assert_eq!(
        cost(ResourceType::Folder { project_id: "p".to_string(), parent_folder_id: "f".to_string() }),
        0
    );
    assert_eq!(cost(ResourceType::Item { project_id: "p".to_string(), folder_id: "f".to_string() }), 0);
    assert_eq!(add_amounts(u64::MAX, 1), u64::MAX);
    assert_eq!(add_amounts(2, 3), 5);
}

#[test]
fn the_cost_of_a_workflow_is_the_sum_over_its_resources() {
    let mut tracker = create_test_tracker();
    tracker.track_resource_at(
        resource(1, ResourceType::Photoscene { scene_type: "s".to_string() }, "demo-p", "w", 0),
        0,
    );
    tracker.track_resource_at(resource(2, bucket_type(), "demo-b", "w", 0), 0);
    tracker.track_resource_at(resource(3, bucket_type(), "demo-c", "w", 0), 0);
    tracker.track_resource_at(resource(4, bucket_type(), "demo-d", "other", 0), 0);
    let summary = tracker.get_cost_summary_at(&"w".to_string(), 77);
    assert_eq!(summary.total_cost, 1_020_000);
    assert_eq!(summary.cost_by_type.get("Bucket"), Some(&20_000));
    assert_eq!(summary.cost_by_type.get("Photoscene"), Some(&1_000_000));
    assert_eq!(summary.cost_by_resource.len(), 3);
    assert_eq!(summary.currency, "USD");
    assert_eq!(summary.calculated_at, 77);
    assert!(summary.exceeds_threshold(1_019_999));
    assert!(!summary.exceeds_threshold(1_020_000));
    assert!(tracker.exceeds_cost_threshold(&"w".to_string(), 1_000_000));
    assert!(!tracker.exceeds_cost_threshold(&"other".to_string(), 10_000));
    assert_eq!(tracker.get_cost_summary(&"none".to_string()).total_cost, 0);
}

#[test]
fn estimates_count_what_commands_create() {
    let tracker = create_test_tracker();
    let upload = RapsCommand::Object {
        action: ObjectAction::Upload,
        params: ObjectParams {
            bucket_name: "b".to_string(),
            object_key: None,
            file_path: None,
            batch: None,
            expires_in: None,
        },
    };
    let list = RapsCommand::Bucket {
        action: BucketAction::List,
        params: BucketParams { bucket_name: None, retention_policy: None, region: None, force: None },
    };
    let custom = RapsCommand::Custom { command: "x".to_string(), args: vec![] };
    let summary = tracker.estimate_workflow_cost_at(&vec![upload.clone(), list, custom, upload], 3);
    assert_eq!(summary.total_cost, 46_000);
    assert_eq!(summary.cost_by_type.get("Object"), Some(&46_000));
    assert_eq!(summary.cost_by_type.len(), 1);
    assert!(summary.cost_by_resource.is_empty());
}

#[test]
fn recorded_costs_are_kept_with_the_resource() {
    let mut tracker = create_test_tracker();
    tracker.track_resource_at(resource(1, bucket_type(), "demo-a", "w", 0), 0);
    tracker.track_actual_cost(&1, 123);
    tracker.track_actual_cost(&9, 5);
    assert_eq!(tracker.get_resource(1).unwrap().estimated_cost, Some(123));
    let state = tracker.save_state(10);
    assert_eq!(state.cost_data.get(&1), Some(&123));
    assert_eq!(state.cost_data.get(&9), Some(&5));
    tracker.untrack_resource(&1);
    let state = tracker.save_state(11);
    assert_eq!(state.cost_data.get(&1), None);
    assert_eq!(state.last_updated, 11);
}

#[test]
fn policies_decide_what_is_due() {
    let mut tracker = create_test_tracker();
    let translation = ResourceType::Translation { source_urn: "u".to_string(), formats: vec![] };
    let webhook =
        ResourceType::Webhook { event_type: "e".to_string(), callback_url: "c".to_string() };
    assert_eq!(
        tracker.get_cleanup_policy(&translation),
        CleanupPolicy::Delayed { duration: 7200 }
    );
    assert_eq!(tracker.get_cleanup_policy(&webhook), CleanupPolicy::Manual);
    let t = resource(1, translation, "demo-t", "w", 1_000);
    assert!(!tracker.should_cleanup_resource_at(&t, 8_199));
    assert!(tracker.should_cleanup_resource_at(&t, 8_200));
    assert!(tracker.should_cleanup_resource(&t));
    let hook = resource(2, webhook, "demo-h", "w", 1_000);
    assert!(!tracker.should_cleanup_resource_at(&hook, i64::MAX));
    tracker.set_cleanup_policy("Webhook".to_string(), CleanupPolicy::Never);
    assert!(!tracker.should_cleanup_resource_at(&hook, i64::MAX));
    tracker.set_cleanup_policy("Webhook".to_string(), CleanupPolicy::Immediate);
    assert!(tracker.should_cleanup_resource_at(&hook, 0));
    assert_eq!(t.age_at(1_500), 500);
    assert_eq!(t.age_at(i64::MIN), i64::MIN);
    assert_eq!(t.age_at(i64::MIN + 2_000), i64::MIN + 1_000);
    assert!(t.age() > 0);
}

#[test]
fn cleanup_commands_are_generated_by_kind() {
    let tracker = create_test_tracker();
    let bucket = resource(1, bucket_type(), "demo-b", "w", 0);
    assert_eq!(
        tracker.generate_cleanup_commands(&bucket),
        vec![RapsCommand::Bucket {
            action: BucketAction::Delete,
            params: BucketParams {
                bucket_name: Some("aps-1".to_string()),
                retention_policy: None,
                region: None,
                force: Some(true),
            },
        }]
    );
    let object = resource(
        2,
        ResourceType::Object { bucket_name: "b".to_string(), size_bytes: 1 },
        "demo-o",
        "w",
        0,
    );
    assert_eq!(
        tracker.generate_cleanup_commands(&object),
        vec![RapsCommand::Object {
            action: ObjectAction::Delete,
            params: ObjectParams {
                bucket_name: "b".to_string(),
                object_key: Some("aps-2".to_string()),
                file_path: None,
                batch: None,
                expires_in: None,
            },
        }]
    );
    let hook = resource(
        3,
        ResourceType::Webhook { event_type: "e".to_string(), callback_url: "c".to_string() },
        "demo-h",
        "w",
        0,
    );
    assert_eq!(
        tracker.generate_cleanup_commands(&hook),
        vec![RapsCommand::Custom {
            command: "raps".to_string(),
            args: vec!["webhook".to_string(), "delete".to_string(), "aps-3".to_string()],
        }]
    );
    let scene =
        resource(4, ResourceType::Photoscene { scene_type: "s".to_string() }, "demo-s", "w", 0);
    assert!(tracker.generate_cleanup_commands(&scene).is_empty());
    let mut own = resource(5, bucket_type(), "demo-own", "w", 0);
    own.cleanup_commands = vec![RapsCommand::Custom { command: "rm".to_string(), args: vec![] }];
    assert_eq!(tracker.generate_cleanup_commands(&own), own.cleanup_commands);
}

#[test]
fn the_plan_of_the_ledger_lists_what_is_due() {
    let mut tracker = create_test_tracker();
    tracker.track_resource_at(resource(1, bucket_type(), "demo-b", "w", 0), 0);
    tracker.track_resource_at(
        resource(
            2,
            ResourceType::Folder { project_id: "p".to_string(), parent_folder_id: "f".to_string() },
            "demo-f",
            "w",
            0,
        ),
        0,
    );
    tracker.track_resource_at(
        resource(3, ResourceType::Photoscene { scene_type: "s".to_string() }, "demo-s", "w", 0),
        0,
    );
    tracker.track_resource_at(resource(4, bucket_type(), "demo-x", "other", 0), 0);
    let tasks = tracker.cleanup_workflow_resources(&"w".to_string(), 100);
    let ids: Vec<u128> = tasks.iter().map(|t| t.resource_id).collect();
    assert_eq!(ids, vec![1, 3]);
    assert_eq!(tasks[0].commands.len(), 1);
    assert!(tasks[1].commands.is_empty());
    assert!(tracker.cleanup_workflow_resources(&"none".to_string(), 100).is_empty());
}

#[test]
fn a_snapshot_gives_the_ledger_back() {
    let mut tracker = create_test_tracker();
    let mut tagged = resource(1, bucket_type(), "demo-a", "w1", 5);
    tagged.add_tag("owner".to_string(), "me".to_string());
    tagged.cleanup_commands = vec![RapsCommand::Custom { command: "rm".to_string(), args: vec![] }];
    tracker.track_resource_at(tagged, 5);
    tracker.track_resource_at(resource(2, bucket_type(), "demo-b", "w2", 6), 6);
    tracker.track_resource_at(resource(3, bucket_type(), "demo-c", "w1", 7), 7);
    tracker.track_actual_cost(&2, 99);
    tracker.set_cleanup_policy("Bucket".to_string(), CleanupPolicy::Never);
    let state = tracker.save_state(50);
    assert_eq!(state.workflow_resources.get("w1"), Some(&vec![1, 3]));
    assert_eq!(state.workflow_resources.get("w2"), Some(&vec![2]));
    assert_eq!(state.workflow_resources.len(), 2);
    let mut loaded = FileBasedResourceTracker::new("other.json".to_string());
    assert_eq!(loaded.load_state(state), Ok(()));
    assert_eq!(loaded.state_file(), "other.json");
    let before = tracker.get_all_resources();
    let after = loaded.get_all_resources();
    assert_eq!(before.len(), after.len());
    for (a, b) in before.iter().zip(after.iter()) {
        assert_eq!(a.id, b.id);
        assert_eq!(a.name, b.name);
        assert_eq!(a.aps_id, b.aps_id);
        assert_eq!(a.workflow_id, b.workflow_id);
        assert_eq!(a.created_at, b.created_at);
        assert_eq!(a.resource_type, b.resource_type);
        assert_eq!(a.cleanup_commands, b.cleanup_commands);
        assert_eq!(a.estimated_cost, b.estimated_cost);
        assert_eq!(a.tags.get("owner"), b.tags.get("owner"));
    }
    assert_eq!(loaded.get_cleanup_policy(&bucket_type()), CleanupPolicy::Never);
    assert_eq!(loaded.save_state(51).cost_data.get(&2), Some(&99));
}

#[test]
fn an_unsound_snapshot_is_refused() {
    let mut tracker = create_test_tracker();
    tracker.track_resource_at(resource(1, bucket_type(), "demo-a", "w", 0), 0);
    let mut doubled = tracker.save_state(1);
    doubled.resources.push(resource(1, bucket_type(), "demo-again", "w", 0));
    assert_eq!(tracker.load_state(doubled), Err(LedgerError::UnsoundSnapshot));
    assert_eq!(tracker.get_all_resources().len(), 1);
    let mut misnamed = tracker.save_state(2);
    misnamed.resources.push(resource(2, bucket_type(), "production", "w", 0));
    assert_eq!(tracker.load_state(misnamed), Err(LedgerError::UnsoundSnapshot));
    assert_eq!(tracker.get_all_resources().len(), 1);
    assert_eq!(tracker.get_resource(1).unwrap().name, "demo-a");
}

#[test]
fn a_change_that_was_not_written_is_undone() {
    let mut tracker = FileBasedResourceTracker::new("state.json".to_string());
    tracker.track_resource_at(settle_resource(1, "demo-a"), 10);
    let before = tracker.save_state(20);
    tracker.track_resource_at(settle_resource(2, "demo-b"), 30);
    tracker.untrack_resource(&1);
    assert_eq!(ids_of(&tracker), vec![2]);
    assert_eq!(tracker.settle(before, false), Err(LedgerError::NotWritten));
    assert_eq!(ids_of(&tracker), vec![1]);
    assert_eq!(tracker.state_file(), "state.json");
}

#[test]
fn a_change_that_was_written_stays() {
    let mut tracker = FileBasedResourceTracker::new("state.json".to_string());
    let before = tracker.save_state(20);
    tracker.track_resource_at(settle_resource(2, "demo-b"), 30);
    assert_eq!(tracker.settle(before, true), Ok(()));
    assert_eq!(ids_of(&tracker), vec![2]);
}

#[test]
fn an_unsound_snapshot_is_not_put_back() {
    let mut tracker = FileBasedResourceTracker::new("state.json".to_string());
    tracker.track_resource_at(settle_resource(1, "demo-a"), 10);
    let mut doubled = tracker.save_state(20);
    doubled.resources.push(settle_resource(1, "demo-again"));
    tracker.track_resource_at(settle_resource(2, "demo-b"), 30);
    assert_eq!(tracker.settle(doubled, false), Err(LedgerError::UnsoundSnapshot));
    assert_eq!(ids_of(&tracker), vec![1, 2]);
}

fn settle_resource(id: u128, name: &str) -> TrackedResource {
    TrackedResource::with_identity(
        id,
        5,
        ResourceType::Bucket { region: "US".to_string(), retention_policy: "transient".to_string() },
        format!("aps-{}", id),
        name.to_string(),
        "w".to_string(),
        vec![],
    )
}

fn ids_of(tracker: &FileBasedResourceTracker) -> Vec<u128> {
    tracker.get_all_resources().iter().map(|r| r.id).collect()
}
