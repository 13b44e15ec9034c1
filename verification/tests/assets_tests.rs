use raps_demo_workflows::assets::{AssetCategory, AssetDefinition, AssetRegistry, AssetStatus};
use raps_demo_workflows::flowchart::FlowchartState;

#[test]
fn test_asset_registry() {
    let registry = AssetRegistry::new();
    assert!(!registry.all().is_empty());

    let inventor = registry.by_category(AssetCategory::Inventor);
    assert!(!inventor.is_empty());

    let revit = registry.by_category(AssetCategory::Revit);
    assert!(!revit.is_empty());
}

#[test]
fn test_asset_filename() {
    let asset = AssetDefinition {
        name: "Test".to_string(),
        description: "Test".to_string(),
        url: "https://example.com/path/to/file.zip".to_string(),
        category: AssetCategory::Inventor,
        is_archive: true,
        estimated_size_kb: 1_000,
    };
    assert_eq!(asset.filename(), "file.zip");
}

#[test]
fn categories_have_folders_and_titles() {
    assert_eq!(AssetCategory::Inventor.folder_name(), "inventor");
    assert_eq!(AssetCategory::Revit.folder_name(), "revit");
    assert_eq!(AssetCategory::AutoCAD.folder_name(), "autocad");
    assert_eq!(AssetCategory::Fusion.folder_name(), "fusion");
    assert_eq!(AssetCategory::Civil3D.folder_name(), "civil3d");
    assert_eq!(AssetCategory::Inventor.display_name(), "Autodesk Inventor");
    assert_eq!(AssetCategory::Revit.display_name(), "Autodesk Revit");
    assert_eq!(AssetCategory::AutoCAD.display_name(), "AutoCAD");
    assert_eq!(AssetCategory::Fusion.display_name(), "Autodesk Fusion");
    assert_eq!(AssetCategory::Civil3D.display_name(), "Civil 3D");
}

#[test]
fn the_file_name_is_what_stands_behind_the_last_slash() {
    let named = |url: &str| {
        AssetDefinition {
            name: String::new(),
            description: String::new(),
            url: url.to_string(),
            category: AssetCategory::Revit,
            is_archive: false,
            estimated_size_kb: 0,
        }
        .filename()
    };
    assert_eq!(named("file.rfa"), "file.rfa");
    assert_eq!(named("a/b/"), "");
    assert_eq!(named(""), "");
    assert_eq!(named("/x"), "x");
}

#[test]
fn the_registry_knows_nine_assets() {
    let registry = AssetRegistry::new();
    assert_eq!(registry.all().len(), 9);
    assert_eq!(registry.by_category(AssetCategory::Inventor).len(), 3);
    assert_eq!(registry.by_category(AssetCategory::Revit).len(), 6);
    assert!(registry.by_category(AssetCategory::Fusion).is_empty());
    assert_eq!(registry.total_size_kb(), 158_400);
    assert_eq!(registry.all()[0].filename(), "autodesk_inventor_2022_samples.zip");
    assert_eq!(AssetRegistry::default().all().len(), 9);
}

#[test]
fn the_status_sorts_assets_by_whether_they_are_on_disk() {
    let registry = AssetRegistry::new();
    let on_disk = vec![true, false, true, true];
    let status = AssetStatus::of(&registry, &on_disk, "dir".to_string());
    assert_eq!(status.downloaded.len(), 3);
    assert_eq!(status.missing.len(), 6);
    assert_eq!(status.missing[0].name, "Inventor Sheet Metal Punch Tool");
    assert!(!status.is_complete());
    assert_eq!(status.missing_size_kb(), 6_900);
    assert_eq!(status.summary(), "Assets: 3/9 downloaded (6.9 MB remaining)");
    let all = AssetStatus::of(&registry, &vec![true; 9], "dir".to_string());
    assert!(all.is_complete());
    assert_eq!(all.summary(), "Assets: 9/9 downloaded (0.0 MB remaining)");
    assert_eq!(all.base_dir, "dir");
}

#[test]
fn the_flowchart_scrolls_and_follows_the_run() {
    let mut state = FlowchartState::default();
    state.scroll_down(5);
    assert_eq!(state.scroll, 5);
    state.scroll_up(2);
    assert_eq!(state.scroll, 3);
    state.scroll_up(10);
    assert_eq!(state.scroll, 0);
    state.scroll_down(7);
    state.reset();
    assert_eq!(state.scroll, 0);
    state.set_execution_state(Some(2), &[0, 1]);
    assert_eq!(state.executing_step, Some(2));
    assert_eq!(state.completed_steps, vec![0, 1]);
    state.set_execution_state(None, &[]);
    assert_eq!(state.executing_step, None);
    assert!(state.completed_steps.is_empty());
}
