//! The data of a workflow: its metadata, its steps, the typed commands that
//! a step hands to the external tool, and the records of a run.
//!
//! Every type that holds text has a view in which each string is a
//! `Seq<char>`; the contracts of the library speak of those views.

use vstd::prelude::*;
use crate::text::{texts, opt_text, owned, copy_texts, copy_opt};
use crate::system::fresh_id;
use crate::text_map::TextMap;

verus! {

/// Identifier of a workflow, unique among the discovered ones.
pub type WorkflowId = String;

/// Identifier of a step, unique within its workflow.
pub type StepId = String;

/// Path of an asset file, as text.
pub type AssetPath = String;

/// Identifier of a tracked resource.
pub type ResourceId = crate::resource::types::ResourceId;

/// A moment in time: seconds since the Unix epoch.
pub type Timestamp = i64;

/// A span of time in seconds.
pub type Seconds = i64;

/// An amount of money in millionths of a US dollar.
pub type MicroUsd = u64;

/// The service that a workflow demonstrates.
#[derive(Debug, Clone, Copy, PartialEq, Eq, Structural)]
pub enum WorkflowCategory {
    ObjectStorage,
    ModelDerivative,
    DataManagement,
    DesignAutomation,
    ConstructionCloud,
    RealityCapture,
    Webhooks,
    EndToEnd,
}

impl WorkflowCategory {
    /// The display name of the category.
    pub open spec fn label(self) -> Seq<char> {
        match self {
            WorkflowCategory::ObjectStorage => "Object Storage"@,
            WorkflowCategory::ModelDerivative => "Model Derivative"@,
            WorkflowCategory::DataManagement => "Data Management"@,
            WorkflowCategory::DesignAutomation => "Design Automation"@,
            WorkflowCategory::ConstructionCloud => "Construction Cloud"@,
            WorkflowCategory::RealityCapture => "Reality Capture"@,
            WorkflowCategory::Webhooks => "Webhooks"@,
            WorkflowCategory::EndToEnd => "End-to-End"@,
        }
    }

    /// The display name of the category as a string.
    pub fn to_string(&self) -> (s: String)
        ensures
            s@ == self.label(),
    {
        match self {
            WorkflowCategory::ObjectStorage => owned("Object Storage"),
            WorkflowCategory::ModelDerivative => owned("Model Derivative"),
            WorkflowCategory::DataManagement => owned("Data Management"),
            WorkflowCategory::DesignAutomation => owned("Design Automation"),
            WorkflowCategory::ConstructionCloud => owned("Construction Cloud"),
            WorkflowCategory::RealityCapture => owned("Reality Capture"),
            WorkflowCategory::Webhooks => owned("Webhooks"),
            WorkflowCategory::EndToEnd => owned("End-to-End"),
        }
    }
}

/// What must be in place before a workflow can run.
#[derive(Debug, Clone, Copy, PartialEq, Eq, Structural)]
pub enum PrerequisiteType {
    Authentication,
    Permissions,
    ExternalTool,
    Assets,
}

/// One prerequisite with its description for the reader.
#[derive(Debug, PartialEq, Eq)]
pub struct Prerequisite {
    pub prerequisite_type: PrerequisiteType,
    pub description: String,
}

pub struct PrerequisiteView {
    pub prerequisite_type: PrerequisiteType,
    pub description: Seq<char>,
}

impl View for Prerequisite {
    type V = PrerequisiteView;

    open spec fn view(&self) -> PrerequisiteView {
        PrerequisiteView {
            prerequisite_type: self.prerequisite_type,
            description: self.description@,
        }
    }
}

impl Clone for Prerequisite {
    fn clone(&self) -> (r: Self)
        ensures
            r@ == self@,
    {
        Prerequisite {
            prerequisite_type: self.prerequisite_type,
            description: self.description.clone(),
        }
    }
}

/// The views of a sequence of prerequisites.
pub open spec fn prerequisite_views(v: Seq<Prerequisite>) -> Seq<PrerequisiteView> {
    v.map_values(|p: Prerequisite| p@)
}

/// The cost that a workflow may cause at most.
#[derive(Debug, PartialEq, Eq)]
pub struct CostEstimate {
    pub description: String,
    pub max_cost: MicroUsd,
}

pub struct CostEstimateView {
    pub description: Seq<char>,
    pub max_cost: MicroUsd,
}

impl View for CostEstimate {
    type V = CostEstimateView;

    open spec fn view(&self) -> CostEstimateView {
        CostEstimateView { description: self.description@, max_cost: self.max_cost }
    }
}

impl Clone for CostEstimate {
    fn clone(&self) -> (r: Self)
        ensures
            r@ == self@,
    {
        CostEstimate { description: self.description.clone(), max_cost: self.max_cost }
    }
}

/// The view of a cost estimate that may be absent.
pub open spec fn opt_cost(o: Option<CostEstimate>) -> Option<CostEstimateView> {
    match o {
        Some(c) => Some(c@),
        None => None,
    }
}

/// What a workflow says of itself.
#[derive(Debug, PartialEq, Eq)]
pub struct WorkflowMetadata {
    pub id: WorkflowId,
    pub name: String,
    pub description: String,
    pub category: WorkflowCategory,
    pub prerequisites: Vec<Prerequisite>,
    pub estimated_duration: Seconds,
    pub cost_estimate: Option<CostEstimate>,
    pub required_assets: Vec<AssetPath>,
    pub script_path: String,
}

pub struct WorkflowMetadataView {
    pub id: Seq<char>,
    pub name: Seq<char>,
    pub description: Seq<char>,
    pub category: WorkflowCategory,
    pub prerequisites: Seq<PrerequisiteView>,
    pub estimated_duration: Seconds,
    pub cost_estimate: Option<CostEstimateView>,
    pub required_assets: Seq<Seq<char>>,
    pub script_path: Seq<char>,
}

impl View for WorkflowMetadata {
    type V = WorkflowMetadataView;

    open spec fn view(&self) -> WorkflowMetadataView {
        WorkflowMetadataView {
            id: self.id@,
            name: self.name@,
            description: self.description@,
            category: self.category,
            prerequisites: prerequisite_views(self.prerequisites@),
            estimated_duration: self.estimated_duration,
            cost_estimate: opt_cost(self.cost_estimate),
            required_assets: texts(self.required_assets@),
            script_path: self.script_path@,
        }
    }
}

impl Clone for WorkflowMetadata {
    fn clone(&self) -> (r: Self)
        ensures
            r@ == self@,
    {
        let mut prerequisites: Vec<Prerequisite> = Vec::new();
        let mut i: usize = 0;
        while i < self.prerequisites.len()
            invariant
                i <= self.prerequisites.len(),
                prerequisite_views(prerequisites@) == prerequisite_views(
                    self.prerequisites@,
                ).take(i as int),
            decreases self.prerequisites.len() - i,
        {
            let ghost prior = prerequisite_views(prerequisites@);
            let p = self.prerequisites[i].clone();
            prerequisites.push(p);
            i = i + 1;
            assert(prerequisite_views(prerequisites@) =~= prior.push(p@));
            assert(prerequisite_views(self.prerequisites@).take(i as int) =~= prerequisite_views(
                self.prerequisites@,
            ).take(i - 1).push(p@));
        }
        assert(prerequisite_views(self.prerequisites@).take(self.prerequisites.len() as int)
            =~= prerequisite_views(self.prerequisites@));
        let cost_estimate = match &self.cost_estimate {
            Some(c) => Some(c.clone()),
            None => None,
        };
        WorkflowMetadata {
            id: self.id.clone(),
            name: self.name.clone(),
            description: self.description.clone(),
            category: self.category,
            prerequisites,
            estimated_duration: self.estimated_duration,
            cost_estimate,
            required_assets: copy_texts(&self.required_assets),
            script_path: self.script_path.clone(),
        }
    }
}

/// Where a run or a step stands.
#[derive(Debug, Clone, Copy, PartialEq, Eq, Structural)]
pub enum ExecutionStatus {
    Pending,
    Running,
    Paused,
    Completed,
    Failed,
    Cancelled,
}

/// The setting in which a run takes place.
#[derive(Debug, Clone)]
pub struct ExecutionContext {
    pub workflow_id: WorkflowId,
    pub options: ExecutionOptions,
    /// Environment variables for the commands of the run.
    pub environment: TextMap<String>,
    /// Directory for the files that the run may write.
    pub temp_dir: String,
    pub start_time: Timestamp,
}

/// How a workflow is to be run.
#[derive(Debug, Clone, Copy, PartialEq, Eq, Structural)]
pub struct ExecutionOptions {
    /// Pause between steps and wait for the host to resume.
    pub interactive: bool,
    pub verbose: bool,
    /// Clean up the resources of the run when it ends.
    pub auto_cleanup: bool,
    /// Longest time that the whole run may take.
    pub timeout: Seconds,
}

impl Default for ExecutionOptions {
    fn default() -> (r: Self)
        ensures
            r == (ExecutionOptions {
                interactive: true,
                verbose: false,
                auto_cleanup: true,
                timeout: 1800,
            }),
    {
        ExecutionOptions { interactive: true, verbose: false, auto_cleanup: true, timeout: 1800 }
    }
}

#[derive(Debug, Clone, Copy, PartialEq, Eq, Structural)]
pub enum AuthAction {
    Login,
    Logout,
    Status,
    Refresh,
}

#[derive(Debug, Clone, Copy, PartialEq, Eq, Structural)]
pub enum BucketAction {
    Create,
    Delete,
    List,
    Details,
}

#[derive(Debug, PartialEq, Eq)]
pub struct BucketParams {
    pub bucket_name: Option<String>,
    pub retention_policy: Option<String>,
    pub region: Option<String>,
    pub force: Option<bool>,
}

pub struct BucketParamsView {
    pub bucket_name: Option<Seq<char>>,
    pub retention_policy: Option<Seq<char>>,
    pub region: Option<Seq<char>>,
    pub force: Option<bool>,
}

impl View for BucketParams {
    type V = BucketParamsView;

    open spec fn view(&self) -> BucketParamsView {
        BucketParamsView {
            bucket_name: opt_text(self.bucket_name),
            retention_policy: opt_text(self.retention_policy),
            region: opt_text(self.region),
            force: self.force,
        }
    }
}

impl Clone for BucketParams {
    fn clone(&self) -> (r: Self)
        ensures
            r@ == self@,
    {
        BucketParams {
            bucket_name: copy_opt(&self.bucket_name),
            retention_policy: copy_opt(&self.retention_policy),
            region: copy_opt(&self.region),
            force: self.force,
        }
    }
}

#[derive(Debug, Clone, Copy, PartialEq, Eq, Structural)]
pub enum ObjectAction {
    Upload,
    Download,
    Delete,
    List,
    Details,
    SignedUrl,
}

#[derive(Debug, PartialEq, Eq)]
pub struct ObjectParams {
    pub bucket_name: String,
    pub object_key: Option<String>,
    pub file_path: Option<String>,
    pub batch: Option<bool>,
    pub expires_in: Option<u64>,
}

pub struct ObjectParamsView {
    pub bucket_name: Seq<char>,
    pub object_key: Option<Seq<char>>,
    pub file_path: Option<Seq<char>>,
    pub batch: Option<bool>,
    pub expires_in: Option<u64>,
}

impl View for ObjectParams {
    type V = ObjectParamsView;

    open spec fn view(&self) -> ObjectParamsView {
        ObjectParamsView {
            bucket_name: self.bucket_name@,
            object_key: opt_text(self.object_key),
            file_path: opt_text(self.file_path),
            batch: self.batch,
            expires_in: self.expires_in,
        }
    }
}

impl Clone for ObjectParams {
    fn clone(&self) -> (r: Self)
        ensures
            r@ == self@,
    {
        ObjectParams {
            bucket_name: self.bucket_name.clone(),
            object_key: copy_opt(&self.object_key),
            file_path: copy_opt(&self.file_path),
            batch: self.batch,
            expires_in: self.expires_in,
        }
    }
}

#[derive(Debug, Clone, Copy, PartialEq, Eq, Structural)]
pub enum TranslateAction {
    Start,
    Status,
    Download,
    Manifest,
}

#[derive(Debug, PartialEq, Eq)]
pub struct TranslateParams {
    pub urn: Option<String>,
    pub format: Option<String>,
    pub output_dir: Option<String>,
    pub wait: Option<bool>,
}

pub struct TranslateParamsView {
    pub urn: Option<Seq<char>>,
    pub format: Option<Seq<char>>,
    pub output_dir: Option<Seq<char>>,
    pub wait: Option<bool>,
}

impl View for TranslateParams {
    type V = TranslateParamsView;

    open spec fn view(&self) -> TranslateParamsView {
        TranslateParamsView {
            urn: opt_text(self.urn),
            format: opt_text(self.format),
            output_dir: opt_text(self.output_dir),
            wait: self.wait,
        }
    }
}

impl Clone for TranslateParams {
    fn clone(&self) -> (r: Self)
        ensures
            r@ == self@,
    {
        TranslateParams {
            urn: copy_opt(&self.urn),
            format: copy_opt(&self.format),
            output_dir: copy_opt(&self.output_dir),
            wait: self.wait,
        }
    }
}

#[derive(Debug, Clone, Copy, PartialEq, Eq, Structural)]
pub enum DataMgmtAction {
    HubList,
    ProjectList,
    FolderList,
    FolderCreate,
    ItemVersions,
    ItemBind,
}

#[derive(Debug, PartialEq, Eq)]
pub struct DataMgmtParams {
    pub hub_id: Option<String>,
    pub project_id: Option<String>,
    pub folder_id: Option<String>,
    pub item_id: Option<String>,
    pub folder_name: Option<String>,
}

pub struct DataMgmtParamsView {
    pub hub_id: Option<Seq<char>>,
    pub project_id: Option<Seq<char>>,
    pub folder_id: Option<Seq<char>>,
    pub item_id: Option<Seq<char>>,
    pub folder_name: Option<Seq<char>>,
}

impl View for DataMgmtParams {
    type V = DataMgmtParamsView;

    open spec fn view(&self) -> DataMgmtParamsView {
        DataMgmtParamsView {
            hub_id: opt_text(self.hub_id),
            project_id: opt_text(self.project_id),
            folder_id: opt_text(self.folder_id),
            item_id: opt_text(self.item_id),
            folder_name: opt_text(self.folder_name),
        }
    }
}

impl Clone for DataMgmtParams {
    fn clone(&self) -> (r: Self)
        ensures
            r@ == self@,
    {
        DataMgmtParams {
            hub_id: copy_opt(&self.hub_id),
            project_id: copy_opt(&self.project_id),
            folder_id: copy_opt(&self.folder_id),
            item_id: copy_opt(&self.item_id),
            folder_name: copy_opt(&self.folder_name),
        }
    }
}

#[derive(Debug, Clone, Copy, PartialEq, Eq, Structural)]
pub enum DesignAutoAction {
    AppBundles,
    Activities,
    WorkItemRun,
    WorkItemGet,
}

#[derive(Debug, PartialEq, Eq)]
pub struct DesignAutoParams {
    pub app_bundle_id: Option<String>,
    pub activity_id: Option<String>,
    pub work_item_id: Option<String>,
    pub input_file: Option<String>,
    pub output_file: Option<String>,
}

pub struct DesignAutoParamsView {
    pub app_bundle_id: Option<Seq<char>>,
    pub activity_id: Option<Seq<char>>,
    pub work_item_id: Option<Seq<char>>,
    pub input_file: Option<Seq<char>>,
    pub output_file: Option<Seq<char>>,
}

impl View for DesignAutoParams {
    type V = DesignAutoParamsView;

    open spec fn view(&self) -> DesignAutoParamsView {
        DesignAutoParamsView {
            app_bundle_id: opt_text(self.app_bundle_id),
            activity_id: opt_text(self.activity_id),
            work_item_id: opt_text(self.work_item_id),
            input_file: opt_text(self.input_file),
            output_file: opt_text(self.output_file),
        }
    }
}

impl Clone for DesignAutoParams {
    fn clone(&self) -> (r: Self)
        ensures
            r@ == self@,
    {
        DesignAutoParams {
            app_bundle_id: copy_opt(&self.app_bundle_id),
            activity_id: copy_opt(&self.activity_id),
            work_item_id: copy_opt(&self.work_item_id),
            input_file: copy_opt(&self.input_file),
            output_file: copy_opt(&self.output_file),
        }
    }
}

/// One invocation of the external tool, by kind.
#[derive(Debug, PartialEq, Eq)]
#[allow(inconsistent_fields)]
pub enum RapsCommand {
    Auth { action: AuthAction },
    Bucket { action: BucketAction, params: BucketParams },
    Object { action: ObjectAction, params: ObjectParams },
    Translate { action: TranslateAction, params: TranslateParams },
    DataManagement { action: DataMgmtAction, params: DataMgmtParams },
    DesignAutomation { action: DesignAutoAction, params: DesignAutoParams },
    /// Any program with its arguments, for what the other kinds do not cover.
    Custom { command: String, args: Vec<String> },
}

#[allow(inconsistent_fields)]
pub enum RapsCommandView {
    Auth { action: AuthAction },
    Bucket { action: BucketAction, params: BucketParamsView },
    Object { action: ObjectAction, params: ObjectParamsView },
    Translate { action: TranslateAction, params: TranslateParamsView },
    DataManagement { action: DataMgmtAction, params: DataMgmtParamsView },
    DesignAutomation { action: DesignAutoAction, params: DesignAutoParamsView },
    Custom { command: Seq<char>, args: Seq<Seq<char>> },
}

impl View for RapsCommand {
    type V = RapsCommandView;

    open spec fn view(&self) -> RapsCommandView {
        match *self {
            RapsCommand::Auth { action } => RapsCommandView::Auth { action },
            RapsCommand::Bucket { action, params } => RapsCommandView::Bucket {
                action,
                params: params@,
            },
            RapsCommand::Object { action, params } => RapsCommandView::Object {
                action,
                params: params@,
            },
            RapsCommand::Translate { action, params } => RapsCommandView::Translate {
                action,
                params: params@,
            },
            RapsCommand::DataManagement { action, params } => RapsCommandView::DataManagement {
                action,
                params: params@,
            },
            RapsCommand::DesignAutomation { action, params } => RapsCommandView::DesignAutomation {
                action,
                params: params@,
            },
            RapsCommand::Custom { command, args } => RapsCommandView::Custom {
                command: command@,
                args: texts(args@),
            },
        }
    }
}

impl Clone for RapsCommand {
    fn clone(&self) -> (r: Self)
        ensures
            r@ == self@,
    {
        match self {
            RapsCommand::Auth { action } => RapsCommand::Auth { action: *action },
            RapsCommand::Bucket { action, params } => RapsCommand::Bucket {
                action: *action,
                params: params.clone(),
            },
            RapsCommand::Object { action, params } => RapsCommand::Object {
                action: *action,
                params: params.clone(),
            },
            RapsCommand::Translate { action, params } => RapsCommand::Translate {
                action: *action,
                params: params.clone(),
            },
            RapsCommand::DataManagement { action, params } => RapsCommand::DataManagement {
                action: *action,
                params: params.clone(),
            },
            RapsCommand::DesignAutomation { action, params } => RapsCommand::DesignAutomation {
                action: *action,
                params: params.clone(),
            },
            RapsCommand::Custom { command, args } => RapsCommand::Custom {
                command: command.clone(),
                args: copy_texts(args),
            },
        }
    }
}

/// A copy of a list of commands, view for view.
pub fn copy_commands(v: &Vec<RapsCommand>) -> (r: Vec<RapsCommand>)
    ensures
        command_views(r@) == command_views(v@),
{
    let mut r: Vec<RapsCommand> = Vec::new();
    let mut i: usize = 0;
    while i < v.len()
        invariant
            i <= v.len(),
            command_views(r@) == command_views(v@).take(i as int),
        decreases v.len() - i,
    {
        let ghost prior = command_views(r@);
        let c = v[i].clone();
        r.push(c);
        i = i + 1;
        assert(command_views(r@) =~= prior.push(c@));
        assert(command_views(v@).take(i as int) =~= command_views(v@).take(i - 1).push(c@));
    }
    assert(command_views(v@).take(v.len() as int) =~= command_views(v@));
    r
}

/// The views of a sequence of commands.
pub open spec fn command_views(v: Seq<RapsCommand>) -> Seq<RapsCommandView> {
    v.map_values(|c: RapsCommand| c@)
}

/// One step of a workflow.
#[derive(Debug, PartialEq, Eq)]
pub struct ExecutionStep {
    pub id: StepId,
    pub name: String,
    pub description: String,
    pub command: RapsCommand,
    pub expected_duration: Option<Seconds>,
    /// Commands that remove what this step created.
    pub cleanup_commands: Vec<RapsCommand>,
}

pub struct ExecutionStepView {
    pub id: Seq<char>,
    pub name: Seq<char>,
    pub description: Seq<char>,
    pub command: RapsCommandView,
    pub expected_duration: Option<Seconds>,
    pub cleanup_commands: Seq<RapsCommandView>,
}

impl View for ExecutionStep {
    type V = ExecutionStepView;

    open spec fn view(&self) -> ExecutionStepView {
        ExecutionStepView {
            id: self.id@,
            name: self.name@,
            description: self.description@,
            command: self.command@,
            expected_duration: self.expected_duration,
            cleanup_commands: command_views(self.cleanup_commands@),
        }
    }
}

impl Clone for ExecutionStep {
    fn clone(&self) -> (r: Self)
        ensures
            r@ == self@,
    {
        ExecutionStep {
            id: self.id.clone(),
            name: self.name.clone(),
            description: self.description.clone(),
            command: self.command.clone(),
            expected_duration: self.expected_duration,
            cleanup_commands: copy_commands(&self.cleanup_commands),
        }
    }
}

/// The views of a sequence of steps.
pub open spec fn step_views(v: Seq<ExecutionStep>) -> Seq<ExecutionStepView> {
    v.map_values(|s: ExecutionStep| s@)
}

/// What became of one step.
#[derive(Debug, PartialEq, Eq)]
pub struct StepResult {
    pub step_id: StepId,
    pub status: ExecutionStatus,
    pub start_time: Timestamp,
    pub end_time: Option<Timestamp>,
    pub stdout: String,
    pub stderr: String,
    pub exit_code: Option<i32>,
    pub created_resources: Vec<ResourceId>,
}

pub struct StepResultView {
    pub step_id: Seq<char>,
    pub status: ExecutionStatus,
    pub start_time: Timestamp,
    pub end_time: Option<Timestamp>,
    pub stdout: Seq<char>,
    pub stderr: Seq<char>,
    pub exit_code: Option<i32>,
    pub created_resources: Seq<ResourceId>,
}

impl View for StepResult {
    type V = StepResultView;

    open spec fn view(&self) -> StepResultView {
        StepResultView {
            step_id: self.step_id@,
            status: self.status,
            start_time: self.start_time,
            end_time: self.end_time,
            stdout: self.stdout@,
            stderr: self.stderr@,
            exit_code: self.exit_code,
            created_resources: self.created_resources@,
        }
    }
}

impl Clone for StepResult {
    fn clone(&self) -> (r: Self)
        ensures
            r@ == self@,
    {
        let created_resources = self.created_resources.clone();
        assert(created_resources@ =~= self.created_resources@);
        StepResult {
            step_id: self.step_id.clone(),
            status: self.status,
            start_time: self.start_time,
            end_time: self.end_time,
            stdout: self.stdout.clone(),
            stderr: self.stderr.clone(),
            exit_code: self.exit_code,
            created_resources,
        }
    }
}

/// The views of a sequence of step results.
pub open spec fn result_views(v: Seq<StepResult>) -> Seq<StepResultView> {
    v.map_values(|s: StepResult| s@)
}

/// What became of a whole run.
#[derive(Debug, PartialEq, Eq)]
pub struct ExecutionResult {
    pub workflow_id: WorkflowId,
    pub success: bool,
    pub duration: Seconds,
    pub steps_completed: usize,
    pub total_steps: usize,
    pub resources_created: Vec<ResourceId>,
    pub cleanup_performed: bool,
    pub step_results: Vec<StepResult>,
}

impl Clone for ExecutionResult {
    fn clone(&self) -> (r: Self)
        ensures
            r.workflow_id@ == self.workflow_id@,
            r.success == self.success,
            r.duration == self.duration,
            r.steps_completed == self.steps_completed,
            r.total_steps == self.total_steps,
            r.resources_created@ == self.resources_created@,
            r.cleanup_performed == self.cleanup_performed,
            result_views(r.step_results@) == result_views(self.step_results@),
    {
        let resources_created = self.resources_created.clone();
        assert(resources_created@ =~= self.resources_created@);
        ExecutionResult {
            workflow_id: self.workflow_id.clone(),
            success: self.success,
            duration: self.duration,
            steps_completed: self.steps_completed,
            total_steps: self.total_steps,
            resources_created,
            cleanup_performed: self.cleanup_performed,
            step_results: copy_results(&self.step_results),
        }
    }
}

/// A copy of a list of step results, view for view.
pub fn copy_results(v: &Vec<StepResult>) -> (r: Vec<StepResult>)
    ensures
        result_views(r@) == result_views(v@),
{
    let mut r: Vec<StepResult> = Vec::new();
    let mut i: usize = 0;
    while i < v.len()
        invariant
            i <= v.len(),
            result_views(r@) == result_views(v@).take(i as int),
        decreases v.len() - i,
    {
        let ghost prior = result_views(r@);
        let c = v[i].clone();
        r.push(c);
        i = i + 1;
        assert(result_views(r@) =~= prior.push(c@));
        assert(result_views(v@).take(i as int) =~= result_views(v@).take(i - 1).push(c@));
    }
    assert(result_views(v@).take(v.len() as int) =~= result_views(v@));
    r
}

/// A snapshot of a run for display.
#[derive(Debug, Clone, PartialEq, Eq)]
pub struct ExecutionProgress {
    pub workflow_id: WorkflowId,
    pub status: ExecutionStatus,
    /// The step that runs next, if one is left.
    pub current_step: Option<StepId>,
    pub completed_steps: usize,
    pub total_steps: usize,
    /// Completed steps per hundred steps, rounded down.
    pub progress_percent: u8,
    pub estimated_remaining: Option<Seconds>,
}

/// Names one run: a fresh identifier and the workflow that runs.
#[derive(Debug, PartialEq, Eq, Hash)]
pub struct ExecutionHandle {
    pub id: u128,
    pub workflow_id: WorkflowId,
}

impl Clone for ExecutionHandle {
    fn clone(&self) -> (r: Self)
        ensures
            r == *self,
    {
        ExecutionHandle { id: self.id, workflow_id: self.workflow_id.clone() }
    }
}

impl ExecutionHandle {
    /// A handle with a fresh random identifier.
    pub fn new(workflow_id: WorkflowId) -> (h: Self)
        ensures
            h.workflow_id == workflow_id,
    {
        ExecutionHandle { id: fresh_id(), workflow_id }
    }

    /// A handle with the identifier given.
    pub fn with_id(id: u128, workflow_id: WorkflowId) -> (h: Self)
        ensures
            h.id == id,
            h.workflow_id == workflow_id,
    {
        ExecutionHandle { id, workflow_id }
    }
}

} // verus!
