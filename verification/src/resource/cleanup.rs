//! Cleanup across workflows: which resources are removed, in which way,
//! and what the user is told.
//!
//! The orchestrator plans; the host carries the plan out. A plan names the
//! resources to remove with their commands, the resources that are left
//! with the reason, and what has to be done by hand. Where the plan says
//! so the host runs the commands and reports what became of each resource.

use vstd::prelude::*;
use crate::text::{texts, owned, concat3};
use crate::text_map::TextMap;
use crate::workflow::client::{CommandResult, failure_text};
use crate::workflow::types::{RapsCommand, RapsCommandView, WorkflowId, Timestamp, Seconds, MicroUsd,
    command_views, copy_commands};
use crate::resource::types::{ResourceId, ResourceType, ResourceTypeView, TrackedResource,
    TrackedResourceView, CleanupPolicy, CleanupResult, kind_name, monthly_cost, capped,
    age_between, is_due, resource_views};
use crate::resource::tracker::{FileBasedResourceTracker, CleanupTask, CleanupTaskView, task_views,
    task_of, policy_of, default_policies, workflow_cost, owned_by};

verus! {

/// How the orchestrator goes about a cleanup.
#[derive(Debug, Clone, Copy, PartialEq, Eq, Structural)]
pub enum CleanupMode {
    /// Remove what the policies say.
    Automatic,
    /// Remove nothing; tell the user what to do.
    Manual,
    /// Remove what the user has confirmed, resource by resource.
    Interactive,
    /// Remove nothing; report what would be removed.
    DryRun,
}

/// When the resources of a workflow are removed.
#[derive(Debug, Clone, Copy, PartialEq, Eq, Structural)]
pub enum CleanupStrategy {
    Immediate,
    /// At a later time; the orchestrator only records the work.
    Scheduled { execute_at: Timestamp },
    /// Only resources that are at least as old as `max_age`.
    AgeBasedCleanup { max_age: Seconds },
    /// The costliest resources first, until the rest costs no more than
    /// the threshold.
    CostBasedCleanup { cost_threshold: MicroUsd },
}

/// The views of the resources that a list refers to.
pub open spec fn ref_views(v: Seq<&TrackedResource>) -> Seq<TrackedResourceView> {
    v.map_values(|r: &TrackedResource| (*r)@)
}

/// What a list of resources left behind says of its failures.
pub open spec fn skip_views(v: Seq<(ResourceId, String)>) -> Seq<(ResourceId, Seq<char>)> {
    v.map_values(|s: (ResourceId, String)| (s.0, s.1@))
}

/// What the user has to do by hand to remove a resource.
pub open spec fn manual_instruction(r: TrackedResourceView) -> Seq<char> {
    match r.resource_type {
        ResourceTypeView::Bucket { .. } => "Delete bucket '"@ + r.name
            + "' using: raps bucket delete "@ + r.aps_id,
        ResourceTypeView::Object { bucket_name, size_bytes } => "Delete object '"@ + r.name
            + "' from bucket '"@ + bucket_name + "' using: raps object delete "@ + bucket_name
            + " "@ + r.aps_id,
        ResourceTypeView::Translation { source_urn, formats } => "Translation '"@ + r.name
            + "' for URN '"@ + source_urn + "' will expire automatically"@,
        ResourceTypeView::DesignAutomationWorkItem { activity_id } => "Work item '"@ + r.name
            + "' for activity '"@ + activity_id + "' will expire automatically"@,
        ResourceTypeView::Photoscene { .. } => "Delete photoscene '"@ + r.name
            + "' using: raps reality delete "@ + r.aps_id,
        ResourceTypeView::Webhook { .. } => "Delete webhook '"@ + r.name
            + "' using: raps webhook delete "@ + r.aps_id,
        ResourceTypeView::Folder { project_id, parent_folder_id } => "Delete folder '"@ + r.name
            + "' in project '"@ + project_id + "' manually through ACC interface"@,
        ResourceTypeView::Item { project_id, folder_id } => "Delete item '"@ + r.name
            + "' in project '"@ + project_id + "' manually through ACC interface"@,
    }
}

/// What the user is told of a resource that an interrupted run left
/// behind.
pub open spec fn interruption_note(r: TrackedResourceView) -> Seq<char> {
    "Clean up "@ + kind_name(r.resource_type) + " '"@ + r.name + "' (APS ID: "@ + r.aps_id
        + ") created before interruption"@
}

/// Why a policy leaves a resource of the age given, if it does.
pub open spec fn policy_objection(policy: CleanupPolicy, age: Seconds) -> Option<Seq<char>> {
    match policy {
        CleanupPolicy::Immediate => None,
        CleanupPolicy::Delayed { duration } => if age >= duration {
            None
        } else {
            Some("Resource too young"@)
        },
        CleanupPolicy::Manual => Some("Manual cleanup policy"@),
        CleanupPolicy::Never => Some("Never cleanup policy"@),
    }
}

/// How one resource fares in a plan: it is removed, or it is left for the
/// reason given.
pub enum Verdict {
    Remove,
    Leave(Seq<char>),
}

/// A rule that sorts the resources of a workflow into those to remove and
/// those to leave.
pub enum Rule {
    /// Remove every resource.
    Everything,
    /// Remove what the policies say is due; leave the rest without a word.
    Due { policies: Map<Seq<char>, CleanupPolicy>, now: Timestamp },
    /// Remove what the policies say is due; leave the rest with the reason.
    DueOrExplain { policies: Map<Seq<char>, CleanupPolicy>, now: Timestamp },
    /// Remove what the user has confirmed.
    Confirmed { confirmed: Seq<ResourceId> },
    /// Remove what is at least as old as `max_age`.
    Aged { max_age: Seconds, now: Timestamp },
}

/// How the rule judges a resource. `None` stands for a resource that is
/// left without a word.
pub open spec fn verdict(rule: Rule, r: TrackedResourceView) -> Option<Verdict> {
    match rule {
        Rule::Everything => Some(Verdict::Remove),
        Rule::Due { policies, now } => if is_due(
            policy_of(policies, r.resource_type),
            age_between(r.created_at, now),
        ) {
            Some(Verdict::Remove)
        } else {
            None
        },
        Rule::DueOrExplain { policies, now } => match policy_objection(
            policy_of(policies, r.resource_type),
            age_between(r.created_at, now),
        ) {
            None => Some(Verdict::Remove),
            Some(reason) => Some(Verdict::Leave(reason)),
        },
        Rule::Confirmed { confirmed } => if confirmed.contains(r.id) {
            Some(Verdict::Remove)
        } else {
            Some(Verdict::Leave("User declined cleanup"@))
        },
        Rule::Aged { max_age, now } => if age_between(r.created_at, now) >= max_age {
            Some(Verdict::Remove)
        } else {
            Some(Verdict::Leave("Resource too young"@))
        },
    }
}

/// The removals among the first `n` resources under a rule.
pub open spec fn removals(rule: Rule, resources: Seq<TrackedResourceView>, n: int) -> Seq<
    CleanupTaskView,
>
    decreases n,
{
    if n <= 0 {
        Seq::empty()
    } else {
        let earlier = removals(rule, resources, n - 1);
        match verdict(rule, resources[n - 1]) {
            Some(Verdict::Remove) => earlier.push(task_of(resources[n - 1])),
            _ => earlier,
        }
    }
}

/// The resources that are left among the first `n` under a rule, each
/// with the reason.
pub open spec fn leavings(rule: Rule, resources: Seq<TrackedResourceView>, n: int) -> Seq<
    (ResourceId, Seq<char>),
>
    decreases n,
{
    if n <= 0 {
        Seq::empty()
    } else {
        let earlier = leavings(rule, resources, n - 1);
        match verdict(rule, resources[n - 1]) {
            Some(Verdict::Leave(reason)) => earlier.push((resources[n - 1].id, reason)),
            _ => earlier,
        }
    }
}

/// The estimated cost of the first `n` resources together, cut off at the
/// largest amount.
pub open spec fn total_cost(resources: Seq<TrackedResourceView>, n: int) -> int
    decreases n,
{
    if n <= 0 {
        0
    } else {
        capped(total_cost(resources, n - 1) + monthly_cost(resources[n - 1].resource_type))
    }
}

/// The place of the costliest resource; the first of them where several
/// cost the same. Nothing sensible for an empty sequence.
pub open spec fn costliest(resources: Seq<TrackedResourceView>) -> int
    decreases resources.len(),
{
    if resources.len() <= 1 {
        0
    } else {
        let j = costliest(resources.drop_last());
        if monthly_cost(resources.last().resource_type) > monthly_cost(resources[j].resource_type) {
            resources.len() - 1
        } else {
            j
        }
    }
}

/// The resources to remove so that the rest costs no more than the
/// threshold: the costliest first, as long as what remains costs more.
pub open spec fn costly_removals(
    resources: Seq<TrackedResourceView>,
    remaining: int,
    threshold: int,
) -> Seq<CleanupTaskView>
    decreases resources.len(),
    via costly_removals_ends
{
    if remaining <= threshold || resources.len() == 0 {
        Seq::empty()
    } else {
        let i = costliest(resources);
        seq![task_of(resources[i])] + costly_removals(
            resources.remove(i),
            remaining - monthly_cost(resources[i].resource_type),
            threshold,
        )
    }
}

#[via_fn]
proof fn costly_removals_ends(resources: Seq<TrackedResourceView>, remaining: int, threshold: int) {
    if resources.len() > 0 {
        lemma_costliest_in_range(resources);
    }
}

proof fn lemma_costliest_in_range(resources: Seq<TrackedResourceView>)
    requires
        resources.len() > 0,
    ensures
        0 <= costliest(resources) < resources.len(),
    decreases resources.len(),
{
    if resources.len() > 1 {
        lemma_costliest_in_range(resources.drop_last());
    }
}

/// What a cleanup is to do.
#[derive(Debug)]
pub struct CleanupPlan {
    /// The resources to remove, each with its commands.
    pub tasks: Vec<CleanupTask>,
    /// The resources that are left, each with the reason.
    pub skipped: Vec<(ResourceId, String)>,
    /// What the user has to do by hand.
    pub instructions: Vec<String>,
    /// Whether the host is to run the commands of the tasks.
    pub execute: bool,
    /// Whether the plan is a rehearsal: no command is run, and the tasks
    /// are reported as what would be removed.
    pub dry_run: bool,
    /// Whether a resource that is left makes the cleanup a failure.
    pub skips_fail: bool,
}

pub struct CleanupPlanView {
    pub tasks: Seq<CleanupTaskView>,
    pub skipped: Seq<(ResourceId, Seq<char>)>,
    pub instructions: Seq<Seq<char>>,
    pub execute: bool,
    pub dry_run: bool,
    pub skips_fail: bool,
}

impl View for CleanupPlan {
    type V = CleanupPlanView;

    open spec fn view(&self) -> CleanupPlanView {
        CleanupPlanView {
            tasks: task_views(self.tasks@),
            skipped: skip_views(self.skipped@),
            instructions: texts(self.instructions@),
            execute: self.execute,
            dry_run: self.dry_run,
            skips_fail: self.skips_fail,
        }
    }
}

/// Whether the host runs commands in a mode.
pub open spec fn runs_commands(mode: CleanupMode) -> bool {
    mode == CleanupMode::Automatic || mode == CleanupMode::Interactive
}

/// The plan for the resources of a workflow under a strategy and a mode.
/// `ledger` are the policies of the ledger, `defaults` those of the
/// orchestrator; `confirmed` names the resources that the user has
/// confirmed. Commands are run in the automatic and in the interactive
/// mode only; a dry run reports what would be removed; the manual mode and
/// a scheduled cleanup only record the work.
pub open spec fn planned(
    strategy: CleanupStrategy,
    mode: CleanupMode,
    resources: Seq<TrackedResourceView>,
    ledger: Map<Seq<char>, CleanupPolicy>,
    defaults: Map<Seq<char>, CleanupPolicy>,
    confirmed: Seq<ResourceId>,
    now: Timestamp,
) -> CleanupPlanView {
    let n = resources.len() as int;
    let none = Seq::<Seq<char>>::empty();
    match strategy {
        CleanupStrategy::Immediate => match mode {
            CleanupMode::Automatic => {
                let rule = Rule::Due { policies: ledger, now };
                CleanupPlanView {
                    tasks: removals(rule, resources, n),
                    skipped: leavings(rule, resources, n),
                    instructions: none,
                    execute: true,
                    dry_run: false,
                    skips_fail: true,
                }
            },
            CleanupMode::Manual => CleanupPlanView {
                tasks: removals(Rule::Everything, resources, n),
                skipped: Seq::empty(),
                instructions: resources.map_values(|r: TrackedResourceView| manual_instruction(r)),
                execute: false,
                dry_run: false,
                skips_fail: false,
            },
            CleanupMode::Interactive => {
                let rule = Rule::Confirmed { confirmed };
                CleanupPlanView {
                    tasks: removals(rule, resources, n),
                    skipped: leavings(rule, resources, n),
                    instructions: none,
                    execute: true,
                    dry_run: false,
                    skips_fail: true,
                }
            },
            CleanupMode::DryRun => {
                let rule = Rule::DueOrExplain { policies: defaults, now };
                CleanupPlanView {
                    tasks: removals(rule, resources, n),
                    skipped: leavings(rule, resources, n),
                    instructions: none,
                    execute: false,
                    dry_run: true,
                    skips_fail: false,
                }
            },
        },
        CleanupStrategy::Scheduled { execute_at } => CleanupPlanView {
            tasks: removals(Rule::Everything, resources, n),
            skipped: Seq::empty(),
            instructions: none,
            execute: false,
            dry_run: false,
            skips_fail: false,
        },
        CleanupStrategy::AgeBasedCleanup { max_age } => {
            let rule = Rule::Aged { max_age, now };
            CleanupPlanView {
                tasks: removals(rule, resources, n),
                skipped: leavings(rule, resources, n),
                instructions: none,
                execute: runs_commands(mode),
                dry_run: mode == CleanupMode::DryRun,
                skips_fail: true,
            }
        },
        CleanupStrategy::CostBasedCleanup { cost_threshold } => CleanupPlanView {
            tasks: costly_removals(resources, total_cost(resources, n), cost_threshold as int),
            skipped: Seq::empty(),
            instructions: none,
            execute: runs_commands(mode),
            dry_run: mode == CleanupMode::DryRun,
            skips_fail: false,
        },
    }
}

/// The rule that removes everything leaves nothing.
proof fn lemma_everything_leaves_nothing(resources: Seq<TrackedResourceView>, n: int)
    ensures
        leavings(Rule::Everything, resources, n) == Seq::<(ResourceId, Seq<char>)>::empty(),
    decreases n,
{
    if n > 0 {
        lemma_everything_leaves_nothing(resources, n - 1);
    }
}

/// The outcome of the commands of one task: a success where every command
/// succeeded, and else the message of the first that failed.
pub open spec fn outcome_of(results: Seq<CommandResult>, n: int) -> Option<Seq<char>>
    decreases n,
{
    if n <= 0 {
        None
    } else {
        match outcome_of(results, n - 1) {
            Some(e) => Some(e),
            None => if results[n - 1].success {
                None
            } else {
                Some(
                    failure_text(
                        results[n - 1].exit_code,
                        results[n - 1].stdout@,
                        results[n - 1].stderr@,
                    ),
                )
            },
        }
    }
}

/// Judges the commands that were run for one task.
pub fn task_outcome(results: &Vec<CommandResult>) -> (r: Result<(), String>)
    ensures
        match outcome_of(results@, results@.len() as int) {
            None => r is Ok,
            Some(e) => r is Err && r->Err_0@ == e,
        },
{
    let mut i: usize = 0;
    while i < results.len()
        invariant
            i <= results.len(),
            outcome_of(results@, i as int) is None,
        decreases results.len() - i,
    {
        match results[i].error_message() {
            Some(m) => {
                proof {
                    lemma_outcome_sticks(results@, i as int + 1, results@.len() as int);
                }
                return Err(m);
            },
            None => {},
        }
        i = i + 1;
    }
    Ok(())
}

proof fn lemma_outcome_sticks(results: Seq<CommandResult>, n: int, m: int)
    requires
        0 <= n <= m,
        outcome_of(results, n) is Some,
    ensures
        outcome_of(results, m) == outcome_of(results, n),
    decreases m - n,
{
    if n < m {
        lemma_outcome_sticks(results, n, m - 1);
    }
}

/// The outcome that the host reported for the task at place `i`; a task
/// without a report counts as failed.
pub open spec fn reported(outcomes: Seq<Result<(), String>>, i: int) -> Option<Seq<char>> {
    if i < outcomes.len() {
        match outcomes[i] {
            Ok(_) => None,
            Err(e) => Some(e@),
        }
    } else {
        Some("No outcome reported"@)
    }
}

/// Whether the task at place `i` counts as removed: where commands are
/// run, its commands succeeded; where none is run, only in a dry run, which
/// reports what would be removed.
pub open spec fn counts_as_cleaned(
    outcomes: Seq<Result<(), String>>,
    execute: bool,
    dry_run: bool,
    i: int,
) -> bool {
    if execute {
        reported(outcomes, i) is None
    } else {
        dry_run
    }
}

/// The resources among the first `n` tasks that count as removed.
pub open spec fn cleaned_ids(
    tasks: Seq<CleanupTaskView>,
    outcomes: Seq<Result<(), String>>,
    execute: bool,
    dry_run: bool,
    n: int,
) -> Seq<ResourceId>
    decreases n,
{
    if n <= 0 {
        Seq::empty()
    } else {
        let earlier = cleaned_ids(tasks, outcomes, execute, dry_run, n - 1);
        if counts_as_cleaned(outcomes, execute, dry_run, n - 1) {
            earlier.push(tasks[n - 1].resource_id)
        } else {
            earlier
        }
    }
}

/// The resources among the first `n` tasks whose removal failed, each with
/// the reason. Where no command is run, none fails.
pub open spec fn failed_ids(
    tasks: Seq<CleanupTaskView>,
    outcomes: Seq<Result<(), String>>,
    execute: bool,
    n: int,
) -> Seq<(ResourceId, Seq<char>)>
    decreases n,
{
    if n <= 0 {
        Seq::empty()
    } else {
        let earlier = failed_ids(tasks, outcomes, execute, n - 1);
        if execute && reported(outcomes, n - 1) is Some {
            earlier.push((tasks[n - 1].resource_id, reported(outcomes, n - 1)->0))
        } else {
            earlier
        }
    }
}

/// The resources of the first `n` tasks.
pub open spec fn task_ids(tasks: Seq<CleanupTaskView>, n: int) -> Seq<ResourceId>
    decreases n,
{
    if n <= 0 {
        Seq::empty()
    } else {
        task_ids(tasks, n - 1).push(tasks[n - 1].resource_id)
    }
}

impl CleanupPlan {
    /// What became of the plan. `outcomes` holds, task by task, what the
    /// host reports; it is read only where the plan says that commands are
    /// run. A resource counts as removed where its commands were run and
    /// succeeded; a dry run reports every task as removed; a plan that
    /// only records the work reports none. The resources that were left
    /// stand before those whose removal failed. The cleanup succeeded
    /// where no removal failed and, if the plan says so, no resource was
    /// left.
    pub fn finish(&self, outcomes: &Vec<Result<(), String>>, duration: Seconds) -> (r: CleanupResult)
        ensures
            r.cleaned_resources@ == cleaned_ids(
                self@.tasks,
                outcomes@,
                self.execute,
                self.dry_run,
                self@.tasks.len() as int,
            ),
            skip_views(r.failed_resources@) == self@.skipped + failed_ids(
                self@.tasks,
                outcomes@,
                self.execute,
                self@.tasks.len() as int,
            ),
            r.success == (failed_ids(
                self@.tasks,
                outcomes@,
                self.execute,
                self@.tasks.len() as int,
            ).len() == 0 && (!self.skips_fail || self@.skipped.len() == 0)),
            r.duration == duration,
            !self.execute ==> skip_views(r.failed_resources@) == self@.skipped && r.success == (
            !self.skips_fail || self@.skipped.len() == 0),
            !self.execute && !self.dry_run ==> r.cleaned_resources@ == Seq::<ResourceId>::empty(),
            !self.execute && self.dry_run ==> r.cleaned_resources@ == task_ids(
                self@.tasks,
                self@.tasks.len() as int,
            ),
    {
        let ghost tasks = task_views(self.tasks@);
        let mut cleaned: Vec<ResourceId> = Vec::new();
        let mut failed: Vec<(ResourceId, String)> = Vec::new();
        let mut i: usize = 0;
        while i < self.skipped.len()
            invariant
                i <= self.skipped@.len(),
                skip_views(failed@) == skip_views(self.skipped@).take(i as int),
            decreases self.skipped@.len() - i,
        {
            let ghost prior = skip_views(failed@);
            let entry = (self.skipped[i].0, self.skipped[i].1.clone());
            failed.push(entry);
            i = i + 1;
            assert(skip_views(failed@) =~= prior.push((entry.0, entry.1@)));
            assert(skip_views(self.skipped@).take(i as int) =~= skip_views(self.skipped@).take(
                i - 1,
            ).push((entry.0, entry.1@)));
        }
        assert(skip_views(self.skipped@).take(self.skipped@.len() as int) =~= skip_views(
            self.skipped@,
        ));
        let mut failures: usize = 0;
        let mut k: usize = 0;
        assert(skip_views(failed@) =~= self@.skipped + failed_ids(
            tasks,
            outcomes@,
            self.execute,
            0,
        ));
        while k < self.tasks.len()
            invariant
                k <= self.tasks@.len(),
                tasks == task_views(self.tasks@),
                cleaned@ == cleaned_ids(tasks, outcomes@, self.execute, self.dry_run, k as int),
                skip_views(failed@) == self@.skipped + failed_ids(
                    tasks,
                    outcomes@,
                    self.execute,
                    k as int,
                ),
                failures == failed_ids(tasks, outcomes@, self.execute, k as int).len(),
                failures <= k,
                !self.execute ==> failures == 0,
                !self.execute && !self.dry_run ==> cleaned@.len() == 0,
                !self.execute && self.dry_run ==> cleaned@ == task_ids(tasks, k as int),
            decreases self.tasks@.len() - k,
        {
            let id = self.tasks[k].resource_id;
            assert(tasks[k as int].resource_id == id);
            let ghost prior = skip_views(failed@);
            if !self.execute {
                if self.dry_run {
                    cleaned.push(id);
                }
            } else if k < outcomes.len() {
                match &outcomes[k] {
                    Ok(_) => {
                        cleaned.push(id);
                    },
                    Err(e) => {
                        let entry = (id, e.clone());
                        failed.push(entry);
                        failures = failures + 1;
                        assert(skip_views(failed@) =~= prior.push((id, e@)));
                    },
                }
            } else {
                let entry = (id, owned("No outcome reported"));
                failed.push(entry);
                failures = failures + 1;
                assert(skip_views(failed@) =~= prior.push((id, "No outcome reported"@)));
            }
            k = k + 1;
            assert(skip_views(failed@) =~= self@.skipped + failed_ids(
                tasks,
                outcomes@,
                self.execute,
                k as int,
            ));
        }
        assert(skip_views(self.skipped@).len() == self.skipped@.len());
        assert(!self.execute ==> skip_views(failed@) =~= self@.skipped);
        assert(!self.execute && !self.dry_run ==> cleaned@ =~= Seq::<ResourceId>::empty());
        let success = failures == 0 && (!self.skips_fail || self.skipped.len() == 0);
        CleanupResult { success, cleaned_resources: cleaned, failed_resources: failed, duration }
    }
}

/// What an interrupted run left behind, and how to remove it.
#[derive(Debug)]
pub struct InterruptedWorkflowCleanup {
    pub workflow_id: WorkflowId,
    pub interrupted_at: Timestamp,
    pub created_resources: Vec<ResourceId>,
    /// What the user is told, resource by resource.
    pub manual_instructions: Vec<String>,
    /// The cleanup commands of the resources, one after another.
    pub automated_commands: Vec<RapsCommand>,
}

/// The cleanup commands that the first `n` resources were tracked with,
/// one after another.
pub open spec fn tracked_commands(resources: Seq<TrackedResourceView>, n: int) -> Seq<
    RapsCommandView,
>
    decreases n,
{
    if n <= 0 {
        Seq::empty()
    } else {
        tracked_commands(resources, n - 1) + resources[n - 1].cleanup_commands
    }
}

impl Clone for InterruptedWorkflowCleanup {
    fn clone(&self) -> (r: Self)
        ensures
            r.workflow_id@ == self.workflow_id@,
            r.interrupted_at == self.interrupted_at,
            r.created_resources@ == self.created_resources@,
            texts(r.manual_instructions@) == texts(self.manual_instructions@),
            command_views(r.automated_commands@) == command_views(self.automated_commands@),
    {
        let created_resources = self.created_resources.clone();
        assert(created_resources@ =~= self.created_resources@);
        InterruptedWorkflowCleanup {
            workflow_id: self.workflow_id.clone(),
            interrupted_at: self.interrupted_at,
            created_resources,
            manual_instructions: crate::text::copy_texts(&self.manual_instructions),
            automated_commands: copy_commands(&self.automated_commands),
        }
    }
}

/// The cleanup of one workflow as part of a cleanup of several.
#[derive(Debug)]
pub struct WorkflowCleanup {
    pub workflow_id: WorkflowId,
    pub plan: CleanupPlan,
    /// What the resources of the workflow are estimated to cost before
    /// the cleanup.
    pub estimated_cost: MicroUsd,
}

/// What became of the cleanup of one workflow as part of a cleanup of
/// several.
#[derive(Debug)]
pub struct WorkflowOutcome {
    pub workflow_id: WorkflowId,
    pub result: CleanupResult,
    /// What the resources of the workflow were estimated to cost before
    /// the cleanup.
    pub estimated_cost: MicroUsd,
}

/// What became of a cleanup of several workflows.
#[derive(Debug)]
pub struct CleanupOrchestrationResult {
    pub success: bool,
    pub mode: CleanupMode,
    pub workflow_results: TextMap<CleanupResult>,
    /// The resources of the workflows whose cleanup could not be carried
    /// out at all, each with the reason.
    pub failed_cleanups: Vec<(ResourceId, String)>,
    pub total_duration: Seconds,
    /// The estimated cost of the workflows before the cleanup, summed up.
    pub cost_savings: MicroUsd,
}

/// The estimated costs of the first `n` outcomes, summed up and cut off at
/// the largest amount.
pub open spec fn savings(outcomes: Seq<WorkflowOutcome>, n: int) -> int
    decreases n,
{
    if n <= 0 {
        0
    } else {
        capped(savings(outcomes, n - 1) + outcomes[n - 1].estimated_cost)
    }
}

/// The results of the first `n` outcomes by workflow; a later result of a
/// workflow replaces an earlier one.
pub open spec fn results_by_workflow(outcomes: Seq<WorkflowOutcome>, n: int) -> Map<
    Seq<char>,
    CleanupResult,
>
    decreases n,
{
    if n <= 0 {
        Map::empty()
    } else {
        results_by_workflow(outcomes, n - 1).insert(
            outcomes[n - 1].workflow_id@,
            outcomes[n - 1].result,
        )
    }
}

impl CleanupOrchestrationResult {
    /// Gathers the outcomes of the workflows into one result.
    pub fn collect(mode: CleanupMode, outcomes: Vec<WorkflowOutcome>, total_duration: Seconds) -> (r:
        Self)
        ensures
            r.success,
            r.mode == mode,
            r.workflow_results@ == results_by_workflow(outcomes@, outcomes@.len() as int),
            r.failed_cleanups@.len() == 0,
            r.total_duration == total_duration,
            r.cost_savings == savings(outcomes@, outcomes@.len() as int),
    {
        let mut workflow_results: TextMap<CleanupResult> = TextMap::new();
        let mut cost_savings: MicroUsd = 0;
        let ghost all = outcomes@;
        for outcome in it: outcomes
            invariant
                it.seq() == all,
                workflow_results@ == results_by_workflow(all, it.index() as int),
                cost_savings == savings(all, it.index() as int),
        {
            cost_savings = crate::resource::types::add_amounts(
                cost_savings,
                outcome.estimated_cost,
            );
            workflow_results.insert(outcome.workflow_id, outcome.result);
        }
        CleanupOrchestrationResult {
            success: true,
            mode,
            workflow_results,
            failed_cleanups: Vec::new(),
            total_duration,
            cost_savings,
        }
    }
}

/// Plans the cleanup of workflows and keeps what interrupted runs left
/// behind.
#[derive(Debug)]
pub struct CleanupOrchestrator {
    default_policies: TextMap<CleanupPolicy>,
    workflow_strategies: TextMap<CleanupStrategy>,
    interrupted_workflows: TextMap<InterruptedWorkflowCleanup>,
}

fn sort_out(
    resources: &Vec<&TrackedResource>,
    tracker: &FileBasedResourceTracker,
    verdicts: &Vec<Option<Result<(), String>>>,
    Ghost(rule): Ghost<Rule>,
) -> (r: (Vec<CleanupTask>, Vec<(ResourceId, String)>))
    requires
        verdicts@.len() == resources@.len(),
        forall|i: int|
            0 <= i < resources@.len() ==> match verdict(rule, (#[trigger] ref_views(resources@)[i])) {
                None => verdicts@[i] is None,
                Some(Verdict::Remove) => verdicts@[i] == Some(Ok::<(), String>(())),
                Some(Verdict::Leave(reason)) => verdicts@[i] is Some && verdicts@[i]->0 is Err
                    && verdicts@[i]->0->Err_0@ == reason,
            },
    ensures
        task_views(r.0@) == removals(rule, ref_views(resources@), resources@.len() as int),
        skip_views(r.1@) == leavings(rule, ref_views(resources@), resources@.len() as int),
{
    let ghost views = ref_views(resources@);
    let mut tasks: Vec<CleanupTask> = Vec::new();
    let mut skipped: Vec<(ResourceId, String)> = Vec::new();
    let mut i: usize = 0;
    assert(task_views(tasks@) =~= removals(rule, views, 0));
    assert(skip_views(skipped@) =~= leavings(rule, views, 0));
    while i < resources.len()
        invariant
            i <= resources@.len(),
            views == ref_views(resources@),
            verdicts@.len() == resources@.len(),
            forall|j: int|
                0 <= j < resources@.len() ==> match verdict(rule, (#[trigger] views[j])) {
                    None => verdicts@[j] is None,
                    Some(Verdict::Remove) => verdicts@[j] == Some(Ok::<(), String>(())),
                    Some(Verdict::Leave(reason)) => verdicts@[j] is Some && verdicts@[j]->0 is Err
                        && verdicts@[j]->0->Err_0@ == reason,
                },
            task_views(tasks@) == removals(rule, views, i as int),
            skip_views(skipped@) == leavings(rule, views, i as int),
        decreases resources@.len() - i,
    {
        let r: &TrackedResource = resources[i];
        assert(views[i as int] == r@);
        let ghost prior_tasks = task_views(tasks@);
        let ghost prior_skips = skip_views(skipped@);
        match &verdicts[i] {
            None => {},
            Some(Ok(_)) => {
                let task = CleanupTask {
                    resource_id: r.id,
                    commands: tracker.generate_cleanup_commands(r),
                };
                tasks.push(task);
                assert(task_views(tasks@) =~= prior_tasks.push(task_of(r@)));
            },
            Some(Err(reason)) => {
                let entry = (r.id, reason.clone());
                skipped.push(entry);
                assert(skip_views(skipped@) =~= prior_skips.push((r.id, reason@)));
            },
        }
        i = i + 1;
    }
    (tasks, skipped)
}

impl CleanupOrchestrator {
    /// The policies by which the orchestrator judges in a dry run.
    pub closed spec fn policies(&self) -> Map<Seq<char>, CleanupPolicy> {
        self.default_policies@
    }

    /// The strategies that were set, by workflow.
    pub closed spec fn strategies(&self) -> Map<Seq<char>, CleanupStrategy> {
        self.workflow_strategies@
    }

    /// What interrupted runs left behind, by workflow.
    pub closed spec fn interrupted(&self) -> Map<Seq<char>, InterruptedWorkflowCleanup> {
        self.interrupted_workflows@
    }

    /// The workflows with an interrupted run, in the order in which they
    /// were first recorded.
    pub closed spec fn interrupted_keys(&self) -> Seq<Seq<char>> {
        self.interrupted_workflows.key_order()
    }

    /// What interrupted runs have left behind, in the order of the
    /// workflows.
    pub closed spec fn interrupted_order(&self) -> Seq<InterruptedWorkflowCleanup> {
        self.interrupted_workflows.value_order()
    }

    /// The strategy for a workflow: the one that was set, and else
    /// `Immediate`.
    pub open spec fn strategy_of(&self, workflow: Seq<char>) -> CleanupStrategy {
        if self.strategies().contains_key(workflow) {
            self.strategies()[workflow]
        } else {
            CleanupStrategy::Immediate
        }
    }

    /// The policies that an orchestrator starts with.
    pub fn create_default_policies() -> (p: TextMap<CleanupPolicy>)
        ensures
            p@ == default_policies(),
    {
        FileBasedResourceTracker::default_cleanup_policies()
    }

    /// An orchestrator with the default policies, without strategies and
    /// without interrupted runs.
    pub fn new() -> (o: Self)
        ensures
            o.policies() == default_policies(),
            o.strategies() == Map::<Seq<char>, CleanupStrategy>::empty(),
            o.interrupted() == Map::<Seq<char>, InterruptedWorkflowCleanup>::empty(),
    {
        CleanupOrchestrator {
            default_policies: Self::create_default_policies(),
            workflow_strategies: TextMap::new(),
            interrupted_workflows: TextMap::new(),
        }
    }

    /// Sets the strategy for a workflow.
    pub fn set_workflow_strategy(&mut self, workflow_id: WorkflowId, strategy: CleanupStrategy)
        ensures
            final(self).strategies() == old(self).strategies().insert(workflow_id@, strategy),
            final(self).policies() == old(self).policies(),
            final(self).interrupted() == old(self).interrupted(),
    {
        self.workflow_strategies.insert(workflow_id, strategy);
    }

    /// The strategy for a workflow.
    pub fn get_workflow_strategy(&self, workflow_id: &WorkflowId) -> (strategy: CleanupStrategy)
        ensures
            strategy == self.strategy_of(workflow_id@),
    {
        match self.workflow_strategies.get(workflow_id.as_str()) {
            Some(s) => *s,
            None => CleanupStrategy::Immediate,
        }
    }

    /// The policy of the orchestrator for a kind of resource.
    pub fn get_resource_policy(&self, resource_type: &ResourceType) -> (policy: CleanupPolicy)
        ensures
            policy == policy_of(self.policies(), resource_type@),
    {
        match self.default_policies.get(resource_type.policy_key()) {
            Some(p) => *p,
            None => CleanupPolicy::default(),
        }
    }

    /// What the user has to do by hand to remove the resources given.
    pub fn generate_manual_cleanup_instructions(resources: &Vec<&TrackedResource>) -> (instructions:
        Vec<String>)
        ensures
            texts(instructions@) == ref_views(resources@).map_values(
                |r: TrackedResourceView| manual_instruction(r),
            ),
    {
        let ghost goal = ref_views(resources@).map_values(
            |r: TrackedResourceView| manual_instruction(r),
        );
        let mut instructions: Vec<String> = Vec::new();
        let mut i: usize = 0;
        while i < resources.len()
            invariant
                i <= resources@.len(),
                goal == ref_views(resources@).map_values(
                    |r: TrackedResourceView| manual_instruction(r),
                ),
                texts(instructions@) == goal.take(i as int),
            decreases resources@.len() - i,
        {
            let r: &TrackedResource = resources[i];
            assert(ref_views(resources@)[i as int] == r@);
            let ghost prior = texts(instructions@);
            let name = r.name.as_str();
            let aps_id = r.aps_id.as_str();
            let text = match &r.resource_type {
                ResourceType::Bucket { .. } => {
                    let mut s = concat3("Delete bucket '", name, "' using: raps bucket delete ");
                    s.append(aps_id);
                    s
                },
                ResourceType::Object { bucket_name, size_bytes } => {
                    let mut s = concat3("Delete object '", name, "' from bucket '");
                    s.append(bucket_name.as_str());
                    s.append("' using: raps object delete ");
                    s.append(bucket_name.as_str());
                    s.append(" ");
                    s.append(aps_id);
                    s
                },
                ResourceType::Translation { source_urn, formats } => {
                    let mut s = concat3("Translation '", name, "' for URN '");
                    s.append(source_urn.as_str());
                    s.append("' will expire automatically");
                    s
                },
                ResourceType::DesignAutomationWorkItem { activity_id } => {
                    let mut s = concat3("Work item '", name, "' for activity '");
                    s.append(activity_id.as_str());
                    s.append("' will expire automatically");
                    s
                },
                ResourceType::Photoscene { .. } => {
                    let mut s = concat3(
                        "Delete photoscene '",
                        name,
                        "' using: raps reality delete ",
                    );
                    s.append(aps_id);
                    s
                },
                ResourceType::Webhook { .. } => {
                    let mut s = concat3("Delete webhook '", name, "' using: raps webhook delete ");
                    s.append(aps_id);
                    s
                },
                ResourceType::Folder { project_id, parent_folder_id } => {
                    let mut s = concat3("Delete folder '", name, "' in project '");
                    s.append(project_id.as_str());
                    s.append("' manually through ACC interface");
                    s
                },
                ResourceType::Item { project_id, folder_id } => {
                    let mut s = concat3("Delete item '", name, "' in project '");
                    s.append(project_id.as_str());
                    s.append("' manually through ACC interface");
                    s
                },
            };
            assert(text@ =~= manual_instruction(r@));
            instructions.push(text);
            i = i + 1;
            assert(texts(instructions@) =~= prior.push(text@));
            assert(goal.take(i as int) =~= goal.take(i - 1).push(text@));
        }
        assert(goal.take(resources@.len() as int) =~= goal);
        instructions
    }

    fn judge(
        resources: &Vec<&TrackedResource>,
        rule_policies: &TextMap<CleanupPolicy>,
        explain: bool,
        now: Timestamp,
    ) -> (verdicts: Vec<Option<Result<(), String>>>)
        ensures
            verdicts@.len() == resources@.len(),
            forall|i: int|
                0 <= i < resources@.len() ==> match verdict(
                    if explain {
                        Rule::DueOrExplain { policies: rule_policies@, now }
                    } else {
                        Rule::Due { policies: rule_policies@, now }
                    },
                    (#[trigger] ref_views(resources@)[i]),
                ) {
                    None => verdicts@[i] is None,
                    Some(Verdict::Remove) => verdicts@[i] == Some(Ok::<(), String>(())),
                    Some(Verdict::Leave(reason)) => verdicts@[i] is Some && verdicts@[i]->0 is Err
                        && verdicts@[i]->0->Err_0@ == reason,
                },
    {
        let mut verdicts: Vec<Option<Result<(), String>>> = Vec::new();
        let mut i: usize = 0;
        while i < resources.len()
            invariant
                i <= resources@.len(),
                verdicts@.len() == i,
                forall|j: int|
                    0 <= j < i ==> match verdict(
                        if explain {
                            Rule::DueOrExplain { policies: rule_policies@, now }
                        } else {
                            Rule::Due { policies: rule_policies@, now }
                        },
                        (#[trigger] ref_views(resources@)[j]),
                    ) {
                        None => verdicts@[j] is None,
                        Some(Verdict::Remove) => verdicts@[j] == Some(Ok::<(), String>(())),
                        Some(Verdict::Leave(reason)) => verdicts@[j] is Some && verdicts@[j]->0
                            is Err && verdicts@[j]->0->Err_0@ == reason,
                    },
            decreases resources@.len() - i,
        {
            let r: &TrackedResource = resources[i];
            assert(ref_views(resources@)[i as int] == r@);
            let policy = match rule_policies.get(r.resource_type.policy_key()) {
                Some(p) => *p,
                None => CleanupPolicy::default(),
            };
            let age = r.age_at(now);
            let objection: Option<String> = match policy {
                CleanupPolicy::Immediate => None,
                CleanupPolicy::Delayed { duration } => if age >= duration {
                    None
                } else {
                    Some(owned("Resource too young"))
                },
                CleanupPolicy::Manual => Some(owned("Manual cleanup policy")),
                CleanupPolicy::Never => Some(owned("Never cleanup policy")),
            };
            let v: Option<Result<(), String>> = match objection {
                None => Some(Ok(())),
                Some(reason) => if explain {
                    Some(Err(reason))
                } else {
                    None
                },
            };
            verdicts.push(v);
            i = i + 1;
        }
        verdicts
    }

    fn pick_costliest(resources: &Vec<&TrackedResource>) -> (i: usize)
        requires
            resources@.len() > 0,
        ensures
            i == costliest(ref_views(resources@)),
            i < resources@.len(),
    {
        let ghost views = ref_views(resources@);
        let mut best: usize = 0;
        let mut k: usize = 1;
        proof {
            assert(views.take(1).len() == 1);
        }
        while k < resources.len()
            invariant
                1 <= k <= resources@.len(),
                views == ref_views(resources@),
                best == costliest(views.take(k as int)),
                best < k,
            decreases resources@.len() - k,
        {
            proof {
                assert(views.take(k + 1).drop_last() =~= views.take(k as int));
                assert(views.take(k + 1).last() == views[k as int]);
                assert(views.take(k as int)[best as int] == views[best as int]);
                assert(views[k as int] == (*resources@[k as int])@);
                assert(views[best as int] == (*resources@[best as int])@);
            }
            if resources[k].estimated_monthly_cost() > resources[best].estimated_monthly_cost() {
                best = k;
            }
            k = k + 1;
        }
        assert(views.take(resources@.len() as int) =~= views);
        best
    }

    fn plan_by_cost(
        resources: Vec<&TrackedResource>,
        tracker: &FileBasedResourceTracker,
        threshold: MicroUsd,
    ) -> (tasks: Vec<CleanupTask>)
        ensures
            task_views(tasks@) == costly_removals(
                ref_views(resources@),
                total_cost(ref_views(resources@), resources@.len() as int),
                threshold as int,
            ),
    {
        let ghost all = ref_views(resources@);
        let mut total: MicroUsd = 0;
        let mut i: usize = 0;
        while i < resources.len()
            invariant
                i <= resources@.len(),
                all == ref_views(resources@),
                total == total_cost(all, i as int),
            decreases resources@.len() - i,
        {
            assert(all[i as int] == (*resources@[i as int])@);
            total = crate::resource::types::add_amounts(
                total,
                resources[i].estimated_monthly_cost(),
            );
            i = i + 1;
        }
        let mut rest = resources;
        let mut remaining: i128 = total as i128;
        let mut tasks: Vec<CleanupTask> = Vec::new();
        assert(task_views(tasks@) + costly_removals(all, total as int, threshold as int)
            =~= costly_removals(all, total as int, threshold as int));
        while remaining > threshold as i128 && rest.len() > 0
            invariant
                -(u64::MAX as int) * (all.len() - rest@.len()) <= remaining <= u64::MAX,
                rest@.len() <= all.len() <= usize::MAX,
                task_views(tasks@) + costly_removals(ref_views(rest@), remaining as int, threshold as int)
                    == costly_removals(all, total as int, threshold as int),
            decreases rest@.len(),
        {
            let ghost views = ref_views(rest@);
            let ghost prior = task_views(tasks@);
            let at = Self::pick_costliest(&rest);
            let r: &TrackedResource = rest.remove(at);
            assert(views[at as int] == r@);
            assert(ref_views(rest@) =~= views.remove(at as int));
            let cost = r.estimated_monthly_cost();
            let task = CleanupTask {
                resource_id: r.id,
                commands: tracker.generate_cleanup_commands(r),
            };
            tasks.push(task);
            proof {
                assert(task_views(tasks@) =~= prior.push(task_of(r@)));
                assert(prior.push(task_of(r@)) + costly_removals(
                    views.remove(at as int),
                    remaining - cost,
                    threshold as int,
                ) =~= prior + costly_removals(views, remaining as int, threshold as int));
                assert(-(u64::MAX as int) * (all.len() - rest@.len()) <= remaining - cost) by (nonlinear_arith)
                    requires
                        -(u64::MAX as int) * (all.len() - rest@.len() - 1) <= remaining,
                        0 <= cost <= u64::MAX,
                ;
                assert((u64::MAX as int) * (all.len() - rest@.len()) <= (u64::MAX as int)
                    * usize::MAX) by (nonlinear_arith)
                    requires
                        0 <= all.len() - rest@.len() <= usize::MAX,
                ;
            }
            remaining = remaining - cost as i128;
        }
        proof {
            assert(costly_removals(ref_views(rest@), remaining as int, threshold as int)
                =~= Seq::<CleanupTaskView>::empty());
            assert(task_views(tasks@) =~= task_views(tasks@) + Seq::<CleanupTaskView>::empty());
        }
        tasks
    }

    /// Plans the cleanup of a workflow that has ended, by the strategy of
    /// the workflow and in the mode given. `confirmed` names the resources
    /// that the user has confirmed; it is read in the interactive mode.
    pub fn cleanup_completed_workflow(
        &self,
        tracker: &FileBasedResourceTracker,
        workflow_id: &WorkflowId,
        mode: CleanupMode,
        confirmed: &Vec<ResourceId>,
        now: Timestamp,
    ) -> (plan: CleanupPlan)
        ensures
            plan@ == planned(
                self.strategy_of(workflow_id@),
                mode,
                resource_views(owned_by(tracker.resources(), workflow_id@)),
                tracker@.policies,
                self.policies(),
                confirmed@,
                now,
            ),
    {
        let resources = tracker.get_resources_for_workflow(workflow_id);
        let ghost listed = owned_by(tracker.resources(), workflow_id@);
        proof {
            assert(ref_views(resources@) =~= resource_views(listed)) by {
                assert forall|i: int| 0 <= i < resources@.len() implies ref_views(resources@)[i]
                    == resource_views(listed)[i] by {
                    assert(resources@.map_values(|r: &TrackedResource| *r)[i] == listed[i]);
                }
            }
        }
        let ghost views = ref_views(resources@);
        let strategy = self.get_workflow_strategy(workflow_id);
        let executes = match mode {
            CleanupMode::Automatic => true,
            CleanupMode::Interactive => true,
            _ => false,
        };
        let rehearses = match mode {
            CleanupMode::DryRun => true,
            _ => false,
        };
        match strategy {
            CleanupStrategy::Immediate => match mode {
                CleanupMode::Automatic => {
                    let policies = tracker.policies_copy();
                    let verdicts = Self::judge(&resources, &policies, false, now);
                    let (tasks, skipped) = sort_out(
                        &resources,
                        tracker,
                        &verdicts,
                        Ghost(Rule::Due { policies: policies@, now }),
                    );
                    CleanupPlan {
                        tasks,
                        skipped,
                        instructions: Self::no_instructions(),
                        execute: true,
                        dry_run: false,
                        skips_fail: true,
                    }
                },
                CleanupMode::Manual => {
                    let verdicts = Self::remove_all(&resources);
                    let (tasks, skipped) = sort_out(
                        &resources,
                        tracker,
                        &verdicts,
                        Ghost(Rule::Everything),
                    );
                    proof {
                        lemma_everything_leaves_nothing(views, views.len() as int);
                    }
                    CleanupPlan {
                        tasks,
                        skipped,
                        instructions: Self::generate_manual_cleanup_instructions(&resources),
                        execute: false,
                        dry_run: false,
                        skips_fail: false,
                    }
                },
                CleanupMode::Interactive => {
                    let verdicts = Self::ask(&resources, confirmed);
                    let (tasks, skipped) = sort_out(
                        &resources,
                        tracker,
                        &verdicts,
                        Ghost(Rule::Confirmed { confirmed: confirmed@ }),
                    );
                    CleanupPlan {
                        tasks,
                        skipped,
                        instructions: Self::no_instructions(),
                        execute: true,
                        dry_run: false,
                        skips_fail: true,
                    }
                },
                CleanupMode::DryRun => {
                    let verdicts = Self::judge(&resources, &self.default_policies, true, now);
                    let (tasks, skipped) = sort_out(
                        &resources,
                        tracker,
                        &verdicts,
                        Ghost(Rule::DueOrExplain { policies: self.default_policies@, now }),
                    );
                    CleanupPlan {
                        tasks,
                        skipped,
                        instructions: Self::no_instructions(),
                        execute: false,
                        dry_run: true,
                        skips_fail: false,
                    }
                },
            },
            CleanupStrategy::Scheduled { execute_at } => {
                let verdicts = Self::remove_all(&resources);
                let (tasks, skipped) = sort_out(
                    &resources,
                    tracker,
                    &verdicts,
                    Ghost(Rule::Everything),
                );
                proof {
                    lemma_everything_leaves_nothing(views, views.len() as int);
                }
                CleanupPlan {
                    tasks,
                    skipped,
                    instructions: Self::no_instructions(),
                    execute: false,
                    dry_run: false,
                    skips_fail: false,
                }
            },
            CleanupStrategy::AgeBasedCleanup { max_age } => {
                let verdicts = Self::by_age(&resources, max_age, now);
                let (tasks, skipped) = sort_out(
                    &resources,
                    tracker,
                    &verdicts,
                    Ghost(Rule::Aged { max_age, now }),
                );
                CleanupPlan {
                    tasks,
                    skipped,
                    instructions: Self::no_instructions(),
                    execute: executes,
                    dry_run: rehearses,
                    skips_fail: true,
                }
            },
            CleanupStrategy::CostBasedCleanup { cost_threshold } => {
                let tasks = Self::plan_by_cost(resources, tracker, cost_threshold);
                let skipped: Vec<(ResourceId, String)> = Vec::new();
                assert(skip_views(skipped@) =~= Seq::<(ResourceId, Seq<char>)>::empty());
                CleanupPlan {
                    tasks,
                    skipped,
                    instructions: Self::no_instructions(),
                    execute: executes,
                    dry_run: rehearses,
                    skips_fail: false,
                }
            },
        }
    }

    fn no_instructions() -> (v: Vec<String>)
        ensures
            texts(v@) == Seq::<Seq<char>>::empty(),
    {
        let v: Vec<String> = Vec::new();
        assert(texts(v@) =~= Seq::<Seq<char>>::empty());
        v
    }

    fn remove_all(resources: &Vec<&TrackedResource>) -> (verdicts: Vec<Option<Result<(), String>>>)
        ensures
            verdicts@.len() == resources@.len(),
            forall|i: int|
                0 <= i < resources@.len() ==> (#[trigger] verdicts@[i]) == Some(
                    Ok::<(), String>(()),
                ),
    {
        let mut verdicts: Vec<Option<Result<(), String>>> = Vec::new();
        let mut i: usize = 0;
        while i < resources.len()
            invariant
                i <= resources@.len(),
                verdicts@.len() == i,
                forall|j: int| 0 <= j < i ==> (#[trigger] verdicts@[j]) == Some(
                    Ok::<(), String>(()),
                ),
            decreases resources@.len() - i,
        {
            verdicts.push(Some(Ok(())));
            i = i + 1;
        }
        verdicts
    }

    fn ask(resources: &Vec<&TrackedResource>, confirmed: &Vec<ResourceId>) -> (verdicts: Vec<
        Option<Result<(), String>>,
    >)
        ensures
            verdicts@.len() == resources@.len(),
            forall|i: int|
                0 <= i < resources@.len() ==> match verdict(
                    Rule::Confirmed { confirmed: confirmed@ },
                    (#[trigger] ref_views(resources@)[i]),
                ) {
                    None => verdicts@[i] is None,
                    Some(Verdict::Remove) => verdicts@[i] == Some(Ok::<(), String>(())),
                    Some(Verdict::Leave(reason)) => verdicts@[i] is Some && verdicts@[i]->0 is Err
                        && verdicts@[i]->0->Err_0@ == reason,
                },
    {
        let mut verdicts: Vec<Option<Result<(), String>>> = Vec::new();
        let mut i: usize = 0;
        while i < resources.len()
            invariant
                i <= resources@.len(),
                verdicts@.len() == i,
                forall|j: int|
                    0 <= j < i ==> match verdict(
                        Rule::Confirmed { confirmed: confirmed@ },
                        (#[trigger] ref_views(resources@)[j]),
                    ) {
                        None => verdicts@[j] is None,
                        Some(Verdict::Remove) => verdicts@[j] == Some(Ok::<(), String>(())),
                        Some(Verdict::Leave(reason)) => verdicts@[j] is Some && verdicts@[j]->0
                            is Err && verdicts@[j]->0->Err_0@ == reason,
                    },
            decreases resources@.len() - i,
        {
            let r: &TrackedResource = resources[i];
            assert(ref_views(resources@)[i as int] == r@);
            let mut found = false;
            let mut k: usize = 0;
            while k < confirmed.len() && !found
                invariant
                    k <= confirmed@.len(),
                    found ==> confirmed@.contains(r.id),
                    !found ==> forall|m: int| 0 <= m < k ==> confirmed@[m] != r.id,
                decreases confirmed@.len() - k + (if found { 0int } else { 1int }),
            {
                if confirmed[k] == r.id {
                    found = true;
                } else {
                    k = k + 1;
                }
            }
            if found {
                verdicts.push(Some(Ok(())));
            } else {
                verdicts.push(Some(Err(owned("User declined cleanup"))));
            }
            i = i + 1;
        }
        verdicts
    }

    fn by_age(resources: &Vec<&TrackedResource>, max_age: Seconds, now: Timestamp) -> (verdicts: Vec<
        Option<Result<(), String>>,
    >)
        ensures
            verdicts@.len() == resources@.len(),
            forall|i: int|
                0 <= i < resources@.len() ==> match verdict(
                    Rule::Aged { max_age, now },
                    (#[trigger] ref_views(resources@)[i]),
                ) {
                    None => verdicts@[i] is None,
                    Some(Verdict::Remove) => verdicts@[i] == Some(Ok::<(), String>(())),
                    Some(Verdict::Leave(reason)) => verdicts@[i] is Some && verdicts@[i]->0 is Err
                        && verdicts@[i]->0->Err_0@ == reason,
                },
    {
        let mut verdicts: Vec<Option<Result<(), String>>> = Vec::new();
        let mut i: usize = 0;
        while i < resources.len()
            invariant
                i <= resources@.len(),
                verdicts@.len() == i,
                forall|j: int|
                    0 <= j < i ==> match verdict(
                        Rule::Aged { max_age, now },
                        (#[trigger] ref_views(resources@)[j]),
                    ) {
                        None => verdicts@[j] is None,
                        Some(Verdict::Remove) => verdicts@[j] == Some(Ok::<(), String>(())),
                        Some(Verdict::Leave(reason)) => verdicts@[j] is Some && verdicts@[j]->0
                            is Err && verdicts@[j]->0->Err_0@ == reason,
                    },
            decreases resources@.len() - i,
        {
            let r: &TrackedResource = resources[i];
            assert(ref_views(resources@)[i as int] == r@);
            if r.age_at(now) >= max_age {
                verdicts.push(Some(Ok(())));
            } else {
                verdicts.push(Some(Err(owned("Resource too young"))));
            }
            i = i + 1;
        }
        verdicts
    }

    /// Records what an interrupted run of a workflow has left behind: its
    /// resources, a note to the user for each, and the cleanup commands
    /// that the resources were tracked with. The record is kept until it
    /// is cleared.
    pub fn handle_interrupted_workflow(
        &mut self,
        tracker: &FileBasedResourceTracker,
        workflow_id: WorkflowId,
        interrupted_at: Timestamp,
    ) -> (record: InterruptedWorkflowCleanup)
        ensures
            ({
                let left = resource_views(owned_by(tracker.resources(), workflow_id@));
                &&& record.workflow_id@ == workflow_id@
                &&& record.interrupted_at == interrupted_at
                &&& record.created_resources@ == left.map_values(|r: TrackedResourceView| r.id)
                &&& texts(record.manual_instructions@) == left.map_values(
                    |r: TrackedResourceView| interruption_note(r),
                )
                &&& command_views(record.automated_commands@) == tracked_commands(
                    left,
                    left.len() as int,
                )
                &&& final(self).interrupted().dom() == old(self).interrupted().dom().insert(
                    workflow_id@,
                )
                &&& final(self).interrupted()[workflow_id@].workflow_id@ == workflow_id@
                &&& final(self).interrupted()[workflow_id@].interrupted_at == interrupted_at
                &&& final(self).interrupted()[workflow_id@].created_resources@
                    == record.created_resources@
                &&& texts(final(self).interrupted()[workflow_id@].manual_instructions@) == texts(
                    record.manual_instructions@,
                )
                &&& command_views(final(self).interrupted()[workflow_id@].automated_commands@)
                    == command_views(record.automated_commands@)
                &&& final(self).interrupted().remove(workflow_id@) == old(self).interrupted().remove(workflow_id@)
            }),
            final(self).policies() == old(self).policies(),
            final(self).strategies() == old(self).strategies(),
    {
        let resources = tracker.get_resources_for_workflow(&workflow_id);
        let ghost listed = owned_by(tracker.resources(), workflow_id@);
        let ghost left = resource_views(listed);
        proof {
            assert(ref_views(resources@) =~= left) by {
                assert forall|i: int| 0 <= i < resources@.len() implies ref_views(resources@)[i]
                    == left[i] by {
                    assert(resources@.map_values(|r: &TrackedResource| *r)[i] == listed[i]);
                }
            }
        }
        let ghost ids = left.map_values(|r: TrackedResourceView| r.id);
        let ghost notes = left.map_values(|r: TrackedResourceView| interruption_note(r));
        let mut created_resources: Vec<ResourceId> = Vec::new();
        let mut manual_instructions: Vec<String> = Vec::new();
        let mut automated_commands: Vec<RapsCommand> = Vec::new();
        let mut i: usize = 0;
        assert(command_views(automated_commands@) =~= tracked_commands(left, 0));
        while i < resources.len()
            invariant
                i <= resources@.len(),
                left == ref_views(resources@),
                ids == left.map_values(|r: TrackedResourceView| r.id),
                notes == left.map_values(|r: TrackedResourceView| interruption_note(r)),
                created_resources@ == ids.take(i as int),
                texts(manual_instructions@) == notes.take(i as int),
                command_views(automated_commands@) == tracked_commands(left, i as int),
            decreases resources@.len() - i,
        {
            let r: &TrackedResource = resources[i];
            assert(left[i as int] == r@);
            let ghost prior_notes = texts(manual_instructions@);
            let ghost prior_commands = command_views(automated_commands@);
            created_resources.push(r.id);
            let mut note = concat3("Clean up ", r.resource_type.policy_key(), " '");
            note.append(r.name.as_str());
            note.append("' (APS ID: ");
            note.append(r.aps_id.as_str());
            note.append(") created before interruption");
            assert(note@ =~= interruption_note(r@));
            manual_instructions.push(note);
            let mut k: usize = 0;
            while k < r.cleanup_commands.len()
                invariant
                    k <= r.cleanup_commands@.len(),
                    command_views(automated_commands@) == prior_commands + command_views(
                        r.cleanup_commands@,
                    ).take(k as int),
                decreases r.cleanup_commands@.len() - k,
            {
                let ghost so_far = command_views(automated_commands@);
                let c = r.cleanup_commands[k].clone();
                automated_commands.push(c);
                k = k + 1;
                assert(command_views(automated_commands@) =~= so_far.push(c@));
                assert(command_views(r.cleanup_commands@).take(k as int) =~= command_views(
                    r.cleanup_commands@,
                ).take(k - 1).push(c@));
            }
            assert(command_views(r.cleanup_commands@).take(r.cleanup_commands@.len() as int)
                =~= command_views(r.cleanup_commands@));
            i = i + 1;
            assert(created_resources@ =~= ids.take(i as int));
            assert(texts(manual_instructions@) =~= prior_notes.push(note@));
            assert(notes.take(i as int) =~= notes.take(i - 1).push(note@));
        }
        proof {
            assert(ids.take(resources@.len() as int) =~= ids);
            assert(notes.take(resources@.len() as int) =~= notes);
        }
        let record = InterruptedWorkflowCleanup {
            workflow_id: workflow_id.clone(),
            interrupted_at,
            created_resources,
            manual_instructions,
            automated_commands,
        };
        let kept = record.clone();
        self.interrupted_workflows.insert(workflow_id, kept);
        proof {
            assert(self.interrupted().dom() =~= old(self).interrupted().dom().insert(
                workflow_id@,
            ));
            assert(self.interrupted().remove(workflow_id@) =~= old(self).interrupted().remove(
                workflow_id@,
            ));
        }
        record
    }

    /// What interrupted runs have left behind, in the order in which the
    /// workflows were first recorded.
    pub fn get_interrupted_workflows(&self) -> (all: Vec<&InterruptedWorkflowCleanup>)
        ensures
            all@.len() == self.interrupted().dom().len(),
            all@.map_values(|r: &InterruptedWorkflowCleanup| *r) == self.interrupted_order(),
            forall|i: int|
                0 <= i < all@.len() ==> self.interrupted().dom().contains(
                    #[trigger] self.interrupted_keys()[i],
                ) && self.interrupted()[self.interrupted_keys()[i]] == *all@[i],
    {
        let n = self.interrupted_workflows.len();
        let mut all: Vec<&InterruptedWorkflowCleanup> = Vec::new();
        let mut i: usize = 0;
        while i < n
            invariant
                i <= n,
                n == self.interrupted_workflows.key_order().len(),
                n == self.interrupted_workflows.value_order().len(),
                all@.len() == i,
                forall|j: int|
                    0 <= j < i ==> *(#[trigger] all@[j])
                        == self.interrupted_workflows.value_order()[j]
                        && self.interrupted_workflows@.contains_key(
                        self.interrupted_workflows.key_order()[j],
                    ) && self.interrupted_workflows@[self.interrupted_workflows.key_order()[j]]
                        == *all@[j],
            decreases n - i,
        {
            all.push(self.interrupted_workflows.value_at(i));
            i = i + 1;
        }
        assert(all@.map_values(|r: &InterruptedWorkflowCleanup| *r)
            =~= self.interrupted_workflows.value_order());
        all
    }

    /// Forgets what an interrupted run of the workflow has left behind.
    pub fn clear_interrupted_workflow(&mut self, workflow_id: &WorkflowId)
        ensures
            final(self).interrupted() == old(self).interrupted().remove(workflow_id@),
            final(self).policies() == old(self).policies(),
            final(self).strategies() == old(self).strategies(),
    {
        self.interrupted_workflows.remove(workflow_id.as_str());
    }

    /// Plans the cleanup of several workflows in the mode given: for each
    /// workflow its plan and what its resources are estimated to cost.
    pub fn orchestrate_cleanup(
        &self,
        tracker: &FileBasedResourceTracker,
        workflow_ids: &Vec<WorkflowId>,
        mode: CleanupMode,
        confirmed: &Vec<ResourceId>,
        now: Timestamp,
    ) -> (plans: Vec<WorkflowCleanup>)
        ensures
            plans@.len() == workflow_ids@.len(),
            forall|i: int|
                0 <= i < plans@.len() ==> {
                    let w = workflow_ids@[i]@;
                    &&& (#[trigger] plans@[i]).workflow_id@ == w
                    &&& plans@[i].plan@ == planned(
                        self.strategy_of(w),
                        mode,
                        resource_views(owned_by(tracker.resources(), w)),
                        tracker@.policies,
                        self.policies(),
                        confirmed@,
                        now,
                    )
                    &&& plans@[i].estimated_cost == workflow_cost(
                        tracker@.resources,
                        w,
                        tracker@.resources.len() as int,
                    )
                },
    {
        let mut plans: Vec<WorkflowCleanup> = Vec::new();
        let mut i: usize = 0;
        while i < workflow_ids.len()
            invariant
                i <= workflow_ids@.len(),
                plans@.len() == i,
                forall|j: int|
                    0 <= j < i ==> {
                        let w = workflow_ids@[j]@;
                        &&& (#[trigger] plans@[j]).workflow_id@ == w
                        &&& plans@[j].plan@ == planned(
                            self.strategy_of(w),
                            mode,
                            resource_views(owned_by(tracker.resources(), w)),
                            tracker@.policies,
                            self.policies(),
                            confirmed@,
                            now,
                        )
                        &&& plans@[j].estimated_cost == workflow_cost(
                            tracker@.resources,
                            w,
                            tracker@.resources.len() as int,
                        )
                    },
            decreases workflow_ids@.len() - i,
        {
            let id = &workflow_ids[i];
            let plan = self.cleanup_completed_workflow(tracker, id, mode, confirmed, now);
            let summary = tracker.get_cost_summary_at(id, now);
            plans.push(
                WorkflowCleanup {
                    workflow_id: id.clone(),
                    plan,
                    estimated_cost: summary.total_cost,
                },
            );
            i = i + 1;
        }
        plans
    }
}

} // verus!
