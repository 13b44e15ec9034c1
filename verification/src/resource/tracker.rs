//! The ledger: the resources that runs have created, with the policies
//! that say when each kind is removed and the costs that were recorded.
//!
//! The ledger lives in memory. To persist it the host asks for a snapshot
//! after each change and writes it down; at the start it hands the
//! snapshot that it has read back to the ledger.

use vstd::prelude::*;
use std::collections::HashMap;
use crate::text::{texts, owned, concat2};
use crate::text_map::TextMap;
use crate::system::now;
use crate::workflow::types::{RapsCommand, RapsCommandView, WorkflowId, Timestamp, MicroUsd,
    BucketAction, BucketParams, BucketParamsView, ObjectAction, ObjectParams, ObjectParamsView,
    command_views, copy_commands};
use crate::resource::types::{ResourceId, ResourceType, ResourceTypeView, TrackedResource,
    TrackedResourceView, CleanupPolicy, CostSummary, ResourceNaming, resource_views, kind_name,
    cost_label, monthly_cost, capped, amount_at, is_demo_text, has_demo_marker, bucket_name_at,
    object_key_at, folder_name_at, photoscene_name_at, age_between, is_due,
    lemma_generated_names_are_demo_names};

verus! {

/// The name under which a resource of the kind given is kept: the name
/// itself where it is a name of a demonstration, and else one that is
/// generated for the kind.
pub open spec fn demo_named(t: ResourceTypeView, base: Seq<char>, now: Timestamp) -> Seq<char> {
    if is_demo_text(base) {
        base
    } else {
        match t {
            ResourceTypeView::Bucket { .. } => bucket_name_at(now),
            ResourceTypeView::Object { .. } => object_key_at(base, now),
            ResourceTypeView::Folder { .. } => folder_name_at(base, now),
            ResourceTypeView::Photoscene { .. } => photoscene_name_at(now),
            _ => "demo-"@ + base,
        }
    }
}

/// The name that the ledger gives to a resource that is tracked at the
/// time given.
pub open spec fn tracked_name(r: TrackedResourceView, now: Timestamp) -> Seq<char> {
    if has_demo_marker(r.name) {
        r.name
    } else {
        demo_named(r.resource_type, r.name, now)
    }
}

/// A resource as the ledger keeps it when it is tracked at the time
/// given: under the name that the ledger gives it.
pub open spec fn tracked_view(r: TrackedResourceView, now: Timestamp) -> TrackedResourceView {
    TrackedResourceView { name: tracked_name(r, now), ..r }
}

/// The name under which the ledger keeps a resource is always the name of
/// a demonstration.
pub proof fn lemma_tracked_name_is_demo_name(r: TrackedResourceView, now: Timestamp)
    ensures
        is_demo_text(tracked_name(r, now)),
        is_demo_text(demo_named(r.resource_type, r.name, now)),
{
    lemma_generated_names_are_demo_names(r.name, now);
}

/// The policy for a kind of resource: the one that is set for the kind,
/// and else `Immediate`.
pub open spec fn policy_of(policies: Map<Seq<char>, CleanupPolicy>, t: ResourceTypeView)
    -> CleanupPolicy {
    if policies.contains_key(kind_name(t)) {
        policies[kind_name(t)]
    } else {
        CleanupPolicy::Immediate
    }
}

/// The policies that a new ledger starts with: buckets, objects,
/// photoscenes and work items are removed at once, translations after two
/// hours, and webhooks, folders and items by hand only.
pub open spec fn default_policies() -> Map<Seq<char>, CleanupPolicy> {
    Map::<Seq<char>, CleanupPolicy>::empty().insert("Bucket"@, CleanupPolicy::Immediate).insert(
        "Object"@,
        CleanupPolicy::Immediate,
    ).insert("Translation"@, CleanupPolicy::Delayed { duration: 7200 }).insert(
        "DesignAutomationWorkItem"@,
        CleanupPolicy::Immediate,
    ).insert("Photoscene"@, CleanupPolicy::Immediate).insert(
        "Webhook"@,
        CleanupPolicy::Manual,
    ).insert("Folder"@, CleanupPolicy::Manual).insert("Item"@, CleanupPolicy::Manual)
}

/// The commands that remove a resource: those that it was tracked with,
/// and else what its kind suggests.
pub open spec fn cleanup_commands_of(r: TrackedResourceView) -> Seq<RapsCommandView> {
    if r.cleanup_commands.len() > 0 {
        r.cleanup_commands
    } else {
        match r.resource_type {
            ResourceTypeView::Bucket { .. } => seq![
                RapsCommandView::Bucket {
                    action: BucketAction::Delete,
                    params: BucketParamsView {
                        bucket_name: Some(r.aps_id),
                        retention_policy: None,
                        region: None,
                        force: Some(true),
                    },
                },
            ],
            ResourceTypeView::Object { bucket_name, size_bytes } => seq![
                RapsCommandView::Object {
                    action: ObjectAction::Delete,
                    params: ObjectParamsView {
                        bucket_name,
                        object_key: Some(r.aps_id),
                        file_path: None,
                        batch: None,
                        expires_in: None,
                    },
                },
            ],
            ResourceTypeView::Webhook { .. } => seq![
                RapsCommandView::Custom {
                    command: "raps"@,
                    args: seq!["webhook"@, "delete"@, r.aps_id],
                },
            ],
            _ => Seq::empty(),
        }
    }
}

/// The removal of one resource: the commands to run, in order.
#[derive(Debug)]
pub struct CleanupTask {
    pub resource_id: ResourceId,
    pub commands: Vec<RapsCommand>,
}

pub struct CleanupTaskView {
    pub resource_id: ResourceId,
    pub commands: Seq<RapsCommandView>,
}

impl View for CleanupTask {
    type V = CleanupTaskView;

    open spec fn view(&self) -> CleanupTaskView {
        CleanupTaskView { resource_id: self.resource_id, commands: command_views(self.commands@) }
    }
}

/// The views of a sequence of tasks.
pub open spec fn task_views(v: Seq<CleanupTask>) -> Seq<CleanupTaskView> {
    v.map_values(|t: CleanupTask| t@)
}

/// The task that removes a resource.
pub open spec fn task_of(r: TrackedResourceView) -> CleanupTaskView {
    CleanupTaskView { resource_id: r.id, commands: cleanup_commands_of(r) }
}

/// The removals that are due among the first `n` resources: one for each
/// resource of the workflow whose policy says that it is due, in the
/// order of the ledger.
pub open spec fn due_tasks(
    resources: Seq<TrackedResourceView>,
    workflow: Seq<char>,
    policies: Map<Seq<char>, CleanupPolicy>,
    now: Timestamp,
    n: int,
) -> Seq<CleanupTaskView>
    decreases n,
{
    if n <= 0 {
        Seq::empty()
    } else {
        let r = resources[n - 1];
        let earlier = due_tasks(resources, workflow, policies, now, n - 1);
        if r.workflow_id == workflow && is_due(
            policy_of(policies, r.resource_type),
            age_between(r.created_at, now),
        ) {
            earlier.push(task_of(r))
        } else {
            earlier
        }
    }
}

/// The estimated cost of the resources of a workflow among the first `n`,
/// cut off at the largest amount.
pub open spec fn workflow_cost(resources: Seq<TrackedResourceView>, workflow: Seq<char>, n: int)
    -> int
    decreases n,
{
    if n <= 0 {
        0
    } else {
        let r = resources[n - 1];
        let earlier = workflow_cost(resources, workflow, n - 1);
        if r.workflow_id == workflow {
            capped(earlier + monthly_cost(r.resource_type))
        } else {
            earlier
        }
    }
}

/// The estimated costs of the resources of a workflow among the first
/// `n`, by kind.
pub open spec fn workflow_cost_by_type(
    resources: Seq<TrackedResourceView>,
    workflow: Seq<char>,
    n: int,
) -> Map<Seq<char>, MicroUsd>
    decreases n,
{
    if n <= 0 {
        Map::empty()
    } else {
        let r = resources[n - 1];
        let earlier = workflow_cost_by_type(resources, workflow, n - 1);
        if r.workflow_id == workflow {
            earlier.insert(
                cost_label(r.resource_type),
                capped(
                    amount_at(earlier, cost_label(r.resource_type)) + monthly_cost(
                        r.resource_type,
                    ),
                ) as u64,
            )
        } else {
            earlier
        }
    }
}

/// The estimated costs of the resources of a workflow among the first
/// `n`, by resource.
pub open spec fn workflow_cost_by_resource(
    resources: Seq<TrackedResourceView>,
    workflow: Seq<char>,
    n: int,
) -> Map<ResourceId, MicroUsd>
    decreases n,
{
    if n <= 0 {
        Map::empty()
    } else {
        let r = resources[n - 1];
        let earlier = workflow_cost_by_resource(resources, workflow, n - 1);
        if r.workflow_id == workflow {
            earlier.insert(r.id, monthly_cost(r.resource_type) as u64)
        } else {
            earlier
        }
    }
}

/// What a command is expected to cost before it runs: a cent to create a
/// bucket, 2.3 cents to upload an object, half a dollar for a translation,
/// ten cents for design automation, and nothing otherwise.
pub open spec fn command_cost(cmd: RapsCommandView) -> int {
    match cmd {
        RapsCommandView::Bucket { action, params } => if action == BucketAction::Create {
            10_000
        } else {
            0
        },
        RapsCommandView::Object { action, params } => if action == ObjectAction::Upload {
            23_000
        } else {
            0
        },
        RapsCommandView::Translate { .. } => 500_000,
        RapsCommandView::DesignAutomation { .. } => 100_000,
        _ => 0,
    }
}

/// The kind under which the cost of a command is counted.
pub open spec fn command_cost_label(cmd: RapsCommandView) -> Seq<char> {
    match cmd {
        RapsCommandView::Bucket { .. } => "Bucket"@,
        RapsCommandView::Object { .. } => "Object"@,
        RapsCommandView::Translate { .. } => "Translation"@,
        RapsCommandView::DesignAutomation { .. } => "Design Automation"@,
        _ => "Other"@,
    }
}

/// The expected cost of the first `n` commands, cut off at the largest
/// amount.
pub open spec fn commands_cost(commands: Seq<RapsCommandView>, n: int) -> int
    decreases n,
{
    if n <= 0 {
        0
    } else {
        capped(commands_cost(commands, n - 1) + command_cost(commands[n - 1]))
    }
}

/// The expected cost of the first `n` commands by kind. A command that
/// costs nothing leaves no entry.
pub open spec fn commands_cost_by_type(commands: Seq<RapsCommandView>, n: int) -> Map<
    Seq<char>,
    MicroUsd,
>
    decreases n,
{
    if n <= 0 {
        Map::empty()
    } else {
        let c = commands[n - 1];
        let earlier = commands_cost_by_type(commands, n - 1);
        if command_cost(c) > 0 {
            earlier.insert(
                command_cost_label(c),
                capped(amount_at(earlier, command_cost_label(c)) + command_cost(c)) as u64,
            )
        } else {
            earlier
        }
    }
}

/// The resources of a workflow, in their order.
pub open spec fn owned_by(resources: Seq<TrackedResource>, workflow: Seq<char>) -> Seq<
    TrackedResource,
>
    decreases resources.len(),
{
    if resources.len() == 0 {
        Seq::empty()
    } else {
        let earlier = owned_by(resources.drop_last(), workflow);
        if resources.last().workflow_id@ == workflow {
            earlier.push(resources.last())
        } else {
            earlier
        }
    }
}

proof fn lemma_owned_by_push(resources: Seq<TrackedResource>, last: TrackedResource, workflow: Seq<char>)
    ensures
        owned_by(resources.push(last), workflow) == if last.workflow_id@ == workflow {
            owned_by(resources, workflow).push(last)
        } else {
            owned_by(resources, workflow)
        },
        owned_by(Seq::<TrackedResource>::empty(), workflow) == Seq::<TrackedResource>::empty(),
{
    assert(resources.push(last).drop_last() =~= resources);
}

/// The identifiers of a sequence of resources.
pub open spec fn resource_ids(resources: Seq<TrackedResource>) -> Seq<ResourceId> {
    resources.map_values(|r: TrackedResource| r.id)
}

/// The place of the resource with the identifier given.
pub open spec fn resource_position(resources: Seq<TrackedResource>, id: ResourceId) -> Option<int>
    decreases resources.len(),
{
    if resources.len() == 0 {
        None
    } else {
        match resource_position(resources.drop_last(), id) {
            Some(i) => Some(i),
            None => if resources.last().id == id {
                Some(resources.len() - 1)
            } else {
                None
            },
        }
    }
}

proof fn lemma_resource_position(resources: Seq<TrackedResource>, id: ResourceId)
    ensures
        match resource_position(resources, id) {
            Some(i) => 0 <= i < resources.len() && resources[i].id == id && forall|j: int|
                0 <= j < i ==> (#[trigger] resources[j]).id != id,
            None => forall|j: int| 0 <= j < resources.len() ==> (#[trigger] resources[j]).id != id,
        },
    decreases resources.len(),
{
    if resources.len() > 0 {
        let head = resources.drop_last();
        lemma_resource_position(head, id);
        match resource_position(head, id) {
            Some(i) => {
                assert(head[i] == resources[i]);
                assert forall|j: int| 0 <= j < i implies (#[trigger] resources[j]).id != id by {
                    assert(head[j] == resources[j]);
                }
            },
            None => {
                assert forall|j: int| 0 <= j < resources.len() - 1 implies (
                #[trigger] resources[j]).id != id by {
                    assert(head[j] == resources[j]);
                }
            },
        }
    }
}

/// No two resources share an identifier, and every name is the name of a
/// demonstration.
pub open spec fn ledger_ok(resources: Seq<TrackedResource>) -> bool {
    &&& resource_ids(resources).no_duplicates()
    &&& forall|i: int| 0 <= i < resources.len() ==> is_demo_text((#[trigger] resources[i]).name@)
}

/// What the ledger holds.
pub struct LedgerView {
    pub resources: Seq<TrackedResourceView>,
    pub policies: Map<Seq<char>, CleanupPolicy>,
    pub costs: Map<ResourceId, MicroUsd>,
}

/// The resources of each workflow among the first `n`, by workflow and in
/// the order of the ledger.
pub open spec fn indexed(resources: Seq<TrackedResourceView>, n: int) -> Map<
    Seq<char>,
    Seq<ResourceId>,
>
    decreases n,
{
    if n <= 0 {
        Map::empty()
    } else {
        let r = resources[n - 1];
        let earlier = indexed(resources, n - 1);
        earlier.insert(
            r.workflow_id,
            (if earlier.contains_key(r.workflow_id) {
                earlier[r.workflow_id]
            } else {
                Seq::empty()
            }).push(r.id),
        )
    }
}

/// A snapshot of the ledger, as it is written down.
#[derive(Debug)]
pub struct TrackerState {
    pub resources: Vec<TrackedResource>,
    /// For each workflow, the identifiers of its resources.
    pub workflow_resources: TextMap<Vec<ResourceId>>,
    pub cleanup_policies: TextMap<CleanupPolicy>,
    pub cost_data: HashMap<ResourceId, MicroUsd>,
    pub last_updated: Timestamp,
}

impl TrackerState {
    /// What the snapshot holds of the ledger.
    pub open spec fn ledger(&self) -> LedgerView {
        LedgerView {
            resources: resource_views(self.resources@),
            policies: self.cleanup_policies@,
            costs: self.cost_data@,
        }
    }

    /// The snapshot can be taken in: no two resources share an identifier,
    /// and every name is the name of a demonstration.
    pub open spec fn is_sound(&self) -> bool {
        ledger_ok(self.resources@)
    }
}

/// Why the ledger refused.
#[derive(Debug, Clone, Copy, PartialEq, Eq, Structural)]
pub enum LedgerError {
    /// The snapshot holds two resources with one identifier, or a resource
    /// whose name is not the name of a demonstration.
    UnsoundSnapshot,
    /// The snapshot could not be written down; the ledger was put back as
    /// it was before the change.
    NotWritten,
}

/// The snapshot is the one that `save_state` takes of the ledger at the
/// time given: it holds what the ledger holds, with the resources of each
/// workflow listed under the workflow, and it is sound.
pub open spec fn snapshot_of(
    ledger: FileBasedResourceTracker,
    state: TrackerState,
    now: Timestamp,
) -> bool {
    &&& state.ledger() == ledger@
    &&& state.last_updated == now
    &&& state.workflow_resources@.map_values(|v: Vec<ResourceId>| v@) == indexed(
        ledger@.resources,
        ledger@.resources.len() as int,
    )
    &&& state.is_sound()
}

/// What `load_state` makes of a ledger and a snapshot: a sound snapshot
/// is taken in, in the place of what the ledger held; an unsound one is
/// refused and the ledger stays as it was.
pub open spec fn taken_in(
    before: FileBasedResourceTracker,
    after: FileBasedResourceTracker,
    state: TrackerState,
    r: Result<(), LedgerError>,
) -> bool {
    &&& after.file() == before.file()
    &&& state.is_sound() ==> r is Ok && after@ == state.ledger() && after.resources()
        == state.resources@
    &&& !state.is_sound() ==> r == Err::<(), LedgerError>(LedgerError::UnsoundSnapshot) && after@
        == before@ && after.resources() == before.resources()
}

/// What `settle` makes of a ledger after a change, given the snapshot from
/// before the change and whether the change was written down: what was
/// written stays; what was not is undone, and the error says so.
pub open spec fn settled(
    changed: FileBasedResourceTracker,
    after: FileBasedResourceTracker,
    snapshot: TrackerState,
    written: bool,
    r: Result<(), LedgerError>,
) -> bool {
    &&& after.file() == changed.file()
    &&& written ==> r is Ok && after@ == changed@ && after.resources() == changed.resources()
    &&& !written && snapshot.is_sound() ==> r == Err::<(), LedgerError>(LedgerError::NotWritten)
        && after@ == snapshot.ledger() && after.resources() == snapshot.resources@
    &&& !written && !snapshot.is_sound() ==> r == Err::<(), LedgerError>(
        LedgerError::UnsoundSnapshot,
    ) && after@ == changed@ && after.resources() == changed.resources()
}

/// The ledger of tracked resources.
#[derive(Debug)]
pub struct FileBasedResourceTracker {
    resources: Vec<TrackedResource>,
    cleanup_policies: TextMap<CleanupPolicy>,
    state_file: String,
    cost_data: HashMap<ResourceId, MicroUsd>,
}

impl View for FileBasedResourceTracker {
    type V = LedgerView;

    closed spec fn view(&self) -> LedgerView {
        LedgerView {
            resources: resource_views(self.resources@),
            policies: self.cleanup_policies@,
            costs: self.cost_data@,
        }
    }
}

fn all_sound(resources: &Vec<TrackedResource>) -> (b: bool)
    ensures
        b == ledger_ok(resources@),
{
    let mut i: usize = 0;
    while i < resources.len()
        invariant
            i <= resources.len(),
            ledger_ok(resources@.take(i as int)),
        decreases resources.len() - i,
    {
        let ghost head = resources@.take(i as int);
        let ghost next = resources@.take(i + 1);
        if !ResourceNaming::is_demo_name(resources[i].name.as_str()) {
            return false;
        }
        let mut j: usize = 0;
        while j < i
            invariant
                j <= i < resources.len(),
                forall|k: int| 0 <= k < j ==> (#[trigger] resources@[k]).id != resources@[i as int].id,
            decreases i - j,
        {
            if resources[j].id == resources[i].id {
                proof {
                    assert(resource_ids(resources@)[j as int] == resource_ids(resources@)[i as int]);
                }
                return false;
            }
            j = j + 1;
        }
        proof {
            assert(next =~= head.push(resources@[i as int]));
            assert(resource_ids(next) =~= resource_ids(head).push(resources@[i as int].id));
            assert forall|a: int, b: int|
                0 <= a < next.len() && 0 <= b < next.len() && a != b implies resource_ids(next)[a]
                != resource_ids(next)[b] by {
                if a < i && b < i {
                    assert(resource_ids(head)[a] != resource_ids(head)[b]);
                }
            }
        }
        i = i + 1;
    }
    assert(resources@.take(resources.len() as int) =~= resources@);
    true
}

impl FileBasedResourceTracker {
    #[verifier::type_invariant]
    spec fn well_formed(self) -> bool {
        ledger_ok(self.resources@)
    }

    /// The resources in the order in which they were tracked.
    pub closed spec fn resources(&self) -> Seq<TrackedResource> {
        self.resources@
    }

    /// The path of the file that the host keeps the snapshot in.
    pub closed spec fn file(&self) -> Seq<char> {
        self.state_file@
    }

    /// The policies of a new ledger.
    pub fn default_cleanup_policies() -> (p: TextMap<CleanupPolicy>)
        ensures
            p@ == default_policies(),
    {
        let mut p: TextMap<CleanupPolicy> = TextMap::new();
        p.insert(owned("Bucket"), CleanupPolicy::Immediate);
        p.insert(owned("Object"), CleanupPolicy::Immediate);
        p.insert(owned("Translation"), CleanupPolicy::Delayed { duration: 7200 });
        p.insert(owned("DesignAutomationWorkItem"), CleanupPolicy::Immediate);
        p.insert(owned("Photoscene"), CleanupPolicy::Immediate);
        p.insert(owned("Webhook"), CleanupPolicy::Manual);
        p.insert(owned("Folder"), CleanupPolicy::Manual);
        p.insert(owned("Item"), CleanupPolicy::Manual);
        p
    }

    /// An empty ledger with the default policies, for the file given.
    pub fn new(state_file: String) -> (t: Self)
        ensures
            t.resources().len() == 0,
            t@.resources.len() == 0,
            t@.policies == default_policies(),
            t@.costs == Map::<ResourceId, MicroUsd>::empty(),
            t.file() == state_file@,
    {
        let resources: Vec<TrackedResource> = Vec::new();
        assert(resource_ids(resources@) =~= Seq::<ResourceId>::empty());
        FileBasedResourceTracker {
            resources,
            cleanup_policies: Self::default_cleanup_policies(),
            state_file,
            cost_data: HashMap::new(),
        }
    }

    /// The path of the file that the host keeps the snapshot in.
    pub fn state_file(&self) -> (path: &String)
        ensures
            path@ == self.file(),
    {
        &self.state_file
    }

    /// What holds of every ledger: its view shows its resources, no two of
    /// them share an identifier, and each has the name of a demonstration.
    pub fn get_all_resources(&self) -> (all: Vec<&TrackedResource>)
        ensures
            all@.map_values(|r: &TrackedResource| *r) == self.resources(),
            self@.resources == resource_views(self.resources()),
            ledger_ok(self.resources()),
    {
        proof {
            use_type_invariant(self);
        }
        let mut all: Vec<&TrackedResource> = Vec::new();
        let mut i: usize = 0;
        while i < self.resources.len()
            invariant
                i <= self.resources@.len(),
                all@.map_values(|r: &TrackedResource| *r) == self.resources@.take(i as int),
            decreases self.resources@.len() - i,
        {
            let ghost prior = all@.map_values(|r: &TrackedResource| *r);
            all.push(&self.resources[i]);
            i = i + 1;
            assert(all@.map_values(|r: &TrackedResource| *r) =~= prior.push(
                self.resources@[i - 1],
            ));
            assert(self.resources@.take(i as int) =~= self.resources@.take(i - 1).push(
                self.resources@[i - 1],
            ));
        }
        assert(self.resources@.take(self.resources@.len() as int) =~= self.resources@);
        all
    }

    /// The resources of a workflow, in the order in which they were
    /// tracked.
    pub fn get_resources_for_workflow(&self, workflow_id: &WorkflowId) -> (found: Vec<
        &TrackedResource,
    >)
        ensures
            found@.map_values(|r: &TrackedResource| *r) == owned_by(
                self.resources(),
                workflow_id@,
            ),
    {
        let mut found: Vec<&TrackedResource> = Vec::new();
        let mut i: usize = 0;
        proof {
            lemma_owned_by_push(Seq::empty(), self.resources@[0], workflow_id@);
            assert(self.resources@.take(0) =~= Seq::<TrackedResource>::empty());
            assert(found@.map_values(|r: &TrackedResource| *r) =~= Seq::<TrackedResource>::empty());
        }
        while i < self.resources.len()
            invariant
                i <= self.resources@.len(),
                found@.map_values(|r: &TrackedResource| *r) == owned_by(
                    self.resources@.take(i as int),
                    workflow_id@,
                ),
            decreases self.resources@.len() - i,
        {
            let r = &self.resources[i];
            let ghost prior = found@.map_values(|r: &TrackedResource| *r);
            proof {
                assert(self.resources@.take(i + 1) =~= self.resources@.take(i as int).push(*r));
                lemma_owned_by_push(self.resources@.take(i as int), *r, workflow_id@);
            }
            if crate::text::same_text(r.workflow_id.as_str(), workflow_id.as_str()) {
                found.push(r);
                assert(found@.map_values(|r: &TrackedResource| *r) =~= prior.push(*r));
            }
            i = i + 1;
        }
        assert(self.resources@.take(self.resources@.len() as int) =~= self.resources@);
        found
    }

    /// The resource with the identifier given.
    pub fn get_resource(&self, resource_id: ResourceId) -> (r: Option<&TrackedResource>)
        ensures
            match resource_position(self.resources(), resource_id) {
                Some(i) => r is Some && *r->0 == self.resources()[i],
                None => r is None,
            },
    {
        match self.find(resource_id) {
            Some(i) => Some(&self.resources[i]),
            None => None,
        }
    }

    fn find(&self, id: ResourceId) -> (r: Option<usize>)
        ensures
            match r {
                Some(i) => resource_position(self.resources@, id) == Some(i as int) && i
                    < self.resources@.len(),
                None => resource_position(self.resources@, id) is None,
            },
    {
        let mut i: usize = 0;
        while i < self.resources.len()
            invariant
                i <= self.resources@.len(),
                forall|j: int| 0 <= j < i ==> (#[trigger] self.resources@[j]).id != id,
            decreases self.resources@.len() - i,
        {
            if self.resources[i].id == id {
                proof {
                    lemma_resource_position(self.resources@, id);
                }
                return Some(i);
            }
            i = i + 1;
        }
        proof {
            lemma_resource_position(self.resources@, id);
        }
        None
    }

    /// The name under which a resource of the kind given is kept, as of
    /// the time given.
    pub fn apply_demo_naming_at(&self, resource_type: &ResourceType, base_name: &str, now: Timestamp)
        -> (name: String)
        ensures
            name@ == demo_named(resource_type@, base_name@, now),
            is_demo_text(name@),
    {
        proof {
            lemma_generated_names_are_demo_names(base_name@, now);
        }
        if ResourceNaming::is_demo_name(base_name) {
            return owned(base_name);
        }
        match resource_type {
            ResourceType::Bucket { .. } => ResourceNaming::demo_bucket_name_at(now),
            ResourceType::Object { .. } => ResourceNaming::demo_object_key_at(base_name, now),
            ResourceType::Folder { .. } => ResourceNaming::demo_folder_name_at(base_name, now),
            ResourceType::Photoscene { .. } => ResourceNaming::demo_photoscene_name_at(now),
            _ => concat2("demo-", base_name),
        }
    }

    /// The name under which a resource of the kind given is kept, as of
    /// now.
    pub fn apply_demo_naming(&self, resource_type: &ResourceType, base_name: &str) -> (name: String)
        ensures
            exists|t: Timestamp| name@ == demo_named(resource_type@, base_name@, t),
            is_demo_text(name@),
            is_demo_text(base_name@) ==> name@ == base_name@,
    {
        self.apply_demo_naming_at(resource_type, base_name, now())
    }

    /// The policy for a kind of resource.
    pub fn get_cleanup_policy(&self, resource_type: &ResourceType) -> (policy: CleanupPolicy)
        ensures
            policy == policy_of(self@.policies, resource_type@),
    {
        match self.cleanup_policies.get(resource_type.policy_key()) {
            Some(p) => *p,
            None => CleanupPolicy::default(),
        }
    }

    /// A copy of the policies of the ledger.
    pub fn policies_copy(&self) -> (p: TextMap<CleanupPolicy>)
        ensures
            p@ == self@.policies,
    {
        self.cleanup_policies.duplicate()
    }

    /// Sets the policy for a kind of resource, by the name of the kind.
    pub fn set_cleanup_policy(&mut self, kind: String, policy: CleanupPolicy)
        ensures
            final(self)@.policies == old(self)@.policies.insert(kind@, policy),
            final(self).resources() == old(self).resources(),
            final(self)@.costs == old(self)@.costs,
            final(self).file() == old(self).file(),
    {
        proof {
            use_type_invariant(&*self);
        }
        let mut policies: TextMap<CleanupPolicy> = TextMap::new();
        core::mem::swap(&mut policies, &mut self.cleanup_policies);
        policies.insert(kind, policy);
        self.cleanup_policies = policies;
    }

    /// Whether the policy of its kind says that the resource is due for
    /// removal at the time given.
    pub fn should_cleanup_resource_at(&self, resource: &TrackedResource, now: Timestamp) -> (due:
        bool)
        ensures
            due == is_due(
                policy_of(self@.policies, resource.resource_type@),
                age_between(resource.created_at, now),
            ),
    {
        match self.get_cleanup_policy(&resource.resource_type) {
            CleanupPolicy::Immediate => true,
            CleanupPolicy::Delayed { duration } => resource.age_at(now) >= duration,
            CleanupPolicy::Manual => false,
            CleanupPolicy::Never => false,
        }
    }

    /// Whether the policy of its kind says that the resource is due for
    /// removal now.
    pub fn should_cleanup_resource(&self, resource: &TrackedResource) -> (due: bool)
        ensures
            exists|t: Timestamp|
                due == is_due(
                    policy_of(self@.policies, resource.resource_type@),
                    age_between(resource.created_at, t),
                ),
    {
        self.should_cleanup_resource_at(resource, now())
    }

    /// The commands that remove a resource.
    pub fn generate_cleanup_commands(&self, resource: &TrackedResource) -> (commands: Vec<
        RapsCommand,
    >)
        ensures
            command_views(commands@) == cleanup_commands_of(resource@),
    {
        if resource.cleanup_commands.len() > 0 {
            assert(command_views(resource.cleanup_commands@).len() > 0);
            return copy_commands(&resource.cleanup_commands);
        }
        assert(command_views(resource.cleanup_commands@).len() == 0);
        let mut commands: Vec<RapsCommand> = Vec::new();
        match &resource.resource_type {
            ResourceType::Bucket { .. } => {
                commands.push(
                    RapsCommand::Bucket {
                        action: BucketAction::Delete,
                        params: BucketParams {
                            bucket_name: Some(resource.aps_id.clone()),
                            retention_policy: None,
                            region: None,
                            force: Some(true),
                        },
                    },
                );
            },
            ResourceType::Object { bucket_name, size_bytes } => {
                commands.push(
                    RapsCommand::Object {
                        action: ObjectAction::Delete,
                        params: ObjectParams {
                            bucket_name: bucket_name.clone(),
                            object_key: Some(resource.aps_id.clone()),
                            file_path: None,
                            batch: None,
                            expires_in: None,
                        },
                    },
                );
            },
            ResourceType::Webhook { .. } => {
                let mut args: Vec<String> = Vec::new();
                args.push(owned("webhook"));
                args.push(owned("delete"));
                args.push(resource.aps_id.clone());
                assert(texts(args@) =~= seq!["webhook"@, "delete"@, resource.aps_id@]);
                commands.push(RapsCommand::Custom { command: owned("raps"), args });
            },
            _ => {},
        }
        assert(command_views(commands@) =~= cleanup_commands_of(resource@));
        commands
    }

    /// Takes a resource into the ledger at the time given. A name that
    /// holds none of `demo-`, `test-` and `raps-demo-` is replaced by the
    /// name of a demonstration. A resource that the ledger holds under the
    /// same identifier gives way to the new one.
    pub fn track_resource_at(&mut self, resource: TrackedResource, now: Timestamp) -> (id:
        ResourceId)
        ensures
            id == resource.id,
            final(self)@.policies == old(self)@.policies,
            final(self)@.costs == old(self)@.costs,
            final(self).file() == old(self).file(),
            ({
                let kept = match resource_position(old(self).resources(), resource.id) {
                    Some(i) => old(self).resources().remove(i),
                    None => old(self).resources(),
                };
                &&& final(self).resources().len() == kept.len() + 1
                &&& final(self).resources().drop_last() == kept
                &&& final(self).resources().last()@ == tracked_view(resource@, now)
                &&& is_demo_text(final(self).resources().last().name@)
            }),
    {
        proof {
            use_type_invariant(&*self);
            lemma_tracked_name_is_demo_name(resource@, now);
        }
        let mut resource = resource;
        let ghost given = resource@;
        if !resource.has_demo_naming() {
            let name = self.apply_demo_naming_at(
                &resource.resource_type,
                resource.name.as_str(),
                now,
            );
            resource.name = name;
        }
        let id = resource.id;
        let place = self.find(id);
        let mut resources: Vec<TrackedResource> = Vec::new();
        core::mem::swap(&mut resources, &mut self.resources);
        let ghost before = resources@;
        match place {
            Some(i) => {
                let _ = resources.remove(i);
            },
            None => {},
        }
        let ghost kept = resources@;
        proof {
            lemma_resource_position(before, id);
            assert(resource_ids(Seq::<TrackedResource>::empty()) =~= Seq::<ResourceId>::empty());
            assert forall|j: int| 0 <= j < kept.len() implies (#[trigger] kept[j]).id != id
                && is_demo_text(kept[j].name@) by {
                match place {
                    Some(i) => {
                        if j < i {
                            assert(kept[j] == before[j]);
                        } else {
                            assert(kept[j] == before[j + 1]);
                            assert(resource_ids(before)[j + 1] != resource_ids(before)[i as int]);
                        }
                    },
                    None => {},
                }
            }
            assert forall|a: int, b: int|
                0 <= a < kept.len() && 0 <= b < kept.len() && a != b implies resource_ids(kept)[a]
                != resource_ids(kept)[b] by {
                match place {
                    Some(i) => {
                        let a0 = if a < i { a } else { a + 1 };
                        let b0 = if b < i { b } else { b + 1 };
                        assert(kept[a] == before[a0] && kept[b] == before[b0]);
                        assert(resource_ids(before)[a0] != resource_ids(before)[b0]);
                    },
                    None => {},
                }
            }
        }
        resources.push(resource);
        proof {
            let all = resources@;
            assert(all.drop_last() =~= kept);
            assert forall|a: int, b: int|
                0 <= a < all.len() && 0 <= b < all.len() && a != b implies resource_ids(all)[a]
                != resource_ids(all)[b] by {
                if a < kept.len() && b < kept.len() {
                    assert(resource_ids(kept)[a] != resource_ids(kept)[b]);
                } else if a < kept.len() {
                    assert(kept[a].id != id);
                } else {
                    assert(kept[b].id != id);
                }
            }
        }
        self.resources = resources;
        id
    }

    /// Takes a resource into the ledger now.
    pub fn track_resource(&mut self, resource: TrackedResource) -> (id: ResourceId)
        ensures
            id == resource.id,
            final(self)@.policies == old(self)@.policies,
            final(self)@.costs == old(self)@.costs,
            final(self).file() == old(self).file(),
            ({
                let kept = match resource_position(old(self).resources(), resource.id) {
                    Some(i) => old(self).resources().remove(i),
                    None => old(self).resources(),
                };
                &&& final(self).resources().len() == kept.len() + 1
                &&& final(self).resources().drop_last() == kept
                &&& exists|t: Timestamp|
                    final(self).resources().last()@ == #[trigger] tracked_view(resource@, t)
                &&& is_demo_text(final(self).resources().last().name@)
            }),
    {
        self.track_resource_at(resource, now())
    }

    /// Takes the resource with the identifier given out of the ledger,
    /// together with the cost that was recorded for it. Nothing happens
    /// where the ledger holds no such resource.
    pub fn untrack_resource(&mut self, resource_id: &ResourceId)
        ensures
            final(self)@.policies == old(self)@.policies,
            final(self).file() == old(self).file(),
            match resource_position(old(self).resources(), *resource_id) {
                Some(i) => final(self).resources() == old(self).resources().remove(i)
                    && final(self)@.costs == old(self)@.costs.remove(*resource_id),
                None => final(self).resources() == old(self).resources() && final(self)@.costs
                    == old(self)@.costs,
            },
            forall|j: int|
                0 <= j < final(self).resources().len() ==> (#[trigger] final(self).resources()[j]).id
                    != *resource_id,
    {
        broadcast use vstd::std_specs::hash::group_hash_axioms;

        proof {
            use_type_invariant(&*self);
            lemma_resource_position(self.resources@, *resource_id);
        }
        let id = *resource_id;
        match self.find(id) {
            Some(i) => {
                let mut resources: Vec<TrackedResource> = Vec::new();
                core::mem::swap(&mut resources, &mut self.resources);
                let ghost before = resources@;
                proof {
                    assert(resource_ids(Seq::<TrackedResource>::empty()) =~= Seq::<
                        ResourceId,
                    >::empty());
                }
                let _ = resources.remove(i);
                proof {
                    let kept = resources@;
                    assert forall|a: int, b: int|
                        0 <= a < kept.len() && 0 <= b < kept.len() && a != b implies resource_ids(
                        kept,
                    )[a] != resource_ids(kept)[b] by {
                        let a0 = if a < i { a } else { a + 1 };
                        let b0 = if b < i { b } else { b + 1 };
                        assert(kept[a] == before[a0] && kept[b] == before[b0]);
                        assert(resource_ids(before)[a0] != resource_ids(before)[b0]);
                    }
                    assert forall|j: int| 0 <= j < kept.len() implies is_demo_text(
                        (#[trigger] kept[j]).name@,
                    ) && kept[j].id != id by {
                        let j0 = if j < i { j } else { j + 1 };
                        assert(kept[j] == before[j0]);
                        assert(resource_ids(before)[j0] != resource_ids(before)[i as int]);
                    }
                }
                self.resources = resources;
                let mut costs: HashMap<ResourceId, MicroUsd> = HashMap::new();
                core::mem::swap(&mut costs, &mut self.cost_data);
                let _ = costs.remove(&id);
                self.cost_data = costs;
            },
            None => {},
        }
    }

    /// The removals that are due for a workflow at the time given: for
    /// each of its resources whose policy says so, the commands to run, in
    /// the order of the ledger. The host runs them and reports back.
    pub fn cleanup_workflow_resources(&self, workflow_id: &WorkflowId, now: Timestamp) -> (tasks:
        Vec<CleanupTask>)
        ensures
            task_views(tasks@) == due_tasks(
                self@.resources,
                workflow_id@,
                self@.policies,
                now,
                self@.resources.len() as int,
            ),
    {
        let ghost views = resource_views(self.resources@);
        let ghost policies = self.cleanup_policies@;
        let mut tasks: Vec<CleanupTask> = Vec::new();
        let mut i: usize = 0;
        assert(task_views(tasks@) =~= due_tasks(views, workflow_id@, policies, now, 0));
        while i < self.resources.len()
            invariant
                i <= self.resources@.len(),
                views == resource_views(self.resources@),
                policies == self@.policies,
                task_views(tasks@) == due_tasks(views, workflow_id@, policies, now, i as int),
            decreases self.resources@.len() - i,
        {
            let r = &self.resources[i];
            assert(views[i as int] == r@);
            let ghost prior = task_views(tasks@);
            if crate::text::same_text(r.workflow_id.as_str(), workflow_id.as_str())
                && self.should_cleanup_resource_at(r, now) {
                let task = CleanupTask {
                    resource_id: r.id,
                    commands: self.generate_cleanup_commands(r),
                };
                tasks.push(task);
                assert(task_views(tasks@) =~= prior.push(task_of(r@)));
            }
            i = i + 1;
        }
        tasks
    }

    /// The estimated costs of the resources of a workflow, calculated at
    /// the time given.
    pub fn get_cost_summary_at(&self, workflow_id: &WorkflowId, now: Timestamp) -> (summary:
        CostSummary)
        ensures
            summary.total_cost == workflow_cost(
                self@.resources,
                workflow_id@,
                self@.resources.len() as int,
            ),
            summary.cost_by_type@ == workflow_cost_by_type(
                self@.resources,
                workflow_id@,
                self@.resources.len() as int,
            ),
            summary.cost_by_resource@ == workflow_cost_by_resource(
                self@.resources,
                workflow_id@,
                self@.resources.len() as int,
            ),
            summary.currency@ == "USD"@,
            summary.calculated_at == now,
    {
        let ghost views = resource_views(self.resources@);
        let mut summary = CostSummary::at(now);
        let mut i: usize = 0;
        while i < self.resources.len()
            invariant
                i <= self.resources@.len(),
                views == resource_views(self.resources@),
                summary.total_cost == workflow_cost(views, workflow_id@, i as int),
                summary.cost_by_type@ == workflow_cost_by_type(views, workflow_id@, i as int),
                summary.cost_by_resource@ == workflow_cost_by_resource(
                    views,
                    workflow_id@,
                    i as int,
                ),
                summary.currency@ == "USD"@,
                summary.calculated_at == now,
            decreases self.resources@.len() - i,
        {
            let r = &self.resources[i];
            assert(views[i as int] == r@);
            if crate::text::same_text(r.workflow_id.as_str(), workflow_id.as_str()) {
                summary.add_resource(r);
            }
            i = i + 1;
        }
        summary
    }

    /// The estimated costs of the resources of a workflow, calculated now.
    pub fn get_cost_summary(&self, workflow_id: &WorkflowId) -> (summary: CostSummary)
        ensures
            summary.total_cost == workflow_cost(
                self@.resources,
                workflow_id@,
                self@.resources.len() as int,
            ),
            summary.cost_by_type@ == workflow_cost_by_type(
                self@.resources,
                workflow_id@,
                self@.resources.len() as int,
            ),
            summary.cost_by_resource@ == workflow_cost_by_resource(
                self@.resources,
                workflow_id@,
                self@.resources.len() as int,
            ),
            summary.currency@ == "USD"@,
    {
        self.get_cost_summary_at(workflow_id, now())
    }

    /// Whether the estimated cost of the resources of a workflow is above
    /// the threshold.
    pub fn exceeds_cost_threshold(&self, workflow_id: &WorkflowId, threshold: MicroUsd) -> (b: bool)
        ensures
            b == (workflow_cost(self@.resources, workflow_id@, self@.resources.len() as int)
                > threshold),
    {
        let summary = self.get_cost_summary_at(workflow_id, 0);
        summary.exceeds_threshold(threshold)
    }

    /// What a list of commands is expected to cost before it runs,
    /// calculated at the time given.
    pub fn estimate_workflow_cost_at(&self, workflow_steps: &Vec<RapsCommand>, now: Timestamp) -> (summary:
        CostSummary)
        ensures
            summary.total_cost == commands_cost(
                command_views(workflow_steps@),
                workflow_steps@.len() as int,
            ),
            summary.cost_by_type@ == commands_cost_by_type(
                command_views(workflow_steps@),
                workflow_steps@.len() as int,
            ),
            summary.cost_by_resource@ == Map::<ResourceId, MicroUsd>::empty(),
            summary.currency@ == "USD"@,
            summary.calculated_at == now,
    {
        let ghost views = command_views(workflow_steps@);
        let mut summary = CostSummary::at(now);
        let mut i: usize = 0;
        while i < workflow_steps.len()
            invariant
                i <= workflow_steps.len(),
                views == command_views(workflow_steps@),
                summary.total_cost == commands_cost(views, i as int),
                summary.cost_by_type@ == commands_cost_by_type(views, i as int),
                summary.cost_by_resource@ == Map::<ResourceId, MicroUsd>::empty(),
                summary.currency@ == "USD"@,
                summary.calculated_at == now,
            decreases workflow_steps.len() - i,
        {
            let command = &workflow_steps[i];
            assert(views[i as int] == command@);
            let cost: MicroUsd = match command {
                RapsCommand::Bucket { action, params } => match action {
                    BucketAction::Create => 10_000,
                    _ => 0,
                },
                RapsCommand::Object { action, params } => match action {
                    ObjectAction::Upload => 23_000,
                    _ => 0,
                },
                RapsCommand::Translate { .. } => 500_000,
                RapsCommand::DesignAutomation { .. } => 100_000,
                _ => 0,
            };
            if cost > 0 {
                let label = match command {
                    RapsCommand::Bucket { .. } => "Bucket",
                    RapsCommand::Object { .. } => "Object",
                    RapsCommand::Translate { .. } => "Translation",
                    RapsCommand::DesignAutomation { .. } => "Design Automation",
                    _ => "Other",
                };
                summary.add_amount(label, cost);
            }
            i = i + 1;
        }
        summary
    }

    /// What a list of commands is expected to cost before it runs.
    pub fn estimate_workflow_cost(&self, workflow_steps: &Vec<RapsCommand>) -> (summary: CostSummary)
        ensures
            summary.total_cost == commands_cost(
                command_views(workflow_steps@),
                workflow_steps@.len() as int,
            ),
            summary.cost_by_type@ == commands_cost_by_type(
                command_views(workflow_steps@),
                workflow_steps@.len() as int,
            ),
            summary.cost_by_resource@ == Map::<ResourceId, MicroUsd>::empty(),
            summary.currency@ == "USD"@,
    {
        self.estimate_workflow_cost_at(workflow_steps, now())
    }

    /// Records what a resource has really cost: in the costs of the
    /// ledger and, where the ledger holds the resource, in the resource.
    pub fn track_actual_cost(&mut self, resource_id: &ResourceId, actual_cost: MicroUsd)
        ensures
            final(self)@.policies == old(self)@.policies,
            final(self).file() == old(self).file(),
            final(self)@.costs == old(self)@.costs.insert(*resource_id, actual_cost),
            match resource_position(old(self).resources(), *resource_id) {
                Some(i) => final(self)@.resources == old(self)@.resources.update(
                    i,
                    TrackedResourceView {
                        estimated_cost: Some(actual_cost),
                        ..old(self)@.resources[i]
                    },
                ),
                None => final(self).resources() == old(self).resources(),
            },
    {
        broadcast use vstd::std_specs::hash::group_hash_axioms;

        proof {
            use_type_invariant(&*self);
        }
        let id = *resource_id;
        let mut costs: HashMap<ResourceId, MicroUsd> = HashMap::new();
        core::mem::swap(&mut costs, &mut self.cost_data);
        let _ = costs.insert(id, actual_cost);
        self.cost_data = costs;
        match self.find(id) {
            Some(i) => {
                let mut resources: Vec<TrackedResource> = Vec::new();
                core::mem::swap(&mut resources, &mut self.resources);
                let ghost before = resources@;
                proof {
                    assert(resource_ids(Seq::<TrackedResource>::empty()) =~= Seq::<
                        ResourceId,
                    >::empty());
                }
                let mut r = resources.remove(i);
                r.estimated_cost = Some(actual_cost);
                resources.insert(i, r);
                proof {
                    let after = resources@;
                    assert(resource_ids(after) =~= resource_ids(before));
                    assert forall|j: int| 0 <= j < after.len() implies is_demo_text(
                        (#[trigger] after[j]).name@,
                    ) by {
                        if j != i {
                            assert(after[j] == before[j]);
                        } else {
                            assert(after[j].name == before[j].name);
                        }
                    }
                    assert(resource_views(after) =~= resource_views(before).update(
                        i as int,
                        TrackedResourceView {
                            estimated_cost: Some(actual_cost),
                            ..resource_views(before)[i as int]
                        },
                    ));
                }
                self.resources = resources;
            },
            None => {},
        }
    }

    /// The identifiers of the resources of each workflow.
    pub fn workflow_index(&self) -> (index: TextMap<Vec<ResourceId>>)
        ensures
            index@.map_values(|v: Vec<ResourceId>| v@) == indexed(
                self@.resources,
                self@.resources.len() as int,
            ),
    {
        let ghost views = resource_views(self.resources@);
        let mut index: TextMap<Vec<ResourceId>> = TextMap::new();
        let mut i: usize = 0;
        assert(index@.map_values(|v: Vec<ResourceId>| v@) =~= indexed(views, 0));
        while i < self.resources.len()
            invariant
                i <= self.resources@.len(),
                views == resource_views(self.resources@),
                index@.map_values(|v: Vec<ResourceId>| v@) == indexed(views, i as int),
            decreases self.resources@.len() - i,
        {
            let r = &self.resources[i];
            assert(views[i as int] == r@);
            let ghost before = index@;
            let mut ids: Vec<ResourceId> = match index.get(r.workflow_id.as_str()) {
                Some(present) => present.clone(),
                None => Vec::new(),
            };
            proof {
                let earlier = indexed(views, i as int);
                assert(earlier.contains_key(r.workflow_id@) == before.contains_key(
                    r.workflow_id@,
                ));
                if before.contains_key(r.workflow_id@) {
                    assert(earlier[r.workflow_id@] == before[r.workflow_id@]@);
                    assert(ids@ =~= before[r.workflow_id@]@);
                }
            }
            ids.push(r.id);
            index.insert(r.workflow_id.clone(), ids);
            proof {
                assert(index@.map_values(|v: Vec<ResourceId>| v@) =~= before.map_values(
                    |v: Vec<ResourceId>| v@,
                ).insert(r.workflow_id@, ids@));
            }
            i = i + 1;
        }
        index
    }

    /// A snapshot of the ledger as of the time given.
    pub fn save_state(&self, now: Timestamp) -> (state: TrackerState)
        ensures
            snapshot_of(*self, state, now),
    {
        proof {
            use_type_invariant(self);
        }
        let mut resources: Vec<TrackedResource> = Vec::new();
        let mut i: usize = 0;
        while i < self.resources.len()
            invariant
                i <= self.resources@.len(),
                resources@.len() == i,
                forall|j: int| 0 <= j < i ==> (#[trigger] resources@[j])@ == self.resources@[j]@,
            decreases self.resources@.len() - i,
        {
            resources.push(self.resources[i].clone());
            i = i + 1;
        }
        proof {
            assert(resource_views(resources@) =~= resource_views(self.resources@));
            assert(resource_ids(resources@) =~= resource_ids(self.resources@)) by {
                assert forall|j: int| 0 <= j < resources@.len() implies resources@[j].id
                    == self.resources@[j].id by {
                    assert(resources@[j]@.id == self.resources@[j]@.id);
                }
            }
            assert forall|j: int| 0 <= j < resources@.len() implies is_demo_text(
                (#[trigger] resources@[j]).name@,
            ) by {
                assert(resources@[j]@.name == self.resources@[j]@.name);
            }
        }
        TrackerState {
            resources,
            workflow_resources: self.workflow_index(),
            cleanup_policies: self.cleanup_policies.duplicate(),
            cost_data: self.cost_data.clone(),
            last_updated: now,
        }
    }

    /// Takes a snapshot in, in the place of what the ledger holds. An
    /// unsound snapshot is refused and the ledger stays as it is.
    pub fn load_state(&mut self, state: TrackerState) -> (r: Result<(), LedgerError>)
        ensures
            taken_in(*old(self), *final(self), state, r),
    {
        proof {
            use_type_invariant(&*self);
        }
        if !all_sound(&state.resources) {
            return Err(LedgerError::UnsoundSnapshot);
        }
        let state_file = self.state_file.clone();
        *self = FileBasedResourceTracker {
            resources: state.resources,
            cleanup_policies: state.cleanup_policies,
            state_file,
            cost_data: state.cost_data,
        };
        Ok(())
    }

    /// Settles a change of the ledger once the host has tried to write it
    /// down. `snapshot` is the snapshot that was taken before the change.
    /// Where the change was written, the ledger stays as it is. Where it
    /// was not, the ledger is put back to the snapshot and the error
    /// `NotWritten` is handed back; an unsound snapshot cannot be put back
    /// and is refused.
    pub fn settle(&mut self, snapshot: TrackerState, written: bool) -> (r: Result<(), LedgerError>)
        ensures
            settled(*old(self), *final(self), snapshot, written, r),
    {
        if written {
            return Ok(());
        }
        match self.load_state(snapshot) {
            Ok(()) => Err(LedgerError::NotWritten),
            Err(e) => Err(e),
        }
    }
}

/// To save and to load gives the same state: the snapshot that
/// `save_state` takes of a ledger is sound, so `load_state` takes it in,
/// whatever ledger does so, and that ledger then holds what the first
/// held.
pub proof fn lemma_snapshot_round_trip(
    ledger: FileBasedResourceTracker,
    now: Timestamp,
    state: TrackerState,
    before: FileBasedResourceTracker,
    after: FileBasedResourceTracker,
    r: Result<(), LedgerError>,
)
    requires
        snapshot_of(ledger, state, now),
        taken_in(before, after, state, r),
    ensures
        r is Ok,
        after@ == ledger@,
        after.file() == before.file(),
{
}

/// A change that could not be written down is undone: where the snapshot
/// was taken of the ledger before the change, and the write after the
/// change failed, `settle` leaves the ledger holding what it held before
/// the change, and says that nothing was written.
pub proof fn lemma_failed_write_is_undone(
    ledger: FileBasedResourceTracker,
    now: Timestamp,
    snapshot: TrackerState,
    changed: FileBasedResourceTracker,
    after: FileBasedResourceTracker,
    r: Result<(), LedgerError>,
)
    requires
        snapshot_of(ledger, snapshot, now),
        settled(changed, after, snapshot, false, r),
    ensures
        r == Err::<(), LedgerError>(LedgerError::NotWritten),
        after@ == ledger@,
        after.file() == changed.file(),
{
}

} // verus!
