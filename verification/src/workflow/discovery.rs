//! The set of workflows that were found, the rules that a workflow has to
//! meet before it may run, and the order in which dependencies run.

use vstd::prelude::*;
use crate::text::{texts, owned, concat2, concat3, copy_texts, join, joined, holds_text, same_text};
use crate::text_map::TextMap;
use crate::workflow::graph::{deps_of, reaches_cycle, reachable, acyclic, dependencies_first,
    has_cycle, dependency_order};
use crate::workflow::types::{WorkflowId, AssetPath, WorkflowMetadata, WorkflowMetadataView,
    WorkflowCategory, ExecutionStep, ExecutionStepView, RapsCommand, RapsCommandView, step_views,
    command_views, copy_commands};

verus! {

/// A workflow as its file declares it.
#[derive(Debug, PartialEq, Eq)]
pub struct WorkflowDefinition {
    pub metadata: WorkflowMetadata,
    pub steps: Vec<ExecutionStep>,
    /// Commands to run when the workflow has ended.
    pub cleanup: Vec<RapsCommand>,
    /// Workflows that have to run first.
    pub dependencies: Option<Vec<WorkflowId>>,
}

pub struct WorkflowDefinitionView {
    pub metadata: WorkflowMetadataView,
    pub steps: Seq<ExecutionStepView>,
    pub cleanup: Seq<RapsCommandView>,
    pub dependencies: Option<Seq<Seq<char>>>,
}

impl View for WorkflowDefinition {
    type V = WorkflowDefinitionView;

    open spec fn view(&self) -> WorkflowDefinitionView {
        WorkflowDefinitionView {
            metadata: self.metadata@,
            steps: step_views(self.steps@),
            cleanup: command_views(self.cleanup@),
            dependencies: match self.dependencies {
                Some(d) => Some(texts(d@)),
                None => None,
            },
        }
    }
}

impl Clone for WorkflowDefinition {
    fn clone(&self) -> (r: Self)
        ensures
            r@ == self@,
    {
        let mut steps: Vec<ExecutionStep> = Vec::new();
        let mut i: usize = 0;
        while i < self.steps.len()
            invariant
                i <= self.steps.len(),
                step_views(steps@) == step_views(self.steps@).take(i as int),
            decreases self.steps.len() - i,
        {
            let ghost prior = step_views(steps@);
            let s = self.steps[i].clone();
            steps.push(s);
            i = i + 1;
            assert(step_views(steps@) =~= prior.push(s@));
            assert(step_views(self.steps@).take(i as int) =~= step_views(self.steps@).take(
                i - 1,
            ).push(s@));
        }
        assert(step_views(self.steps@).take(self.steps.len() as int) =~= step_views(self.steps@));
        let dependencies = match &self.dependencies {
            Some(d) => Some(copy_texts(d)),
            None => None,
        };
        WorkflowDefinition {
            metadata: self.metadata.clone(),
            steps,
            cleanup: copy_commands(&self.cleanup),
            dependencies,
        }
    }
}

/// The views of a sequence of metadata records.
pub open spec fn metadata_views(v: Seq<WorkflowMetadata>) -> Seq<WorkflowMetadataView> {
    v.map_values(|m: WorkflowMetadata| m@)
}

/// The identifiers that a definition depends on; none where it declares
/// no dependencies.
pub open spec fn dependency_texts(def: WorkflowDefinitionView) -> Seq<Seq<char>> {
    match def.dependencies {
        Some(d) => d,
        None => Seq::empty(),
    }
}

/// The outcome of validating a workflow.
#[derive(Debug, Clone, PartialEq, Eq)]
pub struct ValidationResult {
    pub is_valid: bool,
    /// What blocks the run.
    pub errors: Vec<String>,
    /// What the reader should know but does not block the run.
    pub warnings: Vec<String>,
}

impl ValidationResult {
    /// A valid result without messages.
    pub fn success() -> (r: Self)
        ensures
            r.is_valid,
            r.errors@.len() == 0,
            r.warnings@.len() == 0,
    {
        ValidationResult { is_valid: true, errors: Vec::new(), warnings: Vec::new() }
    }

    /// An invalid result with the errors given.
    pub fn with_errors(errors: Vec<String>) -> (r: Self)
        ensures
            !r.is_valid,
            r.errors == errors,
            r.warnings@.len() == 0,
    {
        ValidationResult { is_valid: false, errors, warnings: Vec::new() }
    }

    /// The same result with one more warning at the end.
    pub fn with_warning(self, warning: String) -> (r: Self)
        ensures
            r.is_valid == self.is_valid,
            r.errors == self.errors,
            r.warnings@ == self.warnings@.push(warning),
    {
        let mut r = self;
        r.warnings.push(warning);
        r
    }
}

/// Why the set of workflows could not answer.
#[derive(Debug, Clone, PartialEq, Eq)]
pub enum DiscoveryError {
    /// No workflow with this identifier was found.
    WorkflowNotFound(WorkflowId),
}

impl DiscoveryError {
    /// The error as a sentence.
    pub fn to_string(&self) -> (s: String)
        ensures
            match *self {
                DiscoveryError::WorkflowNotFound(id) => s@ == "Workflow not found: "@ + id@,
            },
    {
        match self {
            DiscoveryError::WorkflowNotFound(id) => concat2("Workflow not found: ", id.as_str()),
        }
    }
}

/// What is wrong with the shape of a command, if anything.
pub open spec fn command_problem(cmd: RapsCommandView) -> Option<Seq<char>> {
    match cmd {
        RapsCommandView::Bucket { action, params } => if params.bucket_name is None {
            Some("Bucket command requires bucket_name"@)
        } else {
            None
        },
        RapsCommandView::Object { action, params } => if params.bucket_name.len() == 0 {
            Some("Object command requires bucket_name"@)
        } else {
            None
        },
        RapsCommandView::Custom { command, args } => if command.len() == 0 {
            Some("Custom command cannot be empty"@)
        } else {
            None
        },
        _ => None,
    }
}

/// Some step before step `i` has the identifier of step `i`.
pub open spec fn repeats_earlier(steps: Seq<ExecutionStepView>, i: int) -> bool {
    exists|j: int| 0 <= j < i && steps[j].id == steps[i].id
}

/// The errors that step `i` adds.
pub open spec fn step_errors(steps: Seq<ExecutionStepView>, i: int) -> Seq<Seq<char>> {
    let s = steps[i];
    (if s.id.len() == 0 {
        seq!["Step ID cannot be empty"@]
    } else if repeats_earlier(steps, i) {
        seq!["Duplicate step ID: "@ + s.id]
    } else {
        Seq::empty()
    }) + (if s.name.len() == 0 {
        seq!["Step '"@ + s.id + "' name cannot be empty"@]
    } else {
        Seq::empty()
    }) + (match command_problem(s.command) {
        Some(e) => seq!["Invalid command in step '"@ + s.id + "': "@ + e],
        None => Seq::empty(),
    })
}

/// The errors of the first `n` steps, step by step.
pub open spec fn steps_errors(steps: Seq<ExecutionStepView>, n: int) -> Seq<Seq<char>>
    decreases n,
{
    if n <= 0 {
        Seq::empty()
    } else {
        steps_errors(steps, n - 1) + step_errors(steps, n - 1)
    }
}

/// One error for each of the first `n` dependencies that is no known
/// workflow.
pub open spec fn dependency_errors(deps: Seq<Seq<char>>, known: Set<Seq<char>>, n: int) -> Seq<
    Seq<char>,
>
    decreases n,
{
    if n <= 0 {
        Seq::empty()
    } else {
        dependency_errors(deps, known, n - 1) + (if known.contains(deps[n - 1]) {
            Seq::empty()
        } else {
            seq!["Dependency workflow not found: "@ + deps[n - 1]]
        })
    }
}

/// One warning for each of the first `n` assets that is not among the
/// existing ones.
pub open spec fn asset_warnings(assets: Seq<Seq<char>>, existing: Seq<Seq<char>>, n: int) -> Seq<
    Seq<char>,
>
    decreases n,
{
    if n <= 0 {
        Seq::empty()
    } else {
        asset_warnings(assets, existing, n - 1) + (if existing.contains(assets[n - 1]) {
            Seq::empty()
        } else {
            seq!["Required asset not found: "@ + assets[n - 1]]
        })
    }
}

/// All errors of a workflow, in the order in which they are reported.
/// `known` holds the identifiers of the workflows that were found; `cyclic`
/// says whether a dependency cycle can be reached from the workflow.
pub open spec fn validation_errors(def: WorkflowDefinitionView, known: Set<Seq<char>>, cyclic: bool)
    -> Seq<Seq<char>> {
    (if def.metadata.id.len() == 0 {
        seq!["Workflow ID cannot be empty"@]
    } else {
        Seq::empty()
    }) + (if def.metadata.name.len() == 0 {
        seq!["Workflow name cannot be empty"@]
    } else {
        Seq::empty()
    }) + (if def.steps.len() == 0 {
        seq!["Workflow must have at least one step"@]
    } else {
        Seq::empty()
    }) + steps_errors(def.steps, def.steps.len() as int) + dependency_errors(
        dependency_texts(def),
        known,
        dependency_texts(def).len() as int,
    ) + (if cyclic {
        seq!["Circular dependency detected involving workflow: "@ + def.metadata.id]
    } else {
        Seq::empty()
    })
}

/// All warnings of a workflow. `existing` holds the asset paths that were
/// found on disk.
pub open spec fn validation_warnings(def: WorkflowDefinitionView, existing: Seq<Seq<char>>) -> Seq<
    Seq<char>,
> {
    (if def.metadata.description.len() == 0 {
        seq!["Workflow description is empty"@]
    } else {
        Seq::empty()
    }) + asset_warnings(
        def.metadata.required_assets,
        existing,
        def.metadata.required_assets.len() as int,
    )
}

/// The structural rules that a workflow has to meet before it may run:
/// identifier and name are not empty; there is a step; every step has an
/// identifier and a name and a command of sound shape; no two steps share
/// an identifier; every dependency is a known workflow; and no dependency
/// cycle can be reached from the workflow.
pub open spec fn meets_rules(def: WorkflowDefinitionView, known: Set<Seq<char>>, cyclic: bool)
    -> bool {
    &&& def.metadata.id.len() > 0
    &&& def.metadata.name.len() > 0
    &&& def.steps.len() > 0
    &&& forall|i: int|
        0 <= i < def.steps.len() ==> {
            &&& (#[trigger] def.steps[i]).id.len() > 0
            &&& def.steps[i].name.len() > 0
            &&& command_problem(def.steps[i].command) is None
        }
    &&& forall|i: int, j: int|
        0 <= i < j < def.steps.len() ==> (#[trigger] def.steps[i]).id != (#[trigger] def.steps[j]).id
    &&& forall|i: int|
        0 <= i < dependency_texts(def).len() ==> known.contains(#[trigger] dependency_texts(def)[i])
    &&& !cyclic
}

proof fn lemma_steps_errors_empty(steps: Seq<ExecutionStepView>, n: int)
    requires
        0 <= n <= steps.len(),
    ensures
        steps_errors(steps, n).len() == 0 <==> {
            &&& forall|i: int|
                0 <= i < n ==> {
                    &&& (#[trigger] steps[i]).id.len() > 0
                    &&& steps[i].name.len() > 0
                    &&& command_problem(steps[i].command) is None
                }
            &&& forall|i: int, j: int|
                0 <= i < j < n ==> (#[trigger] steps[i]).id != (#[trigger] steps[j]).id
        },
    decreases n,
{
    if n > 0 {
        lemma_steps_errors_empty(steps, n - 1);
        let last = step_errors(steps, n - 1);
        assert(steps_errors(steps, n).len() == steps_errors(steps, n - 1).len() + last.len());
        if steps_errors(steps, n).len() == 0 {
            assert(last.len() == 0);
            assert(!repeats_earlier(steps, n - 1));
            assert forall|i: int, j: int| 0 <= i < j < n implies (#[trigger] steps[i]).id != (
            #[trigger] steps[j]).id by {
                if j == n - 1 {
                    if steps[i].id == steps[j].id {
                        assert(repeats_earlier(steps, n - 1));
                    }
                }
            }
        }
    }
}

proof fn lemma_dependency_errors_empty(deps: Seq<Seq<char>>, known: Set<Seq<char>>, n: int)
    requires
        0 <= n <= deps.len(),
    ensures
        dependency_errors(deps, known, n).len() == 0 <==> forall|i: int|
            0 <= i < n ==> known.contains(#[trigger] deps[i]),
    decreases n,
{
    if n > 0 {
        lemma_dependency_errors_empty(deps, known, n - 1);
    }
}

/// A workflow has no validation error exactly when it meets the
/// structural rules.
pub proof fn lemma_valid_iff_rules(def: WorkflowDefinitionView, known: Set<Seq<char>>, cyclic: bool)
    ensures
        validation_errors(def, known, cyclic).len() == 0 <==> meets_rules(def, known, cyclic),
{
    lemma_steps_errors_empty(def.steps, def.steps.len() as int);
    lemma_dependency_errors_empty(
        dependency_texts(def),
        known,
        dependency_texts(def).len() as int,
    );
}

/// The map from identifier to definition that loading the definitions in
/// order gives: a later definition replaces an earlier one with the same
/// identifier.
pub open spec fn collected(loaded: Seq<WorkflowDefinition>) -> Map<Seq<char>, WorkflowDefinition>
    decreases loaded.len(),
{
    if loaded.len() == 0 {
        Map::empty()
    } else {
        collected(loaded.drop_last()).insert(loaded.last().metadata.id@, loaded.last())
    }
}

/// Every workflow stands under its own identifier.
pub open spec fn keyed_by_id(defs: Map<Seq<char>, WorkflowDefinition>) -> bool {
    forall|k: Seq<char>| #[trigger] defs.contains_key(k) ==> defs[k].metadata.id@ == k
}

/// What was loaded stands under its own identifier.
pub proof fn lemma_collected_keyed_by_id(loaded: Seq<WorkflowDefinition>)
    ensures
        keyed_by_id(collected(loaded)),
    decreases loaded.len(),
{
    if loaded.len() > 0 {
        lemma_collected_keyed_by_id(loaded.drop_last());
    }
}

/// The graph holds, for each workflow found, what it depends on.
pub open spec fn graph_matches(
    defs: Map<Seq<char>, WorkflowDefinition>,
    g: Map<Seq<char>, Vec<String>>,
) -> bool {
    &&& g.dom() == defs.dom()
    &&& forall|k: Seq<char>| #[trigger]
        defs.contains_key(k) ==> texts(g[k]@) == dependency_texts(defs[k]@)
}

/// `order` lists what can be reached from `start`, each once and `start`
/// last, and each after its dependencies where no cycle is in reach.
pub open spec fn is_dependency_order(
    g: Map<Seq<char>, Vec<String>>,
    start: Seq<char>,
    order: Seq<Seq<char>>,
) -> bool {
    &&& order.no_duplicates()
    &&& order.len() >= 1
    &&& order.last() == start
    &&& forall|x: Seq<char>| order.contains(x) <==> reachable(g, start, x)
    &&& !reaches_cycle(g, start) ==> dependencies_first(g, order)
}

/// Whether a file with this extension holds a workflow.
pub fn is_workflow_extension(extension: &str) -> (b: bool)
    ensures
        b == (extension@ == "yaml"@ || extension@ == "yml"@),
{
    same_text(extension, "yaml") || same_text(extension, "yml")
}

/// Checks the shape of a command.
pub fn validate_command(command: &RapsCommand) -> (r: Result<(), String>)
    ensures
        match command_problem(command@) {
            Some(e) => r is Err && r->Err_0@ == e,
            None => r is Ok,
        },
{
    match command {
        RapsCommand::Bucket { action, params } => {
            if params.bucket_name.is_none() {
                return Err(owned("Bucket command requires bucket_name"));
            }
        },
        RapsCommand::Object { action, params } => {
            if params.bucket_name.as_str().unicode_len() == 0 {
                return Err(owned("Object command requires bucket_name"));
            }
        },
        RapsCommand::Custom { command: program, args } => {
            if program.as_str().unicode_len() == 0 {
                return Err(owned("Custom command cannot be empty"));
            }
        },
        _ => {},
    }
    Ok(())
}

fn id_used_before(steps: &Vec<ExecutionStep>, i: usize) -> (b: bool)
    requires
        i < steps.len(),
    ensures
        b == repeats_earlier(step_views(steps@), i as int),
{
    let mut j: usize = 0;
    while j < i
        invariant
            j <= i < steps.len(),
            forall|k: int| 0 <= k < j ==> step_views(steps@)[k].id != step_views(steps@)[i as int].id,
        decreases i - j,
    {
        if same_text(steps[j].id.as_str(), steps[i].id.as_str()) {
            assert(step_views(steps@)[j as int].id == step_views(steps@)[i as int].id);
            return true;
        }
        j = j + 1;
    }
    false
}

fn check_steps(steps: &Vec<ExecutionStep>, errors: &mut Vec<String>)
    ensures
        texts(final(errors)@) == texts(old(errors)@) + steps_errors(
            step_views(steps@),
            steps@.len() as int,
        ),
{
    let ghost sv = step_views(steps@);
    let mut i: usize = 0;
    assert(texts(errors@) =~= texts(old(errors)@) + steps_errors(sv, 0));
    while i < steps.len()
        invariant
            i <= steps.len(),
            sv == step_views(steps@),
            texts(errors@) == texts(old(errors)@) + steps_errors(sv, i as int),
        decreases steps.len() - i,
    {
        let ghost before = texts(errors@);
        let step = &steps[i];
        assert(sv[i as int] == step@);
        if step.id.as_str().unicode_len() == 0 {
            errors.push(owned("Step ID cannot be empty"));
        } else if id_used_before(steps, i) {
            errors.push(concat2("Duplicate step ID: ", step.id.as_str()));
        }
        if step.name.as_str().unicode_len() == 0 {
            errors.push(concat3("Step '", step.id.as_str(), "' name cannot be empty"));
        }
        match validate_command(&step.command) {
            Err(e) => {
                let mut m = concat3("Invalid command in step '", step.id.as_str(), "': ");
                m.append(e.as_str());
                errors.push(m);
            },
            Ok(_) => {},
        }
        assert(texts(errors@) =~= before + step_errors(sv, i as int));
        i = i + 1;
        assert(texts(errors@) =~= texts(old(errors)@) + steps_errors(sv, i as int));
    }
}

fn check_dependencies(
    deps: &Vec<String>,
    workflows: &TextMap<WorkflowDefinition>,
    errors: &mut Vec<String>,
)
    ensures
        texts(final(errors)@) == texts(old(errors)@) + dependency_errors(
            texts(deps@),
            workflows@.dom(),
            deps@.len() as int,
        ),
{
    let ghost known = workflows@.dom();
    let mut i: usize = 0;
    assert(texts(errors@) =~= texts(old(errors)@) + dependency_errors(texts(deps@), known, 0));
    while i < deps.len()
        invariant
            i <= deps.len(),
            known == workflows@.dom(),
            texts(errors@) == texts(old(errors)@) + dependency_errors(
                texts(deps@),
                known,
                i as int,
            ),
        decreases deps.len() - i,
    {
        assert(texts(deps@)[i as int] == deps@[i as int]@);
        let ghost before = texts(errors@);
        if !workflows.contains_key(deps[i].as_str()) {
            errors.push(concat2("Dependency workflow not found: ", deps[i].as_str()));
            assert(texts(errors@) =~= before + seq![
                "Dependency workflow not found: "@ + deps@[i as int]@,
            ]);
        } else {
            assert(known.contains(deps@[i as int]@));
            assert(texts(errors@) =~= before + Seq::<Seq<char>>::empty());
        }
        i = i + 1;
        assert(texts(errors@) =~= texts(old(errors)@) + dependency_errors(
            texts(deps@),
            known,
            i as int,
        ));
    }
}

fn check_assets(assets: &Vec<AssetPath>, existing: &Vec<AssetPath>, warnings: &mut Vec<String>)
    ensures
        texts(final(warnings)@) == texts(old(warnings)@) + asset_warnings(
            texts(assets@),
            texts(existing@),
            assets@.len() as int,
        ),
{
    let mut i: usize = 0;
    assert(texts(warnings@) =~= texts(old(warnings)@) + asset_warnings(
        texts(assets@),
        texts(existing@),
        0,
    ));
    while i < assets.len()
        invariant
            i <= assets.len(),
            texts(warnings@) == texts(old(warnings)@) + asset_warnings(
                texts(assets@),
                texts(existing@),
                i as int,
            ),
        decreases assets.len() - i,
    {
        assert(texts(assets@)[i as int] == assets@[i as int]@);
        let ghost before = texts(warnings@);
        if !holds_text(existing, assets[i].as_str()) {
            warnings.push(concat2("Required asset not found: ", assets[i].as_str()));
            assert(texts(warnings@) =~= before + seq![
                "Required asset not found: "@ + assets@[i as int]@,
            ]);
        } else {
            assert(texts(warnings@) =~= before + Seq::<Seq<char>>::empty());
        }
        i = i + 1;
        assert(texts(warnings@) =~= texts(old(warnings)@) + asset_warnings(
            texts(assets@),
            texts(existing@),
            i as int,
        ));
    }
}

/// For each workflow, the identifiers it depends on.
fn build_dependency_graph(workflows: &TextMap<WorkflowDefinition>) -> (graph: TextMap<
    Vec<WorkflowId>,
>)
    ensures
        graph_matches(workflows@, graph@),
{
    let mut graph: TextMap<Vec<WorkflowId>> = TextMap::new();
    let n = workflows.len();
    let ghost keys = workflows.key_order();
    let mut i: usize = 0;
    while i < n
        invariant
            i <= n,
            n == keys.len(),
            keys == workflows.key_order(),
            keys.no_duplicates(),
            workflows@.dom() == keys.to_set(),
            forall|k: Seq<char>| graph@.contains_key(k) <==> keys.take(i as int).contains(k),
            forall|j: int|
                0 <= j < i ==> texts(graph@[#[trigger] keys[j]]@) == dependency_texts(
                    workflows@[keys[j]]@,
                ),
        decreases n - i,
    {
        let key = workflows.key_at(i).clone();
        let def = workflows.value_at(i);
        let deps: Vec<WorkflowId> = match &def.dependencies {
            Some(d) => copy_texts(d),
            None => Vec::new(),
        };
        assert(texts(deps@) =~= dependency_texts(def@));
        let ghost before = graph@;
        graph.insert(key, deps);
        proof {
            assert(keys.take(i + 1) =~= keys.take(i as int).push(keys[i as int]));
            assert forall|k: Seq<char>| graph@.contains_key(k) <==> keys.take(i + 1).contains(
                k,
            ) by {
                if keys.take(i as int).contains(k) {
                    let m = keys.take(i as int).index_of(k);
                    assert(keys.take(i as int)[m] == k);
                    assert(keys.take(i + 1)[m] == k);
                }
                if keys.take(i + 1).contains(k) {
                    let m = keys.take(i + 1).index_of(k);
                    assert(keys.take(i + 1)[m] == k);
                    if m < i {
                        assert(keys.take(i as int)[m] == k);
                    }
                }
                if k == keys[i as int] {
                    assert(keys.take(i + 1)[i as int] == k);
                }
            }
            assert forall|j: int| 0 <= j < i + 1 implies texts(graph@[#[trigger] keys[j]]@)
                == dependency_texts(workflows@[keys[j]]@) by {
                if j < i {
                    assert(keys[j] != keys[i as int]);
                }
            }
        }
        i = i + 1;
    }
    proof {
        assert(keys.take(n as int) =~= keys);
        assert(graph@.dom() =~= workflows@.dom());
        assert forall|k: Seq<char>| #[trigger]
            workflows@.contains_key(k) implies texts(graph@[k]@) == dependency_texts(
            workflows@[k]@,
        ) by {
            let j = keys.index_of(k);
            assert(keys[j] == k);
        }
    }
    graph
}

/// The workflows that were found, by identifier, with the graph of their
/// dependencies.
#[derive(Debug)]
pub struct WorkflowDiscovery {
    workflows_dir: String,
    workflows: TextMap<WorkflowDefinition>,
    dependency_graph: TextMap<Vec<WorkflowId>>,
}

impl WorkflowDiscovery {
    #[verifier::type_invariant]
    spec fn well_formed(self) -> bool {
        &&& graph_matches(self.workflows@, self.dependency_graph@)
        &&& keyed_by_id(self.workflows@)
    }

    /// The workflows by identifier.
    pub closed spec fn definitions(&self) -> Map<Seq<char>, WorkflowDefinition> {
        self.workflows@
    }

    /// The workflows in the order in which their identifiers were first
    /// loaded.
    pub closed spec fn definition_order(&self) -> Seq<WorkflowDefinition> {
        self.workflows.value_order()
    }

    /// The dependency graph.
    pub closed spec fn graph(&self) -> Map<Seq<char>, Vec<String>> {
        self.dependency_graph@
    }

    /// The directory that the workflows are read from.
    pub closed spec fn directory(&self) -> Seq<char> {
        self.workflows_dir@
    }

    /// An empty set of workflows for the directory given.
    pub fn new(workflows_dir: String) -> (d: Self)
        ensures
            d.definitions() == Map::<Seq<char>, WorkflowDefinition>::empty(),
            d.directory() == workflows_dir@,
            graph_matches(d.definitions(), d.graph()),
    {
        let workflows: TextMap<WorkflowDefinition> = TextMap::new();
        let dependency_graph: TextMap<Vec<WorkflowId>> = TextMap::new();
        assert(dependency_graph@.dom() =~= workflows@.dom());
        WorkflowDiscovery { workflows_dir, workflows, dependency_graph }
    }

    /// The directory that the workflows are read from.
    pub fn workflows_dir(&self) -> (dir: &String)
        ensures
            dir@ == self.directory(),
    {
        &self.workflows_dir
    }

    /// Replaces the set by the definitions that were loaded, in their
    /// order, and builds the dependency graph anew. The metadata of each
    /// loaded definition is handed back in the same order.
    pub fn discover_workflows(&mut self, loaded: Vec<WorkflowDefinition>) -> (found: Vec<
        WorkflowMetadata,
    >)
        ensures
            final(self).definitions() == collected(loaded@),
            final(self).directory() == old(self).directory(),
            graph_matches(final(self).definitions(), final(self).graph()),
            metadata_views(found@) == loaded@.map_values(|d: WorkflowDefinition| d.metadata@),
    {
        let mut workflows: TextMap<WorkflowDefinition> = TextMap::new();
        let mut found: Vec<WorkflowMetadata> = Vec::new();
        let ghost all = loaded@;
        proof {
            assert(all.take(0) =~= Seq::<WorkflowDefinition>::empty());
            assert(metadata_views(found@) =~= all.take(0).map_values(
                |d: WorkflowDefinition| d.metadata@,
            ));
        }
        for def in it: loaded
            invariant
                it.seq() == all,
                workflows@ == collected(all.take(it.index())),
                metadata_views(found@) == all.take(it.index()).map_values(
                    |d: WorkflowDefinition| d.metadata@,
                ),
        {
            let ghost prior = metadata_views(found@);
            let metadata = def.metadata.clone();
            let id = def.metadata.id.clone();
            found.push(metadata);
            workflows.insert(id, def);
            proof {
                let next = all.take(it.index() + 1);
                assert(next.drop_last() =~= all.take(it.index()));
                assert(next.last() == def);
                assert(metadata_views(found@) =~= prior.push(metadata@));
                assert(metadata_views(found@) =~= next.map_values(
                    |d: WorkflowDefinition| d.metadata@,
                ));
            }
        }
        assert(all.take(all.len() as int) =~= all);
        proof {
            lemma_collected_keyed_by_id(all);
        }
        let dependency_graph = build_dependency_graph(&workflows);
        let workflows_dir = self.workflows_dir.clone();
        *self = WorkflowDiscovery { workflows_dir, workflows, dependency_graph };
        found
    }

    /// Loads the definitions anew: the same as `discover_workflows`.
    pub fn refresh(&mut self, loaded: Vec<WorkflowDefinition>) -> (found: Vec<WorkflowMetadata>)
        ensures
            final(self).definitions() == collected(loaded@),
            final(self).directory() == old(self).directory(),
            graph_matches(final(self).definitions(), final(self).graph()),
            metadata_views(found@) == loaded@.map_values(|d: WorkflowDefinition| d.metadata@),
    {
        self.discover_workflows(loaded)
    }

    /// All workflows found, by identifier.
    pub fn get_workflows(&self) -> (all: &TextMap<WorkflowDefinition>)
        ensures
            all@ == self.definitions(),
            all.value_order() == self.definition_order(),
            graph_matches(self.definitions(), self.graph()),
    {
        proof {
            use_type_invariant(self);
        }
        &self.workflows
    }

    /// The dependency graph: for each workflow, what it depends on.
    pub fn dependency_graph(&self) -> (g: &TextMap<Vec<WorkflowId>>)
        ensures
            g@ == self.graph(),
            graph_matches(self.definitions(), self.graph()),
    {
        proof {
            use_type_invariant(self);
        }
        &self.dependency_graph
    }

    /// The workflow with the identifier given, if it was found.
    pub fn get_workflow(&self, workflow_id: &WorkflowId) -> (r: Option<&WorkflowDefinition>)
        ensures
            match r {
                Some(def) => self.definitions().contains_key(workflow_id@) && *def
                    == self.definitions()[workflow_id@] && def.metadata.id@ == workflow_id@,
                None => !self.definitions().contains_key(workflow_id@),
            },
    {
        proof {
            use_type_invariant(self);
        }
        self.workflows.get(workflow_id.as_str())
    }

    /// The workflows of a category, in the order in which they were first
    /// loaded.
    pub fn get_workflows_by_category(&self, category: &WorkflowCategory) -> (r: Vec<
        &WorkflowDefinition,
    >)
        ensures
            r@.map_values(|d: &WorkflowDefinition| *d) == self.definition_order().filter(
                |d: WorkflowDefinition| d.metadata.category == *category,
            ),
    {
        let all = self.get_workflows();
        let n = all.len();
        let ghost values = all.value_order();
        let ghost wanted = |d: WorkflowDefinition| d.metadata.category == *category;
        let mut r: Vec<&WorkflowDefinition> = Vec::new();
        let mut i: usize = 0;
        assert(r@.map_values(|d: &WorkflowDefinition| *d) =~= values.take(0).filter(wanted));
        while i < n
            invariant
                i <= n,
                n == values.len(),
                values == all.value_order(),
                n == all.key_order().len(),
                wanted == |d: WorkflowDefinition| d.metadata.category == *category,
                r@.map_values(|d: &WorkflowDefinition| *d) == values.take(i as int).filter(wanted),
            decreases n - i,
        {
            let def = all.value_at(i);
            let ghost prior = r@.map_values(|d: &WorkflowDefinition| *d);
            proof {
                assert(values.take(i + 1) =~= values.take(i as int).push(*def));
                values.take(i as int).lemma_filter_push(*def, wanted);
            }
            if def.metadata.category == *category {
                r.push(def);
                assert(r@.map_values(|d: &WorkflowDefinition| *d) =~= prior.push(*def));
            }
            i = i + 1;
        }
        assert(values.take(n as int) =~= values);
        r
    }

    /// Whether a dependency cycle can be reached from the workflow.
    pub fn has_circular_dependency(&self, workflow_id: &WorkflowId) -> (cyclic: bool)
        ensures
            cyclic == reaches_cycle(self.graph(), workflow_id@),
    {
        has_cycle(&self.dependency_graph, workflow_id)
    }

    /// Validates the workflow with the identifier given. `existing_assets`
    /// names the asset paths that are present on disk. The result is valid
    /// exactly when there is no error; the warnings come as one text,
    /// joined by `"; "`.
    pub fn validate_workflow(&self, workflow_id: &WorkflowId, existing_assets: &Vec<AssetPath>) -> (r:
        Result<ValidationResult, DiscoveryError>)
        ensures
            !self.definitions().contains_key(workflow_id@) ==> r == Err::<
                ValidationResult,
                DiscoveryError,
            >(DiscoveryError::WorkflowNotFound(*workflow_id)),
            self.definitions().contains_key(workflow_id@) ==> r is Ok && ({
                let def = self.definitions()[workflow_id@]@;
                let known = self.definitions().dom();
                let cyclic = reaches_cycle(self.graph(), workflow_id@);
                &&& texts(r->Ok_0.errors@) == validation_errors(def, known, cyclic)
                &&& r->Ok_0.is_valid == meets_rules(def, known, cyclic)
                &&& texts(r->Ok_0.warnings@) == seq![
                    joined(validation_warnings(def, texts(existing_assets@)), "; "@),
                ]
            }),
    {
        let workflow = match self.workflows.get(workflow_id.as_str()) {
            Some(w) => w,
            None => {
                return Err(DiscoveryError::WorkflowNotFound(workflow_id.clone()));
            },
        };
        let ghost def = workflow@;
        let ghost known = self.workflows@.dom();
        let mut errors: Vec<String> = Vec::new();
        let mut warnings: Vec<String> = Vec::new();
        let ghost none = Seq::<Seq<char>>::empty();
        assert(texts(errors@) =~= none);
        assert(texts(warnings@) =~= none);
        if workflow.metadata.id.as_str().unicode_len() == 0 {
            errors.push(owned("Workflow ID cannot be empty"));
        }
        let ghost e1 = texts(errors@);
        assert(e1 =~= if def.metadata.id.len() == 0 {
            seq!["Workflow ID cannot be empty"@]
        } else {
            none
        });
        if workflow.metadata.name.as_str().unicode_len() == 0 {
            errors.push(owned("Workflow name cannot be empty"));
        }
        let ghost e2 = texts(errors@);
        assert(e2 =~= e1 + (if def.metadata.name.len() == 0 {
            seq!["Workflow name cannot be empty"@]
        } else {
            none
        }));
        if workflow.metadata.description.as_str().unicode_len() == 0 {
            warnings.push(owned("Workflow description is empty"));
        }
        let ghost w1 = texts(warnings@);
        assert(w1 =~= if def.metadata.description.len() == 0 {
            seq!["Workflow description is empty"@]
        } else {
            none
        });
        if workflow.steps.len() == 0 {
            errors.push(owned("Workflow must have at least one step"));
        }
        let ghost e3 = texts(errors@);
        assert(e3 =~= e2 + (if def.steps.len() == 0 {
            seq!["Workflow must have at least one step"@]
        } else {
            none
        }));
        check_steps(&workflow.steps, &mut errors);
        let ghost e4 = texts(errors@);
        check_assets(&workflow.metadata.required_assets, existing_assets, &mut warnings);
        match &workflow.dependencies {
            Some(deps) => {
                check_dependencies(deps, &self.workflows, &mut errors);
            },
            None => {
                assert(dependency_errors(dependency_texts(def), known, 0) =~= none);
                assert(texts(errors@) =~= e4 + none);
            },
        }
        let ghost e5 = texts(errors@);
        assert(e5 == e4 + dependency_errors(
            dependency_texts(def),
            known,
            dependency_texts(def).len() as int,
        ));
        let cyclic = has_cycle(&self.dependency_graph, workflow_id);
        if cyclic {
            errors.push(
                concat2(
                    "Circular dependency detected involving workflow: ",
                    workflow.metadata.id.as_str(),
                ),
            );
        }
        proof {
            assert(texts(errors@) =~= e5 + (if cyclic {
                seq!["Circular dependency detected involving workflow: "@ + def.metadata.id]
            } else {
                none
            }));
            assert(texts(errors@) =~= validation_errors(def, known, cyclic));
            assert(texts(warnings@) =~= validation_warnings(def, texts(existing_assets@)));
            lemma_valid_iff_rules(def, known, cyclic);
        }
        let summary = join(&warnings, "; ");
        let result = if errors.len() == 0 {
            ValidationResult::success()
        } else {
            ValidationResult::with_errors(errors)
        };
        let result = result.with_warning(summary);
        assert(texts(result.warnings@) =~= seq![summary@]);
        Ok(result)
    }

    /// The workflows that have to run for the workflow given, in the order
    /// in which they run: every dependency, direct or not, then the
    /// workflow itself.
    pub fn get_workflow_dependencies(&self, workflow_id: &WorkflowId) -> (r: Result<
        Vec<WorkflowId>,
        DiscoveryError,
    >)
        ensures
            r is Ok,
            is_dependency_order(self.graph(), workflow_id@, texts(r->Ok_0@)),
    {
        Ok(dependency_order(&self.dependency_graph, workflow_id))
    }
}

/// Where every workflow that was found validates without error, no
/// dependency cycle can be reached from any of them, and in the order
/// computed for any workflow each entry stands after all that it depends on.
pub proof fn lemma_valid_workflows_order_dependencies(
    defs: Map<Seq<char>, WorkflowDefinition>,
    g: Map<Seq<char>, Vec<String>>,
    start: Seq<char>,
    order: Seq<Seq<char>>,
)
    requires
        graph_matches(defs, g),
        forall|k: Seq<char>| #[trigger]
            defs.contains_key(k) ==> validation_errors(
                defs[k]@,
                defs.dom(),
                reaches_cycle(g, k),
            ).len() == 0,
        defs.contains_key(start),
        is_dependency_order(g, start, order),
    ensures
        acyclic(g),
        dependencies_first(g, order),
        forall|j: int, d: Seq<char>|
            0 <= j < order.len() && deps_of(g, order[j]).contains(d) ==> defs.contains_key(d),
{
    assert forall|a: Seq<char>| g.contains_key(a) implies !reaches_cycle(g, a) by {
        assert(defs.contains_key(a));
        lemma_valid_iff_rules(defs[a]@, defs.dom(), reaches_cycle(g, a));
    }
    assert forall|j: int, d: Seq<char>|
        0 <= j < order.len() && deps_of(g, order[j]).contains(d) implies defs.contains_key(d) by {
        let a = order[j];
        if g.contains_key(a) {
            assert(defs.contains_key(a));
            lemma_valid_iff_rules(defs[a]@, defs.dom(), reaches_cycle(g, a));
            let i = deps_of(g, a).index_of(d);
            assert(dependency_texts(defs[a]@)[i] == d);
        }
    }
}

} // verus!
