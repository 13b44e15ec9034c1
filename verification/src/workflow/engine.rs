//! The workflows that were found together with the runs of them.

use vstd::prelude::*;
use crate::text::{texts, concat2, joined};
use crate::text_map::TextMap;
use crate::workflow::discovery::{WorkflowDefinition, WorkflowDiscovery, collected, metadata_views};
use crate::workflow::executor::{WorkflowExecutor, ExecutionError, ExecutionUpdate, EventKind,
    ExecutionState, run_started};
use crate::workflow::types::{WorkflowId, WorkflowMetadata, ExecutionOptions, ExecutionHandle,
    Timestamp};

verus! {

/// Finds workflows and runs them.
#[derive(Debug)]
pub struct WorkflowEngine {
    discovery: WorkflowDiscovery,
    executor: WorkflowExecutor,
}

impl WorkflowEngine {
    /// The workflows by identifier.
    pub closed spec fn definitions(&self) -> Map<Seq<char>, WorkflowDefinition> {
        self.discovery.definitions()
    }

    /// The runs that the engine holds.
    pub closed spec fn runs(&self) -> Seq<ExecutionState> {
        self.executor.runs()
    }

    /// An engine for the directory given, without workflows and without
    /// runs.
    pub fn new(workflows_dir: String) -> (e: Self)
        ensures
            e.definitions() == Map::<Seq<char>, WorkflowDefinition>::empty(),
            e.runs().len() == 0,
    {
        WorkflowEngine {
            discovery: WorkflowDiscovery::new(workflows_dir),
            executor: WorkflowExecutor::new(),
        }
    }

    /// All workflows found, by identifier.
    pub fn get_workflows(&self) -> (all: &TextMap<WorkflowDefinition>)
        ensures
            all@ == self.definitions(),
    {
        self.discovery.get_workflows()
    }

    /// The workflow with the identifier given, if it was found.
    pub fn get_workflow(&self, id: &WorkflowId) -> (r: Option<&WorkflowDefinition>)
        ensures
            match r {
                Some(def) => self.definitions().contains_key(id@) && *def == self.definitions()[id@],
                None => !self.definitions().contains_key(id@),
            },
    {
        self.discovery.get_workflow(id)
    }

    /// Takes in the definitions that were loaded from the directory and
    /// hands their metadata back. The runs stay as they are.
    pub fn refresh(&mut self, loaded: Vec<WorkflowDefinition>) -> (found: Vec<WorkflowMetadata>)
        ensures
            final(self).definitions() == collected(loaded@),
            final(self).runs() == old(self).runs(),
            metadata_views(found@) == loaded@.map_values(|d: WorkflowDefinition| d.metadata@),
    {
        self.discovery.refresh(loaded)
    }

    /// Starts a run of the workflow with the identifier given, and keeps
    /// it among the runs. It fails where there is no such workflow or where
    /// a prerequisite is missing.
    pub fn execute(
        &mut self,
        workflow_id: &WorkflowId,
        options: ExecutionOptions,
        prerequisite_errors: &Vec<String>,
        temp_dir: String,
    ) -> (r: Result<(ExecutionHandle, ExecutionUpdate), ExecutionError>)
        ensures
            final(self).definitions() == old(self).definitions(),
            r is Ok <==> old(self).definitions().contains_key(workflow_id@)
                && prerequisite_errors@.len() == 0,
            !old(self).definitions().contains_key(workflow_id@) ==> r->Err_0.message@
                == "Workflow not found: "@ + workflow_id@ && final(self).runs() == old(self).runs(),
            old(self).definitions().contains_key(workflow_id@) && prerequisite_errors@.len() > 0
                ==> r->Err_0.message@ == "Prerequisite validation failed:\n"@ + joined(
                texts(prerequisite_errors@),
                "\n"@,
            ) && final(self).runs() == old(self).runs(),
            r is Ok ==> r->Ok_0.0.workflow_id@ == workflow_id@ && r->Ok_0.1.kind()
                == EventKind::Started && r->Ok_0.1.run() == r->Ok_0.0,
    {
        let workflow = match self.discovery.get_workflow(workflow_id) {
            Some(w) => w.clone(),
            None => {
                return Err(
                    ExecutionError::new(concat2("Workflow not found: ", workflow_id.as_str())),
                );
            },
        };
        self.executor.execute_workflow(workflow, options, prerequisite_errors, temp_dir)
    }

    /// The runs of the engine.
    pub fn executor(&self) -> (e: &WorkflowExecutor)
        ensures
            e.runs() == self.runs(),
    {
        &self.executor
    }
}

} // verus!
