//! The workflows of the demonstrations, as the user browses them.

use vstd::prelude::*;
use crate::text::owned;
use crate::text_map::TextMap;
use crate::workflow::discovery::{WorkflowDefinition, WorkflowDiscovery, collected, metadata_views};
use crate::workflow::types::{WorkflowId, WorkflowMetadata};

verus! {

/// The workflows that were found, with their metadata in the order in
/// which they were loaded.
#[derive(Debug)]
pub struct DemoManager {
    workflows_dir: String,
    discovery: Option<WorkflowDiscovery>,
    workflow_metadata: Vec<WorkflowMetadata>,
}

/// The metadata among the first `n` entries, by the display name of the
/// category and in their order.
pub open spec fn grouped(metadata: Seq<WorkflowMetadata>, n: int) -> Map<Seq<char>, Seq<
    WorkflowMetadata,
>>
    decreases n,
{
    if n <= 0 {
        Map::empty()
    } else {
        let earlier = grouped(metadata, n - 1);
        let label = metadata[n - 1].category.label();
        earlier.insert(
            label,
            (if earlier.contains_key(label) {
                earlier[label]
            } else {
                Seq::empty()
            }).push(metadata[n - 1]),
        )
    }
}

/// The metadata that a list refers to.
pub open spec fn referred(v: Seq<&WorkflowMetadata>) -> Seq<WorkflowMetadata> {
    v.map_values(|m: &WorkflowMetadata| *m)
}

/// The metadata that the lists of a map refer to, list by list.
pub open spec fn group_views(groups: Map<Seq<char>, Vec<&WorkflowMetadata>>) -> Map<
    Seq<char>,
    Seq<WorkflowMetadata>,
> {
    groups.map_values(|v: Vec<&WorkflowMetadata>| referred(v@))
}

proof fn lemma_group_views_insert(
    groups: Map<Seq<char>, Vec<&WorkflowMetadata>>,
    label: Seq<char>,
    members: Vec<&WorkflowMetadata>,
)
    ensures
        group_views(groups.insert(label, members)) == group_views(groups).insert(
            label,
            referred(members@),
        ),
        group_views(groups).contains_key(label) == groups.contains_key(label),
        groups.contains_key(label) ==> group_views(groups)[label] == referred(groups[label]@),
        group_views(Map::<Seq<char>, Vec<&WorkflowMetadata>>::empty()) == Map::<
            Seq<char>,
            Seq<WorkflowMetadata>,
        >::empty(),
{
    assert(group_views(groups.insert(label, members)) =~= group_views(groups).insert(
        label,
        referred(members@),
    ));
    assert(group_views(Map::<Seq<char>, Vec<&WorkflowMetadata>>::empty()) =~= Map::<
        Seq<char>,
        Seq<WorkflowMetadata>,
    >::empty());
}

impl DemoManager {
    /// The directory of the workflows.
    pub closed spec fn directory(&self) -> Seq<char> {
        self.workflows_dir@
    }

    /// The metadata of the workflows that were loaded, in their order.
    pub closed spec fn metadata(&self) -> Seq<WorkflowMetadata> {
        self.workflow_metadata@
    }

    /// The workflows by identifier; none before the manager was
    /// initialised.
    pub closed spec fn definitions(&self) -> Map<Seq<char>, WorkflowDefinition> {
        match self.discovery {
            Some(d) => d.definitions(),
            None => Map::empty(),
        }
    }

    /// A manager for the directory `./workflows`, not yet initialised.
    pub fn new() -> (m: Self)
        ensures
            m.directory() == "./workflows"@,
            m.metadata().len() == 0,
            m.definitions() == Map::<Seq<char>, WorkflowDefinition>::empty(),
    {
        DemoManager {
            workflows_dir: owned("./workflows"),
            discovery: None,
            workflow_metadata: Vec::new(),
        }
    }

    /// A manager for the directory given, not yet initialised.
    pub fn with_workflows_dir(path: String) -> (m: Self)
        ensures
            m.directory() == path@,
            m.metadata().len() == 0,
            m.definitions() == Map::<Seq<char>, WorkflowDefinition>::empty(),
    {
        DemoManager { workflows_dir: path, discovery: None, workflow_metadata: Vec::new() }
    }

    /// The directory of the workflows.
    pub fn workflows_dir(&self) -> (dir: &String)
        ensures
            dir@ == self.directory(),
    {
        &self.workflows_dir
    }

    /// Takes in the definitions that were loaded from the directory.
    pub fn initialize(&mut self, loaded: Vec<WorkflowDefinition>)
        ensures
            final(self).directory() == old(self).directory(),
            final(self).definitions() == collected(loaded@),
            metadata_views(final(self).metadata()) == loaded@.map_values(
                |d: WorkflowDefinition| d.metadata@,
            ),
    {
        let mut discovery = WorkflowDiscovery::new(self.workflows_dir.clone());
        let found = discovery.discover_workflows(loaded);
        self.workflow_metadata = found;
        self.discovery = Some(discovery);
    }

    /// The metadata of the workflows that were loaded.
    pub fn get_workflows(&self) -> (all: &Vec<WorkflowMetadata>)
        ensures
            all@ == self.metadata(),
    {
        &self.workflow_metadata
    }

    /// The workflow with the identifier given, if it was found.
    pub fn get_workflow(&self, id: &WorkflowId) -> (r: Option<&WorkflowDefinition>)
        ensures
            match r {
                Some(def) => self.definitions().contains_key(id@) && *def == self.definitions()[id@],
                None => !self.definitions().contains_key(id@),
            },
    {
        match &self.discovery {
            Some(d) => d.get_workflow(id),
            None => None,
        }
    }

    /// Takes in the definitions anew and hands their metadata back.
    pub fn refresh(&mut self, loaded: Vec<WorkflowDefinition>) -> (found: Vec<WorkflowMetadata>)
        ensures
            final(self).directory() == old(self).directory(),
            final(self).definitions() == collected(loaded@),
            metadata_views(final(self).metadata()) == loaded@.map_values(
                |d: WorkflowDefinition| d.metadata@,
            ),
            metadata_views(found@) == metadata_views(final(self).metadata()),
    {
        self.initialize(loaded);
        let mut found: Vec<WorkflowMetadata> = Vec::new();
        let mut i: usize = 0;
        while i < self.workflow_metadata.len()
            invariant
                i <= self.workflow_metadata@.len(),
                found@.len() == i,
                forall|k: int| 0 <= k < i ==> (#[trigger] found@[k])@ == self.workflow_metadata@[k]@,
            decreases self.workflow_metadata@.len() - i,
        {
            found.push(self.workflow_metadata[i].clone());
            i = i + 1;
        }
        assert(metadata_views(found@) =~= metadata_views(self.workflow_metadata@));
        found
    }

    /// The metadata by the display name of the category.
    pub fn get_workflows_by_category(&self) -> (groups: TextMap<Vec<&WorkflowMetadata>>)
        ensures
            group_views(groups@) == grouped(self.metadata(), self.metadata().len() as int),
    {
        let mut groups: TextMap<Vec<&WorkflowMetadata>> = TextMap::new();
        let mut i: usize = 0;
        assert(group_views(groups@) =~= grouped(self.workflow_metadata@, 0));
        while i < self.workflow_metadata.len()
            invariant
                i <= self.workflow_metadata@.len(),
                group_views(groups@) == grouped(self.workflow_metadata@, i as int),
            decreases self.workflow_metadata@.len() - i,
        {
            let m = &self.workflow_metadata[i];
            let label = m.category.to_string();
            let ghost before = groups@;
            let mut members: Vec<&WorkflowMetadata> = match groups.get(label.as_str()) {
                Some(present) => {
                    let mut copy: Vec<&WorkflowMetadata> = Vec::new();
                    let mut k: usize = 0;
                    while k < present.len()
                        invariant
                            k <= present@.len(),
                            copy@ == present@.take(k as int),
                        decreases present@.len() - k,
                    {
                        copy.push(present[k]);
                        k = k + 1;
                        assert(copy@ =~= present@.take(k as int));
                    }
                    assert(present@.take(present@.len() as int) =~= present@);
                    copy
                },
                None => Vec::new(),
            };
            let ghost prior = referred(members@);
            members.push(m);
            assert(referred(members@) =~= prior.push(*m));
            proof {
                lemma_group_views_insert(before, label@, members);
                if !before.contains_key(label@) {
                    assert(prior =~= Seq::<WorkflowMetadata>::empty());
                }
            }
            groups.insert(label, members);
            i = i + 1;
        }
        groups
    }
}

impl Default for DemoManager {
    fn default() -> (m: Self)
        ensures
            m.directory() == "./workflows"@,
    {
        Self::new()
    }
}

} // verus!
