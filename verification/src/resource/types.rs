//! The resources that a run leaves behind in the cloud: what they are,
//! what they cost, how they are named and when they are removed.

use vstd::prelude::*;
use std::collections::HashMap;
use crate::text::{texts, owned, contains, is_substring, signed_decimal, signed_decimal_string,
    lemma_substring_in_concat, copy_texts};
use crate::text_map::TextMap;
use crate::system::{fresh_id, now};
use crate::workflow::types::{RapsCommand, RapsCommandView, WorkflowId, Timestamp, Seconds, MicroUsd,
    command_views, copy_commands};

verus! {

/// Identifier of a tracked resource: the 128 bits of a UUID.
pub type ResourceId = u128;

/// A resource by kind, with what is proper to the kind.
#[derive(Debug, PartialEq, Eq)]
pub enum ResourceType {
    Bucket { region: String, retention_policy: String },
    Object { bucket_name: String, size_bytes: u64 },
    Translation { source_urn: String, formats: Vec<String> },
    DesignAutomationWorkItem { activity_id: String },
    Photoscene { scene_type: String },
    Webhook { event_type: String, callback_url: String },
    Folder { project_id: String, parent_folder_id: String },
    Item { project_id: String, folder_id: String },
}

pub enum ResourceTypeView {
    Bucket { region: Seq<char>, retention_policy: Seq<char> },
    Object { bucket_name: Seq<char>, size_bytes: u64 },
    Translation { source_urn: Seq<char>, formats: Seq<Seq<char>> },
    DesignAutomationWorkItem { activity_id: Seq<char> },
    Photoscene { scene_type: Seq<char> },
    Webhook { event_type: Seq<char>, callback_url: Seq<char> },
    Folder { project_id: Seq<char>, parent_folder_id: Seq<char> },
    Item { project_id: Seq<char>, folder_id: Seq<char> },
}

impl View for ResourceType {
    type V = ResourceTypeView;

    open spec fn view(&self) -> ResourceTypeView {
        match *self {
            ResourceType::Bucket { region, retention_policy } => ResourceTypeView::Bucket {
                region: region@,
                retention_policy: retention_policy@,
            },
            ResourceType::Object { bucket_name, size_bytes } => ResourceTypeView::Object {
                bucket_name: bucket_name@,
                size_bytes,
            },
            ResourceType::Translation { source_urn, formats } => ResourceTypeView::Translation {
                source_urn: source_urn@,
                formats: texts(formats@),
            },
            ResourceType::DesignAutomationWorkItem {
                activity_id,
            } => ResourceTypeView::DesignAutomationWorkItem { activity_id: activity_id@ },
            ResourceType::Photoscene { scene_type } => ResourceTypeView::Photoscene {
                scene_type: scene_type@,
            },
            ResourceType::Webhook { event_type, callback_url } => ResourceTypeView::Webhook {
                event_type: event_type@,
                callback_url: callback_url@,
            },
            ResourceType::Folder { project_id, parent_folder_id } => ResourceTypeView::Folder {
                project_id: project_id@,
                parent_folder_id: parent_folder_id@,
            },
            ResourceType::Item { project_id, folder_id } => ResourceTypeView::Item {
                project_id: project_id@,
                folder_id: folder_id@,
            },
        }
    }
}

impl Clone for ResourceType {
    fn clone(&self) -> (r: Self)
        ensures
            r@ == self@,
    {
        match self {
            ResourceType::Bucket { region, retention_policy } => ResourceType::Bucket {
                region: region.clone(),
                retention_policy: retention_policy.clone(),
            },
            ResourceType::Object { bucket_name, size_bytes } => ResourceType::Object {
                bucket_name: bucket_name.clone(),
                size_bytes: *size_bytes,
            },
            ResourceType::Translation { source_urn, formats } => ResourceType::Translation {
                source_urn: source_urn.clone(),
                formats: copy_texts(formats),
            },
            ResourceType::DesignAutomationWorkItem {
                activity_id,
            } => ResourceType::DesignAutomationWorkItem { activity_id: activity_id.clone() },
            ResourceType::Photoscene { scene_type } => ResourceType::Photoscene {
                scene_type: scene_type.clone(),
            },
            ResourceType::Webhook { event_type, callback_url } => ResourceType::Webhook {
                event_type: event_type.clone(),
                callback_url: callback_url.clone(),
            },
            ResourceType::Folder { project_id, parent_folder_id } => ResourceType::Folder {
                project_id: project_id.clone(),
                parent_folder_id: parent_folder_id.clone(),
            },
            ResourceType::Item { project_id, folder_id } => ResourceType::Item {
                project_id: project_id.clone(),
                folder_id: folder_id.clone(),
            },
        }
    }
}

/// The name of a kind of resource: the key of its cleanup policy.
pub open spec fn kind_name(t: ResourceTypeView) -> Seq<char> {
    match t {
        ResourceTypeView::Bucket { .. } => "Bucket"@,
        ResourceTypeView::Object { .. } => "Object"@,
        ResourceTypeView::Translation { .. } => "Translation"@,
        ResourceTypeView::DesignAutomationWorkItem { .. } => "DesignAutomationWorkItem"@,
        ResourceTypeView::Photoscene { .. } => "Photoscene"@,
        ResourceTypeView::Webhook { .. } => "Webhook"@,
        ResourceTypeView::Folder { .. } => "Folder"@,
        ResourceTypeView::Item { .. } => "Item"@,
    }
}

/// The name of a kind of resource in a breakdown of costs.
pub open spec fn cost_label(t: ResourceTypeView) -> Seq<char> {
    match t {
        ResourceTypeView::Bucket { .. } => "Bucket"@,
        ResourceTypeView::Object { .. } => "Object"@,
        ResourceTypeView::Translation { .. } => "Translation"@,
        ResourceTypeView::DesignAutomationWorkItem { .. } => "Design Automation"@,
        ResourceTypeView::Photoscene { .. } => "Photoscene"@,
        ResourceTypeView::Webhook { .. } => "Webhook"@,
        ResourceTypeView::Folder { .. } => "Folder"@,
        ResourceTypeView::Item { .. } => "Item"@,
    }
}

/// The largest amount that can be written down.
pub open spec fn max_amount() -> int {
    u64::MAX as int
}

/// An amount, cut off at the largest that can be written down.
pub open spec fn capped(amount: int) -> int {
    if amount > max_amount() {
        max_amount()
    } else {
        amount
    }
}

/// The estimated cost of a resource per month, in millionths of a dollar:
/// a cent for a bucket; 2.3 cents for each GiB of an object, rounded down;
/// half a dollar for each format of a translation; ten cents for a work
/// item; a dollar for a photoscene; nothing for webhooks, folders and
/// items.
pub open spec fn monthly_cost(t: ResourceTypeView) -> int {
    match t {
        ResourceTypeView::Bucket { .. } => 10_000,
        ResourceTypeView::Object { bucket_name, size_bytes } => (size_bytes as int) * 23_000
            / 1_073_741_824,
        ResourceTypeView::Translation { source_urn, formats } => capped((formats.len() * 500_000) as int),
        ResourceTypeView::DesignAutomationWorkItem { .. } => 100_000,
        ResourceTypeView::Photoscene { .. } => 1_000_000,
        ResourceTypeView::Webhook { .. } => 0,
        ResourceTypeView::Folder { .. } => 0,
        ResourceTypeView::Item { .. } => 0,
    }
}

/// The sum of two amounts, cut off at the largest that can be written
/// down.
pub fn add_amounts(a: MicroUsd, b: MicroUsd) -> (r: MicroUsd)
    ensures
        r == capped(a + b),
{
    if a > u64::MAX - b {
        u64::MAX
    } else {
        a + b
    }
}

impl ResourceType {
    /// The name of the kind: the key of its cleanup policy.
    pub fn policy_key(&self) -> (s: &'static str)
        ensures
            s@ == kind_name(self@),
    {
        match self {
            ResourceType::Bucket { .. } => "Bucket",
            ResourceType::Object { .. } => "Object",
            ResourceType::Translation { .. } => "Translation",
            ResourceType::DesignAutomationWorkItem { .. } => "DesignAutomationWorkItem",
            ResourceType::Photoscene { .. } => "Photoscene",
            ResourceType::Webhook { .. } => "Webhook",
            ResourceType::Folder { .. } => "Folder",
            ResourceType::Item { .. } => "Item",
        }
    }

    /// The name of the kind in a breakdown of costs.
    pub fn cost_key(&self) -> (s: &'static str)
        ensures
            s@ == cost_label(self@),
    {
        match self {
            ResourceType::Bucket { .. } => "Bucket",
            ResourceType::Object { .. } => "Object",
            ResourceType::Translation { .. } => "Translation",
            ResourceType::DesignAutomationWorkItem { .. } => "Design Automation",
            ResourceType::Photoscene { .. } => "Photoscene",
            ResourceType::Webhook { .. } => "Webhook",
            ResourceType::Folder { .. } => "Folder",
            ResourceType::Item { .. } => "Item",
        }
    }

    /// The estimated cost per month of a resource of this kind.
    pub fn estimated_monthly_cost(&self) -> (cost: MicroUsd)
        ensures
            cost == monthly_cost(self@),
    {
        match self {
            ResourceType::Bucket { .. } => 10_000,
            ResourceType::Object { bucket_name, size_bytes } => {
                let scaled: u128 = (*size_bytes as u128) * 23_000;
                let cost: u128 = scaled / 1_073_741_824;
                assert(cost <= u64::MAX) by (nonlinear_arith)
                    requires
                        cost == scaled as int / 1_073_741_824,
                        0 <= scaled <= u64::MAX * 23_000,
                ;
                cost as u64
            },
            ResourceType::Translation { source_urn, formats } => {
                assert(texts(formats@).len() == formats@.len());
                let cost: u128 = (formats.len() as u128) * 500_000;
                if cost > u64::MAX as u128 {
                    u64::MAX
                } else {
                    cost as u64
                }
            },
            ResourceType::DesignAutomationWorkItem { .. } => 100_000,
            ResourceType::Photoscene { .. } => 1_000_000,
            ResourceType::Webhook { .. } => 0,
            ResourceType::Folder { .. } => 0,
            ResourceType::Item { .. } => 0,
        }
    }
}

/// A name that marks a resource as one of a demonstration: it holds
/// `demo-`, `test-`, `raps-demo-` or `RAPS Demo`.
pub open spec fn is_demo_text(name: Seq<char>) -> bool {
    ||| is_substring(name, "demo-"@)
    ||| is_substring(name, "test-"@)
    ||| is_substring(name, "raps-demo-"@)
    ||| is_substring(name, "RAPS Demo"@)
}

/// A name that holds `demo-`, `test-` or `raps-demo-`.
pub open spec fn has_demo_marker(name: Seq<char>) -> bool {
    ||| is_substring(name, "demo-"@)
    ||| is_substring(name, "test-"@)
    ||| is_substring(name, "raps-demo-"@)
}

/// The name of a demonstration bucket made at the time given.
pub open spec fn bucket_name_at(t: Timestamp) -> Seq<char> {
    "raps-demo-bucket-"@ + signed_decimal(t as int)
}

/// The key of a demonstration object made at the time given.
pub open spec fn object_key_at(original: Seq<char>, t: Timestamp) -> Seq<char> {
    "demo-"@ + signed_decimal(t as int) + "-"@ + original
}

/// The name of a demonstration folder made at the time given.
pub open spec fn folder_name_at(base: Seq<char>, t: Timestamp) -> Seq<char> {
    "RAPS Demo - "@ + base + " - "@ + signed_decimal(t as int)
}

/// The name of a demonstration photoscene made at the time given.
pub open spec fn photoscene_name_at(t: Timestamp) -> Seq<char> {
    "raps-demo-photoscene-"@ + signed_decimal(t as int)
}

/// The names that are generated are names of a demonstration.
pub proof fn lemma_generated_names_are_demo_names(original: Seq<char>, t: Timestamp)
    ensures
        is_demo_text(bucket_name_at(t)),
        is_demo_text(object_key_at(original, t)),
        is_demo_text(folder_name_at(original, t)),
        is_demo_text(photoscene_name_at(t)),
        is_demo_text("demo-"@ + original),
{
    let d = signed_decimal(t as int);
    let none = Seq::<char>::empty();
    reveal_strlit("raps-demo-bucket-");
    reveal_strlit("raps-demo-photoscene-");
    reveal_strlit("raps-demo-");
    reveal_strlit("RAPS Demo - ");
    reveal_strlit("RAPS Demo");
    reveal_strlit("bucket-");
    reveal_strlit("photoscene-");
    reveal_strlit(" - ");
    assert("raps-demo-bucket-"@ =~= "raps-demo-"@ + "bucket-"@);
    assert(bucket_name_at(t) =~= none + "raps-demo-"@ + ("bucket-"@ + d));
    lemma_substring_in_concat(none, "raps-demo-"@, "bucket-"@ + d);
    assert("raps-demo-photoscene-"@ =~= "raps-demo-"@ + "photoscene-"@);
    assert(photoscene_name_at(t) =~= none + "raps-demo-"@ + ("photoscene-"@ + d));
    lemma_substring_in_concat(none, "raps-demo-"@, "photoscene-"@ + d);
    assert(object_key_at(original, t) =~= none + "demo-"@ + (d + "-"@ + original));
    lemma_substring_in_concat(none, "demo-"@, d + "-"@ + original);
    assert("RAPS Demo - "@ =~= "RAPS Demo"@ + " - "@);
    assert(folder_name_at(original, t) =~= none + "RAPS Demo"@ + (" - "@ + original + " - "@ + d));
    lemma_substring_in_concat(none, "RAPS Demo"@, " - "@ + original + " - "@ + d);
    assert("demo-"@ + original =~= none + "demo-"@ + original);
    lemma_substring_in_concat(none, "demo-"@, original);
}

/// How resources of a demonstration are named.
pub struct ResourceNaming;

impl ResourceNaming {
    /// The name of a demonstration bucket made at the time given.
    pub fn demo_bucket_name_at(t: Timestamp) -> (s: String)
        ensures
            s@ == bucket_name_at(t),
            is_demo_text(s@),
    {
        proof {
            lemma_generated_names_are_demo_names(Seq::empty(), t);
        }
        let mut s = owned("raps-demo-bucket-");
        s.append(signed_decimal_string(t).as_str());
        s
    }

    /// The key of a demonstration object made at the time given.
    pub fn demo_object_key_at(original_name: &str, t: Timestamp) -> (s: String)
        ensures
            s@ == object_key_at(original_name@, t),
            is_demo_text(s@),
    {
        proof {
            lemma_generated_names_are_demo_names(original_name@, t);
        }
        let mut s = owned("demo-");
        s.append(signed_decimal_string(t).as_str());
        s.append("-");
        s.append(original_name);
        s
    }

    /// The name of a demonstration folder made at the time given.
    pub fn demo_folder_name_at(base_name: &str, t: Timestamp) -> (s: String)
        ensures
            s@ == folder_name_at(base_name@, t),
            is_demo_text(s@),
    {
        proof {
            lemma_generated_names_are_demo_names(base_name@, t);
        }
        let mut s = owned("RAPS Demo - ");
        s.append(base_name);
        s.append(" - ");
        s.append(signed_decimal_string(t).as_str());
        s
    }

    /// The name of a demonstration photoscene made at the time given.
    pub fn demo_photoscene_name_at(t: Timestamp) -> (s: String)
        ensures
            s@ == photoscene_name_at(t),
            is_demo_text(s@),
    {
        proof {
            lemma_generated_names_are_demo_names(Seq::empty(), t);
        }
        let mut s = owned("raps-demo-photoscene-");
        s.append(signed_decimal_string(t).as_str());
        s
    }

    /// The name of a demonstration bucket made now.
    pub fn demo_bucket_name() -> (s: String)
        ensures
            exists|t: Timestamp| s@ == bucket_name_at(t),
            is_demo_text(s@),
    {
        Self::demo_bucket_name_at(now())
    }

    /// The key of a demonstration object made now.
    pub fn demo_object_key(original_name: &str) -> (s: String)
        ensures
            exists|t: Timestamp| s@ == object_key_at(original_name@, t),
            is_demo_text(s@),
    {
        Self::demo_object_key_at(original_name, now())
    }

    /// The name of a demonstration folder made now.
    pub fn demo_folder_name(base_name: &str) -> (s: String)
        ensures
            exists|t: Timestamp| s@ == folder_name_at(base_name@, t),
            is_demo_text(s@),
    {
        Self::demo_folder_name_at(base_name, now())
    }

    /// The name of a demonstration photoscene made now.
    pub fn demo_photoscene_name() -> (s: String)
        ensures
            exists|t: Timestamp| s@ == photoscene_name_at(t),
            is_demo_text(s@),
    {
        Self::demo_photoscene_name_at(now())
    }

    /// Whether a name marks a resource as one of a demonstration.
    pub fn is_demo_name(name: &str) -> (b: bool)
        ensures
            b == is_demo_text(name@),
    {
        contains(name, "demo-") || contains(name, "test-") || contains(name, "raps-demo-")
            || contains(name, "RAPS Demo")
    }
}

/// A resource in the ledger.
#[derive(Debug)]
pub struct TrackedResource {
    pub id: ResourceId,
    pub resource_type: ResourceType,
    /// The identifier that the cloud gave to the resource.
    pub aps_id: String,
    pub name: String,
    pub created_at: Timestamp,
    /// The workflow whose run created the resource.
    pub workflow_id: WorkflowId,
    /// The commands that delete the resource, in order.
    pub cleanup_commands: Vec<RapsCommand>,
    pub estimated_cost: Option<MicroUsd>,
    pub tags: TextMap<String>,
}

pub struct TrackedResourceView {
    pub id: ResourceId,
    pub resource_type: ResourceTypeView,
    pub aps_id: Seq<char>,
    pub name: Seq<char>,
    pub created_at: Timestamp,
    pub workflow_id: Seq<char>,
    pub cleanup_commands: Seq<RapsCommandView>,
    pub estimated_cost: Option<MicroUsd>,
    pub tags: Map<Seq<char>, Seq<char>>,
}

impl View for TrackedResource {
    type V = TrackedResourceView;

    open spec fn view(&self) -> TrackedResourceView {
        TrackedResourceView {
            id: self.id,
            resource_type: self.resource_type@,
            aps_id: self.aps_id@,
            name: self.name@,
            created_at: self.created_at,
            workflow_id: self.workflow_id@,
            cleanup_commands: command_views(self.cleanup_commands@),
            estimated_cost: self.estimated_cost,
            tags: self.tags@.map_values(|v: String| v@),
        }
    }
}

/// The views of a sequence of resources.
pub open spec fn resource_views(v: Seq<TrackedResource>) -> Seq<TrackedResourceView> {
    v.map_values(|r: TrackedResource| r@)
}

/// The age of what was made at `created_at`, as of `now`, in seconds; as
/// far as a 64-bit number with sign holds it.
pub open spec fn age_between(created_at: Timestamp, now: Timestamp) -> Seconds {
    if now - created_at > i64::MAX {
        i64::MAX
    } else if now - created_at < i64::MIN {
        i64::MIN
    } else {
        (now - created_at) as i64
    }
}

/// A copy of a map of strings, key for key and text for text.
pub fn copy_text_map(m: &TextMap<String>) -> (r: TextMap<String>)
    ensures
        r@.map_values(|v: String| v@) == m@.map_values(|v: String| v@),
        r.key_order() == m.key_order(),
{
    let mut r: TextMap<String> = TextMap::new();
    let n = m.len();
    let ghost keys = m.key_order();
    let ghost goal = m@.map_values(|v: String| v@);
    let mut i: usize = 0;
    while i < n
        invariant
            i <= n,
            n == keys.len(),
            keys == m.key_order(),
            keys.no_duplicates(),
            m@.dom() == keys.to_set(),
            goal == m@.map_values(|v: String| v@),
            r.key_order() == keys.take(i as int),
            forall|k: Seq<char>| r@.contains_key(k) <==> keys.take(i as int).contains(k),
            forall|j: int| 0 <= j < i ==> r@[#[trigger] keys[j]]@ == goal[keys[j]],
        decreases n - i,
    {
        let key = m.key_at(i).clone();
        let value = m.value_at(i).clone();
        assert(!r@.contains_key(key@)) by {
            if keys.take(i as int).contains(key@) {
                let j = keys.take(i as int).index_of(key@);
                assert(keys.take(i as int)[j] == keys[j]);
            }
        }
        r.insert(key, value);
        proof {
            assert(keys.take(i + 1) =~= keys.take(i as int).push(keys[i as int]));
            assert forall|k: Seq<char>| r@.contains_key(k) <==> keys.take(i + 1).contains(k) by {
                if keys.take(i as int).contains(k) {
                    let j = keys.take(i as int).index_of(k);
                    assert(keys.take(i as int)[j] == k);
                    assert(keys.take(i + 1)[j] == k);
                }
                if keys.take(i + 1).contains(k) {
                    let j = keys.take(i + 1).index_of(k);
                    assert(keys.take(i + 1)[j] == k);
                    if j < i {
                        assert(keys.take(i as int)[j] == k);
                    }
                }
                if k == keys[i as int] {
                    assert(keys.take(i + 1)[i as int] == k);
                }
            }
            assert forall|j: int| 0 <= j < i + 1 implies r@[#[trigger] keys[j]]@ == goal[keys[j]] by {
                if j < i {
                    assert(keys[j] != keys[i as int]);
                }
            }
        }
        i = i + 1;
    }
    proof {
        assert(keys.take(n as int) =~= keys);
        assert forall|k: Seq<char>| r@.contains_key(k) <==> m@.contains_key(k) by {
            assert(keys.to_set().contains(k) <==> keys.contains(k));
        }
        assert forall|k: Seq<char>| r@.contains_key(k) implies #[trigger] r@[k]@ == goal[k] by {
            let j = keys.index_of(k);
            assert(keys[j] == k);
        }
        assert(r@.map_values(|v: String| v@) =~= goal);
    }
    r
}

impl Clone for TrackedResource {
    fn clone(&self) -> (r: Self)
        ensures
            r@ == self@,
    {
        TrackedResource {
            id: self.id,
            resource_type: self.resource_type.clone(),
            aps_id: self.aps_id.clone(),
            name: self.name.clone(),
            created_at: self.created_at,
            workflow_id: self.workflow_id.clone(),
            cleanup_commands: copy_commands(&self.cleanup_commands),
            estimated_cost: self.estimated_cost,
            tags: copy_text_map(&self.tags),
        }
    }
}

impl TrackedResource {
    /// A resource with the identifier and the time of creation given,
    /// without an estimate of its cost and without tags.
    pub fn with_identity(
        id: ResourceId,
        created_at: Timestamp,
        resource_type: ResourceType,
        aps_id: String,
        name: String,
        workflow_id: WorkflowId,
        cleanup_commands: Vec<RapsCommand>,
    ) -> (r: Self)
        ensures
            r.id == id,
            r.created_at == created_at,
            r.resource_type == resource_type,
            r.aps_id == aps_id,
            r.name == name,
            r.workflow_id == workflow_id,
            r.cleanup_commands == cleanup_commands,
            r.estimated_cost is None,
            r.tags@ == Map::<Seq<char>, String>::empty(),
    {
        TrackedResource {
            id,
            resource_type,
            aps_id,
            name,
            created_at,
            workflow_id,
            cleanup_commands,
            estimated_cost: None,
            tags: TextMap::new(),
        }
    }

    /// A resource with a fresh identifier, created now.
    pub fn new(
        resource_type: ResourceType,
        aps_id: String,
        name: String,
        workflow_id: WorkflowId,
        cleanup_commands: Vec<RapsCommand>,
    ) -> (r: Self)
        ensures
            r.resource_type == resource_type,
            r.aps_id == aps_id,
            r.name == name,
            r.workflow_id == workflow_id,
            r.cleanup_commands == cleanup_commands,
            r.estimated_cost is None,
            r.tags@ == Map::<Seq<char>, String>::empty(),
    {
        Self::with_identity(
            fresh_id(),
            now(),
            resource_type,
            aps_id,
            name,
            workflow_id,
            cleanup_commands,
        )
    }

    /// Whether the name holds `demo-`, `test-` or `raps-demo-`.
    pub fn has_demo_naming(&self) -> (b: bool)
        ensures
            b == has_demo_marker(self.name@),
    {
        let name = self.name.as_str();
        contains(name, "demo-") || contains(name, "test-") || contains(name, "raps-demo-")
    }

    /// The age of the resource as of `now`.
    pub fn age_at(&self, now: Timestamp) -> (age: Seconds)
        ensures
            age == age_between(self.created_at, now),
    {
        let d: i128 = (now as i128) - (self.created_at as i128);
        if d > i64::MAX as i128 {
            i64::MAX
        } else if d < i64::MIN as i128 {
            i64::MIN
        } else {
            d as i64
        }
    }

    /// The age of the resource at present.
    pub fn age(&self) -> (age: Seconds)
        ensures
            exists|t: Timestamp| age == age_between(self.created_at, t),
    {
        self.age_at(now())
    }

    /// Puts a tag on the resource.
    pub fn add_tag(&mut self, key: String, value: String)
        ensures
            final(self).tags@ == old(self).tags@.insert(key@, value),
            final(self).id == old(self).id,
            final(self).resource_type == old(self).resource_type,
            final(self).aps_id == old(self).aps_id,
            final(self).name == old(self).name,
            final(self).created_at == old(self).created_at,
            final(self).workflow_id == old(self).workflow_id,
            final(self).cleanup_commands == old(self).cleanup_commands,
            final(self).estimated_cost == old(self).estimated_cost,
    {
        self.tags.insert(key, value);
    }

    /// The estimated cost of the resource per month.
    pub fn estimated_monthly_cost(&self) -> (cost: MicroUsd)
        ensures
            cost == monthly_cost(self.resource_type@),
    {
        self.resource_type.estimated_monthly_cost()
    }
}

/// When the ledger removes a resource.
#[derive(Debug, Clone, Copy, PartialEq, Eq, Structural)]
pub enum CleanupPolicy {
    /// As soon as the workflow has ended.
    Immediate,
    /// Once the resource is as old as the duration says.
    Delayed { duration: Seconds },
    /// Only by hand.
    Manual,
    Never,
}

impl Default for CleanupPolicy {
    fn default() -> (p: Self)
        ensures
            p == CleanupPolicy::Immediate,
    {
        CleanupPolicy::Immediate
    }
}

/// Whether a resource of the age given is due under the policy.
pub open spec fn is_due(policy: CleanupPolicy, age: Seconds) -> bool {
    match policy {
        CleanupPolicy::Immediate => true,
        CleanupPolicy::Delayed { duration } => age >= duration,
        CleanupPolicy::Manual => false,
        CleanupPolicy::Never => false,
    }
}

/// What became of a cleanup.
#[derive(Debug, Clone, PartialEq, Eq)]
pub struct CleanupResult {
    /// Whether no resource failed.
    pub success: bool,
    pub cleaned_resources: Vec<ResourceId>,
    /// The resources that were not cleaned, each with the reason.
    pub failed_resources: Vec<(ResourceId, String)>,
    pub duration: Seconds,
}

/// The estimated costs of a set of resources.
#[derive(Debug, Clone)]
pub struct CostSummary {
    pub total_cost: MicroUsd,
    /// The costs by kind of resource.
    pub cost_by_type: TextMap<MicroUsd>,
    pub cost_by_resource: HashMap<ResourceId, MicroUsd>,
    /// Always `USD`.
    pub currency: String,
    pub calculated_at: Timestamp,
}

/// The amount under a key, nothing where the key is absent.
pub open spec fn amount_at(m: Map<Seq<char>, MicroUsd>, key: Seq<char>) -> int {
    if m.contains_key(key) {
        m[key] as int
    } else {
        0
    }
}

impl CostSummary {
    /// An empty summary, calculated at the time given.
    pub fn at(calculated_at: Timestamp) -> (s: Self)
        ensures
            s.total_cost == 0,
            s.cost_by_type@ == Map::<Seq<char>, MicroUsd>::empty(),
            s.cost_by_resource@ == Map::<ResourceId, MicroUsd>::empty(),
            s.currency@ == "USD"@,
            s.calculated_at == calculated_at,
    {
        CostSummary {
            total_cost: 0,
            cost_by_type: TextMap::new(),
            cost_by_resource: HashMap::new(),
            currency: owned("USD"),
            calculated_at,
        }
    }

    /// An empty summary, calculated now.
    pub fn new() -> (s: Self)
        ensures
            s.total_cost == 0,
            s.cost_by_type@ == Map::<Seq<char>, MicroUsd>::empty(),
            s.cost_by_resource@ == Map::<ResourceId, MicroUsd>::empty(),
            s.currency@ == "USD"@,
    {
        Self::at(now())
    }

    /// Adds an amount under a kind of resource.
    pub fn add_amount(&mut self, label: &str, amount: MicroUsd)
        ensures
            final(self).total_cost == capped(old(self).total_cost + amount),
            final(self).cost_by_type@ == old(self).cost_by_type@.insert(
                label@,
                capped(amount_at(old(self).cost_by_type@, label@) + amount) as u64,
            ),
            final(self).cost_by_resource == old(self).cost_by_resource,
            final(self).currency == old(self).currency,
            final(self).calculated_at == old(self).calculated_at,
    {
        self.total_cost = add_amounts(self.total_cost, amount);
        let so_far: MicroUsd = match self.cost_by_type.get(label) {
            Some(a) => *a,
            None => 0,
        };
        self.cost_by_type.insert(owned(label), add_amounts(so_far, amount));
    }

    /// Adds the estimated cost of a resource: to the total, to the amount
    /// of its kind, and under its identifier.
    pub fn add_resource(&mut self, resource: &TrackedResource)
        ensures
            final(self).total_cost == capped(
                old(self).total_cost + monthly_cost(resource.resource_type@),
            ),
            final(self).cost_by_type@ == old(self).cost_by_type@.insert(
                cost_label(resource.resource_type@),
                capped(
                    amount_at(old(self).cost_by_type@, cost_label(resource.resource_type@))
                        + monthly_cost(resource.resource_type@),
                ) as u64,
            ),
            final(self).cost_by_resource@ == old(self).cost_by_resource@.insert(
                resource.id,
                monthly_cost(resource.resource_type@) as u64,
            ),
            final(self).currency == old(self).currency,
            final(self).calculated_at == old(self).calculated_at,
    {
        broadcast use vstd::std_specs::hash::group_hash_axioms;

        let cost = resource.estimated_monthly_cost();
        self.add_amount(resource.resource_type.cost_key(), cost);
        self.cost_by_resource.insert(resource.id, cost);
    }

    /// Whether the total is above the threshold.
    pub fn exceeds_threshold(&self, threshold: MicroUsd) -> (b: bool)
        ensures
            b == (self.total_cost > threshold),
    {
        self.total_cost > threshold
    }
}

} // verus!
