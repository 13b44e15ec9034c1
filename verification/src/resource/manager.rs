//! The ledger as the host holds it.

use vstd::prelude::*;
use crate::resource::tracker::{FileBasedResourceTracker, LedgerView, default_policies};
use crate::resource::types::ResourceId;
use crate::workflow::types::MicroUsd;

verus! {

/// Holds the ledger of resources.
#[derive(Debug)]
pub struct ResourceManager {
    tracker: FileBasedResourceTracker,
}

impl ResourceManager {
    /// What the ledger holds.
    pub closed spec fn ledger(&self) -> LedgerView {
        self.tracker@
    }

    /// A manager with an empty ledger for the file given.
    pub fn with_state_file(state_file: String) -> (m: Self)
        ensures
            m.ledger().resources.len() == 0,
            m.ledger().policies == default_policies(),
            m.ledger().costs == Map::<ResourceId, MicroUsd>::empty(),
    {
        ResourceManager { tracker: FileBasedResourceTracker::new(state_file) }
    }

    /// A manager for the ledger given.
    pub fn with_tracker(tracker: FileBasedResourceTracker) -> (m: Self)
        ensures
            m.ledger() == tracker@,
    {
        ResourceManager { tracker }
    }

    /// The ledger.
    pub fn tracker(&self) -> (t: &FileBasedResourceTracker)
        ensures
            t@ == self.ledger(),
    {
        &self.tracker
    }

    /// The ledger, to change it.
    pub fn tracker_mut(&mut self) -> (t: &mut FileBasedResourceTracker)
        ensures
            t@ == old(self).ledger(),
            final(self).ledger() == final(t)@,
    {
        &mut self.tracker
    }

    /// The ledger itself.
    pub fn into_tracker(self) -> (t: FileBasedResourceTracker)
        ensures
            t@ == self.ledger(),
    {
        self.tracker
    }
}

} // verus!
