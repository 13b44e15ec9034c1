//! The ledger of resources that runs have created, and their cleanup.

pub mod types;
pub mod tracker;
pub mod cleanup;
pub mod manager;
