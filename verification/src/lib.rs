//! Orchestration core for demonstration workflows that drive the `raps`
//! command line: workflow definitions and their validation, the argument
//! vectors handed to the external tool, the stepwise run of a workflow, and
//! the ledger of cloud resources that a run leaves behind.

pub mod text;
pub mod text_map;
pub mod system;
pub mod workflow;
pub mod resource;
pub mod config;
pub mod assets;
pub mod flowchart;
pub mod preflight;
pub mod dashboard;
pub mod demo;
