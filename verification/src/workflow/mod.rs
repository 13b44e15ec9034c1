//! Workflows: their data, the argument vectors for the external tool,
//! discovery with validation, and the stepwise run.

pub mod types;
pub mod client;
pub mod graph;
pub mod discovery;
pub mod placeholders;
pub mod executor;
pub mod engine;
