//! The dashboard without its drawing: what is selected and shown, and how
//! keys, clicks and the events of a run change it. The host draws the
//! state and reads the terminal.

pub mod state;
pub mod events;
pub mod chart;
