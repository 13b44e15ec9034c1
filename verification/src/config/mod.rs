//! Configuration: the settings of the demonstrations and of the external
//! tool, and the guidance for a user whose login is not in order.

pub mod types;
pub mod auth;
pub mod manager;
