//! A health monitor for an application: checks that probe files and URLs,
//! the shared status record they report into, the per-check scheduling
//! decisions, and the status service's request handling.

pub mod text;
pub mod status;
pub mod config;
pub mod checks;
pub mod monitor;
pub mod service;
pub mod client;
pub mod cli;
