//! A verified core for an agent-first desktop application: domain values,
//! the application state reducer and store, localization, the agent-facing
//! semantic interface and the UI contract scanner.
use vstd::prelude::*;

pub mod system;
pub mod text;
pub mod domain;
pub mod state;
pub mod note_list;
pub mod service;
pub mod repository;
pub mod store;
pub mod localization;
pub mod contract;
pub mod agent_ui;
pub mod agent;
pub mod laws;
pub mod protocol;
pub mod runtime;
pub mod wire;
pub mod mcp;
pub mod rows;

verus! {

} // verus!
