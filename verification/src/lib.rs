//! Shared building blocks for hexagonal services: a rule-based policy engine,
//! a forward-only state machine, port-level value types, adapter
//! configurations and a sandbox-orchestration model.

pub mod common;
pub mod state_machine;
pub mod policy;
pub mod ports;
pub mod adapters;
pub mod nanovms;
