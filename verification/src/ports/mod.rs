//! Ports of a hexagonal service: identifiers, pagination, HTTP requests,
//! log levels, messages and events, and the decisions of repository helpers.
pub mod identifier;
pub mod query;
pub mod http;
pub mod logger;
pub mod error;
pub mod event;
pub mod queue;
pub mod repository;
pub mod domain;
pub mod laws;
