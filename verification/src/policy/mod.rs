//! Rule-based policy evaluation: rules match facts of a context against
//! regular expressions, policies group rules, and an engine evaluates
//! contexts against named policies.
pub mod context;
pub mod engine;
pub mod error;
pub mod loader;
pub mod pattern;
pub mod policy;
pub mod result;
pub mod rule;
pub mod laws;
