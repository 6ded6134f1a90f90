//! Configurations and the computing parts of the database and cache
//! adapters.
pub mod postgres;
pub mod redis;
