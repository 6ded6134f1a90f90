//! Errors of port operations.
use vstd::prelude::*;

use crate::common::text::labelled;

verus! {

/// Common error type for port operations.
#[derive(Debug)]
pub enum PortError {
    NotFound(String),
    AlreadyExists(String),
    ValidationError(String),
    StorageError(String),
    ConnectionError(String),
    Timeout(String),
    PermissionDenied(String),
    InvalidState(String),
    InvalidData(String),
    SerializationError(serde_json::Error),
    ConfigError(String),
}

/// `m` is the message of the port error `e`, as its display form reads; a
/// wrapped JSON error's text is a display string of it.
pub open spec fn port_error_message(e: PortError, m: Seq<char>) -> bool {
    match e {
        PortError::NotFound(s) => m == "Not found: "@ + s@,
        PortError::AlreadyExists(s) => m == "Already exists: "@ + s@,
        PortError::ValidationError(s) => m == "Validation error: "@ + s@,
        PortError::StorageError(s) => m == "Storage error: "@ + s@,
        PortError::ConnectionError(s) => m == "Connection error: "@ + s@,
        PortError::Timeout(s) => m == "Timeout error: "@ + s@,
        PortError::PermissionDenied(s) => m == "Permission denied: "@ + s@,
        PortError::InvalidState(s) => m == "Invalid state: "@ + s@,
        PortError::InvalidData(s) => m == "Invalid data: "@ + s@,
        PortError::SerializationError(err) => exists|t: String|
            vstd::string::to_string_from_display_ensures::<serde_json::Error>(&err, t) && m
                == "Serialization error: "@ + t@,
        PortError::ConfigError(s) => m == "Configuration error: "@ + s@,
    }
}

impl PortError {
    /// The message of the error, as its display form reads.
    pub fn message(&self) -> (r: String)
        ensures
            port_error_message(*self, r@),
    {
        match self {
            PortError::NotFound(s) => labelled("Not found: ", s.as_str()),
            PortError::AlreadyExists(s) => labelled("Already exists: ", s.as_str()),
            PortError::ValidationError(s) => labelled("Validation error: ", s.as_str()),
            PortError::StorageError(s) => labelled("Storage error: ", s.as_str()),
            PortError::ConnectionError(s) => labelled("Connection error: ", s.as_str()),
            PortError::Timeout(s) => labelled("Timeout error: ", s.as_str()),
            PortError::PermissionDenied(s) => labelled("Permission denied: ", s.as_str()),
            PortError::InvalidState(s) => labelled("Invalid state: ", s.as_str()),
            PortError::InvalidData(s) => labelled("Invalid data: ", s.as_str()),
            PortError::SerializationError(err) => {
                let t = err.to_string();
                labelled("Serialization error: ", t.as_str())
            },
            PortError::ConfigError(s) => labelled("Configuration error: ", s.as_str()),
        }
    }
}

} // verus!
