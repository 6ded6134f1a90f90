//! Errors of the policy engine.
use vstd::prelude::*;

use crate::common::text::labelled;

verus! {

/// Errors that can occur during policy operations.
#[derive(Debug)]
pub enum PolicyEngineError {
    /// Failed to compile a regex pattern.
    RegexCompilationError { pattern: String, source: regex::Error },
    /// Policy evaluation encountered an error.
    EvaluationError(String),
    /// Invalid policy configuration.
    InvalidConfiguration(String),
    /// Policy not found by name.
    PolicyNotFound { name: String },
    /// Failed to serialize/deserialize policy data.
    SerializationError(String),
    /// Failed to load policy from file.
    LoadError(String),
    /// Generic error with message.
    Other(String),
}

/// `m` is the message of the policy engine error `e`, as its display form
/// reads; a regex error's own text is a display string of it.
pub open spec fn policy_error_message(e: PolicyEngineError, m: Seq<char>) -> bool {
    match e {
        PolicyEngineError::RegexCompilationError { pattern, source } => exists|t: String|
            vstd::string::to_string_from_display_ensures::<regex::Error>(&source, t) && m
                == "Failed to compile regex pattern '"@ + pattern@ + "': "@ + t@,
        PolicyEngineError::EvaluationError(s) => m == "Policy evaluation error: "@ + s@,
        PolicyEngineError::InvalidConfiguration(s) => m == "Invalid policy configuration: "@ + s@,
        PolicyEngineError::PolicyNotFound { name } => m == "Policy '"@ + name@ + "' not found"@,
        PolicyEngineError::SerializationError(s) => m == "Serialization error: "@ + s@,
        PolicyEngineError::LoadError(s) => m == "Failed to load policy from file: "@ + s@,
        PolicyEngineError::Other(s) => m == s@,
    }
}

impl PolicyEngineError {
    /// The message of the error, as its display form reads.
    pub fn message(&self) -> (r: String)
        ensures
            policy_error_message(*self, r@),
    {
        match self {
            PolicyEngineError::RegexCompilationError { pattern, source } => {
                let t = source.to_string();
                let mut out = String::from_str("Failed to compile regex pattern '");
                out.append(pattern.as_str());
                out.append("': ");
                out.append(t.as_str());
                out
            },
            PolicyEngineError::EvaluationError(s) => labelled("Policy evaluation error: ", s.as_str()),
            PolicyEngineError::InvalidConfiguration(s) => labelled(
                "Invalid policy configuration: ",
                s.as_str(),
            ),
            PolicyEngineError::PolicyNotFound { name } => {
                let mut out = String::from_str("Policy '");
                out.append(name.as_str());
                out.append("' not found");
                out
            },
            PolicyEngineError::SerializationError(s) => labelled("Serialization error: ", s.as_str()),
            PolicyEngineError::LoadError(s) => labelled(
                "Failed to load policy from file: ",
                s.as_str(),
            ),
            PolicyEngineError::Other(s) => s.clone(),
        }
    }
}

impl From<serde_json::Error> for PolicyEngineError {
    /// A serialization error carrying the JSON error's text.
    fn from(err: serde_json::Error) -> (r: Self)
        ensures
            r matches PolicyEngineError::SerializationError(m)
                && vstd::string::to_string_from_display_ensures::<serde_json::Error>(&err, m),
    {
        PolicyEngineError::SerializationError(err.to_string())
    }
}

impl vstd::std_specs::convert::FromSpecImpl<serde_json::Error> for PolicyEngineError {
    open spec fn obeys_from_spec() -> bool {
        false
    }

    open spec fn from_spec(v: serde_json::Error) -> Self {
        PolicyEngineError::Other(arbitrary())
    }
}

impl From<toml::de::Error> for PolicyEngineError {
    /// A serialization error carrying the TOML error's text.
    fn from(err: toml::de::Error) -> (r: Self)
        ensures
            r matches PolicyEngineError::SerializationError(m)
                && vstd::string::to_string_from_display_ensures::<toml::de::Error>(&err, m),
    {
        PolicyEngineError::SerializationError(err.to_string())
    }
}

impl vstd::std_specs::convert::FromSpecImpl<toml::de::Error> for PolicyEngineError {
    open spec fn obeys_from_spec() -> bool {
        false
    }

    open spec fn from_spec(v: toml::de::Error) -> Self {
        PolicyEngineError::Other(arbitrary())
    }
}

impl From<regex::Error> for PolicyEngineError {
    /// A compilation error whose pattern field holds the regex error's text.
    fn from(err: regex::Error) -> (r: Self)
        ensures
            r matches PolicyEngineError::RegexCompilationError { pattern, source }
                && vstd::string::to_string_from_display_ensures::<regex::Error>(&err, pattern)
                && source == err,
    {
        let pattern = err.to_string();
        PolicyEngineError::RegexCompilationError { pattern, source: err }
    }
}

impl vstd::std_specs::convert::FromSpecImpl<regex::Error> for PolicyEngineError {
    open spec fn obeys_from_spec() -> bool {
        false
    }

    open spec fn from_spec(v: regex::Error) -> Self {
        PolicyEngineError::Other(arbitrary())
    }
}

impl From<std::io::Error> for PolicyEngineError {
    /// A load error carrying the I/O error's text.
    fn from(err: std::io::Error) -> (r: Self)
        ensures
            r matches PolicyEngineError::LoadError(m)
                && vstd::string::to_string_from_display_ensures::<std::io::Error>(&err, m),
    {
        PolicyEngineError::LoadError(err.to_string())
    }
}

impl vstd::std_specs::convert::FromSpecImpl<std::io::Error> for PolicyEngineError {
    open spec fn obeys_from_spec() -> bool {
        false
    }

    open spec fn from_spec(v: std::io::Error) -> Self {
        PolicyEngineError::Other(arbitrary())
    }
}

} // verus!
