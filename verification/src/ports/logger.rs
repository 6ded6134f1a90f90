//! Log levels and log records.
use vstd::prelude::*;

use crate::common::clock::Timestamp;
use crate::common::str_map::StrMap;
use crate::common::text::{ascii_lowered, is_ascii_text, lowercase_of, str_eq, to_lowercase};

verus! {

/// Log level, from the most verbose to the most severe.
#[derive(Debug, Clone, Copy, PartialEq, Eq, PartialOrd, Ord, Structural)]
pub enum LogLevel {
    Trace,
    Debug,
    Info,
    Warn,
    Error,
}

/// The level a lowercased name stands for: `warn` and `warning` both give
/// `Warn`, and a name that is none of the levels gives `Info`.
pub open spec fn level_named(lower: Seq<char>) -> LogLevel {
    if lower == "trace"@ {
        LogLevel::Trace
    } else if lower == "debug"@ {
        LogLevel::Debug
    } else if lower == "info"@ {
        LogLevel::Info
    } else if lower == "warn"@ || lower == "warning"@ {
        LogLevel::Warn
    } else if lower == "error"@ {
        LogLevel::Error
    } else {
        LogLevel::Info
    }
}

impl LogLevel {
    /// The level named by `s`, in any case; `Info` for an unknown name.
    pub fn from_str(s: &str) -> (r: Self)
        ensures
            r == level_named(lowercase_of(s@)),
            is_ascii_text(s@) ==> r == level_named(ascii_lowered(s@)),
    {
        let lower = to_lowercase(s);
        let l = lower.as_str();
        if str_eq(l, "trace") {
            LogLevel::Trace
        } else if str_eq(l, "debug") {
            LogLevel::Debug
        } else if str_eq(l, "info") {
            LogLevel::Info
        } else if str_eq(l, "warn") || str_eq(l, "warning") {
            LogLevel::Warn
        } else if str_eq(l, "error") {
            LogLevel::Error
        } else {
            LogLevel::Info
        }
    }
}

/// Log record.
#[derive(Debug, Clone)]
pub struct LogRecord {
    pub level: LogLevel,
    pub message: String,
    pub target: String,
    pub timestamp: Timestamp,
    pub fields: StrMap<serde_json::Value>,
}

impl LogRecord {
    /// A record stamped with the current time and with no fields.
    pub fn new(level: LogLevel, target: &str, message: String) -> (r: Self)
        ensures
            r.level == level,
            r.target@ == target@,
            r.message == message,
            r.fields@.len() == 0,
    {
        LogRecord {
            level,
            target: String::from_str(target),
            message,
            timestamp: Timestamp::now(),
            fields: StrMap::new(),
        }
    }

    /// Adds a field, in place of any field of that name.
    pub fn with_field(self, key: &str, value: serde_json::Value) -> (r: Self)
        ensures
            r.level == self.level,
            r.message == self.message,
            r.target == self.target,
            r.timestamp == self.timestamp,
            r.fields@ == self.fields@.insert(key@, value),
    {
        let mut rec = self;
        rec.fields.insert(String::from_str(key), value);
        rec
    }
}

} // verus!
