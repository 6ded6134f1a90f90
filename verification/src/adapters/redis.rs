//! Redis adapter: connection configuration and the choice of commands.
use vstd::prelude::*;

use crate::common::text::labelled;
use crate::ports::error::port_error_message;

verus! {

/// Errors of the Redis adapter.
#[derive(Debug)]
pub enum AdapterError {
    Redis(String),
    Serialization(String),
    Connection(String),
    Port(crate::ports::error::PortError),
}

/// `m` is the message of the adapter error `e`, as its display form reads.
pub open spec fn adapter_error_message(e: AdapterError, m: Seq<char>) -> bool {
    match e {
        AdapterError::Redis(s) => m == "Redis error: "@ + s@,
        AdapterError::Serialization(s) => m == "Serialization error: "@ + s@,
        AdapterError::Connection(s) => m == "Connection error: "@ + s@,
        AdapterError::Port(p) => exists|t: Seq<char>| port_error_message(p, t) && m == "Port error: "@ + t,
    }
}

impl AdapterError {
    /// The message of the error, as its display form reads.
    pub fn message(&self) -> (r: String)
        ensures
            adapter_error_message(*self, r@),
    {
        match self {
            AdapterError::Redis(s) => labelled("Redis error: ", s.as_str()),
            AdapterError::Serialization(s) => labelled("Serialization error: ", s.as_str()),
            AdapterError::Connection(s) => labelled("Connection error: ", s.as_str()),
            AdapterError::Port(p) => {
                let t = p.message();
                labelled("Port error: ", t.as_str())
            },
        }
    }
}

/// Configuration for a Redis connection.
#[derive(Debug, Clone)]
pub struct RedisConfig {
    pub url: String,
    pub max_size: usize,
    pub min_idle: Option<usize>,
}

impl RedisConfig {
    /// A configuration for `url`, with a pool of 16 keeping 4 idle.
    pub fn new(url: &str) -> (r: Self)
        ensures
            r.url@ == url@,
            r.max_size == 16,
            r.min_idle == Some(4usize),
    {
        RedisConfig { url: String::from_str(url), max_size: 16, min_idle: Some(4) }
    }

    /// A configuration with every option given.
    pub fn with_options(url: &str, max_size: usize, min_idle: Option<usize>) -> (r: Self)
        ensures
            r.url@ == url@,
            r.max_size == max_size,
            r.min_idle == min_idle,
    {
        RedisConfig { url: String::from_str(url), max_size, min_idle }
    }
}

impl Default for RedisConfig {
    /// A local server: `redis://localhost:6379`, a pool of 16 keeping 4 idle.
    fn default() -> (r: Self)
        ensures
            r.url@ == "redis://localhost:6379"@,
            r.max_size == 16,
            r.min_idle == Some(4usize),
    {
        Self::new("redis://localhost:6379")
    }
}

/// How a value is stored: `SET key value`, or `SETEX key seconds value`
/// where a time to live is given.
#[derive(Debug, Clone, Copy, PartialEq, Eq, Structural)]
pub enum SetCommand {
    /// `SET key value`.
    Plain,
    /// `SETEX key seconds value`.
    Expiring(i64),
}

/// The command that stores a value with the time to live `ttl_secs`; the
/// seconds are handed over as a signed 64-bit number, as Redis takes them.
pub fn set_command(ttl_secs: Option<u64>) -> (r: SetCommand)
    ensures
        match ttl_secs {
            Some(t) => r == SetCommand::Expiring(t as i64),
            None => r == SetCommand::Plain,
        },
{
    match ttl_secs {
        Some(t) => SetCommand::Expiring(t as i64),
        None => SetCommand::Plain,
    }
}

/// The name of the command.
pub fn command_name(c: SetCommand) -> (r: &'static str)
    ensures
        r@ == (match c {
            SetCommand::Plain => "SET"@,
            SetCommand::Expiring(_) => "SETEX"@,
        }),
{
    match c {
        SetCommand::Plain => "SET",
        SetCommand::Expiring(_) => "SETEX",
    }
}

} // verus!
