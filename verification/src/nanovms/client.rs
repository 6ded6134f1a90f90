//! The client's own decisions: its options, the transport they configure,
//! the commands it sends and when waiting for a state ends.
use vstd::prelude::*;

use core::time::Duration;

use super::transport::CliTransport;
use super::{NanovmsError, SandboxState, Tier};
use crate::common::duration::{millis, secs, span_of_millis, span_of_secs};
use crate::common::text::{opt_text, push_all, texts};

verus! {

/// The options of a client besides its transport: the tier and timeout it
/// uses by default, and where the OPS binary and its configuration are.
#[derive(Debug)]
pub struct ClientOptions {
    pub default_tier: Tier,
    pub default_timeout: Duration,
    pub ops_path: Option<String>,
    pub config_path: Option<String>,
}

impl ClientOptions {
    /// The defaults: the Wasm tier, 60 seconds, and the OPS binary and
    /// configuration that the transport picks.
    pub fn new() -> (r: Self)
        ensures
            r.default_tier == Tier::Wasm,
            r.default_timeout == span_of_secs(60),
            r.ops_path is None,
            r.config_path is None,
    {
        ClientOptions {
            default_tier: Tier::Wasm,
            default_timeout: secs(60),
            ops_path: None,
            config_path: None,
        }
    }

    /// Sets the default tier.
    pub fn default_tier(self, tier: Tier) -> (r: Self)
        ensures
            r == (ClientOptions { default_tier: tier, ..self }),
    {
        ClientOptions { default_tier: tier, ..self }
    }

    /// Sets the default timeout.
    pub fn default_timeout(self, duration: Duration) -> (r: Self)
        ensures
            r == (ClientOptions { default_timeout: duration, ..self }),
    {
        ClientOptions { default_timeout: duration, ..self }
    }

    /// Sets the OPS binary path.
    pub fn ops_path(self, path: &str) -> (r: Self)
        ensures
            r == (ClientOptions { ops_path: r.ops_path, ..self }),
            r.ops_path matches Some(p) && p@ == path@,
    {
        ClientOptions { ops_path: Some(String::from_str(path)), ..self }
    }

    /// Sets the OPS configuration path.
    pub fn config_path(self, path: &str) -> (r: Self)
        ensures
            r == (ClientOptions { config_path: r.config_path, ..self }),
            r.config_path matches Some(p) && p@ == path@,
    {
        ClientOptions { config_path: Some(String::from_str(path)), ..self }
    }

    /// The command-line transport these options describe: the default
    /// timeout, and the binary and configuration where they are set.
    pub fn cli_transport(&self) -> (r: CliTransport)
        ensures
            r.timeout() == self.default_timeout,
            r.ops_path()@ == (match self.ops_path {
                Some(p) => p@,
                None => "ops"@,
            }),
            opt_text(r.config_path()) == opt_text(self.config_path),
    {
        let transport = CliTransport::new().with_timeout(self.default_timeout);
        let transport = match &self.ops_path {
            Some(p) => transport.with_ops_path(p.as_str()),
            None => transport,
        };
        match &self.config_path {
            Some(c) => transport.with_config(c.as_str()),
            None => transport,
        }
    }
}

impl Default for ClientOptions {
    fn default() -> (r: Self)
        ensures
            r.default_tier == Tier::Wasm,
            r.default_timeout == span_of_secs(60),
            r.ops_path is None,
            r.config_path is None,
    {
        Self::new()
    }
}

/// The transport a client is built with: one must have been chosen.
pub fn require_transport<T>(transport: Option<T>) -> (r: Result<T, NanovmsError>)
    ensures
        match transport {
            Some(t) => r == Ok::<T, NanovmsError>(t),
            None => r matches Err(NanovmsError::InvalidConfig(m)) && m@
                == "Transport must be specified"@,
        },
{
    match transport {
        Some(t) => Ok(t),
        None => Err(NanovmsError::InvalidConfig(String::from_str("Transport must be specified"))),
    }
}

/// The command that runs `command` through the shell: `sh -c COMMAND`.
pub fn shell_command(command: &str) -> (r: Vec<String>)
    ensures
        texts(r@) == seq!["sh"@, "-c"@, command@],
{
    let mut out: Vec<String> = Vec::new();
    push_all(&mut out, &["sh", "-c", command]);
    assert(texts(out@) =~= seq!["sh"@, "-c"@, command@]);
    out
}

/// What waiting for a sandbox state does after a look at the sandbox.
#[derive(Debug, Clone, Copy, PartialEq, Eq, Structural)]
pub enum WaitStep {
    /// The sandbox is in the state waited for.
    Reached,
    /// The time allowed has passed.
    TimedOut,
    /// Look again after the poll interval.
    Retry,
}

/// How long waiting for a state pauses between looks: 100 ms.
pub fn poll_interval() -> (r: Duration)
    ensures
        r == span_of_millis(100),
{
    millis(100)
}

/// The next step of waiting for `target`, once the sandbox was seen in
/// `current` after `elapsed_nanos` of the `timeout_nanos` allowed.
pub fn wait_step(
    current: SandboxState,
    target: SandboxState,
    elapsed_nanos: u128,
    timeout_nanos: u128,
) -> (r: WaitStep)
    ensures
        current == target ==> r == WaitStep::Reached,
        current != target && elapsed_nanos > timeout_nanos ==> r == WaitStep::TimedOut,
        current != target && elapsed_nanos <= timeout_nanos ==> r == WaitStep::Retry,
{
    if current == target {
        WaitStep::Reached
    } else if elapsed_nanos > timeout_nanos {
        WaitStep::TimedOut
    } else {
        WaitStep::Retry
    }
}

} // verus!
