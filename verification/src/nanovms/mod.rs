//! A client model for NanoVMs unikernel orchestration: isolation tiers,
//! sandbox configurations and sandboxes, the OPS command line, the
//! transports that drive it, and the client's own decisions.
use vstd::prelude::*;

use core::time::Duration;

use crate::common::clock::Timestamp;
use crate::common::duration::{secs, span_of_secs};
use crate::common::ids::{is_uuid_text, new_uuid_text};
use crate::common::str_map::{text_map, StrMap};
use crate::common::text::{
    ascii_lowered, is_ascii_text, labelled, lowercase_of, str_eq, to_lowercase,
};

pub mod cli;
pub mod client;
pub mod laws;
pub mod mock;
pub mod transport;

verus! {

/// Errors that can occur when using the nanovms client.
#[derive(Debug)]
pub enum NanovmsError {
    SandboxNotFound(String),
    SandboxAlreadyExists(String),
    ExecutionFailed(String),
    Transport(String),
    InvalidConfig(String),
    Timeout(Duration),
    Io(std::io::Error),
    Serialization(serde_json::Error),
    Unknown(String),
}

/// `m` is the message of the client error `e`, as its display form reads.
/// A wrapped I/O or JSON error's text is a display string of it; of a
/// timeout only the opening is stated, the rest being `Duration`'s debug
/// text.
pub open spec fn nanovms_error_message(e: NanovmsError, m: Seq<char>) -> bool {
    match e {
        NanovmsError::SandboxNotFound(s) => m == "sandbox not found: "@ + s@,
        NanovmsError::SandboxAlreadyExists(s) => m == "sandbox already exists: "@ + s@,
        NanovmsError::ExecutionFailed(s) => m == "execution failed: "@ + s@,
        NanovmsError::Transport(s) => m == "transport error: "@ + s@,
        NanovmsError::InvalidConfig(s) => m == "invalid configuration: "@ + s@,
        NanovmsError::Timeout(_) => "timeout after "@.is_prefix_of(m),
        NanovmsError::Io(err) => exists|t: String|
            vstd::string::to_string_from_display_ensures::<std::io::Error>(&err, t) && m
                == "IO error: "@ + t@,
        NanovmsError::Serialization(err) => exists|t: String|
            vstd::string::to_string_from_display_ensures::<serde_json::Error>(&err, t) && m
                == "serialization error: "@ + t@,
        NanovmsError::Unknown(s) => m == "unknown error: "@ + s@,
    }
}

/// The text that `Duration`'s `Debug` writes for `d` (`format!("{:?}", d)`,
/// such as `30s`).  Nothing is stated of it: Verus sees no value inside a
/// `Duration`.
#[verifier::external_body]
fn duration_debug(d: Duration) -> String {
    format!("{:?}", d)
}

impl NanovmsError {
    /// The message of the error, as its display form reads.
    pub fn message(&self) -> (r: String)
        ensures
            nanovms_error_message(*self, r@),
    {
        match self {
            NanovmsError::SandboxNotFound(s) => labelled("sandbox not found: ", s.as_str()),
            NanovmsError::SandboxAlreadyExists(s) => labelled("sandbox already exists: ", s.as_str()),
            NanovmsError::ExecutionFailed(s) => labelled("execution failed: ", s.as_str()),
            NanovmsError::Transport(s) => labelled("transport error: ", s.as_str()),
            NanovmsError::InvalidConfig(s) => labelled("invalid configuration: ", s.as_str()),
            NanovmsError::Timeout(d) => {
                let t = duration_debug(*d);
                let r = labelled("timeout after ", t.as_str());
                assert("timeout after "@.is_prefix_of(r@)) by {
                    assert(r@.subrange(0, "timeout after "@.len() as int) =~= "timeout after "@);
                }
                r
            },
            NanovmsError::Io(err) => {
                let t = err.to_string();
                labelled("IO error: ", t.as_str())
            },
            NanovmsError::Serialization(err) => {
                let t = err.to_string();
                labelled("serialization error: ", t.as_str())
            },
            NanovmsError::Unknown(s) => labelled("unknown error: ", s.as_str()),
        }
    }
}

/// Whether a result is a success, keeping its error.
pub open spec fn outcome<T>(r: Result<T, NanovmsError>) -> Result<(), NanovmsError> {
    match r {
        Ok(_) => Ok(()),
        Err(e) => Err(e),
    }
}

/// The isolation tier of a sandbox.
#[derive(Debug, Clone, Copy, PartialEq, Eq, Structural)]
pub enum Tier {
    /// WebAssembly sandbox: lightweight, fast startup.
    Wasm,
    /// gVisor sandbox: system calls filtered.
    Gvisor,
    /// Firecracker microVM: full virtualization.
    Firecracker,
}

/// The name of a tier.
pub open spec fn tier_name(t: Tier) -> Seq<char> {
    match t {
        Tier::Wasm => "wasm"@,
        Tier::Gvisor => "gvisor"@,
        Tier::Firecracker => "firecracker"@,
    }
}

/// The default memory of a tier, in MB.
pub open spec fn tier_memory(t: Tier) -> u32 {
    match t {
        Tier::Wasm => 128,
        Tier::Gvisor => 256,
        Tier::Firecracker => 512,
    }
}

/// The default number of CPUs of a tier.
pub open spec fn tier_cpus(t: Tier) -> u32 {
    match t {
        Tier::Wasm => 1,
        Tier::Gvisor => 1,
        Tier::Firecracker => 2,
    }
}

/// The tier a lowercased name stands for: its name, or `tierN` / `tier_N`.
pub open spec fn tier_named(lower: Seq<char>) -> Option<Tier> {
    if lower == "wasm"@ || lower == "tier1"@ || lower == "tier_1"@ {
        Some(Tier::Wasm)
    } else if lower == "gvisor"@ || lower == "tier2"@ || lower == "tier_2"@ {
        Some(Tier::Gvisor)
    } else if lower == "firecracker"@ || lower == "tier3"@ || lower == "tier_3"@ {
        Some(Tier::Firecracker)
    } else {
        None
    }
}

impl Tier {
    /// The default memory allocation for this tier, in MB.
    pub fn default_memory_mb(&self) -> (r: u32)
        ensures
            r == tier_memory(*self),
    {
        match self {
            Tier::Wasm => 128,
            Tier::Gvisor => 256,
            Tier::Firecracker => 512,
        }
    }

    /// The default CPU allocation for this tier.
    pub fn default_cpus(&self) -> (r: u32)
        ensures
            r == tier_cpus(*self),
    {
        match self {
            Tier::Wasm => 1,
            Tier::Gvisor => 1,
            Tier::Firecracker => 2,
        }
    }

    /// The name of the tier, as `Display` writes it.
    pub fn as_str(&self) -> (r: &'static str)
        ensures
            r@ == tier_name(*self),
    {
        proof {
            reveal_strlit("wasm");
            reveal_strlit("gvisor");
            reveal_strlit("firecracker");
        }
        match self {
            Tier::Wasm => "wasm",
            Tier::Gvisor => "gvisor",
            Tier::Firecracker => "firecracker",
        }
    }

    /// The name of the tier, as `Display` writes it.
    pub fn to_string(&self) -> (r: String)
        ensures
            r@ == tier_name(*self),
    {
        String::from_str(self.as_str())
    }

    /// The tier that `s` names, in any case: its name, `tierN` or `tier_N`;
    /// any other text is an invalid configuration.
    pub fn parse(s: &str) -> (r: Result<Tier, NanovmsError>)
        ensures
            is_ascii_text(s@) ==> lowercase_of(s@) == ascii_lowered(s@),
            match tier_named(lowercase_of(s@)) {
                Some(t) => r == Ok::<Tier, NanovmsError>(t),
                None => r matches Err(NanovmsError::InvalidConfig(m)) && m@ == "unknown tier: "@
                    + s@,
            },
    {
        let lower = to_lowercase(s);
        let l = lower.as_str();
        if str_eq(l, "wasm") || str_eq(l, "tier1") || str_eq(l, "tier_1") {
            Ok(Tier::Wasm)
        } else if str_eq(l, "gvisor") || str_eq(l, "tier2") || str_eq(l, "tier_2") {
            Ok(Tier::Gvisor)
        } else if str_eq(l, "firecracker") || str_eq(l, "tier3") || str_eq(l, "tier_3") {
            Ok(Tier::Firecracker)
        } else {
            let mut m = String::from_str("unknown tier: ");
            m.append(s);
            Err(NanovmsError::InvalidConfig(m))
        }
    }
}

impl std::str::FromStr for Tier {
    type Err = NanovmsError;

    /// The tier that `s` names, as `Tier::parse` reads it.
    fn from_str(s: &str) -> (r: Result<Tier, NanovmsError>)
        ensures
            is_ascii_text(s@) ==> lowercase_of(s@) == ascii_lowered(s@),
            match tier_named(lowercase_of(s@)) {
                Some(t) => r == Ok::<Tier, NanovmsError>(t),
                None => r matches Err(NanovmsError::InvalidConfig(m)) && m@ == "unknown tier: "@
                    + s@,
            },
    {
        Tier::parse(s)
    }
}

/// Network configuration for a sandbox.
#[derive(Debug)]
pub struct NetworkConfig {
    pub enabled: bool,
    pub ports: Vec<u16>,
    pub dns: Vec<String>,
}

/// Copies a list of port numbers.
fn copy_ports(v: &Vec<u16>) -> (r: Vec<u16>)
    ensures
        r@ == v@,
{
    let mut out: Vec<u16> = Vec::new();
    let mut i: usize = 0;
    while i < v.len()
        invariant
            i <= v@.len(),
            out@ == v@.take(i as int),
        decreases v@.len() - i,
    {
        out.push(v[i]);
        assert(v@.take(i + 1) =~= v@.take(i as int).push(v@[i as int]));
        i = i + 1;
    }
    assert(v@.take(v@.len() as int) =~= v@);
    out
}

/// Copies a list of texts.
pub fn copy_texts(v: &Vec<String>) -> (r: Vec<String>)
    ensures
        r@ == v@,
{
    let mut out: Vec<String> = Vec::new();
    let mut i: usize = 0;
    while i < v.len()
        invariant
            i <= v@.len(),
            out@ == v@.take(i as int),
        decreases v@.len() - i,
    {
        out.push(v[i].clone());
        assert(v@.take(i + 1) =~= v@.take(i as int).push(v@[i as int]));
        i = i + 1;
    }
    assert(v@.take(v@.len() as int) =~= v@);
    out
}

impl Clone for NetworkConfig {
    fn clone(&self) -> (r: Self)
        ensures
            r.enabled == self.enabled,
            r.ports@ == self.ports@,
            r.dns@ == self.dns@,
    {
        NetworkConfig {
            enabled: self.enabled,
            ports: copy_ports(&self.ports),
            dns: copy_texts(&self.dns),
        }
    }
}

impl Default for NetworkConfig {
    /// Networking on, no ports, and `8.8.8.8` as the name server.
    fn default() -> (r: Self)
        ensures
            r.enabled,
            r.ports@.len() == 0,
            r.dns@.len() == 1,
            r.dns@[0]@ == "8.8.8.8"@,
    {
        let mut dns: Vec<String> = Vec::new();
        dns.push(String::from_str("8.8.8.8"));
        NetworkConfig { enabled: true, ports: Vec::new(), dns }
    }
}

/// A volume mount.
#[derive(Debug)]
pub struct Mount {
    pub source: String,
    pub destination: String,
    pub read_only: bool,
}

impl Clone for Mount {
    fn clone(&self) -> (r: Self)
        ensures
            r == *self,
    {
        Mount {
            source: self.source.clone(),
            destination: self.destination.clone(),
            read_only: self.read_only,
        }
    }
}

impl Mount {
    /// A writable mount of `source` at `destination`.
    pub fn new(source: &str, destination: &str) -> (r: Self)
        ensures
            r.source@ == source@,
            r.destination@ == destination@,
            !r.read_only,
    {
        Mount {
            source: String::from_str(source),
            destination: String::from_str(destination),
            read_only: false,
        }
    }

    /// The same mount, read-only.
    pub fn read_only(self) -> (r: Self)
        ensures
            r.source == self.source,
            r.destination == self.destination,
            r.read_only,
    {
        Mount { read_only: true, ..self }
    }
}

/// Copies a list of mounts.
fn copy_mounts(v: &Vec<Mount>) -> (r: Vec<Mount>)
    ensures
        r@ == v@,
{
    let mut out: Vec<Mount> = Vec::new();
    let mut i: usize = 0;
    while i < v.len()
        invariant
            i <= v@.len(),
            out@ == v@.take(i as int),
        decreases v@.len() - i,
    {
        out.push(v[i].clone());
        assert(v@.take(i + 1) =~= v@.take(i as int).push(v@[i as int]));
        i = i + 1;
    }
    assert(v@.take(v@.len() as int) =~= v@);
    out
}

/// Configuration for creating a sandbox.
#[derive(Debug)]
pub struct SandboxConfig {
    /// Unique identifier (generated if not given).
    pub id: Option<String>,
    /// Human-readable name.
    pub name: String,
    /// Isolation tier.
    pub tier: Tier,
    /// Memory limit in MB.
    pub memory_mb: u32,
    /// Number of CPUs.
    pub cpus: u32,
    /// Environment variables.
    pub env: StrMap<String>,
    /// Working directory inside the sandbox.
    pub workdir: String,
    /// Timeout for operations.
    pub timeout: Duration,
    /// Network configuration.
    pub network: NetworkConfig,
    /// Volume mounts.
    pub mounts: Vec<Mount>,
    /// Additional metadata.
    pub labels: StrMap<String>,
}

/// Two configurations alike in every field, up to copies.
pub open spec fn same_config(a: SandboxConfig, b: SandboxConfig) -> bool {
    &&& a.id == b.id
    &&& a.name == b.name
    &&& a.tier == b.tier
    &&& a.memory_mb == b.memory_mb
    &&& a.cpus == b.cpus
    &&& a.env@ == b.env@
    &&& a.workdir == b.workdir
    &&& a.timeout == b.timeout
    &&& a.network.enabled == b.network.enabled
    &&& a.network.ports@ == b.network.ports@
    &&& a.network.dns@ == b.network.dns@
    &&& a.mounts@ == b.mounts@
    &&& a.labels@ == b.labels@
}

impl Clone for SandboxConfig {
    fn clone(&self) -> (r: Self)
        ensures
            same_config(r, *self),
    {
        SandboxConfig {
            id: crate::policy::rule::clone_opt_string(&self.id),
            name: self.name.clone(),
            tier: self.tier,
            memory_mb: self.memory_mb,
            cpus: self.cpus,
            env: self.env.clone_texts(),
            workdir: self.workdir.clone(),
            timeout: self.timeout,
            network: self.network.clone(),
            mounts: copy_mounts(&self.mounts),
            labels: self.labels.clone_texts(),
        }
    }
}

impl SandboxConfig {
    /// A configuration with the tier's defaults: its memory and CPUs, no
    /// environment, working directory `/`, a timeout of 30 seconds, the
    /// default network, no mounts and no labels.
    pub fn new(name: &str, tier: Tier) -> (r: Self)
        ensures
            r.id is None,
            r.name@ == name@,
            r.tier == tier,
            r.memory_mb == tier_memory(tier),
            r.cpus == tier_cpus(tier),
            r.env@.len() == 0,
            r.workdir@ == "/"@,
            r.timeout == span_of_secs(30),
            r.network.enabled,
            r.network.ports@.len() == 0,
            r.network.dns@.len() == 1,
            r.network.dns@[0]@ == "8.8.8.8"@,
            r.mounts@.len() == 0,
            r.labels@.len() == 0,
    {
        SandboxConfig {
            id: None,
            name: String::from_str(name),
            tier,
            memory_mb: tier.default_memory_mb(),
            cpus: tier.default_cpus(),
            env: StrMap::new(),
            workdir: String::from_str("/"),
            timeout: secs(30),
            network: NetworkConfig::default(),
            mounts: Vec::new(),
            labels: StrMap::new(),
        }
    }

    /// Sets a custom identifier.
    pub fn with_id(self, id: &str) -> (r: Self)
        ensures
            r == (SandboxConfig { id: r.id, ..self }),
            r.id matches Some(i) && i@ == id@,
    {
        SandboxConfig { id: Some(String::from_str(id)), ..self }
    }

    /// Sets the memory limit in MB.
    pub fn with_memory(self, mb: u32) -> (r: Self)
        ensures
            r == (SandboxConfig { memory_mb: mb, ..self }),
    {
        SandboxConfig { memory_mb: mb, ..self }
    }

    /// Sets the number of CPUs.
    pub fn with_cpus(self, count: u32) -> (r: Self)
        ensures
            r == (SandboxConfig { cpus: count, ..self }),
    {
        SandboxConfig { cpus: count, ..self }
    }

    /// Sets the timeout.
    pub fn with_timeout(self, duration: Duration) -> (r: Self)
        ensures
            r == (SandboxConfig { timeout: duration, ..self }),
    {
        SandboxConfig { timeout: duration, ..self }
    }

    /// Sets an environment variable, in place of any of that name.
    pub fn with_env(self, key: &str, value: &str) -> (r: Self)
        ensures
            r == (SandboxConfig { env: r.env, ..self }),
            text_map(r.env@) == text_map(self.env@).insert(key@, value@),
    {
        let mut c = self;
        let ghost before = c.env@;
        c.env.insert(String::from_str(key), String::from_str(value));
        assert(text_map(c.env@) =~= text_map(before).insert(key@, value@));
        c
    }

    /// Adds a volume mount after the others.
    pub fn with_mount(self, mount: Mount) -> (r: Self)
        ensures
            r == (SandboxConfig { mounts: r.mounts, ..self }),
            r.mounts@ == self.mounts@.push(mount),
    {
        let mut c = self;
        c.mounts.push(mount);
        c
    }

    /// Sets a label, in place of any of that name.
    pub fn with_label(self, key: &str, value: &str) -> (r: Self)
        ensures
            r == (SandboxConfig { labels: r.labels, ..self }),
            text_map(r.labels@) == text_map(self.labels@).insert(key@, value@),
    {
        let mut c = self;
        let ghost before = c.labels@;
        c.labels.insert(String::from_str(key), String::from_str(value));
        assert(text_map(c.labels@) =~= text_map(before).insert(key@, value@));
        c
    }

    /// The identifier, after giving the configuration a fresh random one if
    /// it had none.
    pub fn ensure_id(&mut self) -> (r: &str)
        ensures
            *final(self) == (SandboxConfig { id: final(self).id, ..*old(self) }),
            old(self).id is Some ==> final(self).id == old(self).id,
            old(self).id is None ==> (final(self).id matches Some(i) && is_uuid_text(i@)),
            final(self).id matches Some(i) && r@ == i@,
    {
        if self.id.is_none() {
            self.id = Some(new_uuid_text());
        }
        match &self.id {
            Some(i) => i.as_str(),
            None => "",
        }
    }
}

impl Default for SandboxConfig {
    /// The configuration `new("default", Tier::Wasm)`.
    fn default() -> (r: Self)
        ensures
            r.id is None,
            r.name@ == "default"@,
            r.tier == Tier::Wasm,
            r.memory_mb == 128,
            r.cpus == 1,
            r.env@.len() == 0,
            r.workdir@ == "/"@,
            r.timeout == span_of_secs(30),
            r.mounts@.len() == 0,
            r.labels@.len() == 0,
    {
        Self::new("default", Tier::Wasm)
    }
}

/// Output from a command execution.
#[derive(Debug)]
pub struct Output {
    pub stdout: String,
    pub stderr: String,
    pub exit_code: i32,
    pub duration: Duration,
}

impl Clone for Output {
    fn clone(&self) -> (r: Self)
        ensures
            r == *self,
    {
        Output {
            stdout: self.stdout.clone(),
            stderr: self.stderr.clone(),
            exit_code: self.exit_code,
            duration: self.duration,
        }
    }
}

/// Sandbox state.
#[derive(Debug, Clone, Copy, PartialEq, Eq, Structural)]
pub enum SandboxState {
    Pending,
    Creating,
    Running,
    Paused,
    Stopped,
    Deleting,
    Deleted,
    Error,
}

/// Sandbox metadata and status.
#[derive(Debug)]
pub struct Sandbox {
    pub id: String,
    pub name: String,
    pub tier: Tier,
    pub state: SandboxState,
    pub config: SandboxConfig,
    pub created_at: Timestamp,
    pub updated_at: Timestamp,
    pub ip_address: Option<String>,
}

/// Two sandboxes alike in every field, up to copies.
pub open spec fn same_sandbox(a: Sandbox, b: Sandbox) -> bool {
    &&& a.id == b.id
    &&& a.name == b.name
    &&& a.tier == b.tier
    &&& a.state == b.state
    &&& same_config(a.config, b.config)
    &&& a.created_at == b.created_at
    &&& a.updated_at == b.updated_at
    &&& a.ip_address == b.ip_address
}

impl Clone for Sandbox {
    fn clone(&self) -> (r: Self)
        ensures
            same_sandbox(r, *self),
    {
        Sandbox {
            id: self.id.clone(),
            name: self.name.clone(),
            tier: self.tier,
            state: self.state,
            config: self.config.clone(),
            created_at: self.created_at,
            updated_at: self.updated_at,
            ip_address: crate::policy::rule::clone_opt_string(&self.ip_address),
        }
    }
}

/// `s` is the pending sandbox made at `now` from `config`, under the
/// configured identifier or else under `fallback_id`.
pub open spec fn sandbox_from(s: Sandbox, config: SandboxConfig, fallback_id: Seq<char>, now: Timestamp) -> bool {
    &&& s.id@ == (match config.id {
        Some(i) => i@,
        None => fallback_id,
    })
    &&& s.name == config.name
    &&& s.tier == config.tier
    &&& s.state == SandboxState::Pending
    &&& same_config(s.config, config)
    &&& s.created_at == now
    &&& s.updated_at == now
    &&& s.ip_address is None
}

impl Sandbox {
    /// A pending sandbox made at `now` from `config`: it takes the
    /// configured identifier, or `fallback_id` where none is configured.
    pub fn from_config_at(config: SandboxConfig, fallback_id: String, now: Timestamp) -> (r: Self)
        ensures
            sandbox_from(r, config, fallback_id@, now),
    {
        let id = match &config.id {
            Some(i) => i.clone(),
            None => fallback_id,
        };
        let name = config.name.clone();
        let tier = config.tier;
        Sandbox {
            id,
            name,
            tier,
            state: SandboxState::Pending,
            config,
            created_at: now,
            updated_at: now,
            ip_address: None,
        }
    }

    /// A pending sandbox made now from `config`, under the configured
    /// identifier or else a fresh random one.
    pub fn from_config(config: SandboxConfig) -> (r: Self)
        ensures
            exists|fallback: Seq<char>, now: Timestamp|
                is_uuid_text(fallback) && sandbox_from(r, config, fallback, now),
    {
        let fallback = new_uuid_text();
        let now = Timestamp::now();
        let ghost f = fallback@;
        let r = Self::from_config_at(config, fallback, now);
        assert(is_uuid_text(f) && sandbox_from(r, config, f, now));
        r
    }
}

/// A snapshot of a sandbox.
#[derive(Debug)]
pub struct Snapshot {
    pub id: String,
    pub sandbox_id: String,
    pub name: String,
    pub created_at: Timestamp,
    pub size_bytes: u64,
    pub labels: StrMap<String>,
}

/// Two snapshots alike in every field, up to copies.
pub open spec fn same_snapshot(a: Snapshot, b: Snapshot) -> bool {
    &&& a.id == b.id
    &&& a.sandbox_id == b.sandbox_id
    &&& a.name == b.name
    &&& a.created_at == b.created_at
    &&& a.size_bytes == b.size_bytes
    &&& a.labels@ == b.labels@
}

impl Clone for Snapshot {
    fn clone(&self) -> (r: Self)
        ensures
            same_snapshot(r, *self),
    {
        Snapshot {
            id: self.id.clone(),
            sandbox_id: self.sandbox_id.clone(),
            name: self.name.clone(),
            created_at: self.created_at,
            size_bytes: self.size_bytes,
            labels: self.labels.clone_texts(),
        }
    }
}

} // verus!
