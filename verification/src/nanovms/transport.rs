//! The command-line transport: the OPS commands that carry out each sandbox
//! operation, and what their outputs mean.
use vstd::prelude::*;

use core::time::Duration;

use super::{
    outcome, sandbox_from, tier_name, NanovmsError, Output, Sandbox, SandboxConfig, Snapshot,
};
use crate::common::clock::Timestamp;
use crate::common::duration::{secs, span_of_secs};
use crate::common::ids::{is_uuid_text, new_uuid_text};
use crate::common::str_map::StrMap;
use crate::common::text::{
    decimal, find_last_word_of_line_with, last_word_of_line_with, push_all, str_texts, texts,
    u64_to_decimal,
};

verus! {

/// Command-line transport through the OPS binary.
#[derive(Debug)]
pub struct CliTransport {
    ops_path: String,
    config_path: Option<String>,
    timeout: Duration,
}

impl Clone for CliTransport {
    fn clone(&self) -> (r: Self)
        ensures
            r == *self,
    {
        CliTransport {
            ops_path: self.ops_path.clone(),
            config_path: crate::policy::rule::clone_opt_string(&self.config_path),
            timeout: self.timeout,
        }
    }
}

/// The operations of the transport whose failure is reported, and how.
#[derive(Debug, Clone, Copy, PartialEq, Eq, Structural)]
pub enum TransportAction {
    CreateSandbox,
    ListInstances,
    StartSandbox,
    StopSandbox,
    DeleteSandbox,
    CreateSnapshot,
    ListSnapshots,
    DeleteSnapshot,
}

/// What a failed operation was trying to do.
pub open spec fn transport_action_text(a: TransportAction) -> Seq<char> {
    match a {
        TransportAction::CreateSandbox => "create sandbox"@,
        TransportAction::ListInstances => "list instances"@,
        TransportAction::StartSandbox => "start sandbox"@,
        TransportAction::StopSandbox => "stop sandbox"@,
        TransportAction::DeleteSandbox => "delete sandbox"@,
        TransportAction::CreateSnapshot => "create snapshot"@,
        TransportAction::ListSnapshots => "list snapshots"@,
        TransportAction::DeleteSnapshot => "delete snapshot"@,
    }
}

/// Listing failures are transport errors; the others are failed executions.
pub open spec fn is_listing(a: TransportAction) -> bool {
    a == TransportAction::ListInstances || a == TransportAction::ListSnapshots
}

fn transport_action_str(a: TransportAction) -> (r: &'static str)
    ensures
        r@ == transport_action_text(a),
{
    match a {
        TransportAction::CreateSandbox => "create sandbox",
        TransportAction::ListInstances => "list instances",
        TransportAction::StartSandbox => "start sandbox",
        TransportAction::StopSandbox => "stop sandbox",
        TransportAction::DeleteSandbox => "delete sandbox",
        TransportAction::CreateSnapshot => "create snapshot",
        TransportAction::ListSnapshots => "list snapshots",
        TransportAction::DeleteSnapshot => "delete snapshot",
    }
}

/// `r` is what a run of `action` that gave `out` means: success where the
/// exit code is zero, else an error that quotes the error output.
pub open spec fn transport_checked(
    out: Output,
    action: TransportAction,
    r: Result<(), NanovmsError>,
) -> bool {
    if out.exit_code == 0 {
        r is Ok
    } else {
        let m = "Failed to "@ + transport_action_text(action) + ": "@ + out.stderr@;
        if is_listing(action) {
            r matches Err(NanovmsError::Transport(t)) && t@ == m
        } else {
            r matches Err(NanovmsError::ExecutionFailed(t)) && t@ == m
        }
    }
}

/// The identifier under which OPS reports a created instance: the last
/// word of the first line of its output that mentions `instance`.
pub open spec fn reported_instance_id(stdout: Seq<char>) -> Option<Seq<char>> {
    last_word_of_line_with(stdout, "instance"@)
}

/// The identifier of a sandbox created from `config`: the configured one,
/// else the one OPS reported, else `fresh`.
pub open spec fn created_sandbox_id(config: SandboxConfig, stdout: Seq<char>, fresh: Seq<char>) -> Seq<
    char,
> {
    match config.id {
        Some(i) => i@,
        None => match reported_instance_id(stdout) {
            Some(w) => w,
            None => fresh,
        },
    }
}

impl CliTransport {
    /// A transport through the binary `ops`, with no configuration file and
    /// a timeout of 60 seconds.
    pub fn new() -> (r: Self)
        ensures
            r.ops_path()@ == "ops"@,
            r.config_path() is None,
            r.timeout() == span_of_secs(60),
    {
        CliTransport { ops_path: String::from_str("ops"), config_path: None, timeout: secs(60) }
    }

    /// The path of the OPS binary.
    pub closed spec fn ops_path(&self) -> String {
        self.ops_path
    }

    /// The configuration file, if any.
    pub closed spec fn config_path(&self) -> Option<String> {
        self.config_path
    }

    /// The timeout of each command.
    pub closed spec fn timeout(&self) -> Duration {
        self.timeout
    }

    /// Sets the OPS binary path.
    pub fn with_ops_path(self, path: &str) -> (r: Self)
        ensures
            r.ops_path()@ == path@,
            r.config_path() == self.config_path(),
            r.timeout() == self.timeout(),
    {
        CliTransport { ops_path: String::from_str(path), ..self }
    }

    /// Sets the configuration file.
    pub fn with_config(self, path: &str) -> (r: Self)
        ensures
            r.ops_path() == self.ops_path(),
            r.config_path() matches Some(p) && p@ == path@,
            r.timeout() == self.timeout(),
    {
        CliTransport { config_path: Some(String::from_str(path)), ..self }
    }

    /// Sets the timeout of each command.
    pub fn with_timeout(self, duration: Duration) -> (r: Self)
        ensures
            r.ops_path() == self.ops_path(),
            r.config_path() == self.config_path(),
            r.timeout() == duration,
    {
        CliTransport { timeout: duration, ..self }
    }

    /// The OPS binary that commands run.
    pub fn program(&self) -> (r: &str)
        ensures
            r@ == self.ops_path()@,
    {
        self.ops_path.as_str()
    }

    /// How long a command may run.
    pub fn command_timeout(&self) -> (r: Duration)
        ensures
            r == self.timeout(),
    {
        self.timeout
    }

    /// The arguments that running OPS with `args` passes: `args`, then
    /// `--config FILE` where a file is configured.
    pub fn command_args(&self, args: &[&str]) -> (r: Vec<String>)
        ensures
            texts(r@) == str_texts(args@) + (match self.config_path() {
                Some(p) => seq!["--config"@, p@],
                None => Seq::empty(),
            }),
    {
        let mut out: Vec<String> = Vec::new();
        push_all(&mut out, args);
        assert(texts(Seq::<String>::empty()) + str_texts(args@) =~= str_texts(args@));
        match &self.config_path {
            Some(p) => {
                push_all(&mut out, &["--config", p.as_str()]);
            },
            None => {
                assert(str_texts(args@) + Seq::<Seq<char>>::empty() =~= str_texts(args@));
            },
        }
        out
    }

    /// What a run of `action` that gave `output` means.
    pub fn check(output: &Output, action: TransportAction) -> (r: Result<(), NanovmsError>)
        ensures
            transport_checked(*output, action, r),
    {
        if output.exit_code == 0 {
            return Ok(());
        }
        let mut m = String::from_str("Failed to ");
        m.append(transport_action_str(action));
        m.append(": ");
        m.append(output.stderr.as_str());
        match action {
            TransportAction::ListInstances | TransportAction::ListSnapshots => Err(
                NanovmsError::Transport(m),
            ),
            _ => Err(NanovmsError::ExecutionFailed(m)),
        }
    }

    /// The arguments that create a sandbox for `config`: its name, its
    /// tier as the platform and its memory in MB.
    pub fn create_sandbox_args(config: &SandboxConfig) -> (r: Vec<String>)
        ensures
            texts(r@) == seq![
                "instance"@,
                "create"@,
                "-n"@,
                config.name@,
                "-p"@,
                tier_name(config.tier),
                "-m"@,
                decimal(config.memory_mb as nat),
            ],
    {
        let mem = u64_to_decimal(config.memory_mb as u64);
        let mut out: Vec<String> = Vec::new();
        push_all(
            &mut out,
            &[
                "instance",
                "create",
                "-n",
                config.name.as_str(),
                "-p",
                config.tier.as_str(),
                "-m",
                mem.as_str(),
            ],
        );
        assert(texts(out@) =~= seq![
            "instance"@,
            "create"@,
            "-n"@,
            config.name@,
            "-p"@,
            tier_name(config.tier),
            "-m"@,
            decimal(config.memory_mb as nat),
        ]);
        out
    }

    /// The sandbox that a creation for `config` that gave `output` made at
    /// `now`: it takes the configured identifier, else the one OPS reported,
    /// else `fresh_id`.
    pub fn sandbox_created(
        config: &SandboxConfig,
        output: &Output,
        fresh_id: String,
        now: Timestamp,
    ) -> (r: Result<Sandbox, NanovmsError>)
        ensures
            transport_checked(*output, TransportAction::CreateSandbox, outcome(r)),
            r matches Ok(s) ==> s.id@ == created_sandbox_id(*config, output.stdout@, fresh_id@)
                && sandbox_from(s, *config, s.id@, now),
    {
        match Self::check(output, TransportAction::CreateSandbox) {
            Err(e) => Err(e),
            Ok(()) => {
                let fallback = match &config.id {
                    Some(i) => i.clone(),
                    None => match find_last_word_of_line_with(output.stdout.as_str(), "instance") {
                        Some(w) => w,
                        None => fresh_id,
                    },
                };
                let s = Sandbox::from_config_at(config.clone(), fallback, now);
                Ok(s)
            },
        }
    }

    /// The sandbox that a creation for `config` that gave `output` made now:
    /// it takes the configured identifier, else the one OPS reported, else a
    /// fresh random one.
    pub fn create_sandbox_result(config: &SandboxConfig, output: &Output) -> (r: Result<
        Sandbox,
        NanovmsError,
    >)
        ensures
            transport_checked(*output, TransportAction::CreateSandbox, outcome(r)),
            r matches Ok(s) ==> exists|fresh: Seq<char>, now: Timestamp|
                is_uuid_text(fresh) && s.id@ == created_sandbox_id(*config, output.stdout@, fresh)
                    && sandbox_from(s, *config, s.id@, now),
    {
        let fresh = new_uuid_text();
        let ghost f = fresh@;
        let now = Timestamp::now();
        let r = Self::sandbox_created(config, output, fresh, now);
        proof {
            if r is Ok {
                let s = r->Ok_0;
                assert(is_uuid_text(f) && s.id@ == created_sandbox_id(*config, output.stdout@, f)
                    && sandbox_from(s, *config, s.id@, now));
            }
        }
        r
    }

    /// The arguments that list instances.
    pub fn list_instances_args() -> (r: Vec<String>)
        ensures
            texts(r@) == seq!["instance"@, "list"@, "-j"@],
    {
        let mut out: Vec<String> = Vec::new();
        push_all(&mut out, &["instance", "list", "-j"]);
        assert(texts(out@) =~= seq!["instance"@, "list"@, "-j"@]);
        out
    }

    /// What a listing made to find the sandbox `id` means: the listing is
    /// not read, so a successful one finds nothing.
    pub fn get_sandbox_result(id: &str, output: &Output) -> (r: Result<Sandbox, NanovmsError>)
        ensures
            output.exit_code != 0 ==> transport_checked(
                *output,
                TransportAction::ListInstances,
                outcome(r),
            ),
            output.exit_code == 0 ==> (r matches Err(NanovmsError::SandboxNotFound(m)) && m@
                == id@),
    {
        match Self::check(output, TransportAction::ListInstances) {
            Err(e) => Err(e),
            Ok(()) => Err(NanovmsError::SandboxNotFound(String::from_str(id))),
        }
    }

    /// What a listing of sandboxes means: the listing is not read, so a
    /// successful one lists none.
    pub fn list_sandboxes_result(output: &Output) -> (r: Result<Vec<Sandbox>, NanovmsError>)
        ensures
            transport_checked(*output, TransportAction::ListInstances, outcome(r)),
            r matches Ok(v) ==> v@.len() == 0,
    {
        match Self::check(output, TransportAction::ListInstances) {
            Err(e) => Err(e),
            Ok(()) => Ok(Vec::new()),
        }
    }

    /// The arguments that start the sandbox `id`.
    pub fn start_sandbox_args(id: &str) -> (r: Vec<String>)
        ensures
            texts(r@) == seq!["instance"@, "start"@, id@],
    {
        let mut out: Vec<String> = Vec::new();
        push_all(&mut out, &["instance", "start", id]);
        assert(texts(out@) =~= seq!["instance"@, "start"@, id@]);
        out
    }

    /// The arguments that stop the sandbox `id`.
    pub fn stop_sandbox_args(id: &str) -> (r: Vec<String>)
        ensures
            texts(r@) == seq!["instance"@, "stop"@, id@],
    {
        let mut out: Vec<String> = Vec::new();
        push_all(&mut out, &["instance", "stop", id]);
        assert(texts(out@) =~= seq!["instance"@, "stop"@, id@]);
        out
    }

    /// The arguments that delete the sandbox `id`.
    pub fn delete_sandbox_args(id: &str) -> (r: Vec<String>)
        ensures
            texts(r@) == seq!["instance"@, "delete"@, "-y"@, id@],
    {
        let mut out: Vec<String> = Vec::new();
        push_all(&mut out, &["instance", "delete", "-y", id]);
        assert(texts(out@) =~= seq!["instance"@, "delete"@, "-y"@, id@]);
        out
    }

    /// What executing a command through this transport gives: OPS cannot
    /// run commands in an instance, so a failed output that says so.
    pub fn execute_output() -> (r: Output)
        ensures
            r.stdout@.len() == 0,
            r.stderr@ == "Execution via CLI transport not implemented"@,
            r.exit_code == -1,
            r.duration == span_of_secs(0),
    {
        Output {
            stdout: String::new(),
            stderr: String::from_str("Execution via CLI transport not implemented"),
            exit_code: -1,
            duration: secs(0),
        }
    }

    /// The arguments that snapshot the sandbox `sandbox_id` as `name`.
    pub fn create_snapshot_args(sandbox_id: &str, name: &str) -> (r: Vec<String>)
        ensures
            texts(r@) == seq!["image"@, "create"@, "--instance"@, sandbox_id@, "-n"@, name@],
    {
        let mut out: Vec<String> = Vec::new();
        push_all(&mut out, &["image", "create", "--instance", sandbox_id, "-n", name]);
        assert(texts(out@) =~= seq![
            "image"@,
            "create"@,
            "--instance"@,
            sandbox_id@,
            "-n"@,
            name@,
        ]);
        out
    }

    /// The snapshot `name` of `sandbox_id` that a run that gave `output`
    /// made at `now`, under the identifier `id`.
    pub fn snapshot_created(
        sandbox_id: &str,
        name: &str,
        output: &Output,
        id: String,
        now: Timestamp,
    ) -> (r: Result<Snapshot, NanovmsError>)
        ensures
            transport_checked(*output, TransportAction::CreateSnapshot, outcome(r)),
            r matches Ok(s) ==> s.id == id && s.sandbox_id@ == sandbox_id@ && s.name@ == name@
                && s.created_at == now && s.size_bytes == 0 && s.labels@.len() == 0,
    {
        match Self::check(output, TransportAction::CreateSnapshot) {
            Err(e) => Err(e),
            Ok(()) => Ok(
                Snapshot {
                    id,
                    sandbox_id: String::from_str(sandbox_id),
                    name: String::from_str(name),
                    created_at: now,
                    size_bytes: 0,
                    labels: StrMap::new(),
                },
            ),
        }
    }

    /// The snapshot that a run that gave `output` made now, under a fresh
    /// random identifier.
    pub fn create_snapshot_result(sandbox_id: &str, name: &str, output: &Output) -> (r: Result<
        Snapshot,
        NanovmsError,
    >)
        ensures
            transport_checked(*output, TransportAction::CreateSnapshot, outcome(r)),
            r matches Ok(s) ==> is_uuid_text(s.id@) && s.sandbox_id@ == sandbox_id@ && s.name@
                == name@ && s.size_bytes == 0 && s.labels@.len() == 0,
    {
        Self::snapshot_created(sandbox_id, name, output, new_uuid_text(), Timestamp::now())
    }

    /// The arguments that list images, where snapshots are kept.
    pub fn list_snapshots_args() -> (r: Vec<String>)
        ensures
            texts(r@) == seq!["image"@, "list"@, "-j"@],
    {
        let mut out: Vec<String> = Vec::new();
        push_all(&mut out, &["image", "list", "-j"]);
        assert(texts(out@) =~= seq!["image"@, "list"@, "-j"@]);
        out
    }

    /// What a listing of snapshots means: the listing is not read, so a
    /// successful one lists none.
    pub fn list_snapshots_result(output: &Output) -> (r: Result<Vec<Snapshot>, NanovmsError>)
        ensures
            transport_checked(*output, TransportAction::ListSnapshots, outcome(r)),
            r matches Ok(v) ==> v@.len() == 0,
    {
        match Self::check(output, TransportAction::ListSnapshots) {
            Err(e) => Err(e),
            Ok(()) => Ok(Vec::new()),
        }
    }

    /// Restoring a snapshot: OPS offers no way to do it, so it always fails.
    pub fn restore_snapshot_error() -> (r: NanovmsError)
        ensures
            r matches NanovmsError::Unknown(m) && m@ == "Snapshot restore not implemented"@,
    {
        NanovmsError::Unknown(String::from_str("Snapshot restore not implemented"))
    }

    /// The arguments that delete the snapshot image `snapshot_id`.
    pub fn delete_snapshot_args(snapshot_id: &str) -> (r: Vec<String>)
        ensures
            texts(r@) == seq!["image"@, "delete"@, "-y"@, snapshot_id@],
    {
        let mut out: Vec<String> = Vec::new();
        push_all(&mut out, &["image", "delete", "-y", snapshot_id]);
        assert(texts(out@) =~= seq!["image"@, "delete"@, "-y"@, snapshot_id@]);
        out
    }
}

impl Default for CliTransport {
    fn default() -> (r: Self)
        ensures
            r.ops_path()@ == "ops"@,
            r.config_path() is None,
            r.timeout() == span_of_secs(60),
    {
        Self::new()
    }
}

} // verus!
