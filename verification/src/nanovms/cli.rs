//! The OPS command line: its configuration, the arguments of each command,
//! and what each command's output means.
use vstd::prelude::*;

use core::time::Duration;

use super::{outcome, NanovmsError, Output};
use crate::common::clock::{is_rfc3339_instant, now_rfc3339};
use crate::common::duration::{secs, span_of_secs};
use crate::common::ids::{is_uuid_text, new_uuid_text};
use crate::common::text::{push_all, str_texts, texts, trim, trimmed};

verus! {

/// Configuration of the OPS command line.
#[derive(Debug)]
pub struct OpsConfig {
    /// Path to the ops binary.
    pub ops_path: String,
    /// Default provider (onprem, aws, gcp, azure).
    pub provider: String,
    /// Configuration file path.
    pub config_file: Option<String>,
    /// Default zone or region.
    pub zone: Option<String>,
    /// Default project.
    pub project: Option<String>,
    /// Debug mode.
    pub debug: bool,
    /// Timeout for operations.
    pub timeout: Duration,
}

/// The global flags of a configuration: `--config FILE` where a file is
/// configured, then `--debug` in debug mode.
pub open spec fn global_args(c: OpsConfig) -> Seq<Seq<char>> {
    let file: Seq<Seq<char>> = match c.config_file {
        Some(f) => seq!["--config"@, f@],
        None => Seq::empty(),
    };
    let debug: Seq<Seq<char>> = if c.debug {
        seq!["--debug"@]
    } else {
        Seq::empty()
    };
    file + debug
}

impl Clone for OpsConfig {
    fn clone(&self) -> (r: Self)
        ensures
            r == *self,
    {
        OpsConfig {
            ops_path: self.ops_path.clone(),
            provider: self.provider.clone(),
            config_file: crate::policy::rule::clone_opt_string(&self.config_file),
            zone: crate::policy::rule::clone_opt_string(&self.zone),
            project: crate::policy::rule::clone_opt_string(&self.project),
            debug: self.debug,
            timeout: self.timeout,
        }
    }
}

impl OpsConfig {
    /// The default configuration: binary `ops`, provider `onprem`, no
    /// configuration file, zone or project, no debug, 60 seconds.
    pub fn new() -> (r: Self)
        ensures
            r.ops_path@ == "ops"@,
            r.provider@ == "onprem"@,
            r.config_file is None,
            r.zone is None,
            r.project is None,
            !r.debug,
            r.timeout == span_of_secs(60),
    {
        OpsConfig {
            ops_path: String::from_str("ops"),
            provider: String::from_str("onprem"),
            config_file: None,
            zone: None,
            project: None,
            debug: false,
            timeout: secs(60),
        }
    }

    /// Sets the OPS binary path.
    pub fn with_ops_path(self, path: &str) -> (r: Self)
        ensures
            r == (OpsConfig { ops_path: r.ops_path, ..self }),
            r.ops_path@ == path@,
    {
        OpsConfig { ops_path: String::from_str(path), ..self }
    }

    /// Sets the provider.
    pub fn with_provider(self, provider: &str) -> (r: Self)
        ensures
            r == (OpsConfig { provider: r.provider, ..self }),
            r.provider@ == provider@,
    {
        OpsConfig { provider: String::from_str(provider), ..self }
    }

    /// Sets the configuration file.
    pub fn with_config_file(self, path: &str) -> (r: Self)
        ensures
            r == (OpsConfig { config_file: r.config_file, ..self }),
            r.config_file matches Some(f) && f@ == path@,
    {
        OpsConfig { config_file: Some(String::from_str(path)), ..self }
    }

    /// Sets the zone or region.
    pub fn with_zone(self, zone: &str) -> (r: Self)
        ensures
            r == (OpsConfig { zone: r.zone, ..self }),
            r.zone matches Some(z) && z@ == zone@,
    {
        OpsConfig { zone: Some(String::from_str(zone)), ..self }
    }

    /// Sets the project.
    pub fn with_project(self, project: &str) -> (r: Self)
        ensures
            r == (OpsConfig { project: r.project, ..self }),
            r.project matches Some(p) && p@ == project@,
    {
        OpsConfig { project: Some(String::from_str(project)), ..self }
    }

    /// Sets debug mode.
    pub fn with_debug(self, debug: bool) -> (r: Self)
        ensures
            r == (OpsConfig { debug, ..self }),
    {
        OpsConfig { debug, ..self }
    }

    /// Sets the timeout.
    pub fn with_timeout(self, timeout: Duration) -> (r: Self)
        ensures
            r == (OpsConfig { timeout, ..self }),
    {
        OpsConfig { timeout, ..self }
    }

    /// The global flags, as command-line arguments.
    pub fn build_global_args(&self) -> (r: Vec<String>)
        ensures
            texts(r@) == global_args(*self),
    {
        let mut args: Vec<String> = Vec::new();
        match &self.config_file {
            Some(f) => {
                args.push(String::from_str("--config"));
                args.push(f.clone());
            },
            None => {},
        }
        let ghost mid = texts(args@);
        if self.debug {
            args.push(String::from_str("--debug"));
        }
        assert(texts(args@) =~= global_args(*self));
        args
    }
}

impl Default for OpsConfig {
    fn default() -> (r: Self)
        ensures
            r.ops_path@ == "ops"@,
            r.provider@ == "onprem"@,
            r.config_file is None,
            r.zone is None,
            r.project is None,
            !r.debug,
            r.timeout == span_of_secs(60),
    {
        Self::new()
    }
}

/// An OPS instance.
#[derive(Debug, Clone)]
pub struct OpsInstance {
    pub id: String,
    pub name: String,
    pub status: String,
    pub created: String,
    pub private_ip: Option<String>,
    pub public_ip: Option<String>,
    pub image: String,
}

/// An OPS image.
#[derive(Debug, Clone)]
pub struct OpsImage {
    pub id: String,
    pub name: String,
    pub path: String,
    pub size: u64,
    pub created: String,
}

/// An OPS volume.
#[derive(Debug, Clone)]
pub struct OpsVolume {
    pub id: String,
    pub name: String,
    pub size: u64,
    pub status: String,
    pub attached_to: Option<String>,
}

/// The operations of the OPS command line whose failure is reported.
#[derive(Debug, Clone, Copy, PartialEq, Eq, Structural)]
pub enum OpsAction {
    BuildImage,
    ListImages,
    DeleteImage,
    CreateInstance,
    ListInstances,
    StartInstance,
    StopInstance,
    DeleteInstance,
    GetLogs,
    ShowInstance,
    ListPackages,
    GetPackage,
    DescribePackage,
}

/// What a failed operation was trying to do.
pub open spec fn action_text(a: OpsAction) -> Seq<char> {
    match a {
        OpsAction::BuildImage => "build image"@,
        OpsAction::ListImages => "list images"@,
        OpsAction::DeleteImage => "delete image"@,
        OpsAction::CreateInstance => "create instance"@,
        OpsAction::ListInstances => "list instances"@,
        OpsAction::StartInstance => "start instance"@,
        OpsAction::StopInstance => "stop instance"@,
        OpsAction::DeleteInstance => "delete instance"@,
        OpsAction::GetLogs => "get logs"@,
        OpsAction::ShowInstance => "get instance info"@,
        OpsAction::ListPackages => "list packages"@,
        OpsAction::GetPackage => "get package"@,
        OpsAction::DescribePackage => "describe package"@,
    }
}

fn action_str(a: OpsAction) -> (r: &'static str)
    ensures
        r@ == action_text(a),
{
    match a {
        OpsAction::BuildImage => "build image",
        OpsAction::ListImages => "list images",
        OpsAction::DeleteImage => "delete image",
        OpsAction::CreateInstance => "create instance",
        OpsAction::ListInstances => "list instances",
        OpsAction::StartInstance => "start instance",
        OpsAction::StopInstance => "stop instance",
        OpsAction::DeleteInstance => "delete instance",
        OpsAction::GetLogs => "get logs",
        OpsAction::ShowInstance => "get instance info",
        OpsAction::ListPackages => "list packages",
        OpsAction::GetPackage => "get package",
        OpsAction::DescribePackage => "describe package",
    }
}

/// `r` is what a run of `action` that gave `out` means: success where the
/// exit code is zero, else a failed execution that quotes the error output.
pub open spec fn checked_run(out: Output, action: OpsAction, r: Result<(), NanovmsError>) -> bool {
    if out.exit_code == 0 {
        r is Ok
    } else {
        r matches Err(NanovmsError::ExecutionFailed(m)) && m@ == "Failed to "@ + action_text(action)
            + ": "@ + out.stderr@
    }
}

/// Low-level OPS command-line wrapper.
#[derive(Debug)]
pub struct OpsCli {
    config: OpsConfig,
}

impl Clone for OpsCli {
    fn clone(&self) -> (r: Self)
        ensures
            r@ == self@,
    {
        OpsCli { config: self.config.clone() }
    }
}

impl View for OpsCli {
    type V = OpsConfig;

    closed spec fn view(&self) -> OpsConfig {
        self.config
    }
}

impl OpsCli {
    /// A wrapper with the default configuration.
    pub fn new() -> (r: Self)
        ensures
            r@.ops_path@ == "ops"@,
            r@.provider@ == "onprem"@,
            r@.config_file is None,
            r@.zone is None,
            r@.project is None,
            !r@.debug,
            r@.timeout == span_of_secs(60),
    {
        OpsCli { config: OpsConfig::new() }
    }

    /// A wrapper with the given configuration.
    pub fn with_config(config: OpsConfig) -> (r: Self)
        ensures
            r@ == config,
    {
        OpsCli { config }
    }

    /// The configuration.
    pub fn config(&self) -> (r: &OpsConfig)
        ensures
            *r == self@,
    {
        &self.config
    }

    /// The arguments that running the OPS binary with `args` passes: the
    /// global flags, then `args`.
    pub fn command_args(&self, args: &[&str]) -> (r: Vec<String>)
        ensures
            texts(r@) == global_args(self@) + str_texts(args@),
    {
        let mut out = self.config.build_global_args();
        push_all(&mut out, args);
        out
    }

    /// What a run of `action` that gave `output` means.
    pub fn check(output: &Output, action: OpsAction) -> (r: Result<(), NanovmsError>)
        ensures
            checked_run(*output, action, r),
    {
        if output.exit_code == 0 {
            Ok(())
        } else {
            let mut m = String::from_str("Failed to ");
            m.append(action_str(action));
            m.append(": ");
            m.append(output.stderr.as_str());
            Err(NanovmsError::ExecutionFailed(m))
        }
    }

    /// The arguments that build the image `name` from `binary` (`.` where
    /// the binary's path is not text).
    pub fn build_image_args(binary: Option<&str>, name: &str) -> (r: Vec<String>)
        ensures
            texts(r@) == seq![
                "image"@,
                "create"@,
                "-n"@,
                name@,
                match binary {
                    Some(b) => b@,
                    None => "."@,
                },
            ],
    {
        let b = match binary {
            Some(b) => b,
            None => ".",
        };
        let mut out: Vec<String> = Vec::new();
        push_all(&mut out, &["image", "create", "-n", name, b]);
        assert(texts(out@) =~= seq!["image"@, "create"@, "-n"@, name@, b@]);
        out
    }

    /// The image that a build of `name` that gave `output` made, under the
    /// identifier `id` and created at `created`.
    pub fn image_built(name: &str, output: &Output, id: String, created: String) -> (r: Result<
        OpsImage,
        NanovmsError,
    >)
        ensures
            checked_run(*output, OpsAction::BuildImage, outcome(r)),
            r matches Ok(img) ==> img.id == id && img.name@ == name@ && img.path@
                == "~/.ops/images/"@ + name@ && img.size == 0 && img.created == created,
    {
        match Self::check(output, OpsAction::BuildImage) {
            Err(e) => Err(e),
            Ok(()) => {
                let mut path = String::from_str("~/.ops/images/");
                path.append(name);
                Ok(OpsImage { id, name: String::from_str(name), path, size: 0, created })
            },
        }
    }

    /// The image that a build of `name` that gave `output` made, under a
    /// fresh random identifier and created now.
    pub fn build_image_result(name: &str, output: &Output) -> (r: Result<OpsImage, NanovmsError>)
        ensures
            checked_run(*output, OpsAction::BuildImage, outcome(r)),
            r matches Ok(img) ==> img.name@ == name@ && img.path@ == "~/.ops/images/"@ + name@
                && img.size == 0 && is_uuid_text(img.id@) && is_rfc3339_instant(img.created@),
    {
        Self::image_built(name, output, new_uuid_text(), now_rfc3339())
    }

    /// The arguments that list images.
    pub fn list_images_args() -> (r: Vec<String>)
        ensures
            texts(r@) == seq!["image"@, "list"@, "-j"@],
    {
        let mut out: Vec<String> = Vec::new();
        push_all(&mut out, &["image", "list", "-j"]);
        assert(texts(out@) =~= seq!["image"@, "list"@, "-j"@]);
        out
    }

    /// The arguments that delete the image `name`.
    pub fn delete_image_args(name: &str) -> (r: Vec<String>)
        ensures
            texts(r@) == seq!["image"@, "delete"@, "-y"@, name@],
    {
        let mut out: Vec<String> = Vec::new();
        push_all(&mut out, &["image", "delete", "-y", name]);
        assert(texts(out@) =~= seq!["image"@, "delete"@, "-y"@, name@]);
        out
    }

    /// The arguments that create the instance `name` from `image` with the
    /// configured provider.
    pub fn create_instance_args(&self, image: &str, name: &str) -> (r: Vec<String>)
        ensures
            texts(r@) == seq![
                "instance"@,
                "create"@,
                "-i"@,
                image@,
                "-n"@,
                name@,
                "-t"@,
                self@.provider@,
            ],
    {
        let mut out: Vec<String> = Vec::new();
        push_all(
            &mut out,
            &["instance", "create", "-i", image, "-n", name, "-t", self.config.provider.as_str()],
        );
        assert(texts(out@) =~= seq![
            "instance"@,
            "create"@,
            "-i"@,
            image@,
            "-n"@,
            name@,
            "-t"@,
            self@.provider@,
        ]);
        out
    }

    /// The pending instance `name` of `image` that a creation that gave
    /// `output` made, under the identifier `id` and created at `created`.
    pub fn instance_created(
        image: &str,
        name: &str,
        output: &Output,
        id: String,
        created: String,
    ) -> (r: Result<OpsInstance, NanovmsError>)
        ensures
            checked_run(*output, OpsAction::CreateInstance, outcome(r)),
            r matches Ok(i) ==> i.id == id && i.name@ == name@ && i.status@ == "pending"@
                && i.created == created && i.private_ip is None && i.public_ip is None && i.image@
                == image@,
    {
        match Self::check(output, OpsAction::CreateInstance) {
            Err(e) => Err(e),
            Ok(()) => Ok(
                OpsInstance {
                    id,
                    name: String::from_str(name),
                    status: String::from_str("pending"),
                    created,
                    private_ip: None,
                    public_ip: None,
                    image: String::from_str(image),
                },
            ),
        }
    }

    /// The pending instance that a creation that gave `output` made, under a
    /// fresh random identifier and created now.
    pub fn create_instance_result(image: &str, name: &str, output: &Output) -> (r: Result<
        OpsInstance,
        NanovmsError,
    >)
        ensures
            checked_run(*output, OpsAction::CreateInstance, outcome(r)),
            r matches Ok(i) ==> i.name@ == name@ && i.status@ == "pending"@ && i.private_ip is None
                && i.public_ip is None && i.image@ == image@ && is_uuid_text(i.id@)
                && is_rfc3339_instant(i.created@),
    {
        Self::instance_created(image, name, output, new_uuid_text(), now_rfc3339())
    }

    /// The arguments of an instance command `verb` with the configured
    /// provider: `instance VERB [FLAG] ID -t PROVIDER`.
    fn instance_args(&self, verb: &str, flag: Option<&str>, id: &str) -> (r: Vec<String>)
        ensures
            texts(r@) == seq!["instance"@, verb@] + (match flag {
                Some(f) => seq![f@],
                None => Seq::empty(),
            }) + seq![id@, "-t"@, self@.provider@],
    {
        let mut out: Vec<String> = Vec::new();
        push_all(&mut out, &["instance", verb]);
        match flag {
            Some(f) => push_all(&mut out, &[f]),
            None => {},
        }
        push_all(&mut out, &[id, "-t", self.config.provider.as_str()]);
        out
    }

    /// The arguments that list instances with the configured provider.
    pub fn list_instances_args(&self) -> (r: Vec<String>)
        ensures
            texts(r@) == seq!["instance"@, "list"@, "-j"@, "-t"@, self@.provider@],
    {
        let mut out: Vec<String> = Vec::new();
        push_all(&mut out, &["instance", "list", "-j", "-t", self.config.provider.as_str()]);
        assert(texts(out@) =~= seq!["instance"@, "list"@, "-j"@, "-t"@, self@.provider@]);
        out
    }

    /// The arguments that start the instance `id`.
    pub fn start_instance_args(&self, id: &str) -> (r: Vec<String>)
        ensures
            texts(r@) == seq!["instance"@, "start"@, id@, "-t"@, self@.provider@],
    {
        let r = self.instance_args("start", None, id);
        assert(texts(r@) =~= seq!["instance"@, "start"@, id@, "-t"@, self@.provider@]);
        r
    }

    /// The arguments that stop the instance `id`.
    pub fn stop_instance_args(&self, id: &str) -> (r: Vec<String>)
        ensures
            texts(r@) == seq!["instance"@, "stop"@, id@, "-t"@, self@.provider@],
    {
        let r = self.instance_args("stop", None, id);
        assert(texts(r@) =~= seq!["instance"@, "stop"@, id@, "-t"@, self@.provider@]);
        r
    }

    /// The arguments that delete the instance `id`.
    pub fn delete_instance_args(&self, id: &str) -> (r: Vec<String>)
        ensures
            texts(r@) == seq!["instance"@, "delete"@, "-y"@, id@, "-t"@, self@.provider@],
    {
        let r = self.instance_args("delete", Some("-y"), id);
        assert(texts(r@) =~= seq!["instance"@, "delete"@, "-y"@, id@, "-t"@, self@.provider@]);
        r
    }

    /// The arguments that fetch the logs of the instance `id`.
    pub fn get_logs_args(&self, id: &str) -> (r: Vec<String>)
        ensures
            texts(r@) == seq!["instance"@, "logs"@, id@, "-t"@, self@.provider@],
    {
        let r = self.instance_args("logs", None, id);
        assert(texts(r@) =~= seq!["instance"@, "logs"@, id@, "-t"@, self@.provider@]);
        r
    }

    /// The logs that a run that gave `output` fetched: its standard output.
    pub fn logs_result(output: &Output) -> (r: Result<String, NanovmsError>)
        ensures
            checked_run(*output, OpsAction::GetLogs, outcome(r)),
            r matches Ok(l) ==> l == output.stdout,
    {
        match Self::check(output, OpsAction::GetLogs) {
            Err(e) => Err(e),
            Ok(()) => Ok(output.stdout.clone()),
        }
    }

    /// The arguments that show the instance `id`.
    pub fn show_instance_args(&self, id: &str) -> (r: Vec<String>)
        ensures
            texts(r@) == seq!["instance"@, "show"@, id@, "-t"@, self@.provider@],
    {
        let r = self.instance_args("show", None, id);
        assert(texts(r@) =~= seq!["instance"@, "show"@, id@, "-t"@, self@.provider@]);
        r
    }

    /// The instance `id` as a showing that gave `output` describes it, read
    /// at `created`: nothing of it but the identifier is known.
    pub fn instance_shown(id: &str, output: &Output, created: String) -> (r: Result<
        OpsInstance,
        NanovmsError,
    >)
        ensures
            checked_run(*output, OpsAction::ShowInstance, outcome(r)),
            r matches Ok(i) ==> i.id@ == id@ && i.name@ == "unknown"@ && i.status@ == "unknown"@
                && i.created == created && i.private_ip is None && i.public_ip is None && i.image@
                == "unknown"@,
    {
        match Self::check(output, OpsAction::ShowInstance) {
            Err(e) => Err(e),
            Ok(()) => Ok(
                OpsInstance {
                    id: String::from_str(id),
                    name: String::from_str("unknown"),
                    status: String::from_str("unknown"),
                    created,
                    private_ip: None,
                    public_ip: None,
                    image: String::from_str("unknown"),
                },
            ),
        }
    }

    /// The instance `id` as a showing that gave `output` describes it, read
    /// now.
    pub fn show_instance_result(id: &str, output: &Output) -> (r: Result<OpsInstance, NanovmsError>)
        ensures
            checked_run(*output, OpsAction::ShowInstance, outcome(r)),
            r matches Ok(i) ==> i.id@ == id@ && i.name@ == "unknown"@ && i.status@ == "unknown"@
                && i.private_ip is None && i.public_ip is None && i.image@ == "unknown"@
                && is_rfc3339_instant(i.created@),
    {
        Self::instance_shown(id, output, now_rfc3339())
    }

    /// The arguments that run `binary` locally (`.` where its path is not
    /// text) with `args` after it.
    pub fn run_local_args(binary: Option<&str>, args: &[&str]) -> (r: Vec<String>)
        ensures
            texts(r@) == seq![
                "run"@,
                match binary {
                    Some(b) => b@,
                    None => "."@,
                },
            ] + str_texts(args@),
    {
        let b = match binary {
            Some(b) => b,
            None => ".",
        };
        let mut out: Vec<String> = Vec::new();
        push_all(&mut out, &["run", b]);
        push_all(&mut out, args);
        out
    }

    /// The arguments that ask for the version.
    pub fn version_args() -> (r: Vec<String>)
        ensures
            texts(r@) == seq!["version"@],
    {
        let mut out: Vec<String> = Vec::new();
        push_all(&mut out, &["version"]);
        assert(texts(out@) =~= seq!["version"@]);
        out
    }

    /// Whether OPS is installed, from the output of asking for its version:
    /// it is where that run exits with zero.
    pub fn installed(output: &Output) -> (r: bool)
        ensures
            r == (output.exit_code == 0),
    {
        output.exit_code == 0
    }

    /// The version that a run that gave `output` reports: its standard
    /// output without surrounding white space.
    pub fn version_result(output: &Output) -> (r: Result<String, NanovmsError>)
        ensures
            output.exit_code == 0 ==> (r matches Ok(v) && v@ == trimmed(output.stdout@)),
            output.exit_code != 0 ==> (r matches Err(NanovmsError::ExecutionFailed(m)) && m@
                == "Failed to get OPS version"@),
    {
        if output.exit_code != 0 {
            return Err(NanovmsError::ExecutionFailed(String::from_str("Failed to get OPS version")));
        }
        Ok(trim(output.stdout.as_str()))
    }

    /// The arguments that list packages.
    pub fn list_packages_args() -> (r: Vec<String>)
        ensures
            texts(r@) == seq!["pkg"@, "list"@, "-j"@],
    {
        let mut out: Vec<String> = Vec::new();
        push_all(&mut out, &["pkg", "list", "-j"]);
        assert(texts(out@) =~= seq!["pkg"@, "list"@, "-j"@]);
        out
    }

    /// The arguments that fetch the package `name`.
    pub fn get_package_args(name: &str) -> (r: Vec<String>)
        ensures
            texts(r@) == seq!["pkg"@, "get"@, name@],
    {
        let mut out: Vec<String> = Vec::new();
        push_all(&mut out, &["pkg", "get", name]);
        assert(texts(out@) =~= seq!["pkg"@, "get"@, name@]);
        out
    }

    /// The arguments that describe the package `name`.
    pub fn describe_package_args(name: &str) -> (r: Vec<String>)
        ensures
            texts(r@) == seq!["pkg"@, "describe"@, name@, "-j"@],
    {
        let mut out: Vec<String> = Vec::new();
        push_all(&mut out, &["pkg", "describe", name, "-j"]);
        assert(texts(out@) =~= seq!["pkg"@, "describe"@, name@, "-j"@]);
        out
    }
}

impl Default for OpsCli {
    fn default() -> (r: Self)
        ensures
            r@.ops_path@ == "ops"@,
            r@.provider@ == "onprem"@,
            r@.config_file is None,
            !r@.debug,
    {
        Self::new()
    }
}

} // verus!
