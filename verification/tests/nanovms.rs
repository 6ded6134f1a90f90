use std::path::PathBuf;
use std::str::FromStr;
use std::time::Duration;

use phenotype_shared::nanovms::cli::{OpsAction, OpsCli, OpsConfig};
use phenotype_shared::nanovms::client::{require_transport, shell_command, wait_step, ClientOptions, WaitStep};
use phenotype_shared::nanovms::mock::MockStore;
use phenotype_shared::nanovms::transport::{CliTransport, TransportAction};
use phenotype_shared::nanovms::{
    Mount, NanovmsError, NetworkConfig, Output, Sandbox, SandboxConfig, SandboxState, Tier,
};

fn output(code: i32, stdout: &str, stderr: &str) -> Output {
    Output {
        stdout: stdout.to_string(),
        stderr: stderr.to_string(),
        exit_code: code,
        duration: Duration::from_secs(0),
    }
}

#[test]
fn test_tier_default_values() {
    assert_eq!(Tier::Wasm.default_memory_mb(), 128);
    assert_eq!(Tier::Wasm.default_cpus(), 1);
    assert_eq!(Tier::Gvisor.default_memory_mb(), 256);
    assert_eq!(Tier::Gvisor.default_cpus(), 1);
    assert_eq!(Tier::Firecracker.default_memory_mb(), 512);
    assert_eq!(Tier::Firecracker.default_cpus(), 2);
}

#[test]
fn lib_tests_test_tier_display() {
    assert_eq!(Tier::Wasm.to_string(), "wasm");
    assert_eq!(Tier::Gvisor.to_string(), "gvisor");
    assert_eq!(Tier::Firecracker.to_string(), "firecracker");
}

#[test]
fn lib_tests_test_tier_from_str() {
    assert_eq!(Tier::from_str("wasm").unwrap(), Tier::Wasm);
    assert_eq!(Tier::from_str("WASM").unwrap(), Tier::Wasm);
    assert_eq!(Tier::from_str("tier1").unwrap(), Tier::Wasm);
    assert_eq!(Tier::from_str("tier_1").unwrap(), Tier::Wasm);
    assert_eq!(Tier::from_str("gvisor").unwrap(), Tier::Gvisor);
    assert_eq!(Tier::from_str("tier2").unwrap(), Tier::Gvisor);
    assert_eq!(Tier::from_str("tier_2").unwrap(), Tier::Gvisor);
    assert_eq!(Tier::from_str("firecracker").unwrap(), Tier::Firecracker);
    assert_eq!(Tier::from_str("tier3").unwrap(), Tier::Firecracker);
    assert_eq!(Tier::from_str("tier_3").unwrap(), Tier::Firecracker);
    assert!(matches!(Tier::from_str("invalid"), Err(NanovmsError::InvalidConfig(_))));
}

#[test]
fn unknown_tier_message_quotes_the_input() {
    match Tier::parse("Tier9") {
        Err(NanovmsError::InvalidConfig(m)) => assert_eq!(m, "unknown tier: Tier9"),
        other => panic!("unexpected {:?}", other),
    }
    for t in [Tier::Wasm, Tier::Gvisor, Tier::Firecracker] {
        assert_eq!(Tier::parse(&t.to_string()).unwrap(), t);
        assert_eq!(Tier::parse(&t.as_str().to_uppercase()).unwrap(), t);
    }
}

#[test]
fn test_sandbox_config_default() {
    let config = SandboxConfig::default();
    assert_eq!(config.name, "default");
    assert_eq!(config.tier, Tier::Wasm);
    assert_eq!(config.memory_mb, 128);
    assert_eq!(config.cpus, 1);
    assert!(config.env.is_empty());
    assert_eq!(PathBuf::from(&config.workdir), PathBuf::from("/"));
    assert_eq!(config.timeout, Duration::from_secs(30));
}

#[test]
fn lib_tests_test_sandbox_config_builder() {
    let config = SandboxConfig::new("my-app", Tier::Firecracker)
        .with_id("custom-123")
        .with_memory(1024)
        .with_cpus(4)
        .with_timeout(Duration::from_secs(120))
        .with_env("KEY1", "value1")
        .with_env("KEY2", "value2")
        .with_label("env", "production")
        .with_label("team", "backend");
    assert_eq!(config.id, Some("custom-123".to_string()));
    assert_eq!(config.name, "my-app");
    assert_eq!(config.tier, Tier::Firecracker);
    assert_eq!(config.memory_mb, 1024);
    assert_eq!(config.cpus, 4);
    assert_eq!(config.timeout, Duration::from_secs(120));
    assert_eq!(config.env.get("KEY1"), Some(&"value1".to_string()));
    assert_eq!(config.env.get("KEY2"), Some(&"value2".to_string()));
    assert_eq!(config.labels.get("env"), Some(&"production".to_string()));
    assert_eq!(config.labels.get("team"), Some(&"backend".to_string()));
}

#[test]
fn test_sandbox_config_ensure_id() {
    let mut config = SandboxConfig::new("test", Tier::Wasm);
    assert!(config.id.is_none());
    let id = config.ensure_id().to_string();
    assert!(!id.is_empty());
    assert_eq!(config.id, Some(id.clone()));
    let id2 = config.ensure_id().to_string();
    assert_eq!(id, id2);
}

#[test]
fn test_mount() {
    let mount = Mount::new("/host", "/guest");
    assert_eq!(PathBuf::from(&mount.source), PathBuf::from("/host"));
    assert_eq!(PathBuf::from(&mount.destination), PathBuf::from("/guest"));
    assert!(!mount.read_only);
    let ro_mount = Mount::new("/host", "/guest").read_only();
    assert!(ro_mount.read_only);
}

#[test]
fn test_network_config_default() {
    let config = NetworkConfig::default();
    assert!(config.enabled);
    assert!(config.ports.is_empty());
    assert_eq!(config.dns, vec!["8.8.8.8".to_string()]);
}

#[test]
fn test_sandbox_creation() {
    let config = SandboxConfig::new("test-sandbox", Tier::Gvisor).with_memory(512).with_cpus(2);
    let sandbox = Sandbox::from_config(config.clone());
    assert!(!sandbox.id.is_empty());
    assert_eq!(sandbox.name, "test-sandbox");
    assert_eq!(sandbox.tier, Tier::Gvisor);
    assert_eq!(sandbox.state, SandboxState::Pending);
    assert!(sandbox.ip_address.is_none());
}

#[test]
fn generated_identifiers_are_hyphenated_uuids() {
    let sandbox = Sandbox::from_config(SandboxConfig::new("x", Tier::Wasm));
    assert_eq!(sandbox.id.len(), 36);
    for (i, c) in sandbox.id.chars().enumerate() {
        if [8, 13, 18, 23].contains(&i) {
            assert_eq!(c, '-');
        } else {
            assert!(c.is_ascii_hexdigit() && !c.is_ascii_uppercase());
        }
    }
    let kept = Sandbox::from_config(SandboxConfig::new("y", Tier::Wasm).with_id("fixed"));
    assert_eq!(kept.id, "fixed");
}

// ---- the OPS command line ----

#[test]
fn ops_config_defaults_and_global_args() {
    let config = OpsConfig::new();
    assert_eq!(config.ops_path, "ops");
    assert_eq!(config.provider, "onprem");
    assert_eq!(config.timeout, Duration::from_secs(60));
    assert!(config.build_global_args().is_empty());
    let config = config.with_config_file("/etc/ops.json").with_debug(true).with_zone("z");
    assert_eq!(config.build_global_args(), vec!["--config", "/etc/ops.json", "--debug"]);
    assert_eq!(config.zone, Some("z".to_string()));
}

#[test]
fn ops_commands_carry_global_flags_and_provider() {
    let cli = OpsCli::with_config(OpsConfig::new().with_debug(true).with_provider("gcp"));
    assert_eq!(cli.command_args(&["version"]), vec!["--debug", "version"]);
    assert_eq!(
        cli.create_instance_args("img", "vm"),
        vec!["instance", "create", "-i", "img", "-n", "vm", "-t", "gcp"]
    );
    assert_eq!(cli.delete_instance_args("i-1"), vec!["instance", "delete", "-y", "i-1", "-t", "gcp"]);
    assert_eq!(OpsCli::build_image_args(None, "app"), vec!["image", "create", "-n", "app", "."]);
    assert_eq!(OpsCli::run_local_args(Some("./bin"), &["-p", "80"]), vec!["run", "./bin", "-p", "80"]);
    assert_eq!(cli.config().provider, "gcp");
}

#[test]
fn ops_failures_quote_stderr() {
    match OpsCli::check(&output(2, "", "boom"), OpsAction::DeleteImage) {
        Err(NanovmsError::ExecutionFailed(m)) => assert_eq!(m, "Failed to delete image: boom"),
        other => panic!("unexpected {:?}", other),
    }
    assert!(OpsCli::check(&output(0, "", "noise"), OpsAction::DeleteImage).is_ok());
    let image = OpsCli::build_image_result("app", &output(0, "", "")).unwrap();
    assert_eq!(image.path, "~/.ops/images/app");
    assert_eq!(image.size, 0);
    let instance = OpsCli::create_instance_result("img", "vm", &output(0, "", "")).unwrap();
    assert_eq!(instance.status, "pending");
    assert_eq!(instance.image, "img");
    assert!(OpsCli::installed(&output(0, "", "")));
    assert!(!OpsCli::installed(&output(1, "", "")));
}

#[test]
fn version_is_trimmed() {
    assert_eq!(OpsCli::version_result(&output(0, "  0.1.52\n", "")).unwrap(), "0.1.52");
    match OpsCli::version_result(&output(1, "x", "err")) {
        Err(NanovmsError::ExecutionFailed(m)) => assert_eq!(m, "Failed to get OPS version"),
        other => panic!("unexpected {:?}", other),
    }
}

// ---- the command-line transport ----

#[test]
fn transport_builders_and_config_flag() {
    let t = CliTransport::new();
    assert_eq!(t.program(), "ops");
    assert_eq!(t.command_timeout(), Duration::from_secs(60));
    let t = t.with_ops_path("/usr/bin/ops").with_config("/tmp/c.json").with_timeout(Duration::from_secs(5));
    assert_eq!(t.program(), "/usr/bin/ops");
    assert_eq!(t.command_timeout(), Duration::from_secs(5));
    assert_eq!(t.command_args(&["image", "list"]), vec!["image", "list", "--config", "/tmp/c.json"]);
}

#[test]
fn create_sandbox_arguments_name_tier_and_memory() {
    let config = SandboxConfig::new("web", Tier::Firecracker).with_memory(2048);
    assert_eq!(
        CliTransport::create_sandbox_args(&config),
        vec!["instance", "create", "-n", "web", "-p", "firecracker", "-m", "2048"]
    );
}

#[test]
fn created_sandbox_takes_the_reported_identifier() {
    let config = SandboxConfig::new("web", Tier::Wasm);
    let out = output(0, "booting\r\ncreated instance web-8f3a  \nready\n", "");
    let sandbox = CliTransport::create_sandbox_result(&config, &out).unwrap();
    assert_eq!(sandbox.id, "web-8f3a");
    assert_eq!(sandbox.state, SandboxState::Pending);
    let configured = SandboxConfig::new("web", Tier::Wasm).with_id("mine");
    assert_eq!(CliTransport::create_sandbox_result(&configured, &out).unwrap().id, "mine");
    let silent = CliTransport::create_sandbox_result(&config, &output(0, "done\n", "")).unwrap();
    assert_eq!(silent.id.len(), 36);
    match CliTransport::create_sandbox_result(&config, &output(1, "", "no space")) {
        Err(NanovmsError::ExecutionFailed(m)) => assert_eq!(m, "Failed to create sandbox: no space"),
        other => panic!("unexpected {:?}", other),
    }
}

#[test]
fn listing_failures_are_transport_errors() {
    match CliTransport::check(&output(3, "", "down"), TransportAction::ListSnapshots) {
        Err(NanovmsError::Transport(m)) => assert_eq!(m, "Failed to list snapshots: down"),
        other => panic!("unexpected {:?}", other),
    }
    match CliTransport::get_sandbox_result("s-1", &output(0, "[]", "")) {
        Err(NanovmsError::SandboxNotFound(id)) => assert_eq!(id, "s-1"),
        other => panic!("unexpected {:?}", other),
    }
    assert!(CliTransport::list_sandboxes_result(&output(0, "[]", "")).unwrap().is_empty());
    assert_eq!(CliTransport::execute_output().exit_code, -1);
    assert!(matches!(CliTransport::restore_snapshot_error(), NanovmsError::Unknown(_)));
    let snap = CliTransport::create_snapshot_result("s-1", "v1", &output(0, "", "")).unwrap();
    assert_eq!(snap.sandbox_id, "s-1");
    assert_eq!(snap.name, "v1");
    assert_eq!(snap.size_bytes, 0);
}

// ---- the client's decisions ----

#[test]
fn client_options_configure_the_cli_transport() {
    let options = ClientOptions::new()
        .default_tier(Tier::Gvisor)
        .default_timeout(Duration::from_secs(300))
        .ops_path("/opt/ops")
        .config_path("/etc/ops.json");
    assert_eq!(options.default_tier, Tier::Gvisor);
    let transport = options.cli_transport();
    assert_eq!(transport.program(), "/opt/ops");
    assert_eq!(transport.command_timeout(), Duration::from_secs(300));
    assert_eq!(transport.command_args(&[]), vec!["--config", "/etc/ops.json"]);
    assert_eq!(shell_command("echo 'hello world'"), vec!["sh", "-c", "echo 'hello world'"]);
    match require_transport::<u8>(None) {
        Err(NanovmsError::InvalidConfig(m)) => assert_eq!(m, "Transport must be specified"),
        other => panic!("unexpected {:?}", other),
    }
    assert_eq!(require_transport(Some(7u8)).unwrap(), 7);
}

#[test]
fn waiting_stops_on_the_state_or_the_timeout() {
    assert_eq!(wait_step(SandboxState::Running, SandboxState::Running, 10, 5), WaitStep::Reached);
    assert_eq!(wait_step(SandboxState::Pending, SandboxState::Running, 10, 5), WaitStep::TimedOut);
    assert_eq!(wait_step(SandboxState::Pending, SandboxState::Running, 5, 5), WaitStep::Retry);
}

// ---- the in-memory store ----

#[test]
fn mock_store_lifecycle() {
    let mut store = MockStore::new();
    let sandbox = store.create_sandbox(&SandboxConfig::new("test", Tier::Wasm)).unwrap();
    assert_eq!(sandbox.state, SandboxState::Running);
    assert_eq!(store.get_sandbox(&sandbox.id).unwrap().id, sandbox.id);
    assert_eq!(store.list_sandboxes().len(), 1);
    assert_eq!(store.stop_sandbox(&sandbox.id).unwrap().state, SandboxState::Stopped);
    assert_eq!(store.get_sandbox(&sandbox.id).unwrap().state, SandboxState::Stopped);
    assert_eq!(store.start_sandbox(&sandbox.id).unwrap().state, SandboxState::Running);
    let snapshot = store.create_snapshot(&sandbox.id, "v1.0").unwrap();
    assert_eq!(snapshot.name, "v1.0");
    assert_eq!(snapshot.sandbox_id, sandbox.id);
    assert_eq!(snapshot.size_bytes, 10 * 1024 * 1024);
    assert_eq!(store.list_snapshots(&sandbox.id).len(), 1);
    assert!(store.list_snapshots("other").is_empty());
    let restored = store.restore_snapshot(&sandbox.id, &snapshot.id).unwrap();
    assert_eq!(restored.id, sandbox.id);
    store.delete_snapshot(&snapshot.id).unwrap();
    assert!(store.list_snapshots(&sandbox.id).is_empty());
    store.delete_sandbox(&sandbox.id).unwrap();
    assert!(matches!(store.get_sandbox(&sandbox.id), Err(NanovmsError::SandboxNotFound(_))));
}

#[test]
fn mock_store_refuses_duplicates_and_missing_items() {
    let mut store = MockStore::default();
    let config = SandboxConfig::new("duplicate", Tier::Wasm).with_id("same-id");
    assert_eq!(store.create_sandbox(&config).unwrap().id, "same-id");
    assert!(matches!(store.create_sandbox(&config), Err(NanovmsError::SandboxAlreadyExists(_))));
    assert!(matches!(store.create_snapshot("ghost", "s"), Err(NanovmsError::SandboxNotFound(_))));
    assert!(matches!(store.restore_snapshot("same-id", "ghost"), Err(NanovmsError::Unknown(_))));
    assert!(matches!(store.delete_snapshot("ghost"), Err(NanovmsError::Unknown(_))));
    assert!(matches!(store.start_sandbox("ghost"), Err(NanovmsError::SandboxNotFound(_))));
    assert!(matches!(store.delete_sandbox("ghost"), Err(NanovmsError::SandboxNotFound(_))));
}

#[test]
fn mock_execution_echoes_the_command() {
    let out = MockStore::execute(&["echo".to_string(), "hello".to_string()]);
    assert_eq!(out.stdout, "Executed: echo hello");
    assert_eq!(out.exit_code, 0);
    assert_eq!(out.duration, Duration::from_millis(100));
    assert_eq!(MockStore::execute(&[]).stdout, "Executed: ");
}

#[test]
fn test_tier_default_resources() {
    assert_eq!(Tier::Wasm.default_memory_mb(), 128);
    assert_eq!(Tier::Gvisor.default_memory_mb(), 256);
    assert_eq!(Tier::Firecracker.default_memory_mb(), 512);

    assert_eq!(Tier::Wasm.default_cpus(), 1);
    assert_eq!(Tier::Gvisor.default_cpus(), 1);
    assert_eq!(Tier::Firecracker.default_cpus(), 2);
}

#[test]
fn integration_tests_test_tier_from_str() {
    assert_eq!(Tier::from_str("wasm").unwrap(), Tier::Wasm);
    assert_eq!(Tier::from_str("WASM").unwrap(), Tier::Wasm);
    assert_eq!(Tier::from_str("tier1").unwrap(), Tier::Wasm);

    assert_eq!(Tier::from_str("gvisor").unwrap(), Tier::Gvisor);
    assert_eq!(Tier::from_str("tier2").unwrap(), Tier::Gvisor);

    assert_eq!(Tier::from_str("firecracker").unwrap(), Tier::Firecracker);
    assert_eq!(Tier::from_str("tier3").unwrap(), Tier::Firecracker);

    assert!(Tier::from_str("invalid").is_err());
}

#[test]
fn integration_tests_test_tier_display() {
    assert_eq!(Tier::Wasm.to_string(), "wasm");
    assert_eq!(Tier::Gvisor.to_string(), "gvisor");
    assert_eq!(Tier::Firecracker.to_string(), "firecracker");
}

#[test]
fn integration_tests_test_sandbox_config_builder() {
    let config = SandboxConfig::new("test", Tier::Firecracker)
        .with_id("custom-id")
        .with_memory(1024)
        .with_cpus(4)
        .with_timeout(Duration::from_secs(120))
        .with_env("KEY", "value")
        .with_label("app", "myapp");

    assert_eq!(config.id, Some("custom-id".to_string()));
    assert_eq!(config.memory_mb, 1024);
    assert_eq!(config.cpus, 4);
    assert_eq!(config.timeout, Duration::from_secs(120));
    assert_eq!(config.env.get("KEY"), Some(&"value".to_string()));
    assert_eq!(config.labels.get("app"), Some(&"myapp".to_string()));
}

#[test]
fn test_mount_configuration() {
    let mount = Mount::new("/host/path", "/guest/path");
    assert!(!mount.read_only);

    let ro_mount = Mount::new("/host/path", "/guest/path").read_only();
    assert!(ro_mount.read_only);
}

#[test]
fn mock_store_keeps_the_configuration() {
    let mut store = MockStore::new();
    let config = SandboxConfig::new("my-sandbox", Tier::Gvisor)
        .with_memory(512)
        .with_cpus(2)
        .with_env("FOO", "bar");
    let sandbox = store.create_sandbox(&config).unwrap();
    assert_eq!(sandbox.name, "my-sandbox");
    assert_eq!(sandbox.tier, Tier::Gvisor);
    assert!(!sandbox.id.is_empty());
    assert_eq!(sandbox.config.memory_mb, 512);
    assert_eq!(sandbox.config.cpus, 2);
    assert_eq!(sandbox.config.env.get("FOO"), Some(&"bar".to_string()));
}

#[test]
fn mock_store_serves_every_tier() {
    let mut store = MockStore::new();
    for tier in [Tier::Wasm, Tier::Gvisor, Tier::Firecracker] {
        let sandbox = store.create_sandbox(&SandboxConfig::new("box", tier)).unwrap();
        assert_eq!(sandbox.tier, tier);
    }
    assert_eq!(store.list_sandboxes().len(), 3);
}

#[test]
fn test_error_display() {
    let err = NanovmsError::SandboxNotFound("test-id".to_string());
    assert_eq!(err.message(), "sandbox not found: test-id");

    let err = NanovmsError::SandboxAlreadyExists("test-id".to_string());
    assert_eq!(err.message(), "sandbox already exists: test-id");

    let err = NanovmsError::ExecutionFailed("command failed".to_string());
    assert_eq!(err.message(), "execution failed: command failed");

    let err = NanovmsError::InvalidConfig("bad config".to_string());
    assert_eq!(err.message(), "invalid configuration: bad config");

    let err = NanovmsError::Timeout(Duration::from_secs(30));
    assert_eq!(err.message(), "timeout after 30s");
}

#[test]
fn created_instances_and_images_get_fresh_identifiers() {
    let ok = output(0, "", "");
    let i = OpsCli::create_instance_result("img", "box", &ok).unwrap();
    assert_eq!(i.id.len(), 36);
    assert_eq!(i.id.chars().filter(|c| *c == '-').count(), 4);
    assert!(!i.created.is_empty());
    let j = OpsCli::create_instance_result("img", "box", &ok).unwrap();
    assert_ne!(i.id, j.id);
    let img = OpsCli::build_image_result("img", &ok).unwrap();
    assert_eq!(img.id.len(), 36);
    assert!(img.created.contains('T'));
}
