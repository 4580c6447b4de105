use wvst_bridge_server::config::BridgeConfig;
use wvst_bridge_server::diagnostics::{
    collect_bridge_diagnostics, env_var_diagnostic_from_value, environment_variables, HostWorkerDiagnostic,
    PlatformDiagnostic,
};

#[test]
fn redacts_sensitive_environment_values() {
    let token = env_var_diagnostic_from_value("WVST_TOKEN", true, Some("secret".to_string()));
    let worker = env_var_diagnostic_from_value("WVST_HOST_WORKER", false, Some("/tmp/worker".to_string()));

    assert!(token.present);
    assert!(token.redacted);
    assert_eq!(token.value, None);
    assert!(worker.present);
    assert!(!worker.redacted);
    assert_eq!(worker.value.as_deref(), Some("/tmp/worker"));
}

#[test]
fn collects_config_and_worker_diagnostics() {
    let config = BridgeConfig::development("127.0.0.1:0")
        .with_worker_quarantine_failure_threshold(5)
        .with_worker_memory_limit_bytes(64 * 1024 * 1024);
    let worker = HostWorkerDiagnostic {
        executable: "/tmp/wvst-host-worker".to_string(),
        exists: false,
        is_file: false,
        timeout_ms: 250,
    };
    let platform = PlatformDiagnostic { os: "linux", arch: "x86_64", exe_suffix: "" };

    let diagnostics = collect_bridge_diagnostics(&config, "0.1.0", platform, worker, Vec::new());

    assert_eq!(diagnostics.schema_version, 1);
    assert_eq!(diagnostics.config.bind_addr, "127.0.0.1:0");
    assert_eq!(diagnostics.config.worker_quarantine_failure_threshold, 5);
    assert_eq!(diagnostics.config.worker_memory_limit_bytes, Some(64 * 1024 * 1024));
    assert_eq!(diagnostics.host_worker.timeout_ms, 250);
    assert_eq!(diagnostics.host_worker.executable, "/tmp/wvst-host-worker");
}

#[test]
fn only_the_token_is_a_secret() {
    let variables = environment_variables();
    assert_eq!(variables.len(), 15);
    let secrets: Vec<&str> = variables.iter().filter(|(_, redacted)| *redacted).map(|(name, _)| *name).collect();
    assert_eq!(secrets, vec!["WVST_TOKEN"]);
}
