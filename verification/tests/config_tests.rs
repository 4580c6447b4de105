use wvst_bridge_server::config::{
    bind_address, is_loopback_origin, is_loopback_url, BridgeConfig, BridgeConfigError, BridgeEnvironment,
    DEFAULT_BIND_ADDR, DEFAULT_LINUX_CGROUP_CPU_PERIOD_MICROS, DEFAULT_MAX_CONTROL_MESSAGE_BYTES,
    DEFAULT_MAX_WORKER_INSTANCES, DEFAULT_WORKER_LOAD_TIMEOUT_MS,
    DEFAULT_WORKER_QUARANTINE_FAILURE_THRESHOLD, OriginHost, UrlOrigin,
};

fn development() -> BridgeConfig {
    BridgeConfig::development("127.0.0.1:0")
}

#[test]
fn allows_loopback_origins_by_default() {
    let config = development();

    assert!(config.origin_is_allowed(Some("http://localhost:5173")));
    assert!(config.origin_is_allowed(Some("https://127.0.0.1:8443")));
    assert!(!config.origin_is_allowed(Some("https://example.com")));
}

#[test]
fn validates_token_when_configured() {
    let config = development().with_token("secret");

    assert!(config.token_required());
    assert!(config.token_is_valid(Some("secret")));
    assert!(!config.token_is_valid(None));
    assert!(!config.token_is_valid(Some("wrong")));
}

#[test]
fn clears_token_when_disabled_or_empty() {
    let config = development().with_token("secret");

    assert!(!config.clone().without_token().token_required());
    assert!(!config.with_token("").token_required());
}

#[test]
fn configures_allowed_origins_and_loopback_policy() {
    let config = development()
        .with_allowed_origins(&[" https://app.example ", "", "https://admin.example"])
        .with_loopback_origins(false);

    assert_eq!(
        config.allowed_origins(),
        ["https://app.example", "https://admin.example"]
    );
    assert!(config.origin_is_allowed(Some("https://app.example")));
    assert!(config.origin_is_allowed(Some("https://admin.example")));
    assert!(!config.origin_is_allowed(Some("http://localhost:5173")));
    assert!(!config.origin_is_allowed(Some("https://example.com")));
}

#[test]
fn enables_worker_auto_restart_by_default() {
    let config = development();

    assert!(config.worker_auto_restart_enabled());
    assert!(!config.with_worker_auto_restart(false).worker_auto_restart_enabled());
}

#[test]
fn sets_default_and_overridden_worker_instance_limit() {
    let config = development();

    assert_eq!(config.max_worker_instances(), DEFAULT_MAX_WORKER_INSTANCES);
    assert_eq!(config.with_max_worker_instances(2).max_worker_instances(), 2);
}

#[test]
fn sets_default_and_overridden_worker_quarantine_threshold() {
    let config = development();

    assert_eq!(
        config.worker_quarantine_failure_threshold(),
        DEFAULT_WORKER_QUARANTINE_FAILURE_THRESHOLD
    );
    assert_eq!(
        config
            .with_worker_quarantine_failure_threshold(2)
            .worker_quarantine_failure_threshold(),
        2
    );
}

#[test]
fn sets_default_and_overridden_control_message_limit() {
    let config = development();

    assert_eq!(config.max_control_message_bytes(), DEFAULT_MAX_CONTROL_MESSAGE_BYTES);
    assert_eq!(
        config.with_max_control_message_bytes(1024).max_control_message_bytes(),
        1024
    );
}

#[test]
fn configures_optional_worker_memory_limit() {
    let config = development();

    assert_eq!(config.worker_memory_limit_bytes(), None);
    assert_eq!(
        config
            .clone()
            .with_worker_memory_limit_bytes(128 * 1024 * 1024)
            .worker_memory_limit_bytes(),
        Some(128 * 1024 * 1024)
    );
    assert_eq!(
        config
            .with_worker_memory_limit_bytes(128 * 1024 * 1024)
            .without_worker_memory_limit()
            .worker_memory_limit_bytes(),
        None
    );
}

#[test]
fn configures_optional_worker_cpu_time_limit() {
    let config = development();

    assert_eq!(config.worker_cpu_time_limit_seconds(), None);
    assert_eq!(
        config
            .clone()
            .with_worker_cpu_time_limit_seconds(30)
            .worker_cpu_time_limit_seconds(),
        Some(30)
    );
    assert_eq!(
        config
            .with_worker_cpu_time_limit_seconds(30)
            .without_worker_cpu_time_limit()
            .worker_cpu_time_limit_seconds(),
        None
    );
}

#[test]
fn configures_optional_linux_cgroup_limits() {
    let config = development();

    assert_eq!(config.worker_linux_cgroup_parent(), None);
    assert_eq!(config.worker_linux_cgroup_memory_max_bytes(), None);
    assert_eq!(config.worker_linux_cgroup_cpu_max_micros(), None);

    let configured = config
        .clone()
        .with_worker_linux_cgroup_parent("/sys/fs/cgroup/wvst")
        .with_worker_linux_cgroup_memory_max_bytes(256 * 1024 * 1024)
        .with_worker_linux_cgroup_cpu_max_micros(50_000, 100_000);
    assert_eq!(configured.worker_linux_cgroup_parent(), Some("/sys/fs/cgroup/wvst"));
    assert_eq!(
        configured.worker_linux_cgroup_memory_max_bytes(),
        Some(256 * 1024 * 1024)
    );
    assert_eq!(
        configured.worker_linux_cgroup_cpu_max_micros(),
        Some((50_000, 100_000))
    );

    let cleared = configured.without_worker_linux_cgroup();
    assert_eq!(cleared.worker_linux_cgroup_parent(), None);
    assert_eq!(cleared.worker_linux_cgroup_memory_max_bytes(), None);
    assert_eq!(cleared.worker_linux_cgroup_cpu_max_micros(), None);
}

#[test]
fn zero_limits_are_raised_to_one() {
    let config = development()
        .with_max_worker_instances(0)
        .with_worker_quarantine_failure_threshold(0)
        .with_max_control_message_bytes(0)
        .with_worker_memory_limit_bytes(0)
        .with_worker_load_timeout(0)
        .with_worker_linux_cgroup_cpu_max_micros(0, 0);
    assert_eq!(config.max_worker_instances(), 1);
    assert_eq!(config.worker_quarantine_failure_threshold(), 1);
    assert_eq!(config.max_control_message_bytes(), 1);
    assert_eq!(config.worker_memory_limit_bytes(), Some(1));
    assert_eq!(config.worker_load_timeout(), 1);
    assert_eq!(config.worker_linux_cgroup_cpu_max_micros(), Some((1, 1)));
}

#[test]
fn recognizes_loopback_origins() {
    assert!(is_loopback_origin("http://LOCALHOST:3000"));
    assert!(is_loopback_origin("http://127.8.9.10"));
    assert!(is_loopback_origin("https://[::1]:8443"));
    assert!(!is_loopback_origin("ws://localhost:5173"));
    assert!(!is_loopback_origin("http://128.0.0.1"));
    assert!(!is_loopback_origin("http://[::2]"));
    assert!(!is_loopback_origin("not a url"));
    assert!(development().origin_is_allowed(None));
}

#[test]
fn reads_configuration_from_environment() {
    let env = BridgeEnvironment {
        token: Some("secret".to_string()),
        allowed_origins: Some(" https://a.example ,,https://b.example".to_string()),
        allow_loopback_origins: Some("FALSE".to_string()),
        worker_auto_restart: Some("0".to_string()),
        worker_load_timeout_ms: Some("+2500".to_string()),
        max_worker_instances: Some("0".to_string()),
        worker_quarantine_failures: Some("7".to_string()),
        max_control_message_bytes: Some("abc".to_string()),
        worker_memory_limit_bytes: Some("1048576".to_string()),
        worker_cpu_time_limit_seconds: Some("18446744073709551616".to_string()),
        worker_linux_cgroup_parent: Some(String::new()),
        worker_linux_cgroup_cpu_quota_micros: Some("50000".to_string()),
        ..BridgeEnvironment::default()
    };
    assert_eq!(bind_address(&env), DEFAULT_BIND_ADDR);
    let config = BridgeConfig::from_environment(env, true, true).expect("config");
    assert_eq!(config.bind_addr(), DEFAULT_BIND_ADDR);
    assert!(config.token_is_valid(Some("secret")));
    assert_eq!(config.allowed_origins(), ["https://a.example", "https://b.example"]);
    assert!(!config.origin_is_allowed(Some("http://localhost:5173")));
    assert!(!config.worker_auto_restart_enabled());
    assert_eq!(config.worker_load_timeout(), 2_500);
    assert_eq!(config.max_worker_instances(), DEFAULT_MAX_WORKER_INSTANCES);
    assert_eq!(config.worker_quarantine_failure_threshold(), 7);
    assert_eq!(config.max_control_message_bytes(), DEFAULT_MAX_CONTROL_MESSAGE_BYTES);
    assert_eq!(config.worker_memory_limit_bytes(), Some(1_048_576));
    assert_eq!(config.worker_cpu_time_limit_seconds(), None);
    assert_eq!(config.worker_linux_cgroup_parent(), None);
    assert_eq!(
        config.worker_linux_cgroup_cpu_max_micros(),
        Some((50_000, DEFAULT_LINUX_CGROUP_CPU_PERIOD_MICROS))
    );
}

#[test]
fn environment_defaults_and_refusals() {
    let config = BridgeConfig::from_environment(BridgeEnvironment::default(), false, true).expect("config");
    assert!(!config.token_required());
    assert!(config.allowed_origins().is_empty());
    assert!(config.worker_auto_restart_enabled());
    assert_eq!(config.worker_load_timeout(), DEFAULT_WORKER_LOAD_TIMEOUT_MS);

    assert_eq!(
        BridgeConfig::from_environment(BridgeEnvironment::default(), true, true).err(),
        Some(BridgeConfigError::MissingToken)
    );
    let empty_token = BridgeEnvironment {
        token: Some(String::new()),
        ..BridgeEnvironment::default()
    };
    assert_eq!(
        BridgeConfig::from_environment(empty_token, true, true).err(),
        Some(BridgeConfigError::MissingToken)
    );
    assert_eq!(
        BridgeConfig::from_environment(BridgeEnvironment::default(), true, false).err(),
        Some(BridgeConfigError::InvalidBindAddress(DEFAULT_BIND_ADDR.to_string()))
    );
}

#[test]
fn loopback_rule_reads_scheme_and_host() {
    let url = |scheme: &str, host: Option<OriginHost>| UrlOrigin { scheme: scheme.to_string(), host };
    assert!(is_loopback_url(&url("http", Some(OriginHost::Domain("LocalHost".to_string())))));
    assert!(is_loopback_url(&url("https", Some(OriginHost::Ipv4([127, 9, 0, 1])))));
    assert!(is_loopback_url(&url("http", Some(OriginHost::Ipv6([0, 0, 0, 0, 0, 0, 0, 1])))));
    assert!(!is_loopback_url(&url("ftp", Some(OriginHost::Domain("localhost".to_string())))));
    assert!(!is_loopback_url(&url("http", Some(OriginHost::Ipv4([10, 0, 0, 1])))));
    assert!(!is_loopback_url(&url("http", None)));
}
