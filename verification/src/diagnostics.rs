use vstd::prelude::*;

use crate::config::BridgeConfig;

verus! {

pub const DIAGNOSTIC_SCHEMA_VERSION: u16 = 1;

/// What `wvst-bridge-server diagnose` prints.
#[derive(Debug)]
pub struct BridgeServerDiagnosticSnapshot {
    pub schema_version: u16,
    pub bridge_version: &'static str,
    pub platform: PlatformDiagnostic,
    pub config: BridgeConfigDiagnostic,
    pub host_worker: HostWorkerDiagnostic,
    pub environment: Vec<EnvironmentVariableDiagnostic>,
}

#[derive(Debug, Clone, Copy)]
pub struct PlatformDiagnostic {
    pub os: &'static str,
    pub arch: &'static str,
    pub exe_suffix: &'static str,
}

/// The configuration as diagnostics show it: the token only as whether one is required.
#[derive(Debug)]
pub struct BridgeConfigDiagnostic {
    pub bind_addr: String,
    pub token_required: bool,
    pub allowed_origins: Vec<String>,
    pub worker_auto_restart: bool,
    pub max_worker_instances: usize,
    pub worker_quarantine_failure_threshold: u32,
    pub max_control_message_bytes: usize,
    pub worker_memory_limit_bytes: Option<u64>,
    pub worker_cpu_time_limit_seconds: Option<u64>,
    pub worker_linux_cgroup_parent: Option<String>,
    pub worker_linux_cgroup_memory_max_bytes: Option<u64>,
    pub worker_linux_cgroup_cpu_max_micros: Option<WorkerLinuxCgroupCpuMaxDiagnostic>,
}

#[derive(Debug, Clone, Copy, PartialEq, Eq)]
pub struct WorkerLinuxCgroupCpuMaxDiagnostic {
    pub quota_micros: u64,
    pub period_micros: u64,
}

#[derive(Debug)]
pub struct HostWorkerDiagnostic {
    pub executable: String,
    pub exists: bool,
    pub is_file: bool,
    pub timeout_ms: u128,
}

/// One environment variable: whether it is set, and its value unless it is a secret.
#[derive(Debug)]
pub struct EnvironmentVariableDiagnostic {
    pub name: &'static str,
    pub present: bool,
    pub value: Option<String>,
    pub redacted: bool,
}

/// A copy of a list of strings.
pub fn copy_strings(strings: &[String]) -> (copy: Vec<String>)
    ensures
        copy@ == strings@,
{
    let mut copy: Vec<String> = Vec::new();
    let mut index: usize = 0;
    while index < strings.len()
        invariant
            index <= strings@.len(),
            copy@ == strings@.take(index as int),
        decreases strings@.len() - index,
    {
        copy.push(strings[index].clone());
        proof {
            assert(copy@ =~= strings@.take(index + 1));
        }
        index = index + 1;
    }
    proof {
        assert(strings@.take(index as int) =~= strings@);
    }
    copy
}

/// The configuration diagnostic shows `config`, the token only as whether one is required.
pub open spec fn describes_config(diagnostic: BridgeConfigDiagnostic, config: crate::config::BridgeConfigView) -> bool {
    &&& diagnostic.bind_addr@ == config.bind_addr
    &&& diagnostic.token_required == config.token is Some
    &&& diagnostic.allowed_origins@.map_values(|origin: String| origin@) == config.allowed_origins
    &&& diagnostic.worker_auto_restart == config.worker_auto_restart
    &&& diagnostic.max_worker_instances == config.max_worker_instances
    &&& diagnostic.worker_quarantine_failure_threshold == config.worker_quarantine_failure_threshold
    &&& diagnostic.max_control_message_bytes == config.max_control_message_bytes
    &&& diagnostic.worker_memory_limit_bytes == config.worker_memory_limit_bytes
    &&& diagnostic.worker_cpu_time_limit_seconds == config.worker_cpu_time_limit_seconds
    &&& crate::config::optional_text(diagnostic.worker_linux_cgroup_parent) == config.worker_linux_cgroup_parent
    &&& diagnostic.worker_linux_cgroup_memory_max_bytes == config.worker_linux_cgroup_memory_max_bytes
    &&& diagnostic.worker_linux_cgroup_cpu_max_micros == match config.worker_linux_cgroup_cpu_quota_micros {
        Some(quota) => Some(
            WorkerLinuxCgroupCpuMaxDiagnostic {
                quota_micros: quota,
                period_micros: config.worker_linux_cgroup_cpu_period_micros,
            },
        ),
        None => None,
    }
}

/// The configuration as diagnostics show it; the token itself is never shown.
pub fn config_diagnostic(config: &BridgeConfig) -> (diagnostic: BridgeConfigDiagnostic)
    ensures
        describes_config(diagnostic, config@),
{
    BridgeConfigDiagnostic {
        bind_addr: String::from_str(config.bind_addr()),
        token_required: config.token_required(),
        allowed_origins: copy_strings(config.allowed_origins()),
        worker_auto_restart: config.worker_auto_restart_enabled(),
        max_worker_instances: config.max_worker_instances(),
        worker_quarantine_failure_threshold: config.worker_quarantine_failure_threshold(),
        max_control_message_bytes: config.max_control_message_bytes(),
        worker_memory_limit_bytes: config.worker_memory_limit_bytes(),
        worker_cpu_time_limit_seconds: config.worker_cpu_time_limit_seconds(),
        worker_linux_cgroup_parent: match config.worker_linux_cgroup_parent() {
            Some(parent) => Some(String::from_str(parent)),
            None => None,
        },
        worker_linux_cgroup_memory_max_bytes: config.worker_linux_cgroup_memory_max_bytes(),
        worker_linux_cgroup_cpu_max_micros: match config.worker_linux_cgroup_cpu_max_micros() {
            Some((quota_micros, period_micros)) => Some(WorkerLinuxCgroupCpuMaxDiagnostic { quota_micros, period_micros }),
            None => None,
        },
    }
}

/// The environment variables diagnostics report, and whether each is a secret.
pub open spec fn diagnosed_variables() -> Seq<(Seq<char>, bool)> {
    seq![
        ("WVST_BIND_ADDR"@, false),
        ("WVST_TOKEN"@, true),
        ("WVST_ALLOWED_ORIGINS"@, false),
        ("WVST_ALLOW_LOOPBACK_ORIGINS"@, false),
        ("WVST_HOST_WORKER"@, false),
        ("WVST_WORKER_AUTO_RESTART"@, false),
        ("WVST_MAX_WORKER_INSTANCES"@, false),
        ("WVST_WORKER_QUARANTINE_FAILURES"@, false),
        ("WVST_MAX_CONTROL_MESSAGE_BYTES"@, false),
        ("WVST_WORKER_MEMORY_LIMIT_BYTES"@, false),
        ("WVST_WORKER_CPU_TIME_LIMIT_SECONDS"@, false),
        ("WVST_WORKER_LINUX_CGROUP_PARENT"@, false),
        ("WVST_WORKER_LINUX_CGROUP_MEMORY_MAX_BYTES"@, false),
        ("WVST_WORKER_LINUX_CGROUP_CPU_QUOTA_MICROS"@, false),
        ("WVST_WORKER_LINUX_CGROUP_CPU_PERIOD_MICROS"@, false),
    ]
}

pub fn environment_variables() -> (variables: Vec<(&'static str, bool)>)
    ensures
        variables@.map_values(|variable: (&'static str, bool)| (variable.0@, variable.1)) == diagnosed_variables(),
{
    let variables = vec![
        ("WVST_BIND_ADDR", false),
        ("WVST_TOKEN", true),
        ("WVST_ALLOWED_ORIGINS", false),
        ("WVST_ALLOW_LOOPBACK_ORIGINS", false),
        ("WVST_HOST_WORKER", false),
        ("WVST_WORKER_AUTO_RESTART", false),
        ("WVST_MAX_WORKER_INSTANCES", false),
        ("WVST_WORKER_QUARANTINE_FAILURES", false),
        ("WVST_MAX_CONTROL_MESSAGE_BYTES", false),
        ("WVST_WORKER_MEMORY_LIMIT_BYTES", false),
        ("WVST_WORKER_CPU_TIME_LIMIT_SECONDS", false),
        ("WVST_WORKER_LINUX_CGROUP_PARENT", false),
        ("WVST_WORKER_LINUX_CGROUP_MEMORY_MAX_BYTES", false),
        ("WVST_WORKER_LINUX_CGROUP_CPU_QUOTA_MICROS", false),
        ("WVST_WORKER_LINUX_CGROUP_CPU_PERIOD_MICROS", false),
    ];
    assert(variables@.map_values(|variable: (&'static str, bool)| (variable.0@, variable.1)) =~= diagnosed_variables());
    variables
}

/// A variable as diagnostics show it: a secret's value is never shown, only whether it is set.
pub fn env_var_diagnostic_from_value(name: &'static str, redacted: bool, value: Option<String>) -> (diagnostic:
    EnvironmentVariableDiagnostic)
    ensures
        diagnostic.name == name,
        diagnostic.present == value is Some,
        diagnostic.redacted == redacted,
        diagnostic.value == if redacted {
            None
        } else {
            value
        },
{
    let present = value.is_some();
    EnvironmentVariableDiagnostic {
        name,
        present,
        value: if redacted {
            None
        } else {
            value
        },
        redacted,
    }
}

/// The diagnostics snapshot: the configuration as `config_diagnostic` shows it, with the
/// platform, host worker and environment as found.
pub fn collect_bridge_diagnostics(
    config: &BridgeConfig,
    bridge_version: &'static str,
    platform: PlatformDiagnostic,
    host_worker: HostWorkerDiagnostic,
    environment: Vec<EnvironmentVariableDiagnostic>,
) -> (snapshot: BridgeServerDiagnosticSnapshot)
    ensures
        snapshot.schema_version == DIAGNOSTIC_SCHEMA_VERSION,
        snapshot.bridge_version == bridge_version,
        snapshot.platform == platform,
        describes_config(snapshot.config, config@),
        snapshot.host_worker == host_worker,
        snapshot.environment == environment,
{
    BridgeServerDiagnosticSnapshot {
        schema_version: DIAGNOSTIC_SCHEMA_VERSION,
        bridge_version,
        platform,
        config: config_diagnostic(config),
        host_worker,
        environment,
    }
}

} // verus!
