use std::path::PathBuf;
use std::time::Duration;
use vstd::prelude::*;

use crate::clock::duration_from_secs;

verus! {

/// How long a worker has to answer an IPC request by default, in seconds.
pub const DEFAULT_IPC_TIMEOUT_SECS: u64 = 5;

/// How long a quarantine lasts by default, in seconds.
pub const DEFAULT_QUARANTINE_DURATION_SECS: u64 = 60;

/// How many worker instances may run at once by default.
pub const DEFAULT_MAX_WORKER_INSTANCES: usize = 64;

/// How many failures in a row quarantine a plugin by default.
pub const DEFAULT_QUARANTINE_FAILURE_THRESHOLD: u32 = 3;

/// How a worker supervisor runs its workers.
#[derive(Debug)]
pub struct WorkerSupervisorOptions {
    pub executable: PathBuf,
    pub timeout: Duration,
    pub quarantine_duration: Duration,
    pub quarantine_failure_threshold: u32,
    pub use_audio_ipc: bool,
    pub max_instances: usize,
}

impl WorkerSupervisorOptions {
    /// The defaults for a worker executable: 5 s IPC timeout, 60 s quarantine after 3
    /// failures, audio IPC on, and at most 64 instances.
    pub fn new(executable: PathBuf) -> (options: Self)
        ensures
            options.executable == executable,
            options.timeout == duration_from_secs(DEFAULT_IPC_TIMEOUT_SECS),
            options.quarantine_duration == duration_from_secs(DEFAULT_QUARANTINE_DURATION_SECS),
            options.quarantine_failure_threshold == DEFAULT_QUARANTINE_FAILURE_THRESHOLD,
            options.use_audio_ipc,
            options.max_instances == DEFAULT_MAX_WORKER_INSTANCES,
    {
        WorkerSupervisorOptions {
            executable,
            timeout: Duration::from_secs(DEFAULT_IPC_TIMEOUT_SECS),
            quarantine_duration: Duration::from_secs(DEFAULT_QUARANTINE_DURATION_SECS),
            quarantine_failure_threshold: DEFAULT_QUARANTINE_FAILURE_THRESHOLD,
            use_audio_ipc: true,
            max_instances: DEFAULT_MAX_WORKER_INSTANCES,
        }
    }

    pub fn with_timeout(self, timeout: Duration) -> (options: Self)
        ensures
            options == (WorkerSupervisorOptions { timeout, ..self }),
    {
        WorkerSupervisorOptions { timeout, ..self }
    }

    pub fn with_quarantine_duration(self, duration: Duration) -> (options: Self)
        ensures
            options == (WorkerSupervisorOptions { quarantine_duration: duration, ..self }),
    {
        WorkerSupervisorOptions { quarantine_duration: duration, ..self }
    }

    /// Sets the failure threshold; a threshold of 0 counts as 1.
    pub fn with_quarantine_failure_threshold(self, failures: u32) -> (options: Self)
        ensures
            options == (WorkerSupervisorOptions {
                quarantine_failure_threshold: if failures == 0 { 1 } else { failures },
                ..self
            }),
    {
        let threshold = if failures == 0 { 1 } else { failures };
        WorkerSupervisorOptions { quarantine_failure_threshold: threshold, ..self }
    }

    pub fn with_audio_ipc(self, enabled: bool) -> (options: Self)
        ensures
            options == (WorkerSupervisorOptions { use_audio_ipc: enabled, ..self }),
    {
        WorkerSupervisorOptions { use_audio_ipc: enabled, ..self }
    }

    /// Sets the instance limit; a limit of 0 counts as 1.
    pub fn with_max_instances(self, max_instances: usize) -> (options: Self)
        ensures
            options == (WorkerSupervisorOptions {
                max_instances: if max_instances == 0 { 1 } else { max_instances },
                ..self
            }),
    {
        let limit = if max_instances == 0 { 1 } else { max_instances };
        WorkerSupervisorOptions { max_instances: limit, ..self }
    }
}

} // verus!
