use std::path::PathBuf;
use std::time::Duration;
use wvst_bridge_server::worker_supervisor_options::WorkerSupervisorOptions;

#[test]
fn options_start_from_defaults_and_clamp_zero_limits() {
    let options = WorkerSupervisorOptions::new(PathBuf::from("worker"));
    assert_eq!(options.executable, PathBuf::from("worker"));
    assert_eq!(options.timeout, Duration::from_secs(5));
    assert_eq!(options.quarantine_duration, Duration::from_secs(60));
    assert_eq!(options.quarantine_failure_threshold, 3);
    assert!(options.use_audio_ipc);
    assert_eq!(options.max_instances, 64);

    let options = options
        .with_timeout(Duration::from_millis(250))
        .with_quarantine_duration(Duration::from_secs(1))
        .with_quarantine_failure_threshold(0)
        .with_audio_ipc(false)
        .with_max_instances(0);
    assert_eq!(options.timeout, Duration::from_millis(250));
    assert_eq!(options.quarantine_duration, Duration::from_secs(1));
    assert_eq!(options.quarantine_failure_threshold, 1);
    assert!(!options.use_audio_ipc);
    assert_eq!(options.max_instances, 1);

    let options = options.with_quarantine_failure_threshold(7).with_max_instances(2);
    assert_eq!(options.quarantine_failure_threshold, 7);
    assert_eq!(options.max_instances, 2);
}
