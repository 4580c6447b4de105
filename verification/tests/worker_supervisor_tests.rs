use std::time::Duration;

use serde_json::Value;
use wvst_bridge_server::rpc::{RpcData, RpcValue};
use wvst_bridge_server::stream_shared_memory_pump::runtime::{classify_worker_error, last_error_from_worker};
use wvst_bridge_server::stream_shared_memory_pump::SharedMemoryPumpTickOutcome;
use wvst_bridge_server::worker_supervisor_error::WorkerSupervisorError;
use wvst_bridge_server::worker_supervisor_policy::{
    request_timeout, WorkerFailureTracker, WorkerQuarantineStatus, FAILURE_WINDOW_MS,
};

fn object(entries: &[(&str, Value)]) -> Value {
    let mut map = serde_json::Map::new();
    for (key, value) in entries {
        map.insert(key.to_string(), value.clone());
    }
    Value::Object(map)
}

fn member<'a>(data: &'a RpcData, key: &str) -> Option<&'a RpcValue> {
    data.fields.iter().find(|field| field.key == key).map(|field| &field.value)
}

fn text_member(data: &RpcData, key: &str) -> Option<String> {
    match member(data, key) {
        Some(RpcValue::Text(text)) => Some(text.clone()),
        _ => None,
    }
}

#[test]
fn classifies_worker_supervisor_errors() {
    let timeout = WorkerSupervisorError::Timeout {
        method: "worker.metrics",
        timeout_ms: 5000,
        stderr: "busy".to_string(),
    }
    .rpc_data();

    assert_eq!(text_member(&timeout, "kind").as_deref(), Some("timeout"));
    assert_eq!(timeout.classification.expect("classified").category, "worker-timeout");

    let launch = WorkerSupervisorError::Spawn {
        executable: "/tmp/wvst-host-worker".to_string(),
        message: "permission denied".to_string(),
    }
    .rpc_data();
    assert_eq!(launch.classification.expect("classified").category, "worker-launch");

    let rejected = WorkerSupervisorError::WorkerRejected {
        code: 4220,
        message: "VST3 init failed".to_string(),
        data: Some(object(&[("kind", Value::from("vst3-runtime-init"))])),
        stderr: String::new(),
    }
    .rpc_data();
    assert_eq!(rejected.classification.expect("classified").category, "worker-rejection");
    match member(&rejected, "workerData") {
        Some(RpcValue::Payload(data)) => assert_eq!(data["kind"], "vst3-runtime-init"),
        other => panic!("unexpected worker data {other:?}"),
    }
}

#[test]
fn classifies_shared_memory_tick_outcomes() {
    let input = WorkerSupervisorError::WorkerRejected {
        code: 4094,
        message: "shared audio read requested 2 frames but only 0 are available".to_string(),
        data: Some(object(&[
            ("kind", Value::from("shared-memory-audio")),
            ("reason", Value::from("input-underrun")),
        ])),
        stderr: String::new(),
    };
    assert_eq!(classify_worker_error(&input), SharedMemoryPumpTickOutcome::InputUnderrun);

    let output = WorkerSupervisorError::WorkerRejected {
        code: 4094,
        message: "shared memory output ring is full".to_string(),
        data: Some(object(&[
            ("kind", Value::from("shared-memory-audio")),
            ("workerData", object(&[("reason", Value::from("output-backpressure"))])),
        ])),
        stderr: String::new(),
    };
    assert_eq!(classify_worker_error(&output), SharedMemoryPumpTickOutcome::OutputBackpressure);

    let worker = WorkerSupervisorError::Timeout {
        method: "stream.sharedMemory.process",
        timeout_ms: 50,
        stderr: String::new(),
    };
    assert_eq!(classify_worker_error(&worker), SharedMemoryPumpTickOutcome::WorkerError);

    let last_error = last_error_from_worker(&worker);
    assert_eq!(last_error.code, 5035);
    assert_eq!(
        last_error.message,
        "worker method stream.sharedMemory.process timed out after 50ms"
    );
}

#[test]
fn worker_error_codes_and_messages() {
    let quarantined = WorkerSupervisorError::Quarantined {
        plugin_id: "vst3:test".to_string(),
        failures: 3,
        release_after_ms: 1500,
    };
    assert_eq!(quarantined.rpc_code(), 4093);
    assert_eq!(
        quarantined.rpc_message(),
        "worker quarantined for plugin vst3:test after 3 failures; retry after 1500ms"
    );
    let limit = WorkerSupervisorError::ResourceLimitExceeded { limit: 2, active: 2 };
    assert_eq!(limit.rpc_code(), 4290);
    assert_eq!(limit.rpc_message(), "worker instance limit reached: active 2, limit 2");
    assert_eq!(text_member(&limit.rpc_data(), "resource").as_deref(), Some("worker-instances"));
    assert_eq!(WorkerSupervisorError::MissingPipe("stdout").rpc_message(), "worker missing stdout pipe");
    assert_eq!(WorkerSupervisorError::WorkerMissing { instance_id: 4 }.rpc_code(), 4041);
}

#[test]
fn recognizes_control_and_audio_rejections() {
    let runtime = WorkerSupervisorError::WorkerRejected {
        code: 4220,
        message: "process failed".to_string(),
        data: Some(object(&[("kind", Value::from("vst3-runtime-process"))])),
        stderr: String::new(),
    };
    assert!(!runtime.is_control_request_rejection());
    assert!(!runtime.is_audio_request_rejection());

    let audio = WorkerSupervisorError::WorkerRejected {
        code: 4220,
        message: "bad request".to_string(),
        data: Some(object(&[("kind", Value::from("audio-request-invalid"))])),
        stderr: String::new(),
    };
    assert!(audio.is_control_request_rejection());
    assert!(audio.is_audio_request_rejection());

    let bare = WorkerSupervisorError::WorkerRejected {
        code: 4220,
        message: "no data".to_string(),
        data: None,
        stderr: String::new(),
    };
    assert!(bare.is_control_request_rejection());
    assert!(!bare.is_audio_request_rejection());
    assert!(!WorkerSupervisorError::Io("broken pipe".to_string()).is_control_request_rejection());
}

#[test]
fn state_loading_has_an_independent_budget() {
    let timeout = Duration::from_millis(50);
    let load_timeout = Duration::from_secs(120);
    for method in [
        "instance.create",
        "instance.setState",
        "instance.programData.set",
        "instance.unitData.set",
    ] {
        assert_eq!(request_timeout(method, timeout, load_timeout), Duration::from_secs(120));
    }
    assert_eq!(request_timeout("worker.metrics", timeout, load_timeout), Duration::from_millis(50));
    assert_eq!(request_timeout("audio.processFrame", timeout, load_timeout), Duration::from_millis(50));
}

#[test]
fn isolated_failures_do_not_accumulate_forever() {
    let mut tracker = WorkerFailureTracker::new(60_000, 3);
    let start: u64 = 1_000_000;
    tracker.record_failure("plugin", start);
    assert_eq!(tracker.record_failure("plugin", start + FAILURE_WINDOW_MS), None);
    assert_eq!(tracker.record_failure("plugin", start + FAILURE_WINDOW_MS + 1), None);
    assert_eq!(tracker.record_failure("plugin", start + FAILURE_WINDOW_MS + 2), Some(3));
}

#[test]
fn quarantines_after_configured_failure_threshold() {
    let mut tracker = WorkerFailureTracker::new(1_000, 2);
    assert_eq!(tracker.record_failure("vst3:test", 10), None);
    assert_eq!(tracker.record_failure("vst3:test", 20), Some(2));
    assert_eq!(
        tracker.quarantine_status("vst3:test", 520),
        Some(WorkerQuarantineStatus { failures: 2, release_after_ms: 500 })
    );
    assert_eq!(tracker.quarantine_failures("vst3:test", 520), Some(2));
    assert_eq!(tracker.quarantine_status("vst3:other", 520), None);

    match tracker.reject_if_quarantined("vst3:test", 520) {
        Err(WorkerSupervisorError::Quarantined { plugin_id, failures, release_after_ms }) => {
            assert_eq!(plugin_id, "vst3:test");
            assert_eq!(failures, 2);
            assert_eq!(release_after_ms, 500);
        }
        other => panic!("expected quarantine, got {other:?}"),
    }
    assert_eq!(tracker.record_failure("vst3:test", 600), Some(2));
    assert!(tracker.reject_if_quarantined("vst3:other", 520).is_ok());
}

#[test]
fn releases_quarantine_after_duration() {
    let mut tracker = WorkerFailureTracker::new(1_000, 1);
    assert_eq!(tracker.record_failure("vst3:test", 0), Some(1));
    assert_eq!(tracker.release_expired_quarantine("vst3:test", 999), None);
    assert_eq!(tracker.release_expired_quarantine("vst3:test", 1_000), Some(1));
    assert_eq!(tracker.quarantine_status("vst3:test", 1_000), None);

    assert_eq!(tracker.record_failure("vst3:test", 2_000), Some(1));
    assert!(tracker.reject_if_quarantined("vst3:test", 3_000).is_ok());
    assert_eq!(tracker.quarantine_status("vst3:test", 3_000), None);
}
