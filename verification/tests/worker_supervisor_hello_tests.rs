use serde_json::Value;
use wvst_bridge_server::worker_supervisor_error::WorkerSupervisorError;
use wvst_bridge_server::worker_supervisor_hello::{
    hello_incompatibility, validate_worker_hello, WorkerCapabilities, WorkerHello,
    EXPECTED_WORKER_IPC_VERSION, WORKER_CONTROL_IPC_SCHEMA_VERSION,
};

fn hello_value(text: &str) -> Value {
    serde_json::from_str(text).expect("hello json")
}

fn full_capabilities() -> WorkerCapabilities {
    WorkerCapabilities {
        instance_lifecycle: true,
        binary_audio_process: true,
        framed_control_ipc: true,
        framed_control_ipc_version: Some(WORKER_CONTROL_IPC_SCHEMA_VERSION),
    }
}

#[test]
fn accepts_matching_framed_control_ipc_version() {
    let hello = hello_value(
        r#"{"ipcVersion":1,"capabilities":{"instanceLifecycle":true,"binaryAudioProcess":true,"framedControlIpc":true,"framedControlIpcVersion":1}}"#,
    );
    let parsed = WorkerHello {
        ipc_version: EXPECTED_WORKER_IPC_VERSION,
        capabilities: full_capabilities(),
    };

    validate_worker_hello(String::new(), hello, Ok(parsed), true).expect("compatible hello");
}

#[test]
fn rejects_missing_framed_control_ipc_version_when_required() {
    let hello = hello_value(
        r#"{"ipcVersion":1,"capabilities":{"instanceLifecycle":true,"binaryAudioProcess":true,"framedControlIpc":true}}"#,
    );
    let parsed = WorkerHello {
        ipc_version: EXPECTED_WORKER_IPC_VERSION,
        capabilities: WorkerCapabilities {
            framed_control_ipc_version: None,
            ..full_capabilities()
        },
    };

    let error = validate_worker_hello(String::new(), hello, Ok(parsed), true)
        .expect_err("incompatible hello");

    assert!(matches!(
        error,
        WorkerSupervisorError::IncompatibleWorker { reason, .. }
            if reason.contains("framedControlIpcVersion")
    ));
}

#[test]
fn allows_json_line_test_workers_without_framed_control_version() {
    let hello = hello_value(
        r#"{"ipcVersion":1,"capabilities":{"instanceLifecycle":true,"binaryAudioProcess":true}}"#,
    );
    let parsed = WorkerHello {
        ipc_version: EXPECTED_WORKER_IPC_VERSION,
        capabilities: WorkerCapabilities {
            instance_lifecycle: true,
            binary_audio_process: true,
            framed_control_ipc: false,
            framed_control_ipc_version: None,
        },
    };

    validate_worker_hello(String::new(), hello, Ok(parsed), false)
        .expect("json-line worker compatibility");
}

#[test]
fn reports_each_hello_incompatibility_in_order() {
    let mut hello = WorkerHello {
        ipc_version: 2,
        capabilities: full_capabilities(),
    };
    assert_eq!(
        hello_incompatibility(&hello, true).as_deref(),
        Some("unsupported ipcVersion 2, expected 1")
    );
    hello.ipc_version = 1;
    hello.capabilities.instance_lifecycle = false;
    assert_eq!(
        hello_incompatibility(&hello, true).as_deref(),
        Some("missing instanceLifecycle capability")
    );
    hello.capabilities.instance_lifecycle = true;
    hello.capabilities.binary_audio_process = false;
    assert_eq!(
        hello_incompatibility(&hello, false).as_deref(),
        Some("missing binaryAudioProcess capability")
    );
    hello.capabilities.binary_audio_process = true;
    hello.capabilities.framed_control_ipc = false;
    assert_eq!(
        hello_incompatibility(&hello, true).as_deref(),
        Some("missing framedControlIpc capability")
    );
    assert_eq!(hello_incompatibility(&hello, false), None);
    hello.capabilities.framed_control_ipc = true;
    hello.capabilities.framed_control_ipc_version = Some(7);
    assert_eq!(
        hello_incompatibility(&hello, true).as_deref(),
        Some("unsupported framedControlIpcVersion Some(7), expected 1")
    );
    hello.capabilities.framed_control_ipc_version = None;
    assert_eq!(
        hello_incompatibility(&hello, true).as_deref(),
        Some("unsupported framedControlIpcVersion None, expected 1")
    );
}

#[test]
fn unparsable_hello_reports_the_announced_ipc_version() {
    let hello = hello_value(r#"{"ipcVersion":9,"capabilities":"none"}"#);
    let error = validate_worker_hello(
        "stderr text".to_string(),
        hello.clone(),
        Err("invalid type".to_string()),
        true,
    )
    .expect_err("unparsable hello");

    match error {
        WorkerSupervisorError::IncompatibleWorker {
            reason,
            expected_ipc_version,
            actual_ipc_version,
            hello: carried,
            stderr,
        } => {
            assert_eq!(reason, "invalid worker hello: invalid type");
            assert_eq!(expected_ipc_version, 1);
            assert_eq!(actual_ipc_version, Some(9));
            assert_eq!(carried, hello);
            assert_eq!(stderr, "stderr text");
        }
        other => panic!("unexpected error {other:?}"),
    }
}
