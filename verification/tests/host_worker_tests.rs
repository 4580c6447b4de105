use std::path::PathBuf;
use std::time::Duration;

use wvst_bridge_server::host_worker::{truncate_decoded, truncate_text, worker_run_result, HostWorkerClient, HostWorkerError};
use wvst_bridge_server::rpc::{RpcData, RpcValue};

fn text_member(data: &RpcData, key: &str) -> Option<String> {
    data.fields.iter().find(|field| field.key == key).and_then(|field| match &field.value {
        RpcValue::Text(text) => Some(text.clone()),
        _ => None,
    })
}

#[test]
fn error_data_includes_worker_stderr() {
    let error = HostWorkerError::Exit {
        status: "exit status: 2".to_string(),
        stderr: "module load failed".to_string(),
    };
    let data = error.rpc_data();

    assert_eq!(error.rpc_code(), 5032);
    assert_eq!(text_member(&data, "kind").as_deref(), Some("exit"));
    assert_eq!(text_member(&data, "stderr").as_deref(), Some("module load failed"));
}

#[test]
fn host_worker_messages() {
    assert_eq!(
        HostWorkerError::Timeout { timeout_ms: 5000 }.rpc_message(),
        "host worker timed out after 5000ms"
    );
    assert_eq!(
        HostWorkerError::Exit { status: "exit status: 1".to_string(), stderr: String::new() }.rpc_message(),
        "host worker exited with exit status: 1"
    );
    assert_eq!(
        HostWorkerError::Spawn { executable: "/bin/w".to_string(), message: "denied".to_string() }.rpc_message(),
        "failed to start host worker /bin/w: denied"
    );
    assert_eq!(HostWorkerError::InvalidJson { message: "eof".to_string(), stdout: String::new() }.rpc_code(), 5033);
}

#[test]
fn truncates_long_worker_output() {
    assert_eq!(truncate_text(b"  short  \n"), "short");
    let long = "x".repeat(5000);
    let truncated = truncate_text(long.as_bytes());
    assert_eq!(truncated.chars().count(), 4099);
    assert!(truncated.ends_with("..."));
}

#[test]
fn reads_worker_run_results() {
    let value = worker_run_result(true, "exit status: 0".to_string(), br#"{"vendor":"WVST"}"#, b"").expect("json");
    assert_eq!(value["vendor"], "WVST");
    match worker_run_result(false, "exit status: 2".to_string(), b"", b" boom \n") {
        Err(HostWorkerError::Exit { status, stderr }) => {
            assert_eq!(status, "exit status: 2");
            assert_eq!(stderr, "boom");
        }
        other => panic!("unexpected {other:?}"),
    }
    assert!(matches!(
        worker_run_result(true, String::new(), b"not json", b""),
        Err(HostWorkerError::InvalidJson { .. })
    ));
}

#[test]
fn client_keeps_executable_and_timeout() {
    let client = HostWorkerClient::new(PathBuf::from("/tmp/wvst-host-worker"), Duration::from_millis(250));
    assert_eq!(client.executable_path(), &PathBuf::from("/tmp/wvst-host-worker"));
    assert_eq!(client.timeout(), Duration::from_millis(250));
}

#[test]
fn truncates_decoded_output() {
    assert_eq!(truncate_decoded("  worker failed \n"), "worker failed");
    let long = "x".repeat(5000);
    let truncated = truncate_decoded(&long);
    assert!(truncated.ends_with("..."));
    assert_eq!(truncated.chars().count(), 4099);
    assert_eq!(truncated, truncate_text(long.as_bytes()));
}
