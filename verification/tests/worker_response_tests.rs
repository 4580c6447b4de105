use serde_json::Value;
use wvst_bridge_server::worker_response::{
    batch_request_ids, check_batch_response_count, response_outcome, WorkerResponse,
    WorkerResponseError,
};
use wvst_bridge_server::worker_supervisor_error::WorkerSupervisorError;

fn json(text: &str) -> Value {
    serde_json::from_str(text).expect("json")
}

fn protocol_message(error: WorkerSupervisorError) -> String {
    match error {
        WorkerSupervisorError::Protocol { message, .. } => message,
        other => panic!("unexpected error {other:?}"),
    }
}

#[test]
fn response_outcomes_follow_id_error_and_result() {
    let ok = response_outcome(
        7,
        "worker.metrics",
        WorkerResponse {
            id: json("7"),
            result: Some(json(r#"{"instances":1}"#)),
            error: None,
        },
        String::new(),
    );
    assert_eq!(ok.expect("result"), json(r#"{"instances":1}"#));

    let mismatch = response_outcome(
        7,
        "worker.metrics",
        WorkerResponse {
            id: json("\"7\""),
            result: Some(json("1")),
            error: None,
        },
        String::new(),
    );
    assert_eq!(
        protocol_message(mismatch.expect_err("id mismatch")),
        "response id mismatch for worker.metrics"
    );

    let rejected = response_outcome(
        7,
        "instance.create",
        WorkerResponse {
            id: json("7"),
            result: None,
            error: Some(WorkerResponseError {
                code: 4220,
                message: "bad plugin".to_string(),
                data: Some(json(r#"{"kind":"vst3-runtime-load"}"#)),
            }),
        },
        "stderr tail".to_string(),
    );
    match rejected.expect_err("rejection") {
        WorkerSupervisorError::WorkerRejected {
            code,
            message,
            data,
            stderr,
        } => {
            assert_eq!(code, 4220);
            assert_eq!(message, "bad plugin");
            assert_eq!(data, Some(json(r#"{"kind":"vst3-runtime-load"}"#)));
            assert_eq!(stderr, "stderr tail");
        }
        other => panic!("unexpected error {other:?}"),
    }

    let missing = response_outcome(
        7,
        "worker.metrics",
        WorkerResponse {
            id: json("7"),
            result: None,
            error: None,
        },
        String::new(),
    );
    assert_eq!(protocol_message(missing.expect_err("missing")), "missing result");
}

#[test]
fn batch_ids_count_up_and_stop_at_the_maximum() {
    let (ids, batch, next) = batch_request_ids(5, 3);
    assert_eq!(ids, vec![5, 6, 7]);
    assert_eq!(batch, 8);
    assert_eq!(next, 9);

    let (ids, batch, next) = batch_request_ids(u64::MAX - 1, 2);
    assert_eq!(ids, vec![u64::MAX - 1, u64::MAX]);
    assert_eq!(batch, u64::MAX);
    assert_eq!(next, u64::MAX);

    assert!(check_batch_response_count(2, 2).is_ok());
    assert_eq!(
        protocol_message(check_batch_response_count(3, 2).expect_err("count")),
        "batch response count mismatch: expected 3, got 2"
    );
}
