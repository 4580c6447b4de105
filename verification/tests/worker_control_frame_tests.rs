use wvst_bridge_server::worker_control_frame::{
    validate_framed_batch_response_header, validate_framed_response_body_len, validate_framed_response_header, WorkerControlIpcHeader,
    WorkerControlMessageKind, WORKER_CONTROL_IPC_MAX_BODY_LEN,
};

#[test]
fn validates_framed_control_response_headers() {
    assert!(
        validate_framed_response_header(
            &WorkerControlIpcHeader::new(WorkerControlMessageKind::Response, 0, 7, 0),
            7,
            "worker.metrics",
        )
        .is_ok()
    );
    assert!(
        validate_framed_response_header(
            &WorkerControlIpcHeader::new(WorkerControlMessageKind::ErrorResponse, 4220, 7, 0),
            7,
            "worker.metrics",
        )
        .is_ok()
    );
    assert!(
        validate_framed_response_header(
            &WorkerControlIpcHeader::new(WorkerControlMessageKind::Response, 4220, 7, 0),
            7,
            "worker.metrics",
        )
        .expect_err("nonzero response status")
        .contains("nonzero status")
    );
    assert!(
        validate_framed_response_header(
            &WorkerControlIpcHeader::new(WorkerControlMessageKind::ErrorResponse, 0, 7, 0),
            7,
            "worker.metrics",
        )
        .expect_err("zero error status")
        .contains("zero status")
    );
    assert!(
        validate_framed_response_header(
            &WorkerControlIpcHeader::new(WorkerControlMessageKind::Request, 0, 7, 0),
            7,
            "worker.metrics",
        )
        .expect_err("request while responding")
        .contains("request frame")
    );
    assert!(
        validate_framed_response_header(
            &WorkerControlIpcHeader::new(WorkerControlMessageKind::BatchResponse, 0, 7, 0),
            7,
            "worker.metrics",
        )
        .expect_err("batch response to non-batch request")
        .contains("batch response")
    );
    assert!(
        validate_framed_response_header(
            &WorkerControlIpcHeader::new(WorkerControlMessageKind::Response, 0, 8, 0),
            7,
            "worker.metrics",
        )
        .expect_err("sequence mismatch")
        .contains("sequence mismatch")
    );
    assert!(
        validate_framed_response_body_len(WORKER_CONTROL_IPC_MAX_BODY_LEN + 1)
            .expect_err("oversized body")
            .contains("body too large")
    );
}

#[test]
fn framed_header_messages_name_the_method() {
    assert_eq!(
        validate_framed_response_header(
            &WorkerControlIpcHeader::new(WorkerControlMessageKind::Response, 4220, 7, 0),
            7,
            "worker.metrics",
        ),
        Err("framed response for worker.metrics used nonzero status 4220".to_string())
    );
    assert_eq!(
        validate_framed_response_header(
            &WorkerControlIpcHeader::new(WorkerControlMessageKind::BatchRequest, 0, 7, 0),
            7,
            "instance.create",
        ),
        Err("worker sent batch request frame while responding to instance.create".to_string())
    );
    assert_eq!(
        validate_framed_response_body_len(WORKER_CONTROL_IPC_MAX_BODY_LEN + 1),
        Err("framed response body too large: max 16777216, got 16777217".to_string())
    );
    assert_eq!(validate_framed_response_body_len(WORKER_CONTROL_IPC_MAX_BODY_LEN), Ok(()));
}

#[test]
fn validates_framed_batch_response_headers() {
    assert_eq!(
        validate_framed_batch_response_header(
            &WorkerControlIpcHeader::new(WorkerControlMessageKind::BatchResponse, 0, 9, 10),
            9
        ),
        Ok(())
    );
    assert_eq!(
        validate_framed_batch_response_header(
            &WorkerControlIpcHeader::new(WorkerControlMessageKind::BatchResponse, 0, 8, 10),
            9
        ),
        Err("framed batch response sequence mismatch".to_string())
    );
    assert_eq!(
        validate_framed_batch_response_header(
            &WorkerControlIpcHeader::new(WorkerControlMessageKind::BatchResponse, 4220, 9, 10),
            9
        ),
        Err("framed batch response used nonzero status 4220".to_string())
    );
    assert_eq!(
        validate_framed_batch_response_header(
            &WorkerControlIpcHeader::new(WorkerControlMessageKind::ErrorResponse, 1, 9, 10),
            9
        ),
        Err("worker sent ErrorResponse frame while responding to control batch".to_string())
    );
}
