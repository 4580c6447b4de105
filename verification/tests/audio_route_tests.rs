use serde_json::Value;
use wvst_bridge_server::audio_route::{
    frame_has_length, plan_audio_route, processed_frame_accepted, record_route_plan, AudioRoutePlan,
    RoutedFrameHeader, SilenceReason,
};
use wvst_bridge_server::instance_registry::{
    AudioFormatChecks, InstanceCreateParams, InstanceRegistry, StreamLifecycleParams,
};
use wvst_bridge_server::metrics::BridgeMetrics;
use wvst_bridge_server::plugin::{PluginClass, PluginDescriptor};
use wvst_bridge_server::worker_supervisor_audio::{
    check_audio_response_sequence, process_error_rejection, response_kind_check,
    validate_audio_response_frame, AudioFrameFields, DecodedWorkerAudioError,
    WorkerAudioMessageKind,
};
use wvst_bridge_server::worker_supervisor_error::WorkerSupervisorError;

const HEADER_LEN: usize = 64;

fn plugin() -> PluginDescriptor {
    PluginDescriptor {
        plugin_id: "vst3:test".to_string(),
        name: "Test".to_string(),
        path: "/tmp/Test.vst3".to_string(),
        classes: vec![PluginClass {
            class_id: Some("class-a".to_string()),
            name: "Test Class".to_string(),
        }],
    }
}

fn checks() -> AudioFormatChecks {
    AudioFormatChecks {
        sample_rate_valid: true,
        max_block_frames_valid: true,
        output_channels_valid: true,
        max_channel_count: 64,
    }
}

fn params() -> InstanceCreateParams {
    InstanceCreateParams {
        plugin_id: "vst3:test".to_string(),
        class_id: Some("class-a".to_string()),
        sample_rate: 48_000,
        max_block_frames: 128,
        input_channels: 2,
        output_channels: 2,
        input_bus_index: None,
        output_bus_index: None,
    }
}

fn header(stream_id: u64, payload_len: u32) -> RoutedFrameHeader {
    RoutedFrameHeader {
        stream_id,
        payload_len,
        channels: 2,
    }
}

#[test]
fn frame_length_must_be_header_plus_payload() {
    assert!(frame_has_length(HEADER_LEN + 32, HEADER_LEN, 32));
    assert!(!frame_has_length(HEADER_LEN + 31, HEADER_LEN, 32));
    assert!(!frame_has_length(usize::MAX, usize::MAX, 1));
}

#[test]
fn routes_frames_by_stream_record_state() {
    let mut registry = InstanceRegistry::new();
    let record = registry.create(params(), &plugin(), checks()).expect("record");

    assert_eq!(
        plan_audio_route(&registry, HEADER_LEN + 32, HEADER_LEN, None),
        AudioRoutePlan::Reject
    );
    assert_eq!(
        plan_audio_route(&registry, HEADER_LEN + 31, HEADER_LEN, Some(header(record.stream_id, 32))),
        AudioRoutePlan::InvalidLength { channels: 2 }
    );
    assert_eq!(
        plan_audio_route(&registry, HEADER_LEN + 32, HEADER_LEN, Some(header(99, 32))),
        AudioRoutePlan::UnmatchedStream { channels: 2 }
    );
    assert_eq!(
        plan_audio_route(&registry, HEADER_LEN + 32, HEADER_LEN, Some(header(record.stream_id, 32))),
        AudioRoutePlan::Silence {
            instance_id: record.instance_id,
            output_channels: 2,
            reason: SilenceReason::ProcessError,
        }
    );

    registry.mark_processing(record.instance_id).expect("processing");
    assert_eq!(
        plan_audio_route(&registry, HEADER_LEN + 32, HEADER_LEN, Some(header(record.stream_id, 32))),
        AudioRoutePlan::Process {
            instance_id: record.instance_id,
            output_channels: 2,
        }
    );

    registry
        .close_stream(StreamLifecycleParams {
            instance_id: record.instance_id,
        })
        .expect("closed");
    assert_eq!(
        plan_audio_route(&registry, HEADER_LEN + 32, HEADER_LEN, Some(header(record.stream_id, 32))),
        AudioRoutePlan::Silence {
            instance_id: record.instance_id,
            output_channels: 2,
            reason: SilenceReason::EndOfStream,
        }
    );
}

#[test]
fn accepts_processed_frames_of_the_same_stream_only() {
    let request = header(7, 32);
    assert!(processed_frame_accepted(request, HEADER_LEN + 16, HEADER_LEN, Some(header(7, 16))));
    assert!(!processed_frame_accepted(request, HEADER_LEN + 16, HEADER_LEN, Some(header(8, 16))));
    assert!(!processed_frame_accepted(request, HEADER_LEN + 15, HEADER_LEN, Some(header(7, 16))));
    assert!(!processed_frame_accepted(request, HEADER_LEN + 16, HEADER_LEN, None));
}

fn fields(channels: u16) -> AudioFrameFields {
    AudioFrameFields {
        stream_id: 1,
        sequence: 10,
        sent_frame_time: 512,
        sample_rate: 48_000,
        frames: 2,
        channels,
        payload_len: 16,
    }
}

fn protocol_message(error: WorkerSupervisorError) -> String {
    match error {
        WorkerSupervisorError::Protocol { message, stderr } => {
            assert_eq!(stderr, "");
            message
        }
        other => panic!("unexpected error {other:?}"),
    }
}

#[test]
fn validates_processed_audio_frames_against_the_request() {
    assert!(validate_audio_response_frame(HEADER_LEN + 16, HEADER_LEN, Ok(fields(2)), fields(2), 2).is_ok());
    assert_eq!(
        protocol_message(
            validate_audio_response_frame(HEADER_LEN + 16, HEADER_LEN, Ok(fields(1)), fields(2), 2)
                .expect_err("channel mismatch")
        ),
        "audio response frame does not match request or instance configuration"
    );
    assert_eq!(
        protocol_message(
            validate_audio_response_frame(HEADER_LEN + 17, HEADER_LEN, Ok(fields(2)), fields(2), 2)
                .expect_err("length mismatch")
        ),
        "audio response frame does not match request or instance configuration"
    );
    assert_eq!(
        protocol_message(
            validate_audio_response_frame(
                HEADER_LEN,
                HEADER_LEN,
                Err("bad magic".to_string()),
                fields(2),
                2
            )
            .expect_err("undecodable")
        ),
        "invalid audio response frame: bad magic"
    );
    assert_eq!(
        protocol_message(
            validate_audio_response_frame(usize::MAX, usize::MAX, Ok(fields(2)), fields(2), 2)
                .expect_err("overflow")
        ),
        "audio response frame length overflow"
    );
}

#[test]
fn checks_audio_response_sequence_and_kind() {
    assert!(check_audio_response_sequence(42, 42).is_ok());
    assert_eq!(
        protocol_message(check_audio_response_sequence(42, 41).expect_err("mismatch")),
        "audio response sequence mismatch: expected 42, got 41"
    );
    assert!(response_kind_check(WorkerAudioMessageKind::ProcessResponse).is_ok());
    assert!(response_kind_check(WorkerAudioMessageKind::ProcessError).is_ok());
    assert_eq!(
        protocol_message(
            response_kind_check(WorkerAudioMessageKind::ProcessRequest).expect_err("request")
        ),
        "worker returned request on response path"
    );
}

#[test]
fn process_errors_become_worker_rejections() {
    let data: Value = serde_json::from_str(r#"{"kind":"vst3-runtime-process","stage":"component.process"}"#)
        .expect("data");
    let rejection = process_error_rejection(
        4220,
        DecodedWorkerAudioError {
            message: "VST3 process failed".to_string(),
            data: Some(data.clone()),
        },
    );
    match &rejection {
        WorkerSupervisorError::WorkerRejected {
            code,
            message,
            data: carried,
            stderr,
        } => {
            assert_eq!(*code, 4220);
            assert_eq!(message, "VST3 process failed");
            assert_eq!(carried.as_ref(), Some(&data));
            assert_eq!(stderr, "");
        }
        other => panic!("unexpected error {other:?}"),
    }
    assert!(!rejection.is_audio_request_rejection());
}

#[test]
fn classifies_invalid_audio_requests_as_nonfatal_rejections() {
    let error = WorkerSupervisorError::WorkerRejected {
        code: 4220,
        message: "sample rate mismatch".to_string(),
        data: Some(
            serde_json::from_str(r#"{"schemaVersion":1,"kind":"audio-request-invalid"}"#)
                .expect("data"),
        ),
        stderr: String::new(),
    };

    assert!(error.is_audio_request_rejection());
}

#[test]
fn counts_rejected_and_unmatched_frames() {
    let mut metrics = BridgeMetrics::new();
    record_route_plan(&mut metrics, AudioRoutePlan::Reject);
    record_route_plan(&mut metrics, AudioRoutePlan::InvalidLength { channels: 2 });
    record_route_plan(&mut metrics, AudioRoutePlan::UnmatchedStream { channels: 2 });
    record_route_plan(&mut metrics, AudioRoutePlan::UnmatchedStream { channels: 1 });
    record_route_plan(&mut metrics, AudioRoutePlan::Process { instance_id: 1, output_channels: 2 });
    let snapshot = metrics.snapshot();
    assert_eq!(snapshot.audio_frame_invalid_headers, 1);
    assert_eq!(snapshot.audio_frame_invalid_lengths, 1);
    assert_eq!(snapshot.audio_frame_unmatched_streams, 2);
    assert_eq!(snapshot.audio_frame_route_failures, 0);
    assert_eq!(snapshot.audio_frame_fallbacks, 0);
}
