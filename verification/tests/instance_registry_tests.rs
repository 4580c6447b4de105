use wvst_bridge_server::instance_registry::types::{
    InstanceCreateParams, InstanceDestroyParams, InstanceError, InstanceState, RuntimeTailInfo,
    StreamLifecycleParams, StreamState, WorkerRuntimeInfo, WorkerState,
};
use wvst_bridge_server::instance_registry::{AudioFormatChecks, InstanceRegistry};
use wvst_bridge_server::plugin::{PluginClass, PluginDescriptor};
use wvst_bridge_server::runtime_capabilities::RuntimeCapabilities;

#[test]
fn creates_multiple_records_for_same_plugin() {
    let mut registry = InstanceRegistry::new();
    let plugin = plugin();
    let first = registry
        .create(create_params(), &plugin, checks(true))
        .expect("first instance");
    let second = registry
        .create(create_params(), &plugin, checks(true))
        .expect("second instance");

    assert_eq!(first.instance_id, 1);
    assert_eq!(first.stream_id, 1);
    assert_eq!(first.backend, None);
    assert_eq!(first.controller_class_id, None);
    assert_eq!(first.runtime_capabilities, RuntimeCapabilities::default());
    assert_eq!(first.latency_samples, 0);
    assert_eq!(first.tail_samples, 0);
    assert_eq!(first.tail_info, RuntimeTailInfo::from_samples(0));
    assert_eq!(second.instance_id, 2);
    assert_eq!(second.stream_id, 2);
    assert_eq!(registry.list().len(), 2);
}

#[test]
fn destroys_record_by_instance_id() {
    let mut registry = InstanceRegistry::new();
    let plugin = plugin();
    let record = registry.create(create_params(), &plugin, checks(true)).expect("instance");

    let destroyed = registry
        .destroy(InstanceDestroyParams {
            instance_id: record.instance_id,
        })
        .expect("destroyed");

    assert_eq!(destroyed.state, InstanceState::Destroyed);
    assert!(registry.list().is_empty());
}

#[test]
fn marks_worker_ready() {
    let mut registry = InstanceRegistry::new();
    let plugin = plugin();
    let record = registry.create(create_params(), &plugin, checks(true)).expect("instance");

    let starting = registry
        .mark_worker_starting(record.instance_id)
        .expect("starting");
    assert_eq!(starting.state, InstanceState::Starting);
    assert_eq!(starting.worker_state, WorkerState::Starting);

    let ready = registry.mark_worker_ready(record.instance_id).expect("ready");

    assert_eq!(ready.state, InstanceState::Ready);
    assert_eq!(ready.worker_state, WorkerState::Ready);
}

#[test]
fn records_worker_runtime_info() {
    let mut registry = InstanceRegistry::new();
    let plugin = plugin();
    let record = registry.create(create_params(), &plugin, checks(true)).expect("instance");

    let ready = registry
        .mark_worker_ready_with_runtime(
            record.instance_id,
            WorkerRuntimeInfo {
                backend: Some("vst3-runtime".to_string()),
                controller_class_id: Some("2a2a2a2a2a2a2a2a2a2a2a2a2a2a2a2a".to_string()),
                runtime_capabilities: RuntimeCapabilities {
                    schema_version: 2,
                    binary_audio_process: true,
                    component_state: true,
                    controller: true,
                    controller_state: true,
                    parameters: true,
                    parameter_automation: true,
                    units: true,
                    unit_program_data: true,
                    program_list_data: true,
                    unit_data: true,
                    midi_mapping: true,
                    output_events: true,
                    output_parameter_changes: true,
                    component_handler_events: true,
                    connection_points: true,
                    process_context: true,
                    unavailable: Vec::new(),
                },
                latency_samples: 64,
                tail_samples: 128,
                tail_info: RuntimeTailInfo::from_samples(128),
            },
        )
        .expect("ready");

    assert_eq!(ready.backend.as_deref(), Some("vst3-runtime"));
    assert_eq!(
        ready.controller_class_id.as_deref(),
        Some("2a2a2a2a2a2a2a2a2a2a2a2a2a2a2a2a")
    );
    assert_eq!(ready.latency_samples, 64);
    assert_eq!(ready.tail_samples, 128);
    assert_eq!(ready.tail_info, RuntimeTailInfo::from_samples(128));
    assert!(ready.runtime_capabilities.parameters);
    assert!(ready.runtime_capabilities.midi_mapping);
    assert_eq!(registry.list()[0].latency_samples, 64);
}

#[test]
fn opens_and_closes_stream() {
    let mut registry = InstanceRegistry::new();
    let plugin = plugin();
    let record = registry.create(create_params(), &plugin, checks(true)).expect("instance");

    let closed = registry
        .close_stream(StreamLifecycleParams {
            instance_id: record.instance_id,
        })
        .expect("closed");
    assert_eq!(closed.stream_state, StreamState::Closed);
    assert!(registry.find_open_by_stream_id(record.stream_id).is_none());

    let open = registry
        .open_stream(StreamLifecycleParams {
            instance_id: record.instance_id,
        })
        .expect("open");
    assert_eq!(open.stream_state, StreamState::Open);
    assert_eq!(
        registry
            .find_open_by_stream_id(record.stream_id)
            .expect("stream")
            .instance_id,
        record.instance_id
    );
}

#[test]
fn selects_only_closed_ready_or_stopped_same_plugin_for_idle_worker_reclaim() {
    let mut registry = InstanceRegistry::new();
    let plugin = plugin();
    let other_plugin = plugin_with_id("vst3:other");

    let ready_closed = registry.create(create_params(), &plugin, checks(true)).expect("ready");
    registry
        .mark_worker_ready(ready_closed.instance_id)
        .expect("ready");
    registry
        .close_stream(StreamLifecycleParams {
            instance_id: ready_closed.instance_id,
        })
        .expect("closed");

    let processing_closed = registry
        .create(create_params(), &plugin, checks(true))
        .expect("processing");
    registry
        .mark_processing(processing_closed.instance_id)
        .expect("processing");
    registry
        .close_stream(StreamLifecycleParams {
            instance_id: processing_closed.instance_id,
        })
        .expect("closed");

    let mut other_params = create_params();
    other_params.plugin_id = other_plugin.plugin_id.clone();
    let other_closed = registry
        .create(other_params, &other_plugin, checks(true))
        .expect("other plugin");
    registry
        .mark_worker_ready(other_closed.instance_id)
        .expect("other ready");
    registry
        .close_stream(StreamLifecycleParams {
            instance_id: other_closed.instance_id,
        })
        .expect("other closed");

    let candidate = registry
        .idle_worker_reclaim_candidate(&plugin.plugin_id, 999)
        .expect("candidate");
    assert_eq!(candidate.instance_id, ready_closed.instance_id);

    assert!(registry
        .idle_worker_reclaim_candidate(&plugin.plugin_id, ready_closed.instance_id)
        .is_none());
}

#[test]
fn selects_closed_stopped_worker_for_idle_reclaim() {
    let mut registry = InstanceRegistry::new();
    let plugin = plugin();
    let stopped = registry.create(create_params(), &plugin, checks(true)).expect("stopped");

    registry.mark_stopped(stopped.instance_id).expect("stopped");
    registry
        .close_stream(StreamLifecycleParams {
            instance_id: stopped.instance_id,
        })
        .expect("closed");

    let candidate = registry
        .idle_worker_reclaim_candidate(&plugin.plugin_id, 999)
        .expect("candidate");
    assert_eq!(candidate.instance_id, stopped.instance_id);
}

#[test]
fn marks_worker_failed() {
    let mut registry = InstanceRegistry::new();
    let plugin = plugin();
    let record = registry.create(create_params(), &plugin, checks(true)).expect("instance");

    let failed = registry.mark_worker_failed(record.instance_id).expect("failed");

    assert_eq!(failed.state, InstanceState::Failed);
    assert_eq!(failed.worker_state, WorkerState::Failed);
}

#[test]
fn marks_worker_recovering() {
    let mut registry = InstanceRegistry::new();
    let plugin = plugin();
    let record = registry.create(create_params(), &plugin, checks(true)).expect("instance");

    let recovering = registry
        .mark_worker_recovering(record.instance_id)
        .expect("recovering");

    assert_eq!(recovering.state, InstanceState::Recovering);
    assert_eq!(recovering.worker_state, WorkerState::Recovering);
}

#[test]
fn marks_processing_and_stopped() {
    let mut registry = InstanceRegistry::new();
    let plugin = plugin();
    let record = registry.create(create_params(), &plugin, checks(true)).expect("instance");

    let processing = registry.mark_processing(record.instance_id).expect("processing");
    assert_eq!(processing.state, InstanceState::Processing);
    assert_eq!(processing.worker_state, WorkerState::Processing);

    let stopping = registry.mark_stopping(record.instance_id).expect("stopping");
    assert_eq!(stopping.state, InstanceState::Stopping);
    assert_eq!(stopping.worker_state, WorkerState::Stopping);

    let stopped = registry.mark_stopped(record.instance_id).expect("stopped");
    assert_eq!(stopped.state, InstanceState::Stopped);
    assert_eq!(stopped.worker_state, WorkerState::Stopped);
}

#[test]
fn heartbeat_ready_preserves_processing_state() {
    let mut registry = InstanceRegistry::new();
    let plugin = plugin();
    let record = registry.create(create_params(), &plugin, checks(true)).expect("instance");

    registry.mark_processing(record.instance_id).expect("processing");
    let heartbeat = registry.mark_worker_ready(record.instance_id).expect("heartbeat");

    assert_eq!(heartbeat.state, InstanceState::Processing);
    assert_eq!(heartbeat.worker_state, WorkerState::Processing);
}

#[test]
fn rejects_invalid_sample_rate() {
    let mut registry = InstanceRegistry::new();
    let plugin = plugin();
    let mut params = create_params();
    params.sample_rate = 1;

    assert_eq!(
        registry.create(params, &plugin, checks(false)),
        Err(InstanceError::InvalidSampleRate(1))
    );
}

#[test]
fn destroyed_instance_is_not_found_afterwards() {
    let mut registry = InstanceRegistry::new();
    let plugin = plugin();
    let record = registry.create(create_params(), &plugin, checks(true)).expect("instance");
    registry
        .destroy(InstanceDestroyParams { instance_id: record.instance_id })
        .expect("destroyed");

    assert_eq!(
        registry.get(record.instance_id),
        Err(InstanceError::InstanceNotFound(record.instance_id))
    );
    assert_eq!(
        registry.destroy(InstanceDestroyParams { instance_id: record.instance_id }),
        Err(InstanceError::InstanceNotFound(record.instance_id))
    );
}

#[test]
fn rejects_empty_class_and_plugin_id() {
    let mut registry = InstanceRegistry::new();
    let plugin = plugin();
    let mut params = create_params();
    params.class_id = Some(String::new());
    assert_eq!(
        registry.create(params, &plugin, checks(true)),
        Err(InstanceError::ClassNotFound(String::new()))
    );

    let mut params = create_params();
    params.plugin_id = String::new();
    assert_eq!(
        registry.create(params, &plugin, checks(true)),
        Err(InstanceError::InvalidPluginId)
    );
    assert!(registry.list().is_empty());

    let mut params = create_params();
    params.class_id = Some("class-b".to_string());
    let unknown_class = registry.create(params, &plugin, checks(true)).expect("unknown class");
    assert_eq!(unknown_class.class_id.as_deref(), Some("class-b"));
    assert_eq!(unknown_class.class_name, None);
}

#[test]
fn instance_error_codes_and_messages() {
    assert_eq!(InstanceError::InstanceNotFound(3).rpc_code(), 4040);
    assert_eq!(InstanceError::InstanceNotFound(3).rpc_message(), "instance not found: 3");
    assert_eq!(InstanceError::InvalidSampleRate(1).rpc_message(), "invalid sampleRate: 1");
}

fn checks(sample_rate_valid: bool) -> AudioFormatChecks {
    AudioFormatChecks {
        sample_rate_valid,
        max_block_frames_valid: true,
        output_channels_valid: true,
        max_channel_count: 32,
    }
}

fn create_params() -> InstanceCreateParams {
    InstanceCreateParams {
        plugin_id: "vst3:test".to_string(),
        class_id: Some("class-a".to_string()),
        sample_rate: 48_000,
        max_block_frames: 128,
        input_channels: 2,
        output_channels: 2,
        input_bus_index: None,
        output_bus_index: None,
    }
}

fn plugin() -> PluginDescriptor {
    plugin_with_id("vst3:test")
}

fn plugin_with_id(plugin_id: &str) -> PluginDescriptor {
    PluginDescriptor {
        plugin_id: plugin_id.to_string(),
        name: "Test".to_string(),
        path: "/tmp/Test.vst3".to_string(),
        classes: vec![PluginClass {
            class_id: Some("class-a".to_string()),
            name: "Test Class".to_string(),
        }],
    }
}

#[test]
fn does_not_infer_tail_info_from_tail_samples() {
    let runtime = WorkerRuntimeInfo::from_worker_result(
        &serde_json::from_str::<serde_json::Value>(
            r#"{"tailSamples":4294967295,"tailInfo":{"samples":4294967295,"kind":"infinite"}}"#,
        )
        .expect("json"),
        Vec::new(),
    );
    assert_eq!(runtime.tail_samples, u32::MAX);
    assert_eq!(runtime.tail_info, RuntimeTailInfo::from_samples(u32::MAX));

    let missing_tail_info = WorkerRuntimeInfo::from_worker_result(
        &serde_json::from_str::<serde_json::Value>(r#"{"tailSamples":256}"#).expect("json"),
        Vec::new(),
    );
    assert_eq!(missing_tail_info.tail_samples, 256);
    assert_eq!(missing_tail_info.tail_info, RuntimeTailInfo::default());
}

#[test]
fn reads_worker_runtime_info_from_worker_result() {
    let value: serde_json::Value = serde_json::from_str(
        r#"{"backend":"vst3-runtime","controllerClassId":7,"latencySamples":64,"tailSamples":4294967296,
            "tailInfo":{"samples":128},
            "runtimeCapabilities":{"schemaVersion":70000,"binaryAudioProcess":true,"parameters":"yes","units":true}}"#,
    )
    .expect("json");
    let runtime = WorkerRuntimeInfo::from_worker_result(&value, Vec::new());
    assert_eq!(runtime.backend.as_deref(), Some("vst3-runtime"));
    assert_eq!(runtime.controller_class_id, None);
    assert_eq!(runtime.latency_samples, 64);
    assert_eq!(runtime.tail_samples, 0);
    assert_eq!(runtime.tail_info, RuntimeTailInfo::from_samples(128));
    let capabilities = &runtime.runtime_capabilities;
    assert_eq!(capabilities.schema_version, 0);
    assert!(capabilities.binary_audio_process);
    assert!(!capabilities.parameters);
    assert!(capabilities.units);
    assert!(!capabilities.controller);

    let bare = WorkerRuntimeInfo::from_worker_result(
        &serde_json::from_str::<serde_json::Value>("{}").expect("json"),
        Vec::new(),
    );
    assert_eq!(bare.runtime_capabilities, RuntimeCapabilities::default());
    assert_eq!(bare.backend, None);
}
