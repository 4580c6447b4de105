use wvst_bridge_server::instance_registry::types::{StreamLifecycleParams, StreamState};
use wvst_bridge_server::instance_registry::{AudioFormatChecks, InstanceRegistry};
use wvst_bridge_server::instance_registry::types::InstanceCreateParams;
use wvst_bridge_server::plugin::{PluginClass, PluginDescriptor};
use wvst_bridge_server::stream_shared_memory::{
    capacity_blocks_for, hex_text, root_mode_is_private, secure_suffix, stream_file_name, SharedMemoryStreamError,
};

fn test_record(stream_state: StreamState) -> wvst_bridge_server::instance_registry::types::InstanceRecord {
    let mut registry = InstanceRegistry::new();
    let plugin = PluginDescriptor {
        plugin_id: "vst3:test".to_string(),
        name: "Test".to_string(),
        path: "/tmp/Test.vst3".to_string(),
        classes: vec![PluginClass { class_id: Some("class-a".to_string()), name: "Test".to_string() }],
    };
    let params = InstanceCreateParams {
        plugin_id: "vst3:test".to_string(),
        class_id: None,
        sample_rate: 48_000,
        max_block_frames: 128,
        input_channels: 2,
        output_channels: 2,
        input_bus_index: None,
        output_bus_index: None,
    };
    let checks = AudioFormatChecks {
        sample_rate_valid: true,
        max_block_frames_valid: true,
        output_channels_valid: true,
        max_channel_count: 32,
    };
    let mut record = registry.create(params, &plugin, checks).expect("record");
    if stream_state == StreamState::Closed {
        record = registry
            .close_stream(StreamLifecycleParams { instance_id: record.instance_id })
            .expect("closed");
    }
    record
}

#[test]
fn rejects_closed_streams_and_zero_capacity() {
    let closed = test_record(StreamState::Closed);
    assert!(matches!(
        capacity_blocks_for(&closed, Some(2)),
        Err(SharedMemoryStreamError::StreamClosed { instance_id: 1 })
    ));
    let open = test_record(StreamState::Open);
    assert!(matches!(
        capacity_blocks_for(&open, Some(0)),
        Err(SharedMemoryStreamError::InvalidCapacityBlocks)
    ));
    assert_eq!(capacity_blocks_for(&open, None), Ok(4));
    assert_eq!(capacity_blocks_for(&open, Some(8)), Ok(8));
}

#[test]
fn names_stream_files_and_checks_root_modes() {
    assert_eq!(stream_file_name(7, 3), "stream-3-instance-7.wvst-shm");
    assert!(root_mode_is_private(0o700));
    assert!(!root_mode_is_private(0o750));
    assert!(!root_mode_is_private(0o701));
    assert_eq!(hex_text(&[0x00, 0x0f, 0xa5, 0xff]), "000fa5ff");
    if let Some(suffix) = secure_suffix() {
        assert_eq!(suffix.len(), 32);
        assert!(suffix.chars().all(|c| c.is_ascii_hexdigit()));
    }
}

#[test]
fn shared_memory_error_codes_and_messages() {
    assert_eq!(SharedMemoryStreamError::StreamClosed { instance_id: 7 }.rpc_code(), 4094);
    assert_eq!(
        SharedMemoryStreamError::StreamClosed { instance_id: 7 }.rpc_message(),
        "stream is closed for instance 7"
    );
    assert_eq!(SharedMemoryStreamError::InvalidCapacityBlocks.rpc_code(), 4221);
    assert_eq!(SharedMemoryStreamError::RegistryUnavailable.rpc_code(), 5035);
    assert_eq!(
        SharedMemoryStreamError::Io { path: "/tmp/x".to_string(), message: "denied".to_string() }.rpc_message(),
        "/tmp/x: denied"
    );
}
