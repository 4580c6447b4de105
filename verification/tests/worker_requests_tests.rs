use serde_json::Value;
use wvst_bridge_server::instance_registry::{
    AudioFormatChecks, InstanceCreateParams, InstanceRegistry,
};
use wvst_bridge_server::plugin::{PluginClass, PluginDescriptor};
use wvst_bridge_server::rpc::{RpcData, RpcValue};
use wvst_bridge_server::worker_requests::{
    instance_create_params, metadata_refresh_value, refresh_batch_plan,
};

fn json(text: &str) -> Value {
    serde_json::from_str(text).expect("json")
}

fn member<'a>(data: &'a RpcData, key: &str) -> &'a RpcValue {
    &data
        .fields
        .iter()
        .find(|field| field.key == key)
        .expect("member")
        .value
}

fn keys(data: &RpcData) -> Vec<&str> {
    data.fields.iter().map(|field| field.key.as_str()).collect()
}

#[test]
fn builds_worker_instance_create_params() {
    let mut registry = InstanceRegistry::new();
    let plugin = PluginDescriptor {
        plugin_id: "vst3:test".to_string(),
        name: "Test".to_string(),
        path: "/tmp/Test.vst3".to_string(),
        classes: vec![PluginClass {
            class_id: Some("class-a".to_string()),
            name: "Test Class".to_string(),
        }],
    };
    let params = InstanceCreateParams {
        plugin_id: "vst3:test".to_string(),
        class_id: None,
        sample_rate: 48_000,
        max_block_frames: 128,
        input_channels: 2,
        output_channels: 2,
        input_bus_index: Some(1),
        output_bus_index: None,
    };
    let checks = AudioFormatChecks {
        sample_rate_valid: true,
        max_block_frames_valid: true,
        output_channels_valid: true,
        max_channel_count: 32,
    };
    let record = registry.create(params, &plugin, checks).expect("record");
    let data = instance_create_params(&record);
    assert_eq!(
        keys(&data),
        vec![
            "instanceId",
            "streamId",
            "pluginId",
            "pluginPath",
            "classId",
            "className",
            "sampleRate",
            "maxBlockFrames",
            "inputChannels",
            "outputChannels",
            "inputBusIndex"
        ]
    );
    assert!(matches!(member(&data, "pluginPath"), RpcValue::Text(path) if path == "/tmp/Test.vst3"));
    assert!(matches!(member(&data, "classId"), RpcValue::Text(class) if class == "class-a"));
    assert!(matches!(member(&data, "sampleRate"), RpcValue::Unsigned(48_000)));
    assert!(matches!(member(&data, "inputBusIndex"), RpcValue::Signed(1)));
}

#[test]
fn plans_refresh_batches() {
    let plan = refresh_batch_plan(false, false);
    assert_eq!(plan.methods, vec!["instance.parameters", "instance.units"]);
    assert_eq!((plan.state_index, plan.worker_index), (None, None));

    let plan = refresh_batch_plan(true, true);
    assert_eq!(
        plan.methods,
        vec!["instance.parameters", "instance.units", "instance.getState", "worker.metrics"]
    );
    assert_eq!((plan.state_index, plan.worker_index), (Some(3), Some(4)));

    let plan = refresh_batch_plan(false, true);
    assert_eq!(plan.methods, vec!["instance.parameters", "instance.units", "worker.metrics"]);
    assert_eq!((plan.state_index, plan.worker_index), (None, Some(3)));
}

#[test]
fn reads_refreshed_metadata_from_batch_answers() {
    let results = vec![
        json(r#"{"ok":true}"#),
        json(r#"{"parameters":[{"id":1}]}"#),
        json(r#"{"units":[]}"#),
        json(r#"{"stateBase64":"AQID"}"#),
    ];
    let metadata = metadata_refresh_value(5, &results, 1, 2, Some(3), Some(9));
    assert_eq!(keys(&metadata), vec!["instanceId", "parameters", "unitInfo", "state", "worker"]);
    assert!(matches!(member(&metadata, "instanceId"), RpcValue::Unsigned(5)));
    assert!(matches!(member(&metadata, "parameters"), RpcValue::Payload(value) if *value == json(r#"[{"id":1}]"#)));
    assert!(matches!(member(&metadata, "unitInfo"), RpcValue::Null));
    assert!(matches!(member(&metadata, "state"), RpcValue::Payload(value) if *value == json(r#"{"stateBase64":"AQID"}"#)));
    assert!(matches!(member(&metadata, "worker"), RpcValue::Null));
}
