use wvst_bridge_server::config::BridgeConfig;
use wvst_bridge_server::control::{
    control_method, default_include_worker_metrics, hello_decision, paths_from_strings,
    route_control_method, ControlMethod, ControlResponse, ControlRoute,
};
use wvst_bridge_server::metrics::BridgeMetrics;

#[test]
fn routes_known_methods_after_hello() {
    assert!(matches!(
        route_control_method("bridge.hello", false),
        ControlRoute::Dispatch(ControlMethod::BridgeHello)
    ));
    assert!(matches!(
        route_control_method("stream.sharedMemory.pump.enqueueEvents", true),
        ControlRoute::Dispatch(ControlMethod::StreamSharedMemoryPumpEnqueueEvents)
    ));
    assert_eq!(control_method("instance.parameter.performEdit"), Some(ControlMethod::InstanceParameterPerformEdit));
    assert_eq!(control_method("instance.unknown"), None);
}

#[test]
fn rejects_plugin_list_before_hello() {
    match route_control_method("plugin.list", false) {
        ControlRoute::Refuse { code, message, session_authorized } => {
            assert_eq!(code, 4012);
            assert_eq!(message, "bridge session not authorized");
            assert!(!session_authorized);
        }
        other => panic!("unexpected route {other:?}"),
    }
}

#[test]
fn reports_unknown_methods() {
    match route_control_method("bridge.dance", true) {
        ControlRoute::Refuse { code, message, session_authorized } => {
            assert_eq!(code, -32601);
            assert_eq!(message, "method not found: bridge.dance");
            assert!(session_authorized);
        }
        other => panic!("unexpected route {other:?}"),
    }
}

#[test]
fn responds_to_hello() {
    let config = BridgeConfig::development("127.0.0.1:0");
    let mut metrics = BridgeMetrics::new();
    assert_eq!(
        hello_decision(&config, &mut metrics, None, Some("http://localhost:5173"), None, 1, 1, true),
        Ok(())
    );
    assert_eq!(metrics.snapshot().hello_requests, 1);
}

#[test]
fn rejects_denied_origin() {
    let config = BridgeConfig::development("127.0.0.1:0");
    let mut metrics = BridgeMetrics::new();
    assert_eq!(
        hello_decision(&config, &mut metrics, Some("https://evil.example"), None, None, 1, 1, true),
        Err((4010, "origin denied".to_string()))
    );
    assert_eq!(metrics.snapshot().hello_requests, 0);
}

#[test]
fn checks_hello_token_frame_version_and_protocol_in_order() {
    let config = BridgeConfig::development("127.0.0.1:0").with_token("secret");
    let mut metrics = BridgeMetrics::new();
    assert_eq!(
        hello_decision(&config, &mut metrics, None, None, Some("wrong"), 2, 1, false),
        Err((4011, "invalid pairing token".to_string()))
    );
    assert_eq!(
        hello_decision(&config, &mut metrics, None, None, Some("secret"), 2, 1, false),
        Err((4091, "unsupported audio frame version".to_string()))
    );
    assert_eq!(
        hello_decision(&config, &mut metrics, None, None, Some("secret"), 1, 1, false),
        Err((4090, "protocol version mismatch".to_string()))
    );
    assert_eq!(hello_decision(&config, &mut metrics, None, None, Some("secret"), 1, 1, true), Ok(()));
}

#[test]
fn small_control_helpers() {
    let response = ControlResponse::new("{}".to_string(), true);
    assert_eq!(response.text, "{}");
    assert!(response.session_authorized);
    assert!(default_include_worker_metrics());
    let paths = paths_from_strings(vec!["/a".to_string(), "/b/c".to_string()]);
    assert_eq!(paths, vec![std::path::PathBuf::from("/a"), std::path::PathBuf::from("/b/c")]);
}
