use serde_json::Value;
use wvst_bridge_server::component_handler_events::{
    component_handler_snapshot, ComponentHandlerEventPublisher, ComponentHandlerEventsLost,
};

fn metrics(text: &str) -> Value {
    serde_json::from_str(text).expect("metrics json")
}

const METRICS: &str = r#"{"runtime":[
    {"streamId":3,"diagnostics":{"componentHandler":{"totalEvents":99,"recentEvents":[]}}},
    {"streamId":9,"diagnostics":{"componentHandler":{"totalEvents":5,"recentEvents":[
        {"sequence":3,"kind":"restart","restartFlags":{"raw":1,"reloadComponent":true,"ioChanged":false,
            "paramValuesChanged":false,"latencyChanged":false,"paramTitlesChanged":false,
            "midiCcAssignmentChanged":false,"noteExpressionChanged":false,"ioTitlesChanged":false,
            "prefetchableSupportChanged":false,"routingInfoChanged":false,"keyswitchChanged":false,
            "paramIdMappingChanged":false,"unknownBits":0}},
        {"sequence":4},
        {"kind":"edit"},
        {"sequence":5,"kind":"edit","parameterId":7}
    ]}}}
]}"#;

#[test]
fn reads_the_component_handler_snapshot_of_a_stream() {
    let snapshot = component_handler_snapshot(&metrics(METRICS), 9).expect("snapshot");
    assert_eq!(snapshot.total_events, 5);
    let sequences: Vec<u64> = snapshot.recent_events.iter().map(|event| event.header.sequence).collect();
    assert_eq!(sequences, vec![3, 5]);
    assert_eq!(snapshot.recent_events[0].kind, "restart");
    assert!(snapshot.recent_events[0].header.restart_flags.expect("flags").reload_component);
    assert_eq!(snapshot.recent_events[1].header.restart_flags, None);
    assert_eq!(snapshot.recent_events[1].value["parameterId"], 7);
    let other = component_handler_snapshot(&metrics(METRICS), 3).expect("snapshot");
    assert_eq!(other.total_events, 99);
    assert!(other.recent_events.is_empty());
}

#[test]
fn reads_no_snapshot_from_incomplete_metrics() {
    assert!(component_handler_snapshot(&metrics(METRICS), 4).is_none());
    assert!(component_handler_snapshot(&metrics(r#"{"runtime":{}}"#), 9).is_none());
    assert!(component_handler_snapshot(
        &metrics(r#"{"runtime":[{"streamId":9,"diagnostics":{"componentHandler":{"totalEvents":2}}}]}"#),
        9
    )
    .is_none());
    assert!(component_handler_snapshot(
        &metrics(r#"{"runtime":[{"streamId":9,"diagnostics":{"componentHandler":{"totalEvents":2,"recentEvents":{}}}}]}"#),
        9
    )
    .is_none());
    assert!(component_handler_snapshot(
        &metrics(r#"{"runtime":[{"streamId":9,"diagnostics":{"componentHandler":[1]}}]}"#),
        9
    )
    .is_none());
    assert!(component_handler_snapshot(
        &metrics(r#"{"runtime":[{"streamId":9,"diagnostics":{"componentHandler":{"totalEvents":-1,"recentEvents":[]}}}]}"#),
        9
    )
    .is_none());
}

#[test]
fn publishes_from_worker_metrics_once() {
    let mut publisher = ComponentHandlerEventPublisher::new();
    let (snapshot, publication) =
        publisher.publish_from_worker_metrics(7, 9, &metrics(METRICS)).expect("new events");
    assert_eq!(
        publication.lost,
        Some(ComponentHandlerEventsLost { from_sequence: 1, to_sequence: 2, lost_count: 2 })
    );
    assert_eq!(publication.events, vec![0, 1]);
    assert_eq!(snapshot.recent_events[publication.events[1]].header.sequence, 5);
    assert!(publisher.publish_from_worker_metrics(7, 9, &metrics(METRICS)).is_none());
    assert!(publisher.publish_from_worker_metrics(7, 4, &metrics(METRICS)).is_none());
}
