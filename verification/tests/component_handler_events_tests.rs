use wvst_bridge_server::component_handler_events::{
    metadata_invalidation, metadata_invalidation_reasons, metadata_refresh_policy,
    ComponentHandlerEventHeader, ComponentHandlerEventPublisher, ComponentHandlerEventsLost,
};
use wvst_bridge_server::events::{
    Vst3MetadataInvalidationReason, Vst3MetadataRefreshPolicy, Vst3RestartFlags,
};

fn no_flags() -> Vst3RestartFlags {
    Vst3RestartFlags {
        raw: 0,
        reload_component: false,
        io_changed: false,
        param_values_changed: false,
        latency_changed: false,
        param_titles_changed: false,
        midi_cc_assignment_changed: false,
        note_expression_changed: false,
        io_titles_changed: false,
        prefetchable_support_changed: false,
        routing_info_changed: false,
        keyswitch_changed: false,
        param_id_mapping_changed: false,
        unknown_bits: 0,
    }
}

fn event(sequence: u64) -> ComponentHandlerEventHeader {
    ComponentHandlerEventHeader {
        sequence,
        restart_flags: None,
    }
}

#[test]
fn classifies_metadata_refresh_policy() {
    let mut flags = no_flags();

    flags.latency_changed = true;
    assert_eq!(
        metadata_refresh_policy(flags),
        Vst3MetadataRefreshPolicy::RefreshMetadata
    );

    flags.io_changed = true;
    assert_eq!(
        metadata_refresh_policy(flags),
        Vst3MetadataRefreshPolicy::RebuildAudioGraph
    );

    flags.reload_component = true;
    assert_eq!(
        metadata_refresh_policy(flags),
        Vst3MetadataRefreshPolicy::ReloadComponent
    );
}

#[test]
fn publishes_component_handler_events_once() {
    let mut publisher = ComponentHandlerEventPublisher::new();
    let recent = vec![event(1), event(2)];

    let first = publisher.publish(7, 2, &recent).expect("new events");
    assert_eq!(first.lost, None);
    assert_eq!(first.events, vec![0, 1]);

    assert_eq!(publisher.publish(7, 2, &recent), None);
}

#[test]
fn reports_lost_component_handler_events() {
    let mut publisher = ComponentHandlerEventPublisher::new();
    let recent = vec![event(7), event(70)];

    let publication = publisher.publish(7, 70, &recent).expect("new events");
    assert_eq!(
        publication.lost,
        Some(ComponentHandlerEventsLost {
            from_sequence: 1,
            to_sequence: 6,
            lost_count: 6,
        })
    );
    assert_eq!(publication.events.len(), 2);
}

#[test]
fn forwards_structured_restart_flags() {
    let mut flags = no_flags();
    flags.raw = 24;
    flags.latency_changed = true;
    flags.param_titles_changed = true;

    let mut publisher = ComponentHandlerEventPublisher::new();
    let recent = vec![ComponentHandlerEventHeader {
        sequence: 1,
        restart_flags: Some(flags),
    }];
    let publication = publisher.publish(7, 1, &recent).expect("new events");
    assert_eq!(publication.events, vec![0]);
    let restart_flags = recent[publication.events[0]].restart_flags.expect("restart flags");
    assert!(restart_flags.latency_changed);
    assert!(restart_flags.param_titles_changed);
    assert_eq!(restart_flags.raw, 24);

    let invalidation = metadata_invalidation(restart_flags).expect("invalidation");
    assert_eq!(
        invalidation.reasons,
        vec![
            Vst3MetadataInvalidationReason::ParameterInfo,
            Vst3MetadataInvalidationReason::Latency,
        ]
    );
    assert_eq!(
        invalidation.refresh_policy,
        Vst3MetadataRefreshPolicy::RefreshMetadata
    );
}

#[test]
fn restart_flags_without_reasons_invalidate_nothing() {
    let mut flags = no_flags();
    flags.unknown_bits = 4096;
    assert!(metadata_invalidation_reasons(flags).is_empty());
    assert_eq!(metadata_invalidation(flags), None);
}

#[test]
fn lists_every_invalidation_reason_in_order() {
    let flags = Vst3RestartFlags {
        raw: -1,
        reload_component: true,
        io_changed: true,
        param_values_changed: true,
        latency_changed: true,
        param_titles_changed: true,
        midi_cc_assignment_changed: true,
        note_expression_changed: true,
        io_titles_changed: true,
        prefetchable_support_changed: true,
        routing_info_changed: true,
        keyswitch_changed: true,
        param_id_mapping_changed: true,
        unknown_bits: 0,
    };
    assert_eq!(
        metadata_invalidation_reasons(flags),
        vec![
            Vst3MetadataInvalidationReason::ReloadComponent,
            Vst3MetadataInvalidationReason::AudioIo,
            Vst3MetadataInvalidationReason::ParameterValues,
            Vst3MetadataInvalidationReason::ParameterInfo,
            Vst3MetadataInvalidationReason::Latency,
            Vst3MetadataInvalidationReason::MidiMapping,
            Vst3MetadataInvalidationReason::NoteExpression,
            Vst3MetadataInvalidationReason::RoutingInfo,
            Vst3MetadataInvalidationReason::PrefetchableSupport,
            Vst3MetadataInvalidationReason::Keyswitches,
        ]
    );
}

#[test]
fn restarted_worker_sequence_is_published_again() {
    let mut publisher = ComponentHandlerEventPublisher::new();
    assert!(publisher.publish(7, 5, &vec![event(5)]).is_some());
    let again = publisher.publish(7, 2, &vec![event(1), event(2)]).expect("restarted");
    assert_eq!(again.events, vec![0, 1]);
    assert_eq!(again.lost, None);

    assert_eq!(publisher.publish(7, 0, &Vec::new()), None);
    publisher.reset_instance(7);
    assert_eq!(publisher.publish(7, 2, &vec![event(2)]).expect("after reset").lost.map(|lost| lost.lost_count), Some(1));
}

#[test]
fn reads_restart_flags_reported_by_the_worker() {
    let value: serde_json::Value = serde_json::from_str(
        r#"{"raw":513,"reloadComponent":false,"ioChanged":true,"paramValuesChanged":false,
            "latencyChanged":false,"paramTitlesChanged":false,"midiCcAssignmentChanged":false,
            "noteExpressionChanged":false,"ioTitlesChanged":false,"prefetchableSupportChanged":false,
            "routingInfoChanged":false,"keyswitchChanged":false,"paramIdMappingChanged":true,"unknownBits":0}"#,
    )
    .expect("json");
    let flags = wvst_bridge_server::component_handler_events::restart_flags(&value).expect("flags");
    assert_eq!(flags.raw, 513);
    assert!(flags.io_changed);
    assert!(flags.param_id_mapping_changed);
    assert!(!flags.reload_component);

    let missing: serde_json::Value = serde_json::from_str(r#"{"raw":1,"reloadComponent":true}"#).expect("json");
    assert_eq!(wvst_bridge_server::component_handler_events::restart_flags(&missing), None);
    let too_big: serde_json::Value = serde_json::from_str(
        r#"{"raw":4294967296,"reloadComponent":false,"ioChanged":true,"paramValuesChanged":false,
            "latencyChanged":false,"paramTitlesChanged":false,"midiCcAssignmentChanged":false,
            "noteExpressionChanged":false,"ioTitlesChanged":false,"prefetchableSupportChanged":false,
            "routingInfoChanged":false,"keyswitchChanged":false,"paramIdMappingChanged":true,"unknownBits":0}"#,
    )
    .expect("json");
    assert_eq!(wvst_bridge_server::component_handler_events::restart_flags(&too_big), None);
}
