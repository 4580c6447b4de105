use wvst_bridge_server::events::WorkerRecoveryMode;
use wvst_bridge_server::instance_registry::{
    AudioFormatChecks, InstanceCreateParams, InstanceRecord, InstanceRegistry,
};
use wvst_bridge_server::metrics::BridgeMetrics;
use wvst_bridge_server::plugin::{PluginClass, PluginDescriptor};
use wvst_bridge_server::rpc::{RpcData, RpcValue};
use wvst_bridge_server::worker_events::{
    heartbeat_failure_plan, idle_reclaim_step, instance_start_failed, recovery_failed_events, restores_processing,
    start_policy_rejection, worker_error_events, HeartbeatFailurePlan, IdleReclaimStep,
    WorkerEvent,
};
use wvst_bridge_server::worker_supervisor_error::WorkerSupervisorError;

fn record(registry: &mut InstanceRegistry) -> InstanceRecord {
    let plugin = PluginDescriptor {
        plugin_id: "vst3:test".to_string(),
        name: "Test".to_string(),
        path: "/tmp/Test.vst3".to_string(),
        classes: vec![PluginClass {
            class_id: Some("class-a".to_string()),
            name: "Test Class".to_string(),
        }],
    };
    let params = InstanceCreateParams {
        plugin_id: "vst3:test".to_string(),
        class_id: Some("class-a".to_string()),
        sample_rate: 48_000,
        max_block_frames: 128,
        input_channels: 2,
        output_channels: 2,
        input_bus_index: None,
        output_bus_index: None,
    };
    let checks = AudioFormatChecks {
        sample_rate_valid: true,
        max_block_frames_valid: true,
        output_channels_valid: true,
        max_channel_count: 32,
    };
    registry.create(params, &plugin, checks).expect("record")
}

fn quarantined() -> WorkerSupervisorError {
    WorkerSupervisorError::Quarantined {
        plugin_id: "vst3:test".to_string(),
        failures: 3,
        release_after_ms: 60_000,
    }
}

fn text_member<'a>(data: &'a RpcData, key: &str) -> Option<&'a RpcValue> {
    data.fields
        .iter()
        .find(|field| field.key == key)
        .map(|field| &field.value)
}

#[test]
fn quarantine_errors_report_quarantine_then_failure() {
    let events = worker_error_events(5, "vst3:test", &quarantined());
    assert_eq!(events.len(), 2);
    assert!(matches!(
        &events[0],
        WorkerEvent::Quarantined { plugin_id, failures: 3, release_after_ms: 60_000 }
            if plugin_id == "vst3:test"
    ));
    match &events[1] {
        WorkerEvent::Failed {
            instance_id,
            plugin_id,
            code,
            message,
            error_data,
        } => {
            assert_eq!(*instance_id, 5);
            assert_eq!(plugin_id, "vst3:test");
            assert_eq!(*code, 4093);
            assert_eq!(
                message,
                "worker quarantined for plugin vst3:test after 3 failures; retry after 60000ms"
            );
            assert!(matches!(
                text_member(error_data, "kind"),
                Some(RpcValue::Text(kind)) if kind == "quarantined"
            ));
            assert_eq!(
                error_data.classification.map(|c| c.category),
                Some("worker-quarantine")
            );
        }
        other => panic!("unexpected event {other:?}"),
    }

    let events = worker_error_events(5, "vst3:test", &WorkerSupervisorError::Io("broken pipe".to_string()));
    assert_eq!(events.len(), 1);
    assert!(matches!(&events[0], WorkerEvent::Failed { code: 5036, .. }));
}

#[test]
fn start_failures_report_policy_rejections() {
    assert!(matches!(
        start_policy_rejection(5, "vst3:test", &quarantined()),
        Some(WorkerEvent::PolicyDecision {
            instance_id: Some(5),
            policy: "plugin-quarantine",
            decision: "reject",
            reason: "active-quarantine",
            data: Some(_),
            ..
        })
    ));
    assert!(matches!(
        start_policy_rejection(
            5,
            "vst3:test",
            &WorkerSupervisorError::ResourceLimitExceeded { limit: 1, active: 1 }
        ),
        Some(WorkerEvent::PolicyDecision {
            policy: "resource-limit",
            decision: "reject",
            reason: "worker-instance-limit",
            ..
        })
    ));
    assert!(start_policy_rejection(5, "vst3:test", &WorkerSupervisorError::Io("x".to_string())).is_none());
}

#[test]
fn failed_recovery_reports_the_failure_and_the_error() {
    let events = recovery_failed_events(
        5,
        "vst3:test",
        WorkerRecoveryMode::ManualRestart,
        "restart-failed",
        &WorkerSupervisorError::WorkerMissing { instance_id: 5 },
    );
    assert_eq!(events.len(), 2);
    assert!(matches!(
        &events[0],
        WorkerEvent::RecoveryFailed {
            instance_id: 5,
            mode: WorkerRecoveryMode::ManualRestart,
            reason: "restart-failed",
            ..
        }
    ));
    assert!(matches!(&events[1], WorkerEvent::Failed { code: 4041, .. }));
}

#[test]
fn heartbeat_failures_restart_only_when_enabled() {
    let mut registry = InstanceRegistry::new();
    let record = record(&mut registry);
    let error = WorkerSupervisorError::Io("closed".to_string());

    match heartbeat_failure_plan(false, &record, &error) {
        HeartbeatFailurePlan::Reject { events } => {
            assert_eq!(events.len(), 2);
            assert!(matches!(
                &events[0],
                WorkerEvent::PolicyDecision {
                    policy: "worker-recovery",
                    decision: "reject",
                    reason: "auto-restart-disabled",
                    ..
                }
            ));
            assert!(matches!(&events[1], WorkerEvent::Failed { .. }));
        }
        other => panic!("unexpected plan {other:?}"),
    }
    match heartbeat_failure_plan(true, &record, &error) {
        HeartbeatFailurePlan::Restart { events } => {
            assert_eq!(events.len(), 2);
            assert!(matches!(
                &events[0],
                WorkerEvent::Recovering {
                    mode: WorkerRecoveryMode::AutoHeartbeat,
                    reason: "heartbeat-failed",
                    error_data: Some(_),
                    ..
                }
            ));
            assert!(matches!(
                &events[1],
                WorkerEvent::PolicyDecision {
                    decision: "restart",
                    reason: "heartbeat-failed",
                    ..
                }
            ));
        }
        other => panic!("unexpected plan {other:?}"),
    }
    assert!(!restores_processing(&record));
    registry.mark_processing(record.instance_id).expect("processing");
    let processing = registry.get(record.instance_id).expect("record");
    assert!(restores_processing(&processing));
}

#[test]
fn reclaims_idle_workers_only_at_the_instance_limit() {
    let mut registry = InstanceRegistry::new();
    let target = record(&mut registry);
    let idle = record(&mut registry);
    let limit = WorkerSupervisorError::ResourceLimitExceeded { limit: 1, active: 1 };

    assert!(matches!(idle_reclaim_step(&target, &limit, None), IdleReclaimStep::GiveUp));
    assert!(matches!(
        idle_reclaim_step(&target, &WorkerSupervisorError::Io("x".to_string()), Some(idle.clone())),
        IdleReclaimStep::GiveUp
    ));
    match idle_reclaim_step(&target, &limit, Some(idle.clone())) {
        IdleReclaimStep::Reclaim {
            candidate,
            decision:
                WorkerEvent::PolicyDecision {
                    instance_id,
                    policy,
                    decision,
                    reason,
                    data: Some(data),
                    ..
                },
        } => {
            assert_eq!(candidate.instance_id, idle.instance_id);
            assert_eq!(instance_id, Some(target.instance_id));
            assert_eq!((policy, decision, reason), ("resource-limit", "reclaim", "idle-worker"));
            let keys: Vec<&str> = data.fields.iter().map(|field| field.key.as_str()).collect();
            assert_eq!(
                keys,
                vec![
                    "kind",
                    "resource",
                    "limit",
                    "active",
                    "targetInstanceId",
                    "reclaimedInstanceId",
                    "reclaimedStreamId"
                ]
            );
            assert!(matches!(
                text_member(&data, "reclaimedStreamId"),
                Some(RpcValue::Unsigned(stream)) if *stream == idle.stream_id as u128
            ));
        }
        other => panic!("unexpected step {other:?}"),
    }
}

#[test]
fn failed_start_removes_the_instance_and_reports_rejection_then_failure() {
    let mut registry = InstanceRegistry::new();
    let mut metrics = BridgeMetrics::new();
    let created = record(&mut registry);
    let events = instance_start_failed(&mut registry, &mut metrics, &created, &quarantined());
    assert!(registry.get(created.instance_id).is_err());
    assert!(registry.list().is_empty());
    assert_eq!(metrics.snapshot().worker_failures, 1);
    assert_eq!(events.len(), 3);
    assert!(matches!(&events[0], WorkerEvent::PolicyDecision { policy: "plugin-quarantine", .. }));
    assert!(matches!(&events[1], WorkerEvent::Quarantined { failures: 3, .. }));
    assert!(matches!(&events[2], WorkerEvent::Failed { code: 4093, .. }));

    let created = record(&mut registry);
    let events = instance_start_failed(
        &mut registry,
        &mut metrics,
        &created,
        &WorkerSupervisorError::Io("broken pipe".to_string()),
    );
    assert!(registry.list().is_empty());
    assert_eq!(metrics.snapshot().worker_failures, 2);
    assert_eq!(events.len(), 1);
    assert!(matches!(&events[0], WorkerEvent::Failed { code: 5036, .. }));
}
