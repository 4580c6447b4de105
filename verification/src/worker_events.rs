use vstd::prelude::*;

use crate::events::WorkerRecoveryMode;
use crate::instance_registry::{InstanceDestroyParams, InstanceRecord, InstanceRegistry, InstanceState};
use crate::metrics::{bump, BridgeMetrics, MetricsCounters};
use crate::rpc::{text, unsigned, RpcData};
use crate::worker_supervisor_error::{
    spec_worker_error_category, spec_worker_error_code, spec_worker_error_hint, spec_worker_error_data, spec_worker_error_message,
    WorkerSupervisorError,
};

verus! {

/// The worker events a control operation publishes on the bridge's event bus.
#[derive(Debug)]
pub enum WorkerEvent {
    Quarantined { plugin_id: String, failures: u32, release_after_ms: u128 },
    Failed { instance_id: u64, plugin_id: String, code: i64, message: String, error_data: RpcData },
    Recovering {
        instance_id: u64,
        plugin_id: String,
        mode: WorkerRecoveryMode,
        reason: &'static str,
        error_data: Option<RpcData>,
    },
    RecoveryFailed {
        instance_id: u64,
        plugin_id: String,
        mode: WorkerRecoveryMode,
        reason: &'static str,
        error_data: RpcData,
    },
    PolicyDecision {
        instance_id: Option<u64>,
        plugin_id: Option<String>,
        policy: &'static str,
        decision: &'static str,
        reason: &'static str,
        data: Option<RpcData>,
    },
}

/// `data` is the error's classified data.
pub open spec fn is_error_data(data: RpcData, error: WorkerSupervisorError) -> bool {
    &&& data.entries() == spec_worker_error_data(error)
    &&& data.classification matches Some(classification) && classification.category@
        == spec_worker_error_category(error) && classification.hint@ == spec_worker_error_hint(error)
}

/// The failure event of `error` for the instance.
pub open spec fn is_failed_event(event: WorkerEvent, instance_id: u64, plugin_id: Seq<char>, error: WorkerSupervisorError) -> bool {
    event matches WorkerEvent::Failed { instance_id: i, plugin_id: p, code, message, error_data } && i == instance_id
        && p@ == plugin_id && code == spec_worker_error_code(error) && message@ == spec_worker_error_message(error)
        && is_error_data(error_data, error)
}

/// The quarantine event a quarantine error reports.
pub open spec fn is_quarantine_event(event: WorkerEvent, error: WorkerSupervisorError) -> bool {
    error matches WorkerSupervisorError::Quarantined { plugin_id, failures, release_after_ms }
        && event matches WorkerEvent::Quarantined { plugin_id: p, failures: f, release_after_ms: r } && p@
        == plugin_id@ && f == failures && r == release_after_ms
}

/// The events that report a worker error: a quarantine error first reports the quarantine,
/// then every error reports the failure.
pub open spec fn is_worker_error_events(
    events: Seq<WorkerEvent>,
    instance_id: u64,
    plugin_id: Seq<char>,
    error: WorkerSupervisorError,
) -> bool {
    if error is Quarantined {
        &&& events.len() == 2
        &&& is_quarantine_event(events[0], error)
        &&& is_failed_event(events[1], instance_id, plugin_id, error)
    } else {
        &&& events.len() == 1
        &&& is_failed_event(events[0], instance_id, plugin_id, error)
    }
}

fn failed_event(instance_id: u64, plugin_id: &str, error: &WorkerSupervisorError) -> (event: WorkerEvent)
    ensures
        is_failed_event(event, instance_id, plugin_id@, *error),
{
    WorkerEvent::Failed {
        instance_id,
        plugin_id: String::from_str(plugin_id),
        code: error.rpc_code(),
        message: error.rpc_message(),
        error_data: error.rpc_data(),
    }
}

/// The events that report a worker error for an instance.
pub fn worker_error_events(instance_id: u64, plugin_id: &str, error: &WorkerSupervisorError) -> (events: Vec<
    WorkerEvent,
>)
    ensures
        is_worker_error_events(events@, instance_id, plugin_id@, *error),
{
    let mut events: Vec<WorkerEvent> = Vec::new();
    match error {
        WorkerSupervisorError::Quarantined { plugin_id: quarantined, failures, release_after_ms } => {
            events.push(
                WorkerEvent::Quarantined {
                    plugin_id: quarantined.clone(),
                    failures: *failures,
                    release_after_ms: *release_after_ms,
                },
            );
        },
        _ => {},
    }
    events.push(failed_event(instance_id, plugin_id, error));
    events
}

/// A policy decision event.
pub open spec fn is_policy_event(
    event: WorkerEvent,
    instance_id: Option<u64>,
    plugin_id: Option<Seq<char>>,
    policy: Seq<char>,
    decision: Seq<char>,
    reason: Seq<char>,
) -> bool {
    event matches WorkerEvent::PolicyDecision { instance_id: i, plugin_id: p, policy: po, decision: d, reason: r, .. }
        && i == instance_id && match (p, plugin_id) {
        (Some(p), Some(q)) => p@ == q,
        (None, None) => true,
        _ => false,
    } && po@ == policy && d@ == decision && r@ == reason
}

/// The data of a policy decision event.
pub open spec fn policy_event_data(event: WorkerEvent) -> Option<RpcData> {
    match event {
        WorkerEvent::PolicyDecision { data, .. } => data,
        _ => None,
    }
}

/// A policy decision event whose data is the error's classified data.
pub open spec fn is_error_policy_event(
    event: WorkerEvent,
    instance_id: u64,
    plugin_id: Seq<char>,
    policy: Seq<char>,
    decision: Seq<char>,
    reason: Seq<char>,
    error: WorkerSupervisorError,
) -> bool {
    &&& is_policy_event(event, Some(instance_id), Some(plugin_id), policy, decision, reason)
    &&& match policy_event_data(event) {
        Some(data) => is_error_data(data, error),
        None => false,
    }
}

/// The policy rejection a failed worker start reports: an active quarantine or the worker
/// instance limit; other failures report none.
pub open spec fn is_start_policy_rejection(
    error: WorkerSupervisorError,
    instance_id: u64,
    plugin_id: Seq<char>,
    event: Option<WorkerEvent>,
) -> bool {
    match (error, event) {
        (WorkerSupervisorError::Quarantined { .. }, Some(event)) => is_error_policy_event(
            event,
            instance_id,
            plugin_id,
            "plugin-quarantine"@,
            "reject"@,
            "active-quarantine"@,
            error,
        ),
        (WorkerSupervisorError::ResourceLimitExceeded { .. }, Some(event)) => is_error_policy_event(
            event,
            instance_id,
            plugin_id,
            "resource-limit"@,
            "reject"@,
            "worker-instance-limit"@,
            error,
        ),
        (WorkerSupervisorError::Quarantined { .. }, None) => false,
        (WorkerSupervisorError::ResourceLimitExceeded { .. }, None) => false,
        (_, event) => event is None,
    }
}

/// The policy rejection a failed worker start reports, if any.
pub fn start_policy_rejection(instance_id: u64, plugin_id: &str, error: &WorkerSupervisorError) -> (event: Option<
    WorkerEvent,
>)
    ensures
        is_start_policy_rejection(*error, instance_id, plugin_id@, event),
{
    match error {
        WorkerSupervisorError::Quarantined { .. } => Some(
            WorkerEvent::PolicyDecision {
                instance_id: Some(instance_id),
                plugin_id: Some(String::from_str(plugin_id)),
                policy: "plugin-quarantine",
                decision: "reject",
                reason: "active-quarantine",
                data: Some(error.rpc_data()),
            },
        ),
        WorkerSupervisorError::ResourceLimitExceeded { .. } => Some(
            WorkerEvent::PolicyDecision {
                instance_id: Some(instance_id),
                plugin_id: Some(String::from_str(plugin_id)),
                policy: "resource-limit",
                decision: "reject",
                reason: "worker-instance-limit",
                data: Some(error.rpc_data()),
            },
        ),
        _ => None,
    }
}

/// The recovery failure event of `error`.
pub open spec fn is_recovery_failed_event(
    event: WorkerEvent,
    instance_id: u64,
    plugin_id: Seq<char>,
    mode: WorkerRecoveryMode,
    reason: Seq<char>,
    error: WorkerSupervisorError,
) -> bool {
    match event {
        WorkerEvent::RecoveryFailed { instance_id: i, plugin_id: p, mode: m, reason: r, error_data } => i
            == instance_id && p@ == plugin_id && m == mode && r@ == reason && is_error_data(error_data, error),
        _ => false,
    }
}

/// The events of a failed recovery: the recovery failure with the error's data, then the
/// events that report the error itself.
pub fn recovery_failed_events(
    instance_id: u64,
    plugin_id: &str,
    mode: WorkerRecoveryMode,
    reason: &'static str,
    error: &WorkerSupervisorError,
) -> (events: Vec<WorkerEvent>)
    ensures
        events@.len() >= 1,
        is_recovery_failed_event(events@[0], instance_id, plugin_id@, mode, reason@, *error),
        is_worker_error_events(events@.drop_first(), instance_id, plugin_id@, *error),
{
    let mut events: Vec<WorkerEvent> = Vec::new();
    events.push(
        WorkerEvent::RecoveryFailed {
            instance_id,
            plugin_id: String::from_str(plugin_id),
            mode,
            reason,
            error_data: error.rpc_data(),
        },
    );
    let mut rest = worker_error_events(instance_id, plugin_id, error);
    let ghost first = events@;
    let ghost tail = rest@;
    events.append(&mut rest);
    assert(events@.drop_first() =~= tail);
    events
}

/// What a status check does after the worker failed its heartbeat.
#[derive(Debug)]
pub enum HeartbeatFailurePlan {
    /// Automatic restart is off: mark the worker failed and report these events.
    Reject { events: Vec<WorkerEvent> },
    /// Mark the instance recovering, publish these events and restart the worker.
    Restart { events: Vec<WorkerEvent> },
}

/// The announcement that a worker is recovering from `error`.
pub open spec fn is_recovering_event(
    event: WorkerEvent,
    instance_id: u64,
    plugin_id: Seq<char>,
    mode: WorkerRecoveryMode,
    reason: Seq<char>,
    error: WorkerSupervisorError,
) -> bool {
    match event {
        WorkerEvent::Recovering { instance_id: i, plugin_id: p, mode: m, reason: r, error_data: Some(error_data) } =>
            i == instance_id && p@ == plugin_id && m == mode && r@ == reason && is_error_data(error_data, error),
        _ => false,
    }
}

/// Plans the response to a heartbeat failure: without automatic restart the failure is
/// rejected by policy and reported; with it, the recovery is announced and a restart decided.
pub fn heartbeat_failure_plan(auto_restart_enabled: bool, record: &InstanceRecord, error: &WorkerSupervisorError) -> (plan:
    HeartbeatFailurePlan)
    ensures
        match plan {
            HeartbeatFailurePlan::Reject { events } => {
                &&& !auto_restart_enabled
                &&& events@.len() >= 1
                &&& is_error_policy_event(
                    events@[0],
                    record.instance_id,
                    record.plugin_id@,
                    "worker-recovery"@,
                    "reject"@,
                    "auto-restart-disabled"@,
                    *error,
                )
                &&& is_worker_error_events(events@.drop_first(), record.instance_id, record.plugin_id@, *error)
            },
            HeartbeatFailurePlan::Restart { events } => {
                &&& auto_restart_enabled
                &&& events@.len() == 2
                &&& is_recovering_event(
                    events@[0],
                    record.instance_id,
                    record.plugin_id@,
                    WorkerRecoveryMode::AutoHeartbeat,
                    "heartbeat-failed"@,
                    *error,
                )
                &&& is_error_policy_event(
                    events@[1],
                    record.instance_id,
                    record.plugin_id@,
                    "worker-recovery"@,
                    "restart"@,
                    "heartbeat-failed"@,
                    *error,
                )
            },
        },
{
    let mut events: Vec<WorkerEvent> = Vec::new();
    if !auto_restart_enabled {
        events.push(
            WorkerEvent::PolicyDecision {
                instance_id: Some(record.instance_id),
                plugin_id: Some(record.plugin_id.clone()),
                policy: "worker-recovery",
                decision: "reject",
                reason: "auto-restart-disabled",
                data: Some(error.rpc_data()),
            },
        );
        let mut rest = worker_error_events(record.instance_id, record.plugin_id.as_str(), error);
        let ghost tail = rest@;
        events.append(&mut rest);
        assert(events@.drop_first() =~= tail);
        HeartbeatFailurePlan::Reject { events }
    } else {
        events.push(
            WorkerEvent::Recovering {
                instance_id: record.instance_id,
                plugin_id: record.plugin_id.clone(),
                mode: WorkerRecoveryMode::AutoHeartbeat,
                reason: "heartbeat-failed",
                error_data: Some(error.rpc_data()),
            },
        );
        events.push(
            WorkerEvent::PolicyDecision {
                instance_id: Some(record.instance_id),
                plugin_id: Some(record.plugin_id.clone()),
                policy: "worker-recovery",
                decision: "restart",
                reason: "heartbeat-failed",
                data: Some(error.rpc_data()),
            },
        );
        HeartbeatFailurePlan::Restart { events }
    }
}

/// Whether a recovered worker must be put back to processing: after a manual restart when
/// the instance was processing before it; after an automatic recovery when the record
/// still says processing.
pub fn restores_processing(record: &InstanceRecord) -> (restore: bool)
    ensures
        restore == (record.state == InstanceState::Processing),
{
    matches!(record.state, InstanceState::Processing)
}

/// What to do when a worker start failed for want of a free worker slot.
#[derive(Debug)]
pub enum IdleReclaimStep {
    /// Give up with the start error.
    GiveUp,
    /// Reclaim this idle instance, reporting the decision, then try the start again.
    Reclaim { candidate: InstanceRecord, decision: WorkerEvent },
}

/// The data of an idle worker reclaim decision.
pub open spec fn spec_reclaim_data(
    limit: usize,
    active: usize,
    target_instance_id: u64,
    candidate: InstanceRecord,
) -> Seq<(Seq<char>, crate::rpc::RpcValueView)> {
    seq![
        ("kind"@, text("idle-worker-reclaimed"@)),
        ("resource"@, text("worker-instances"@)),
        ("limit"@, unsigned(limit as int)),
        ("active"@, unsigned(active as int)),
        ("targetInstanceId"@, unsigned(target_instance_id as int)),
        ("reclaimedInstanceId"@, unsigned(candidate.instance_id as int)),
        ("reclaimedStreamId"@, unsigned(candidate.stream_id as int)),
    ]
}

/// Decides the next step after a worker start failed: only a worker instance limit with an
/// idle instance to reclaim leads to a reclaim, reported as a resource-limit decision.
pub fn idle_reclaim_step(target: &InstanceRecord, error: &WorkerSupervisorError, candidate: Option<InstanceRecord>) -> (step:
    IdleReclaimStep)
    ensures
        match step {
            IdleReclaimStep::GiveUp => !(*error is ResourceLimitExceeded && candidate is Some),
            IdleReclaimStep::Reclaim { candidate: reclaimed, decision } => match (*error, candidate) {
                (WorkerSupervisorError::ResourceLimitExceeded { limit, active }, Some(candidate)) => {
                    &&& reclaimed == candidate
                    &&& is_policy_event(
                        decision,
                        Some(target.instance_id),
                        Some(target.plugin_id@),
                        "resource-limit"@,
                        "reclaim"@,
                        "idle-worker"@,
                    )
                    &&& match policy_event_data(decision) {
                        Some(data) => data.entries() == spec_reclaim_data(limit, active, target.instance_id, candidate)
                            && data.classification is None,
                        None => false,
                    }
                },
                _ => false,
            },
        },
{
    match (error, candidate) {
        (WorkerSupervisorError::ResourceLimitExceeded { limit, active }, Some(candidate)) => {
            let data = RpcData::of_kind("idle-worker-reclaimed").with_text("resource", "worker-instances").with_unsigned(
                "limit",
                *limit as u128,
            ).with_unsigned("active", *active as u128).with_unsigned("targetInstanceId", target.instance_id as u128).with_unsigned(
                "reclaimedInstanceId",
                candidate.instance_id as u128,
            ).with_unsigned("reclaimedStreamId", candidate.stream_id as u128);
            let decision = WorkerEvent::PolicyDecision {
                instance_id: Some(target.instance_id),
                plugin_id: Some(target.plugin_id.clone()),
                policy: "resource-limit",
                decision: "reclaim",
                reason: "idle-worker",
                data: Some(data),
            };
            IdleReclaimStep::Reclaim { candidate, decision }
        },
        _ => IdleReclaimStep::GiveUp,
    }
}

/// Whether a failed start is answered with a policy rejection event.
pub open spec fn start_rejected_by_policy(error: WorkerSupervisorError) -> bool {
    error is Quarantined || error is ResourceLimitExceeded
}

/// A worker failed to start for a new instance: the failure is counted, the instance's record
/// is removed, and the events to publish are the policy rejection, if the failure is one,
/// followed by the events that report the worker error.
pub fn instance_start_failed(
    registry: &mut InstanceRegistry,
    metrics: &mut BridgeMetrics,
    record: &InstanceRecord,
    error: &WorkerSupervisorError,
) -> (events: Vec<WorkerEvent>)
    requires
        old(registry).wf(),
        old(metrics).wf(),
    ensures
        final(registry).wf(),
        final(registry).next_ids() == old(registry).next_ids(),
        final(registry).records() == old(registry).records().remove(record.instance_id),
        final(metrics).wf(),
        final(metrics).counters() == (MetricsCounters {
            worker_failures: bump(old(metrics).counters().worker_failures),
            ..old(metrics).counters()
        }),
        final(metrics).histograms() == old(metrics).histograms(),
        ({
            let policy_count: int = if start_rejected_by_policy(*error) {
                1
            } else {
                0
            };
            &&& events@.len() >= policy_count
            &&& is_start_policy_rejection(
                *error,
                record.instance_id,
                record.plugin_id@,
                if policy_count == 1 {
                    Some(events@[0])
                } else {
                    None
                },
            )
            &&& is_worker_error_events(events@.skip(policy_count), record.instance_id, record.plugin_id@, *error)
        }),
{
    metrics.increment_worker_failures();
    let _ = registry.mark_worker_failed(record.instance_id);
    let _ = registry.destroy(InstanceDestroyParams { instance_id: record.instance_id });
    proof {
        assert(registry.records() =~= old(registry).records().remove(record.instance_id));
    }
    let mut events: Vec<WorkerEvent> = Vec::new();
    let rejection = start_policy_rejection(record.instance_id, record.plugin_id.as_str(), error);
    match rejection {
        Some(event) => events.push(event),
        None => {},
    }
    let mut reported = worker_error_events(record.instance_id, record.plugin_id.as_str(), error);
    let ghost policy = events@;
    let ghost errors = reported@;
    events.append(&mut reported);
    proof {
        assert(events@.skip(policy.len() as int) =~= errors);
    }
    events
}

} // verus!
