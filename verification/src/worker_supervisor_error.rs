use serde_json::Value;
use vstd::prelude::*;

use crate::rpc::{text, unsigned, ErrorClassification, RpcData, RpcValueView};
use crate::json::{json_member_text, json_pointer_text, json_string_at, json_string_member};
use crate::text::{decimal, push_decimal, push_str, string_view};

verus! {

/// Why a worker request failed. A spawn failure names the executable by its displayed path.
#[derive(Debug)]
pub enum WorkerSupervisorError {
    Spawn { executable: String, message: String },
    MissingPipe(&'static str),
    Io(String),
    Timeout { method: &'static str, timeout_ms: u128, stderr: String },
    InvalidJson(String),
    Protocol { message: String, stderr: String },
    SupervisionSetup { message: String },
    Quarantined { plugin_id: String, failures: u32, release_after_ms: u128 },
    IncompatibleWorker {
        reason: String,
        expected_ipc_version: u16,
        actual_ipc_version: Option<u64>,
        hello: Value,
        stderr: String,
    },
    WorkerMissing { instance_id: u64 },
    AudioIpcUnavailable { instance_id: u64 },
    WorkerRejected { code: i64, message: String, data: Option<Value>, stderr: String },
    ResourceLimitExceeded { limit: usize, active: usize },
}

pub open spec fn spec_worker_error_code(error: WorkerSupervisorError) -> i64 {
    match error {
        WorkerSupervisorError::WorkerRejected { code, .. } => code,
        WorkerSupervisorError::Timeout { .. } => 5035,
        WorkerSupervisorError::Spawn { .. }
        | WorkerSupervisorError::MissingPipe(_)
        | WorkerSupervisorError::Io(_)
        | WorkerSupervisorError::SupervisionSetup { .. } => 5036,
        WorkerSupervisorError::InvalidJson(_) | WorkerSupervisorError::Protocol { .. } => 5037,
        WorkerSupervisorError::Quarantined { .. } => 4093,
        WorkerSupervisorError::IncompatibleWorker { .. } => 4094,
        WorkerSupervisorError::WorkerMissing { .. } | WorkerSupervisorError::AudioIpcUnavailable { .. } => 4041,
        WorkerSupervisorError::ResourceLimitExceeded { .. } => 4290,
    }
}

pub open spec fn spec_worker_error_message(error: WorkerSupervisorError) -> Seq<char> {
    match error {
        WorkerSupervisorError::Spawn { executable, message } => "failed to start worker "@ + executable@ + ": "@
            + message@,
        WorkerSupervisorError::MissingPipe(pipe) => "worker missing "@ + pipe@ + " pipe"@,
        WorkerSupervisorError::Io(message) => "worker io failed: "@ + message@,
        WorkerSupervisorError::Timeout { method, timeout_ms, .. } => "worker method "@ + method@ + " timed out after "@
            + decimal(timeout_ms as nat) + "ms"@,
        WorkerSupervisorError::InvalidJson(message) => "worker returned invalid JSON: "@ + message@,
        WorkerSupervisorError::Protocol { message, .. } => "worker protocol error: "@ + message@,
        WorkerSupervisorError::SupervisionSetup { message } => "worker supervision setup failed: "@ + message@,
        WorkerSupervisorError::Quarantined { plugin_id, failures, release_after_ms } =>
            "worker quarantined for plugin "@ + plugin_id@ + " after "@ + decimal(failures as nat)
            + " failures; retry after "@ + decimal(release_after_ms as nat) + "ms"@,
        WorkerSupervisorError::IncompatibleWorker { reason, .. } => "worker incompatible: "@ + reason@,
        WorkerSupervisorError::WorkerMissing { instance_id } => "worker not found for instance "@ + decimal(
            instance_id as nat,
        ),
        WorkerSupervisorError::AudioIpcUnavailable { instance_id } => "worker audio IPC unavailable for instance "@
            + decimal(instance_id as nat),
        WorkerSupervisorError::WorkerRejected { message, .. } => message@,
        WorkerSupervisorError::ResourceLimitExceeded { limit, active } => "worker instance limit reached: active "@
            + decimal(active as nat) + ", limit "@ + decimal(limit as nat),
    }
}

pub open spec fn optional_payload(value: Option<Value>) -> RpcValueView {
    match value {
        Some(payload) => RpcValueView::Payload(payload),
        None => RpcValueView::Null,
    }
}

/// The members of a worker error's data, before its classification.
pub open spec fn spec_worker_error_data(error: WorkerSupervisorError) -> Seq<(Seq<char>, RpcValueView)> {
    match error {
        WorkerSupervisorError::Spawn { executable, message } => seq![
            ("kind"@, text("spawn"@)),
            ("executable"@, text(executable@)),
            ("message"@, text(message@)),
        ],
        WorkerSupervisorError::MissingPipe(pipe) => seq![("kind"@, text("missing-pipe"@)), ("pipe"@, text(pipe@))],
        WorkerSupervisorError::Io(message) => seq![("kind"@, text("io"@)), ("message"@, text(message@))],
        WorkerSupervisorError::Timeout { method, timeout_ms, stderr } => seq![
            ("kind"@, text("timeout"@)),
            ("method"@, text(method@)),
            ("timeoutMs"@, unsigned(timeout_ms as int)),
            ("stderr"@, text(stderr@)),
        ],
        WorkerSupervisorError::InvalidJson(message) => seq![
            ("kind"@, text("invalid-json"@)),
            ("message"@, text(message@)),
        ],
        WorkerSupervisorError::Protocol { message, stderr } => seq![
            ("kind"@, text("protocol"@)),
            ("message"@, text(message@)),
            ("stderr"@, text(stderr@)),
        ],
        WorkerSupervisorError::SupervisionSetup { message } => seq![
            ("kind"@, text("supervision-setup-failed"@)),
            ("message"@, text(message@)),
        ],
        WorkerSupervisorError::Quarantined { plugin_id, failures, release_after_ms } => seq![
            ("kind"@, text("quarantined"@)),
            ("pluginId"@, text(plugin_id@)),
            ("failures"@, unsigned(failures as int)),
            ("releaseAfterMs"@, unsigned(release_after_ms as int)),
        ],
        WorkerSupervisorError::IncompatibleWorker {
            reason,
            expected_ipc_version,
            actual_ipc_version,
            hello,
            stderr,
        } => seq![
            ("kind"@, text("worker-incompatible"@)),
            ("reason"@, text(reason@)),
            ("expectedIpcVersion"@, unsigned(expected_ipc_version as int)),
            (
                "actualIpcVersion"@,
                match actual_ipc_version {
                    Some(version) => unsigned(version as int),
                    None => RpcValueView::Null,
                },
            ),
            ("hello"@, RpcValueView::Payload(hello)),
            ("stderr"@, text(stderr@)),
        ],
        WorkerSupervisorError::WorkerMissing { instance_id } => seq![
            ("kind"@, text("worker-missing"@)),
            ("instanceId"@, unsigned(instance_id as int)),
        ],
        WorkerSupervisorError::AudioIpcUnavailable { instance_id } => seq![
            ("kind"@, text("audio-ipc-unavailable"@)),
            ("instanceId"@, unsigned(instance_id as int)),
        ],
        WorkerSupervisorError::WorkerRejected { code, message, data, stderr } => seq![
            ("kind"@, text("worker-rejected"@)),
            ("code"@, RpcValueView::Signed(code as int)),
            ("message"@, text(message@)),
            ("workerData"@, optional_payload(data)),
            ("stderr"@, text(stderr@)),
        ],
        WorkerSupervisorError::ResourceLimitExceeded { limit, active } => seq![
            ("kind"@, text("resource-limit-exceeded"@)),
            ("resource"@, text("worker-instances"@)),
            ("limit"@, unsigned(limit as int)),
            ("active"@, unsigned(active as int)),
        ],
    }
}

/// The category of a worker error.
pub open spec fn spec_worker_error_category(error: WorkerSupervisorError) -> Seq<char> {
    match error {
        WorkerSupervisorError::Spawn { .. }
        | WorkerSupervisorError::MissingPipe(_)
        | WorkerSupervisorError::SupervisionSetup { .. } => "worker-launch"@,
        WorkerSupervisorError::Io(_) => "worker-ipc-io"@,
        WorkerSupervisorError::Timeout { .. } => "worker-timeout"@,
        WorkerSupervisorError::InvalidJson(_) | WorkerSupervisorError::Protocol { .. } => "worker-ipc-protocol"@,
        WorkerSupervisorError::Quarantined { .. } => "worker-quarantine"@,
        WorkerSupervisorError::IncompatibleWorker { .. } => "worker-compatibility"@,
        WorkerSupervisorError::WorkerMissing { .. }
        | WorkerSupervisorError::AudioIpcUnavailable { .. } => "worker-lifecycle"@,
        WorkerSupervisorError::WorkerRejected { .. } => "worker-rejection"@,
        WorkerSupervisorError::ResourceLimitExceeded { .. } => "worker-resource-limit"@,
    }
}

/// The hint that goes with the category of a worker error.
pub open spec fn spec_worker_error_hint(error: WorkerSupervisorError) -> Seq<char> {
    match error {
        WorkerSupervisorError::Spawn { .. }
        | WorkerSupervisorError::MissingPipe(_)
        | WorkerSupervisorError::SupervisionSetup { .. } => "verify the host worker executable path, permissions, platform supervision setup, and resource-limit configuration"@,
        WorkerSupervisorError::Io(_) => "the bridge lost an IPC read/write path to the worker; restart the instance and inspect worker stderr"@,
        WorkerSupervisorError::Timeout { .. } => "the worker did not answer within the configured timeout; treat the instance as unhealthy and inspect plugin CPU or deadlock behavior"@,
        WorkerSupervisorError::InvalidJson(_) | WorkerSupervisorError::Protocol { .. } => "the worker produced malformed control/audio IPC data; verify worker version compatibility and captured stderr"@,
        WorkerSupervisorError::Quarantined { .. } => "the plugin exceeded the configured worker failure threshold; wait for release or explicitly clear quarantine after inspection"@,
        WorkerSupervisorError::IncompatibleWorker { .. } => "the worker IPC capabilities do not match the bridge requirements; rebuild or replace the host worker binary"@,
        WorkerSupervisorError::WorkerMissing { .. }
        | WorkerSupervisorError::AudioIpcUnavailable { .. } => "the requested instance no longer has a usable worker process; refresh instance status before sending more work"@,
        WorkerSupervisorError::WorkerRejected { .. } => "the worker rejected the request; inspect workerData for VST3 runtime/control/process details when present"@,
        WorkerSupervisorError::ResourceLimitExceeded { .. } => "the bridge refused to start another worker because the configured resource policy is exhausted"@,
    }
}

/// The category of a worker error and the hint that goes with it.
pub fn worker_supervisor_classification(error: &WorkerSupervisorError) -> (classification: ErrorClassification)
    ensures
        classification.category@ == spec_worker_error_category(*error),
        classification.hint@ == spec_worker_error_hint(*error),
{
    match error {
        WorkerSupervisorError::Spawn { .. }
        | WorkerSupervisorError::MissingPipe(_)
        | WorkerSupervisorError::SupervisionSetup { .. } => ErrorClassification::new(
            "worker-launch",
            "verify the host worker executable path, permissions, platform supervision setup, and resource-limit configuration",
        ),
        WorkerSupervisorError::Io(_) => ErrorClassification::new(
            "worker-ipc-io",
            "the bridge lost an IPC read/write path to the worker; restart the instance and inspect worker stderr",
        ),
        WorkerSupervisorError::Timeout { .. } => ErrorClassification::new(
            "worker-timeout",
            "the worker did not answer within the configured timeout; treat the instance as unhealthy and inspect plugin CPU or deadlock behavior",
        ),
        WorkerSupervisorError::InvalidJson(_) | WorkerSupervisorError::Protocol { .. } => ErrorClassification::new(
            "worker-ipc-protocol",
            "the worker produced malformed control/audio IPC data; verify worker version compatibility and captured stderr",
        ),
        WorkerSupervisorError::Quarantined { .. } => ErrorClassification::new(
            "worker-quarantine",
            "the plugin exceeded the configured worker failure threshold; wait for release or explicitly clear quarantine after inspection",
        ),
        WorkerSupervisorError::IncompatibleWorker { .. } => ErrorClassification::new(
            "worker-compatibility",
            "the worker IPC capabilities do not match the bridge requirements; rebuild or replace the host worker binary",
        ),
        WorkerSupervisorError::WorkerMissing { .. }
        | WorkerSupervisorError::AudioIpcUnavailable { .. } => ErrorClassification::new(
            "worker-lifecycle",
            "the requested instance no longer has a usable worker process; refresh instance status before sending more work",
        ),
        WorkerSupervisorError::WorkerRejected { .. } => ErrorClassification::new(
            "worker-rejection",
            "the worker rejected the request; inspect workerData for VST3 runtime/control/process details when present",
        ),
        WorkerSupervisorError::ResourceLimitExceeded { .. } => ErrorClassification::new(
            "worker-resource-limit",
            "the bridge refused to start another worker because the configured resource policy is exhausted",
        ),
    }
}

fn optional_copy(value: &Option<Value>) -> (copy: Option<Value>)
    ensures
        copy == *value,
{
    match value {
        Some(payload) => Some(payload.clone()),
        None => None,
    }
}

impl WorkerSupervisorError {
    pub fn rpc_code(&self) -> (code: i64)
        ensures
            code == spec_worker_error_code(*self),
    {
        match self {
            WorkerSupervisorError::WorkerRejected { code, .. } => *code,
            WorkerSupervisorError::Timeout { .. } => 5035,
            WorkerSupervisorError::Spawn { .. }
            | WorkerSupervisorError::MissingPipe(_)
            | WorkerSupervisorError::Io(_)
            | WorkerSupervisorError::SupervisionSetup { .. } => 5036,
            WorkerSupervisorError::InvalidJson(_) | WorkerSupervisorError::Protocol { .. } => 5037,
            WorkerSupervisorError::Quarantined { .. } => 4093,
            WorkerSupervisorError::IncompatibleWorker { .. } => 4094,
            WorkerSupervisorError::WorkerMissing { .. } | WorkerSupervisorError::AudioIpcUnavailable { .. } => 4041,
            WorkerSupervisorError::ResourceLimitExceeded { .. } => 4290,
        }
    }

    pub fn rpc_message(&self) -> (message: String)
        ensures
            message@ == spec_worker_error_message(*self),
    {
        match self {
            WorkerSupervisorError::Spawn { executable, message } => {
                let mut text = String::from_str("failed to start worker ");
                push_str(&mut text, executable.as_str());
                push_str(&mut text, ": ");
                push_str(&mut text, message.as_str());
                text
            },
            WorkerSupervisorError::MissingPipe(pipe) => {
                let mut text = String::from_str("worker missing ");
                push_str(&mut text, pipe);
                push_str(&mut text, " pipe");
                text
            },
            WorkerSupervisorError::Io(message) => {
                let mut text = String::from_str("worker io failed: ");
                push_str(&mut text, message.as_str());
                text
            },
            WorkerSupervisorError::Timeout { method, timeout_ms, .. } => {
                let mut text = String::from_str("worker method ");
                push_str(&mut text, method);
                push_str(&mut text, " timed out after ");
                push_decimal(&mut text, *timeout_ms);
                push_str(&mut text, "ms");
                text
            },
            WorkerSupervisorError::InvalidJson(message) => {
                let mut text = String::from_str("worker returned invalid JSON: ");
                push_str(&mut text, message.as_str());
                text
            },
            WorkerSupervisorError::Protocol { message, .. } => {
                let mut text = String::from_str("worker protocol error: ");
                push_str(&mut text, message.as_str());
                text
            },
            WorkerSupervisorError::SupervisionSetup { message } => {
                let mut text = String::from_str("worker supervision setup failed: ");
                push_str(&mut text, message.as_str());
                text
            },
            WorkerSupervisorError::Quarantined { plugin_id, failures, release_after_ms } => {
                let mut text = String::from_str("worker quarantined for plugin ");
                push_str(&mut text, plugin_id.as_str());
                push_str(&mut text, " after ");
                push_decimal(&mut text, *failures as u128);
                push_str(&mut text, " failures; retry after ");
                push_decimal(&mut text, *release_after_ms);
                push_str(&mut text, "ms");
                text
            },
            WorkerSupervisorError::IncompatibleWorker { reason, .. } => {
                let mut text = String::from_str("worker incompatible: ");
                push_str(&mut text, reason.as_str());
                text
            },
            WorkerSupervisorError::WorkerMissing { instance_id } => {
                let mut text = String::from_str("worker not found for instance ");
                push_decimal(&mut text, *instance_id as u128);
                text
            },
            WorkerSupervisorError::AudioIpcUnavailable { instance_id } => {
                let mut text = String::from_str("worker audio IPC unavailable for instance ");
                push_decimal(&mut text, *instance_id as u128);
                text
            },
            WorkerSupervisorError::WorkerRejected { message, .. } => message.clone(),
            WorkerSupervisorError::ResourceLimitExceeded { limit, active } => {
                let mut text = String::from_str("worker instance limit reached: active ");
                push_decimal(&mut text, *active as u128);
                push_str(&mut text, ", limit ");
                push_decimal(&mut text, *limit as u128);
                text
            },
        }
    }

    /// The error's data, classified by `worker_supervisor_classification`.
    pub fn rpc_data(&self) -> (data: RpcData)
        ensures
            data.entries() == spec_worker_error_data(*self),
            data.classification matches Some(classification) && classification.category@
                == spec_worker_error_category(*self) && classification.hint@ == spec_worker_error_hint(*self),
    {
        let data = match self {
            WorkerSupervisorError::Spawn { executable, message } => RpcData::of_kind("spawn").with_text(
                "executable",
                executable.as_str(),
            ).with_text("message", message.as_str()),
            WorkerSupervisorError::MissingPipe(pipe) => RpcData::of_kind("missing-pipe").with_text("pipe", pipe),
            WorkerSupervisorError::Io(message) => RpcData::of_kind("io").with_text("message", message.as_str()),
            WorkerSupervisorError::Timeout { method, timeout_ms, stderr } => RpcData::of_kind("timeout").with_text(
                "method",
                method,
            ).with_unsigned("timeoutMs", *timeout_ms).with_text("stderr", stderr.as_str()),
            WorkerSupervisorError::InvalidJson(message) => RpcData::of_kind("invalid-json").with_text(
                "message",
                message.as_str(),
            ),
            WorkerSupervisorError::Protocol { message, stderr } => RpcData::of_kind("protocol").with_text(
                "message",
                message.as_str(),
            ).with_text("stderr", stderr.as_str()),
            WorkerSupervisorError::SupervisionSetup { message } => RpcData::of_kind(
                "supervision-setup-failed",
            ).with_text("message", message.as_str()),
            WorkerSupervisorError::Quarantined { plugin_id, failures, release_after_ms } => RpcData::of_kind(
                "quarantined",
            ).with_text("pluginId", plugin_id.as_str()).with_unsigned("failures", *failures as u128).with_unsigned(
                "releaseAfterMs",
                *release_after_ms,
            ),
            WorkerSupervisorError::IncompatibleWorker {
                reason,
                expected_ipc_version,
                actual_ipc_version,
                hello,
                stderr,
            } => RpcData::of_kind("worker-incompatible").with_text("reason", reason.as_str()).with_unsigned(
                "expectedIpcVersion",
                *expected_ipc_version as u128,
            ).with_optional_unsigned(
                "actualIpcVersion",
                match actual_ipc_version {
                    Some(version) => Some(*version as u128),
                    None => None,
                },
            ).with_payload("hello", hello.clone()).with_text("stderr", stderr.as_str()),
            WorkerSupervisorError::WorkerMissing { instance_id } => RpcData::of_kind("worker-missing").with_unsigned(
                "instanceId",
                *instance_id as u128,
            ),
            WorkerSupervisorError::AudioIpcUnavailable { instance_id } => RpcData::of_kind(
                "audio-ipc-unavailable",
            ).with_unsigned("instanceId", *instance_id as u128),
            WorkerSupervisorError::WorkerRejected { code, message, data, stderr } => RpcData::of_kind(
                "worker-rejected",
            ).with_signed("code", *code as i128).with_text("message", message.as_str()).with_optional_payload(
                "workerData",
                optional_copy(data),
            ).with_text("stderr", stderr.as_str()),
            WorkerSupervisorError::ResourceLimitExceeded { limit, active } => RpcData::of_kind(
                "resource-limit-exceeded",
            ).with_text("resource", "worker-instances").with_unsigned("limit", *limit as u128).with_unsigned(
                "active",
                *active as u128,
            ),
        };
        data.classified(worker_supervisor_classification(self))
    }
}

pub open spec fn is_text(value: Option<String>, expected: Seq<char>) -> bool {
    string_view(value) == Some(expected)
}

/// A rejection by the worker's control layer, rather than by the VST3 runtime while
/// processing: any rejection whose data kind is not `vst3-runtime-process`.
pub fn is_control_rejection_kind(kind: Option<String>) -> (control: bool)
    ensures
        control == !is_text(kind, "vst3-runtime-process"@),
{
    match kind {
        Some(text) => !(text == String::from_str("vst3-runtime-process")),
        None => true,
    }
}

/// A rejection of an audio request: data kind `audio-request-invalid` or `audio-stream-not-found`.
pub fn is_audio_rejection_kind(kind: Option<String>) -> (audio: bool)
    ensures
        audio == (is_text(kind, "audio-request-invalid"@) || is_text(kind, "audio-stream-not-found"@)),
{
    match kind {
        Some(text) => text == String::from_str("audio-request-invalid") || text == String::from_str(
            "audio-stream-not-found",
        ),
        None => false,
    }
}

/// The shared memory failure reason of a rejection with data: the data's `reason` text, else
/// the `reason` text of its `workerData`; errors without rejection data have none.
pub open spec fn spec_shared_memory_error_reason(error: WorkerSupervisorError) -> Option<Seq<char>> {
    match error {
        WorkerSupervisorError::WorkerRejected { data: Some(data), .. } => match json_member_text(data, "reason"@) {
            Some(reason) => Some(reason),
            None => json_pointer_text(data, "/workerData/reason"@),
        },
        _ => None,
    }
}

impl WorkerSupervisorError {
    /// Whether the worker rejected a control request (not a VST3 processing failure); errors
    /// other than rejections never are.
    pub fn is_control_request_rejection(&self) -> (rejection: bool)
        ensures
            rejection == match *self {
                WorkerSupervisorError::WorkerRejected { data: None, .. } => true,
                WorkerSupervisorError::WorkerRejected { data: Some(data), .. } => json_member_text(data, "kind"@)
                    != Some("vst3-runtime-process"@),
                _ => false,
            },
    {
        match self {
            WorkerSupervisorError::WorkerRejected { data, .. } => {
                let kind = match data {
                    Some(data) => json_string_member(data, "kind"),
                    None => None,
                };
                is_control_rejection_kind(kind)
            },
            _ => false,
        }
    }

    /// Whether the worker rejected an audio request as invalid or for an unknown stream;
    /// only a rejection with data can be.
    pub fn is_audio_request_rejection(&self) -> (rejection: bool)
        ensures
            rejection == match *self {
                WorkerSupervisorError::WorkerRejected { data: Some(data), .. } => json_member_text(data, "kind"@)
                    == Some("audio-request-invalid"@) || json_member_text(data, "kind"@) == Some(
                    "audio-stream-not-found"@,
                ),
                _ => false,
            },
    {
        match self {
            WorkerSupervisorError::WorkerRejected { data: Some(data), .. } => is_audio_rejection_kind(
                json_string_member(data, "kind"),
            ),
            _ => false,
        }
    }

    /// The shared memory failure reason of a rejection: its data's `reason`, else the
    /// `reason` of its `workerData`.
    pub fn shared_memory_error_reason(&self) -> (reason: Option<String>)
        ensures
            string_view(reason) == spec_shared_memory_error_reason(*self),
    {
        match self {
            WorkerSupervisorError::WorkerRejected { data: Some(data), .. } => match json_string_member(data, "reason") {
                Some(reason) => Some(reason),
                None => json_string_at(data, "/workerData/reason"),
            },
            _ => None,
        }
    }
}

} // verus!
