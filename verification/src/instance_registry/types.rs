use serde_json::Value;
use vstd::prelude::*;

use crate::json::{json_get, json_member, json_member_text, json_string_member};
use crate::runtime_capabilities::{
    json_u32, spec_capabilities_from, spec_default_capabilities, spec_json_u32, RuntimeCapabilities,
    RuntimeCapabilitiesView, RuntimeCapabilityDiagnostic,
};
use crate::text::string_view;

verus! {

/// Parameters of `instance.create`.
#[derive(Debug, Clone, PartialEq, Eq)]
pub struct InstanceCreateParams {
    pub plugin_id: String,
    pub class_id: Option<String>,
    pub sample_rate: u32,
    pub max_block_frames: u16,
    pub input_channels: u16,
    pub output_channels: u16,
    pub input_bus_index: Option<i32>,
    pub output_bus_index: Option<i32>,
}

/// Parameters of `instance.destroy`.
#[derive(Debug, Clone, PartialEq, Eq)]
pub struct InstanceDestroyParams {
    pub instance_id: u64,
}

/// Parameters of `instance.status`.
#[derive(Debug, Clone, PartialEq, Eq)]
pub struct InstanceStatusParams {
    pub instance_id: u64,
}

/// Parameters of `instance.restart`.
#[derive(Debug, Clone, PartialEq, Eq)]
pub struct InstanceRestartParams {
    pub instance_id: u64,
}

/// Parameters of `instance.start and instance.stop`.
#[derive(Debug, Clone, PartialEq, Eq)]
pub struct InstanceProcessingParams {
    pub instance_id: u64,
}

/// Parameters of `instance.parameter.get and the edit gestures`.
#[derive(Debug, Clone, PartialEq, Eq)]
pub struct InstanceParameterParams {
    pub instance_id: u64,
    pub parameter_id: u32,
}

/// Parameters of `instance.parameter.valueByString`.
#[derive(Debug, Clone, PartialEq, Eq)]
pub struct InstanceParameterValueByStringParams {
    pub instance_id: u64,
    pub parameter_id: u32,
    pub value: String,
}

/// Parameters of `instance.setState`.
#[derive(Debug, Clone, PartialEq, Eq)]
pub struct InstanceSetStateParams {
    pub instance_id: u64,
    pub component_state_base64: Option<String>,
    pub controller_state_base64: Option<String>,
}

/// Parameters of `instance.selectUnit`.
#[derive(Debug, Clone, PartialEq, Eq)]
pub struct InstanceSelectUnitParams {
    pub instance_id: u64,
    pub unit_id: i32,
}

/// Parameters of `instance.unitByBus`.
#[derive(Debug, Clone, PartialEq, Eq)]
pub struct InstanceUnitByBusParams {
    pub instance_id: u64,
    pub direction: String,
    pub bus_index: i32,
    pub channel: i32,
}

/// Parameters of `instance.setUnitProgramData`.
#[derive(Debug, Clone, PartialEq, Eq)]
pub struct InstanceUnitProgramDataParams {
    pub instance_id: u64,
    pub list_or_unit_id: i32,
    pub program_index: i32,
    pub data_base64: String,
}

/// Parameters of `instance.programData.get`.
#[derive(Debug, Clone, PartialEq, Eq)]
pub struct InstanceProgramDataParams {
    pub instance_id: u64,
    pub list_id: i32,
    pub program_index: i32,
}

/// Parameters of `instance.programData.set`.
#[derive(Debug, Clone, PartialEq, Eq)]
pub struct InstanceSetProgramDataParams {
    pub instance_id: u64,
    pub list_id: i32,
    pub program_index: i32,
    pub data_base64: String,
}

/// Parameters of `instance.unitData.get`.
#[derive(Debug, Clone, PartialEq, Eq)]
pub struct InstanceUnitDataParams {
    pub instance_id: u64,
    pub unit_id: i32,
}

/// Parameters of `instance.unitData.set`.
#[derive(Debug, Clone, PartialEq, Eq)]
pub struct InstanceSetUnitDataParams {
    pub instance_id: u64,
    pub unit_id: i32,
    pub data_base64: String,
}

/// Parameters of `stream.open and stream.close`.
#[derive(Debug, Clone, PartialEq, Eq)]
pub struct StreamLifecycleParams {
    pub instance_id: u64,
}

/// Lifecycle state of an instance.
#[derive(Debug, Clone, Copy, PartialEq, Eq)]
pub enum InstanceState {
    Allocated,
    Starting,
    Ready,
    Processing,
    Stopping,
    Stopped,
    Recovering,
    Failed,
    Destroyed,
}

/// State of the worker process that hosts an instance.
#[derive(Debug, Clone, Copy, PartialEq, Eq)]
pub enum WorkerState {
    NotStarted,
    Starting,
    Ready,
    Processing,
    Stopping,
    Stopped,
    Recovering,
    Failed,
}

/// Whether an instance's audio stream accepts frames.
#[derive(Debug, Clone, Copy, PartialEq, Eq)]
pub enum StreamState {
    Open,
    Closed,
}

#[derive(Debug, Clone, Copy, PartialEq, Eq)]
pub enum RuntimeTailKind {
    NoTail,
    Finite,
    Infinite,
}

/// The audio tail of a plugin: none, a finite number of samples, or infinite (`u32::MAX`).
#[derive(Debug, Clone, Copy, PartialEq, Eq)]
pub struct RuntimeTailInfo {
    pub samples: u32,
    pub kind: RuntimeTailKind,
    pub finite_samples: Option<u32>,
}

pub open spec fn spec_tail_from_samples(samples: u32) -> RuntimeTailInfo {
    if samples == 0 {
        RuntimeTailInfo { samples, kind: RuntimeTailKind::NoTail, finite_samples: Some(0) }
    } else if samples == u32::MAX {
        RuntimeTailInfo { samples, kind: RuntimeTailKind::Infinite, finite_samples: None }
    } else {
        RuntimeTailInfo { samples, kind: RuntimeTailKind::Finite, finite_samples: Some(samples) }
    }
}

impl RuntimeTailInfo {
    /// Classifies a tail length: 0 is no tail, `u32::MAX` is an infinite tail, and
    /// anything else a finite tail of that many samples.
    pub fn from_samples(samples: u32) -> (info: Self)
        ensures
            info == spec_tail_from_samples(samples),
    {
        if samples == 0 {
            RuntimeTailInfo { samples, kind: RuntimeTailKind::NoTail, finite_samples: Some(0) }
        } else if samples == u32::MAX {
            RuntimeTailInfo { samples, kind: RuntimeTailKind::Infinite, finite_samples: None }
        } else {
            RuntimeTailInfo { samples, kind: RuntimeTailKind::Finite, finite_samples: Some(samples) }
        }
    }
}

impl Default for RuntimeTailInfo {
    fn default() -> (info: Self)
        ensures
            info == spec_tail_from_samples(0),
    {
        RuntimeTailInfo::from_samples(0)
    }
}

/// A copy of an optional string.
pub fn copy_optional_string(value: &Option<String>) -> (copy: Option<String>)
    ensures
        copy == *value,
{
    match value {
        Some(text) => Some(text.clone()),
        None => None,
    }
}

/// What the registry knows of one plugin instance.
#[derive(Debug, Clone, PartialEq, Eq)]
pub struct InstanceRecord {
    pub instance_id: u64,
    pub stream_id: u64,
    pub plugin_id: String,
    pub plugin_path: String,
    pub class_id: Option<String>,
    pub class_name: Option<String>,
    pub sample_rate: u32,
    pub max_block_frames: u16,
    pub input_channels: u16,
    pub output_channels: u16,
    pub input_bus_index: Option<i32>,
    pub output_bus_index: Option<i32>,
    pub state: InstanceState,
    pub worker_state: WorkerState,
    pub stream_state: StreamState,
    pub backend: Option<String>,
    pub controller_class_id: Option<String>,
    pub runtime_capabilities: RuntimeCapabilities,
    pub latency_samples: u32,
    pub tail_samples: u32,
    pub tail_info: RuntimeTailInfo,
}

/// `InstanceRecord` as a mathematical value.
pub struct InstanceRecordView {
    pub instance_id: u64,
    pub stream_id: u64,
    pub plugin_id: String,
    pub plugin_path: String,
    pub class_id: Option<String>,
    pub class_name: Option<String>,
    pub sample_rate: u32,
    pub max_block_frames: u16,
    pub input_channels: u16,
    pub output_channels: u16,
    pub input_bus_index: Option<i32>,
    pub output_bus_index: Option<i32>,
    pub state: InstanceState,
    pub worker_state: WorkerState,
    pub stream_state: StreamState,
    pub backend: Option<String>,
    pub controller_class_id: Option<String>,
    pub runtime_capabilities: RuntimeCapabilitiesView,
    pub latency_samples: u32,
    pub tail_samples: u32,
    pub tail_info: RuntimeTailInfo,
}

impl View for InstanceRecord {
    type V = InstanceRecordView;

    open spec fn view(&self) -> InstanceRecordView {
        InstanceRecordView {
            instance_id: self.instance_id,
            stream_id: self.stream_id,
            plugin_id: self.plugin_id,
            plugin_path: self.plugin_path,
            class_id: self.class_id,
            class_name: self.class_name,
            sample_rate: self.sample_rate,
            max_block_frames: self.max_block_frames,
            input_channels: self.input_channels,
            output_channels: self.output_channels,
            input_bus_index: self.input_bus_index,
            output_bus_index: self.output_bus_index,
            state: self.state,
            worker_state: self.worker_state,
            stream_state: self.stream_state,
            backend: self.backend,
            controller_class_id: self.controller_class_id,
            runtime_capabilities: self.runtime_capabilities@,
            latency_samples: self.latency_samples,
            tail_samples: self.tail_samples,
            tail_info: self.tail_info,
        }
    }
}

impl InstanceRecord {
    /// A field-by-field copy.
    pub fn copied(&self) -> (copy: Self)
        ensures
            copy@ == self@,
    {
        InstanceRecord {
            instance_id: self.instance_id,
            stream_id: self.stream_id,
            plugin_id: self.plugin_id.clone(),
            plugin_path: self.plugin_path.clone(),
            class_id: copy_optional_string(&self.class_id),
            class_name: copy_optional_string(&self.class_name),
            sample_rate: self.sample_rate,
            max_block_frames: self.max_block_frames,
            input_channels: self.input_channels,
            output_channels: self.output_channels,
            input_bus_index: self.input_bus_index,
            output_bus_index: self.output_bus_index,
            state: self.state,
            worker_state: self.worker_state,
            stream_state: self.stream_state,
            backend: copy_optional_string(&self.backend),
            controller_class_id: copy_optional_string(&self.controller_class_id),
            runtime_capabilities: self.runtime_capabilities.copied(),
            latency_samples: self.latency_samples,
            tail_samples: self.tail_samples,
            tail_info: self.tail_info,
        }
    }
}

/// What a destroyed instance was.
#[derive(Debug, Clone, Copy, PartialEq, Eq)]
pub struct InstanceDestroyResult {
    pub instance_id: u64,
    pub stream_id: u64,
    pub state: InstanceState,
}

/// What a worker reported once an instance was loaded.
#[derive(Debug, Clone, PartialEq, Eq)]
pub struct WorkerRuntimeInfo {
    pub backend: Option<String>,
    pub controller_class_id: Option<String>,
    pub runtime_capabilities: RuntimeCapabilities,
    pub latency_samples: u32,
    pub tail_samples: u32,
    pub tail_info: RuntimeTailInfo,
}

/// The tail length a worker result reports under `tailInfo.samples`: 0 when it is missing,
/// not a number or too big.
pub open spec fn spec_tail_samples(value: Value) -> u32 {
    match json_member(value, "tailInfo"@) {
        Some(tail) => spec_json_u32(tail, "samples"@),
        None => 0,
    }
}

impl RuntimeTailInfo {
    /// The tail a worker result reports, classified by its length alone.
    pub fn from_worker_result(value: &Value) -> (info: Self)
        ensures
            info == spec_tail_from_samples(spec_tail_samples(*value)),
    {
        let samples = match json_get(value, "tailInfo") {
            Some(tail) => json_u32(&tail, "samples"),
            None => 0,
        };
        RuntimeTailInfo::from_samples(samples)
    }
}

impl WorkerRuntimeInfo {
    /// Reads what a worker reported after loading an instance: its backend and controller
    /// class (when they are strings), its runtime capabilities (with the diagnostics that
    /// parsed from their `unavailable` list), and its latency and tail lengths.
    pub fn from_worker_result(value: &Value, unavailable: Vec<RuntimeCapabilityDiagnostic>) -> (info: Self)
        ensures
            string_view(info.backend) == json_member_text(*value, "backend"@),
            string_view(info.controller_class_id) == json_member_text(*value, "controllerClassId"@),
            info.runtime_capabilities@ == match json_member(*value, "runtimeCapabilities"@) {
                None => spec_default_capabilities(),
                Some(capabilities) => spec_capabilities_from(capabilities, unavailable@),
            },
            info.latency_samples == spec_json_u32(*value, "latencySamples"@),
            info.tail_samples == spec_json_u32(*value, "tailSamples"@),
            info.tail_info == spec_tail_from_samples(spec_tail_samples(*value)),
    {
        let capabilities = json_get(value, "runtimeCapabilities");
        let runtime_capabilities = match &capabilities {
            Some(capabilities) => RuntimeCapabilities::from_worker_result(Some(capabilities), unavailable),
            None => RuntimeCapabilities::from_worker_result(None, unavailable),
        };
        WorkerRuntimeInfo {
            backend: json_string_member(value, "backend"),
            controller_class_id: json_string_member(value, "controllerClassId"),
            runtime_capabilities,
            latency_samples: json_u32(value, "latencySamples"),
            tail_samples: json_u32(value, "tailSamples"),
            tail_info: RuntimeTailInfo::from_worker_result(value),
        }
    }
}

/// Why a registry operation failed.
#[derive(Debug, Clone, PartialEq, Eq)]
pub enum InstanceError {
    InvalidPluginId,
    PluginNotFound(String),
    ClassNotFound(String),
    InvalidSampleRate(u32),
    InvalidMaxBlockFrames(u16),
    InvalidInputChannels(u16),
    InvalidOutputChannels(u16),
    InvalidInputBusIndex(i32),
    InvalidOutputBusIndex(i32),
    InstanceNotFound(u64),
    RegistryUnavailable,
}

} // verus!
