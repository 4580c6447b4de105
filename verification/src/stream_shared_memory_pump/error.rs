use vstd::prelude::*;

use super::event_queue::{SharedMemoryPumpEventQueueError, MAX_QUEUED_EVENTS_LIMIT};
use crate::rpc::{text, unsigned, RpcData, RpcValueView};
use crate::text::{decimal, push_decimal, push_str};

verus! {

/// Why a shared memory pump request failed.
#[derive(Debug, Clone, Copy, PartialEq, Eq)]
pub enum SharedMemoryPumpError {
    AlreadyRunning { instance_id: u64 },
    NotRunning { instance_id: u64 },
    NotAttached { instance_id: u64 },
    StreamClosed { instance_id: u64 },
    InstanceNotProcessing { instance_id: u64 },
    InvalidFrames { frames: u16, max_frames: u16 },
    InvalidInterval,
    InvalidSchedulingWindow { min_micros: u64, max_micros: u64 },
    InvalidMaxQueuedEvents { max_queued_events: u32 },
    InvalidEventTarget,
    EmptyEventBatch,
    EventBatchExceedsCapacity { requested_events: u64, max_queued_events: u32 },
    EventQueueCapacityExceeded { queued_events: u64, requested_events: u64, max_queued_events: u32 },
    RegistryUnavailable,
}

pub open spec fn spec_pump_error_code(error: SharedMemoryPumpError) -> i64 {
    match error {
        SharedMemoryPumpError::AlreadyRunning { .. }
        | SharedMemoryPumpError::NotRunning { .. }
        | SharedMemoryPumpError::NotAttached { .. }
        | SharedMemoryPumpError::StreamClosed { .. }
        | SharedMemoryPumpError::InstanceNotProcessing { .. } => 4096,
        SharedMemoryPumpError::RegistryUnavailable => 5037,
        _ => 4222,
    }
}

pub open spec fn spec_pump_error_message(error: SharedMemoryPumpError) -> Seq<char> {
    match error {
        SharedMemoryPumpError::AlreadyRunning { instance_id } => "shared memory pump already running for instance "@
            + decimal(instance_id as nat),
        SharedMemoryPumpError::NotRunning { instance_id } => "shared memory pump is not running for instance "@
            + decimal(instance_id as nat),
        SharedMemoryPumpError::NotAttached { instance_id } => "shared memory stream is not attached for instance "@
            + decimal(instance_id as nat),
        SharedMemoryPumpError::StreamClosed { instance_id } => "stream is closed for instance "@ + decimal(
            instance_id as nat,
        ),
        SharedMemoryPumpError::InstanceNotProcessing { instance_id } => "instance "@ + decimal(instance_id as nat)
            + " is not processing"@,
        SharedMemoryPumpError::InvalidFrames { frames, max_frames } => "invalid pump frames "@ + decimal(
            frames as nat,
        ) + "; maxBlockFrames is "@ + decimal(max_frames as nat),
        SharedMemoryPumpError::InvalidInterval => "intervalMicros must be non-zero"@,
        SharedMemoryPumpError::InvalidSchedulingWindow { min_micros, max_micros } =>
            "invalid adaptive pump interval window: minIntervalMicros "@ + decimal(min_micros as nat)
            + " exceeds maxIntervalMicros "@ + decimal(max_micros as nat),
        SharedMemoryPumpError::InvalidMaxQueuedEvents { max_queued_events } => "invalid maxQueuedEvents "@ + decimal(
            max_queued_events as nat,
        ) + "; supported range is 1..="@ + decimal(MAX_QUEUED_EVENTS_LIMIT as nat),
        SharedMemoryPumpError::InvalidEventTarget => "provide either targetIteration or delayIterations, not both"@,
        SharedMemoryPumpError::EmptyEventBatch => "shared memory pump event batch must include at least one event"@,
        SharedMemoryPumpError::EventBatchExceedsCapacity { requested_events, max_queued_events } =>
            "shared memory pump event batch has "@ + decimal(requested_events as nat) + " events; maxQueuedEvents is "@
            + decimal(max_queued_events as nat),
        SharedMemoryPumpError::EventQueueCapacityExceeded { queued_events, requested_events, max_queued_events } =>
            "shared memory pump event queue capacity exceeded: queued "@ + decimal(queued_events as nat)
            + ", requested "@ + decimal(requested_events as nat) + ", maxQueuedEvents "@ + decimal(
            max_queued_events as nat,
        ),
        SharedMemoryPumpError::RegistryUnavailable => "shared memory pump registry unavailable"@,
    }
}

impl SharedMemoryPumpError {
    /// The JSON-RPC code: 4096 for pump state conflicts, 4222 for invalid requests, 5037
    /// for an unavailable registry.
    pub fn rpc_code(&self) -> (code: i64)
        ensures
            code == spec_pump_error_code(*self),
    {
        match self {
            SharedMemoryPumpError::AlreadyRunning { .. }
            | SharedMemoryPumpError::NotRunning { .. }
            | SharedMemoryPumpError::NotAttached { .. }
            | SharedMemoryPumpError::StreamClosed { .. }
            | SharedMemoryPumpError::InstanceNotProcessing { .. } => 4096,
            SharedMemoryPumpError::RegistryUnavailable => 5037,
            _ => 4222,
        }
    }

    pub fn rpc_message(&self) -> (message: String)
        ensures
            message@ == spec_pump_error_message(*self),
    {
        match self {
            SharedMemoryPumpError::AlreadyRunning { instance_id } => {
                let mut text = String::from_str("shared memory pump already running for instance ");
                push_decimal(&mut text, *instance_id as u128);
                text
            },
            SharedMemoryPumpError::NotRunning { instance_id } => {
                let mut text = String::from_str("shared memory pump is not running for instance ");
                push_decimal(&mut text, *instance_id as u128);
                text
            },
            SharedMemoryPumpError::NotAttached { instance_id } => {
                let mut text = String::from_str("shared memory stream is not attached for instance ");
                push_decimal(&mut text, *instance_id as u128);
                text
            },
            SharedMemoryPumpError::StreamClosed { instance_id } => {
                let mut text = String::from_str("stream is closed for instance ");
                push_decimal(&mut text, *instance_id as u128);
                text
            },
            SharedMemoryPumpError::InstanceNotProcessing { instance_id } => {
                let mut text = String::from_str("instance ");
                push_decimal(&mut text, *instance_id as u128);
                push_str(&mut text, " is not processing");
                text
            },
            SharedMemoryPumpError::InvalidFrames { frames, max_frames } => {
                let mut text = String::from_str("invalid pump frames ");
                push_decimal(&mut text, *frames as u128);
                push_str(&mut text, "; maxBlockFrames is ");
                push_decimal(&mut text, *max_frames as u128);
                text
            },
            SharedMemoryPumpError::InvalidInterval => String::from_str("intervalMicros must be non-zero"),
            SharedMemoryPumpError::InvalidSchedulingWindow { min_micros, max_micros } => {
                let mut text = String::from_str("invalid adaptive pump interval window: minIntervalMicros ");
                push_decimal(&mut text, *min_micros as u128);
                push_str(&mut text, " exceeds maxIntervalMicros ");
                push_decimal(&mut text, *max_micros as u128);
                text
            },
            SharedMemoryPumpError::InvalidMaxQueuedEvents { max_queued_events } => {
                let mut text = String::from_str("invalid maxQueuedEvents ");
                push_decimal(&mut text, *max_queued_events as u128);
                push_str(&mut text, "; supported range is 1..=");
                push_decimal(&mut text, MAX_QUEUED_EVENTS_LIMIT as u128);
                text
            },
            SharedMemoryPumpError::InvalidEventTarget => String::from_str(
                "provide either targetIteration or delayIterations, not both",
            ),
            SharedMemoryPumpError::EmptyEventBatch => String::from_str(
                "shared memory pump event batch must include at least one event",
            ),
            SharedMemoryPumpError::EventBatchExceedsCapacity { requested_events, max_queued_events } => {
                let mut text = String::from_str("shared memory pump event batch has ");
                push_decimal(&mut text, *requested_events as u128);
                push_str(&mut text, " events; maxQueuedEvents is ");
                push_decimal(&mut text, *max_queued_events as u128);
                text
            },
            SharedMemoryPumpError::EventQueueCapacityExceeded { queued_events, requested_events, max_queued_events } => {
                let mut text = String::from_str("shared memory pump event queue capacity exceeded: queued ");
                push_decimal(&mut text, *queued_events as u128);
                push_str(&mut text, ", requested ");
                push_decimal(&mut text, *requested_events as u128);
                push_str(&mut text, ", maxQueuedEvents ");
                push_decimal(&mut text, *max_queued_events as u128);
                text
            },
            SharedMemoryPumpError::RegistryUnavailable => String::from_str("shared memory pump registry unavailable"),
        }
    }
}

pub open spec fn spec_from_queue_error(error: SharedMemoryPumpEventQueueError) -> SharedMemoryPumpError {
    match error {
        SharedMemoryPumpEventQueueError::EmptyBatch => SharedMemoryPumpError::EmptyEventBatch,
        SharedMemoryPumpEventQueueError::BatchExceedsCapacity { requested_events, max_queued_events } =>
            SharedMemoryPumpError::EventBatchExceedsCapacity { requested_events, max_queued_events },
        SharedMemoryPumpEventQueueError::CapacityExceeded { queued_events, requested_events, max_queued_events } =>
            SharedMemoryPumpError::EventQueueCapacityExceeded { queued_events, requested_events, max_queued_events },
    }
}

impl From<SharedMemoryPumpEventQueueError> for SharedMemoryPumpError {
    fn from(error: SharedMemoryPumpEventQueueError) -> (converted: Self) {
        match error {
            SharedMemoryPumpEventQueueError::EmptyBatch => SharedMemoryPumpError::EmptyEventBatch,
            SharedMemoryPumpEventQueueError::BatchExceedsCapacity { requested_events, max_queued_events } =>
                SharedMemoryPumpError::EventBatchExceedsCapacity { requested_events, max_queued_events },
            SharedMemoryPumpEventQueueError::CapacityExceeded { queued_events, requested_events, max_queued_events } =>
                SharedMemoryPumpError::EventQueueCapacityExceeded { queued_events, requested_events, max_queued_events },
        }
    }
}

impl vstd::std_specs::convert::FromSpecImpl<SharedMemoryPumpEventQueueError> for SharedMemoryPumpError {
    open spec fn obeys_from_spec() -> bool {
        true
    }

    open spec fn from_spec(error: SharedMemoryPumpEventQueueError) -> Self {
        spec_from_queue_error(error)
    }
}

/// The data of a pump error: its kind and the numbers it carries.
pub open spec fn spec_pump_error_data(error: SharedMemoryPumpError) -> Seq<(Seq<char>, RpcValueView)> {
    match error {
        SharedMemoryPumpError::AlreadyRunning { instance_id } => seq![
            ("kind"@, text("shared-memory-pump-already-running"@)),
            ("instanceId"@, unsigned(instance_id as int)),
        ],
        SharedMemoryPumpError::NotRunning { instance_id } => seq![
            ("kind"@, text("shared-memory-pump-not-running"@)),
            ("instanceId"@, unsigned(instance_id as int)),
        ],
        SharedMemoryPumpError::NotAttached { instance_id } => seq![
            ("kind"@, text("shared-memory-not-attached"@)),
            ("instanceId"@, unsigned(instance_id as int)),
        ],
        SharedMemoryPumpError::StreamClosed { instance_id } => seq![
            ("kind"@, text("stream-closed"@)),
            ("instanceId"@, unsigned(instance_id as int)),
        ],
        SharedMemoryPumpError::InstanceNotProcessing { instance_id } => seq![
            ("kind"@, text("instance-not-processing"@)),
            ("instanceId"@, unsigned(instance_id as int)),
        ],
        SharedMemoryPumpError::InvalidFrames { frames, max_frames } => seq![
            ("kind"@, text("invalid-pump-frames"@)),
            ("frames"@, unsigned(frames as int)),
            ("maxFrames"@, unsigned(max_frames as int)),
        ],
        SharedMemoryPumpError::InvalidInterval => seq![("kind"@, text("invalid-pump-interval"@))],
        SharedMemoryPumpError::InvalidSchedulingWindow { min_micros, max_micros } => seq![
            ("kind"@, text("invalid-pump-scheduling-window"@)),
            ("minIntervalMicros"@, unsigned(min_micros as int)),
            ("maxIntervalMicros"@, unsigned(max_micros as int)),
        ],
        SharedMemoryPumpError::InvalidMaxQueuedEvents { max_queued_events } => seq![
            ("kind"@, text("invalid-pump-max-queued-events"@)),
            ("maxQueuedEvents"@, unsigned(max_queued_events as int)),
            ("limit"@, unsigned(MAX_QUEUED_EVENTS_LIMIT as int)),
        ],
        SharedMemoryPumpError::InvalidEventTarget => seq![("kind"@, text("invalid-pump-event-target"@))],
        SharedMemoryPumpError::EmptyEventBatch => seq![("kind"@, text("empty-pump-event-batch"@))],
        SharedMemoryPumpError::EventBatchExceedsCapacity { requested_events, max_queued_events } => seq![
            ("kind"@, text("pump-event-batch-exceeds-capacity"@)),
            ("requestedEvents"@, unsigned(requested_events as int)),
            ("maxQueuedEvents"@, unsigned(max_queued_events as int)),
        ],
        SharedMemoryPumpError::EventQueueCapacityExceeded { queued_events, requested_events, max_queued_events } =>
            seq![
            ("kind"@, text("pump-event-queue-capacity-exceeded"@)),
            ("queuedEvents"@, unsigned(queued_events as int)),
            ("requestedEvents"@, unsigned(requested_events as int)),
            ("maxQueuedEvents"@, unsigned(max_queued_events as int)),
        ],
        SharedMemoryPumpError::RegistryUnavailable => seq![("kind"@, text("shared-memory-pump-registry-unavailable"@))],
    }
}

impl SharedMemoryPumpError {
    pub fn rpc_data(&self) -> (data: RpcData)
        ensures
            data.entries() == spec_pump_error_data(*self),
    {
        match self {
            SharedMemoryPumpError::AlreadyRunning { instance_id } => RpcData::of_kind(
                "shared-memory-pump-already-running",
            ).with_unsigned("instanceId", *instance_id as u128),
            SharedMemoryPumpError::NotRunning { instance_id } => RpcData::of_kind(
                "shared-memory-pump-not-running",
            ).with_unsigned("instanceId", *instance_id as u128),
            SharedMemoryPumpError::NotAttached { instance_id } => RpcData::of_kind(
                "shared-memory-not-attached",
            ).with_unsigned("instanceId", *instance_id as u128),
            SharedMemoryPumpError::StreamClosed { instance_id } => RpcData::of_kind("stream-closed").with_unsigned(
                "instanceId",
                *instance_id as u128,
            ),
            SharedMemoryPumpError::InstanceNotProcessing { instance_id } => RpcData::of_kind(
                "instance-not-processing",
            ).with_unsigned("instanceId", *instance_id as u128),
            SharedMemoryPumpError::InvalidFrames { frames, max_frames } => RpcData::of_kind(
                "invalid-pump-frames",
            ).with_unsigned("frames", *frames as u128).with_unsigned("maxFrames", *max_frames as u128),
            SharedMemoryPumpError::InvalidInterval => RpcData::of_kind("invalid-pump-interval"),
            SharedMemoryPumpError::InvalidSchedulingWindow { min_micros, max_micros } => RpcData::of_kind(
                "invalid-pump-scheduling-window",
            ).with_unsigned("minIntervalMicros", *min_micros as u128).with_unsigned(
                "maxIntervalMicros",
                *max_micros as u128,
            ),
            SharedMemoryPumpError::InvalidMaxQueuedEvents { max_queued_events } => RpcData::of_kind(
                "invalid-pump-max-queued-events",
            ).with_unsigned("maxQueuedEvents", *max_queued_events as u128).with_unsigned(
                "limit",
                MAX_QUEUED_EVENTS_LIMIT as u128,
            ),
            SharedMemoryPumpError::InvalidEventTarget => RpcData::of_kind("invalid-pump-event-target"),
            SharedMemoryPumpError::EmptyEventBatch => RpcData::of_kind("empty-pump-event-batch"),
            SharedMemoryPumpError::EventBatchExceedsCapacity { requested_events, max_queued_events } =>
                RpcData::of_kind("pump-event-batch-exceeds-capacity").with_unsigned(
                "requestedEvents",
                *requested_events as u128,
            ).with_unsigned("maxQueuedEvents", *max_queued_events as u128),
            SharedMemoryPumpError::EventQueueCapacityExceeded { queued_events, requested_events, max_queued_events } =>
                RpcData::of_kind("pump-event-queue-capacity-exceeded").with_unsigned(
                "queuedEvents",
                *queued_events as u128,
            ).with_unsigned("requestedEvents", *requested_events as u128).with_unsigned(
                "maxQueuedEvents",
                *max_queued_events as u128,
            ),
            SharedMemoryPumpError::RegistryUnavailable => RpcData::of_kind("shared-memory-pump-registry-unavailable"),
        }
    }
}

} // verus!
