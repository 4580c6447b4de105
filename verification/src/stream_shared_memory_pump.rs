use vstd::prelude::*;

pub mod config;
pub mod error;
pub mod event_queue;
pub mod runtime;
pub mod scheduler;

pub use config::{
    default_interval_micros, pump_config_from_params, SharedMemoryPumpConfig,
    SharedMemoryPumpInstanceParams, SharedMemoryPumpStartParams,
};
pub use error::SharedMemoryPumpError;
pub use event_queue::{
    SharedMemoryPumpClearEventsParams, SharedMemoryPumpClearEventsResult,
    SharedMemoryPumpEnqueueEventsParams, SharedMemoryPumpEnqueueEventsResult,
    SharedMemoryPumpEventOverflowPolicy, SharedMemoryPumpEventQueueStatus,
};
pub use scheduler::{
    SharedMemoryPumpPreflightSkip, SharedMemoryPumpRingStatus, SharedMemoryPumpScheduleStatus,
    SharedMemoryPumpSchedulingConfig, SharedMemoryPumpSchedulingMode,
};

verus! {

/// How one pump iteration ended.
#[derive(Debug, Clone, Copy, PartialEq, Eq)]
pub enum SharedMemoryPumpTickOutcome {
    Success,
    InputUnderrun,
    OutputBackpressure,
    WorkerError,
}

} // verus!
