use vstd::prelude::*;

use super::event_queue::{DEFAULT_MAX_QUEUED_EVENTS, MAX_QUEUED_EVENTS_LIMIT};
use super::scheduler::{spec_adaptive, spec_fixed, SharedMemoryPumpSchedulingConfig};
use super::SharedMemoryPumpError;

verus! {

/// A validated pump configuration.
#[derive(Debug, Clone, Copy, PartialEq, Eq)]
pub struct SharedMemoryPumpConfig {
    pub instance_id: u64,
    pub frames: u16,
    pub interval_micros: u64,
    pub scheduling: SharedMemoryPumpSchedulingConfig,
    pub max_queued_events: u32,
}

/// Parameters of `stream.sharedMemory.pump.start`.
#[derive(Debug, Clone, PartialEq, Eq)]
pub struct SharedMemoryPumpStartParams {
    pub instance_id: u64,
    pub frames: Option<u16>,
    pub interval_micros: Option<u64>,
    pub adaptive: bool,
    pub min_interval_micros: Option<u64>,
    pub max_interval_micros: Option<u64>,
    pub idle_backoff_micros: Option<u64>,
    pub max_queued_events: Option<u32>,
}

/// Parameters that name the instance of a pump.
#[derive(Debug, Clone, PartialEq, Eq)]
pub struct SharedMemoryPumpInstanceParams {
    pub instance_id: u64,
}

/// The duration of a block of `frames` frames at `sample_rate`, in whole microseconds,
/// and at least 1 (also for a zero sample rate).
pub open spec fn spec_default_interval_micros(frames: u16, sample_rate: u32) -> u64 {
    let micros: int = if sample_rate == 0 { 0 } else { (frames * 1_000_000) / (sample_rate as int) };
    if micros < 1 { 1 } else { micros as u64 }
}

pub fn default_interval_micros(frames: u16, sample_rate: u32) -> (micros: u64)
    ensures
        micros == spec_default_interval_micros(frames, sample_rate),
{
    let scaled: u64 = frames as u64 * 1_000_000;
    let micros: u64 = match scaled.checked_div(sample_rate as u64) {
        Some(value) => value,
        None => 0,
    };
    if micros < 1 {
        1
    } else {
        micros
    }
}

/// A zero interval option is rejected; other values pass through.
pub fn validate_interval_option(value: Option<u64>) -> (result: Result<Option<u64>, SharedMemoryPumpError>)
    ensures
        value == Some(0u64) ==> result matches Err(SharedMemoryPumpError::InvalidInterval),
        value != Some(0u64) ==> (result matches Ok(v) && v == value),
{
    match value {
        Some(0) => Err(SharedMemoryPumpError::InvalidInterval),
        value => Ok(value),
    }
}

/// The event queue bound: 1024 by default, and within `1..=65536`.
pub open spec fn spec_max_queued_events(value: Option<u32>) -> Result<u32, u32> {
    let requested = match value {
        Some(v) => v,
        None => DEFAULT_MAX_QUEUED_EVENTS,
    };
    if requested == 0 || requested > MAX_QUEUED_EVENTS_LIMIT {
        Err(requested)
    } else {
        Ok(requested)
    }
}

pub fn max_queued_events_from_params(value: Option<u32>) -> (result: Result<u32, SharedMemoryPumpError>)
    ensures
        match spec_max_queued_events(value) {
            Ok(v) => result == Ok::<u32, SharedMemoryPumpError>(v),
            Err(v) => result matches Err(SharedMemoryPumpError::InvalidMaxQueuedEvents { max_queued_events })
                && max_queued_events == v,
        },
{
    let requested = match value {
        Some(v) => v,
        None => DEFAULT_MAX_QUEUED_EVENTS,
    };
    if requested == 0 {
        return Err(SharedMemoryPumpError::InvalidMaxQueuedEvents { max_queued_events: 0 });
    }
    if requested > MAX_QUEUED_EVENTS_LIMIT {
        return Err(SharedMemoryPumpError::InvalidMaxQueuedEvents { max_queued_events: requested });
    }
    Ok(requested)
}

/// What the scheduling part of a start request yields: a fixed schedule unless adaptive
/// scheduling is asked for; then the window defaults to half and four times the interval
/// and the idle backoff to the interval; a zero bound or backoff is rejected, as is a
/// window whose minimum exceeds its maximum.
pub enum SchedulingOutcome {
    Config(SharedMemoryPumpSchedulingConfig),
    ZeroInterval,
    Window { min_micros: u64, max_micros: u64 },
}

pub open spec fn spec_scheduling(params: SharedMemoryPumpStartParams, frames: u16, interval_micros: u64) -> SchedulingOutcome {
    if !params.adaptive {
        SchedulingOutcome::Config(spec_fixed(interval_micros, frames))
    } else if params.min_interval_micros == Some(0u64) || params.max_interval_micros == Some(0u64) {
        SchedulingOutcome::ZeroInterval
    } else {
        let half: u64 = (interval_micros / 2) as u64;
        let min = match params.min_interval_micros {
            Some(v) => v,
            None => if half < 1 { 1 } else { half },
        };
        let quadruple: u64 = if interval_micros * 4 > u64::MAX { u64::MAX } else { (interval_micros * 4) as u64 };
        let max = match params.max_interval_micros {
            Some(v) => v,
            None => if quadruple < interval_micros { interval_micros } else { quadruple },
        };
        if min > max {
            SchedulingOutcome::Window { min_micros: min, max_micros: max }
        } else if params.idle_backoff_micros == Some(0u64) {
            SchedulingOutcome::ZeroInterval
        } else {
            let idle = match params.idle_backoff_micros {
                Some(v) => v,
                None => interval_micros,
            };
            SchedulingOutcome::Config(spec_adaptive(interval_micros, min, max, idle, frames))
        }
    }
}

pub open spec fn scheduling_result_matches(
    outcome: SchedulingOutcome,
    result: Result<SharedMemoryPumpSchedulingConfig, SharedMemoryPumpError>,
) -> bool {
    match outcome {
        SchedulingOutcome::Config(config) => result == Ok::<SharedMemoryPumpSchedulingConfig, SharedMemoryPumpError>(config),
        SchedulingOutcome::ZeroInterval => result matches Err(SharedMemoryPumpError::InvalidInterval),
        SchedulingOutcome::Window { min_micros, max_micros } => result matches Err(
            SharedMemoryPumpError::InvalidSchedulingWindow { min_micros: a, max_micros: b },
        ) && a == min_micros && b == max_micros,
    }
}

fn scheduling_config_from_params(params: &SharedMemoryPumpStartParams, frames: u16, interval_micros: u64) -> (result:
    Result<SharedMemoryPumpSchedulingConfig, SharedMemoryPumpError>)
    ensures
        scheduling_result_matches(spec_scheduling(*params, frames, interval_micros), result),
{
    if !params.adaptive {
        return Ok(SharedMemoryPumpSchedulingConfig::fixed(interval_micros, frames));
    }
    let min_option = validate_interval_option(params.min_interval_micros)?;
    let min_interval_micros = match min_option {
        Some(v) => v,
        None => {
            let half = interval_micros / 2;
            if half < 1 {
                1
            } else {
                half
            }
        },
    };
    let max_option = validate_interval_option(params.max_interval_micros)?;
    let max_interval_micros = match max_option {
        Some(v) => v,
        None => {
            let quadruple = match interval_micros.checked_mul(4) {
                Some(v) => v,
                None => u64::MAX,
            };
            if quadruple < interval_micros {
                interval_micros
            } else {
                quadruple
            }
        },
    };
    if min_interval_micros > max_interval_micros {
        return Err(
            SharedMemoryPumpError::InvalidSchedulingWindow {
                min_micros: min_interval_micros,
                max_micros: max_interval_micros,
            },
        );
    }
    let idle_option = validate_interval_option(params.idle_backoff_micros)?;
    let idle_backoff_micros = match idle_option {
        Some(v) => v,
        None => interval_micros,
    };
    Ok(
        SharedMemoryPumpSchedulingConfig::adaptive(
            interval_micros,
            min_interval_micros,
            max_interval_micros,
            idle_backoff_micros,
            frames,
        ),
    )
}

/// What validating a start request yields.
pub enum PumpConfigOutcome {
    Config(SharedMemoryPumpConfig),
    InvalidFrames { frames: u16, max_frames: u16 },
    InvalidInterval,
    InvalidSchedulingWindow { min_micros: u64, max_micros: u64 },
    InvalidMaxQueuedEvents { max_queued_events: u32 },
}

/// Frames default to the instance's block size and must be in `1..=max_block_frames`;
/// the interval defaults to one block's duration and must be non-zero; then the schedule
/// and the event queue bound are validated, in that order.
pub open spec fn spec_pump_config(params: SharedMemoryPumpStartParams, max_block_frames: u16, sample_rate: u32) -> PumpConfigOutcome {
    let frames = match params.frames {
        Some(f) => f,
        None => max_block_frames,
    };
    if frames == 0 || frames > max_block_frames {
        PumpConfigOutcome::InvalidFrames { frames, max_frames: max_block_frames }
    } else if params.interval_micros == Some(0u64) {
        PumpConfigOutcome::InvalidInterval
    } else {
        let interval = match params.interval_micros {
            Some(v) => v,
            None => spec_default_interval_micros(frames, sample_rate),
        };
        match spec_scheduling(params, frames, interval) {
            SchedulingOutcome::ZeroInterval => PumpConfigOutcome::InvalidInterval,
            SchedulingOutcome::Window { min_micros, max_micros } => PumpConfigOutcome::InvalidSchedulingWindow {
                min_micros,
                max_micros,
            },
            SchedulingOutcome::Config(scheduling) => match spec_max_queued_events(params.max_queued_events) {
                Err(v) => PumpConfigOutcome::InvalidMaxQueuedEvents { max_queued_events: v },
                Ok(max_queued_events) => PumpConfigOutcome::Config(
                    SharedMemoryPumpConfig {
                        instance_id: params.instance_id,
                        frames,
                        interval_micros: interval,
                        scheduling,
                        max_queued_events,
                    },
                ),
            },
        }
    }
}

pub open spec fn pump_config_result_matches(
    outcome: PumpConfigOutcome,
    result: Result<SharedMemoryPumpConfig, SharedMemoryPumpError>,
) -> bool {
    match outcome {
        PumpConfigOutcome::Config(config) => result == Ok::<SharedMemoryPumpConfig, SharedMemoryPumpError>(config),
        PumpConfigOutcome::InvalidFrames { frames, max_frames } => result matches Err(
            SharedMemoryPumpError::InvalidFrames { frames: a, max_frames: b },
        ) && a == frames && b == max_frames,
        PumpConfigOutcome::InvalidInterval => result matches Err(SharedMemoryPumpError::InvalidInterval),
        PumpConfigOutcome::InvalidSchedulingWindow { min_micros, max_micros } => result matches Err(
            SharedMemoryPumpError::InvalidSchedulingWindow { min_micros: a, max_micros: b },
        ) && a == min_micros && b == max_micros,
        PumpConfigOutcome::InvalidMaxQueuedEvents { max_queued_events } => result matches Err(
            SharedMemoryPumpError::InvalidMaxQueuedEvents { max_queued_events: a },
        ) && a == max_queued_events,
    }
}

/// Validates a pump start request against the instance's block size and sample rate.
pub fn pump_config_from_params(params: SharedMemoryPumpStartParams, max_block_frames: u16, sample_rate: u32) -> (result:
    Result<SharedMemoryPumpConfig, SharedMemoryPumpError>)
    ensures
        pump_config_result_matches(spec_pump_config(params, max_block_frames, sample_rate), result),
{
    let frames = match params.frames {
        Some(f) => f,
        None => max_block_frames,
    };
    if frames == 0 || frames > max_block_frames {
        return Err(SharedMemoryPumpError::InvalidFrames { frames, max_frames: max_block_frames });
    }
    let interval_micros = match params.interval_micros {
        Some(0) => {
            return Err(SharedMemoryPumpError::InvalidInterval);
        },
        Some(value) => value,
        None => default_interval_micros(frames, sample_rate),
    };
    let scheduling = scheduling_config_from_params(&params, frames, interval_micros)?;
    let max_queued_events = max_queued_events_from_params(params.max_queued_events)?;
    Ok(
        SharedMemoryPumpConfig {
            instance_id: params.instance_id,
            frames,
            interval_micros,
            scheduling,
            max_queued_events,
        },
    )
}

} // verus!
