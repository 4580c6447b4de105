use vstd::prelude::*;

use super::SharedMemoryPumpTickOutcome;

verus! {

#[derive(Debug, Clone, Copy, PartialEq, Eq)]
pub enum SharedMemoryPumpSchedulingMode {
    Fixed,
    Adaptive,
}

/// How the pump spaces its iterations.
#[derive(Debug, Clone, Copy, PartialEq, Eq)]
pub struct SharedMemoryPumpSchedulingConfig {
    pub mode: SharedMemoryPumpSchedulingMode,
    pub base_interval_micros: u64,
    pub min_interval_micros: u64,
    pub max_interval_micros: u64,
    pub idle_backoff_micros: u64,
    pub target_input_frames: u64,
    pub target_output_headroom_frames: u64,
}

/// Fill levels of the shared memory rings of a stream.
#[derive(Debug, Clone, Copy, PartialEq, Eq)]
pub struct SharedMemoryPumpRingStatus {
    pub input_channels: u16,
    pub output_channels: u16,
    pub input_readable_frames: u64,
    pub input_writable_frames: u64,
    pub output_readable_frames: u64,
    pub output_writable_frames: u64,
}

/// The schedule a pump runs on and where it stands.
#[derive(Debug, Clone, Copy, PartialEq, Eq)]
pub struct SharedMemoryPumpScheduleStatus {
    pub config: SharedMemoryPumpSchedulingConfig,
    pub current_interval_micros: u64,
    pub last_delay_micros: u64,
    pub last_ring_status: Option<SharedMemoryPumpRingStatus>,
}

/// Why an iteration was skipped before the worker was asked to process.
#[derive(Debug, Clone, Copy, PartialEq, Eq)]
pub struct SharedMemoryPumpPreflightSkip {
    pub outcome: SharedMemoryPumpTickOutcome,
    pub requested_frames: u64,
    pub available_frames: u64,
}

pub open spec fn spec_fixed(base_interval_micros: u64, frames: u16) -> SharedMemoryPumpSchedulingConfig {
    SharedMemoryPumpSchedulingConfig {
        mode: SharedMemoryPumpSchedulingMode::Fixed,
        base_interval_micros,
        min_interval_micros: base_interval_micros,
        max_interval_micros: base_interval_micros,
        idle_backoff_micros: base_interval_micros,
        target_input_frames: frames as u64,
        target_output_headroom_frames: frames as u64,
    }
}

pub open spec fn spec_adaptive(
    base_interval_micros: u64,
    min_interval_micros: u64,
    max_interval_micros: u64,
    idle_backoff_micros: u64,
    frames: u16,
) -> SharedMemoryPumpSchedulingConfig {
    SharedMemoryPumpSchedulingConfig {
        mode: SharedMemoryPumpSchedulingMode::Adaptive,
        base_interval_micros,
        min_interval_micros,
        max_interval_micros,
        idle_backoff_micros,
        target_input_frames: frames as u64,
        target_output_headroom_frames: frames as u64,
    }
}

pub open spec fn saturating_double(value: u64) -> int {
    if value * 2 > u64::MAX { u64::MAX as int } else { value * 2 }
}

fn saturating_double_exec(value: u64) -> (doubled: u64)
    ensures
        doubled == saturating_double(value),
{
    match value.checked_mul(2) {
        Some(doubled) => doubled,
        None => u64::MAX,
    }
}

/// The delay an adaptive pump wants after a successful iteration, read from the rings:
/// back off fully when the output has no headroom, use the base interval when there is
/// no input ring, back off idly when input is short, catch up at the minimum interval
/// when both rings have twice their target, and use the base interval otherwise.
pub open spec fn spec_delay_from_ring(
    config: SharedMemoryPumpSchedulingConfig,
    ring: Option<SharedMemoryPumpRingStatus>,
) -> u64 {
    match ring {
        None => config.base_interval_micros,
        Some(ring) => if ring.output_writable_frames < config.target_output_headroom_frames {
            config.max_interval_micros
        } else if ring.input_channels == 0 {
            config.base_interval_micros
        } else if ring.input_readable_frames < config.target_input_frames {
            config.idle_backoff_micros
        } else if ring.input_readable_frames >= saturating_double(config.target_input_frames)
            && ring.output_writable_frames >= saturating_double(config.target_output_headroom_frames) {
            config.min_interval_micros
        } else {
            config.base_interval_micros
        },
    }
}

pub open spec fn clamp(value: u64, low: u64, high: u64) -> u64 {
    if value < low {
        low
    } else if value > high {
        high
    } else {
        value
    }
}

/// The delay before the next iteration: the base interval for a fixed schedule; for an
/// adaptive one, the delay the outcome asks for, kept inside the interval window.
pub open spec fn spec_next_delay(
    config: SharedMemoryPumpSchedulingConfig,
    outcome: SharedMemoryPumpTickOutcome,
    ring: Option<SharedMemoryPumpRingStatus>,
) -> u64 {
    if config.mode == SharedMemoryPumpSchedulingMode::Fixed {
        config.base_interval_micros
    } else {
        let desired = match outcome {
            SharedMemoryPumpTickOutcome::InputUnderrun => config.idle_backoff_micros,
            SharedMemoryPumpTickOutcome::OutputBackpressure => config.max_interval_micros,
            SharedMemoryPumpTickOutcome::WorkerError => config.base_interval_micros,
            SharedMemoryPumpTickOutcome::Success => spec_delay_from_ring(config, ring),
        };
        clamp(desired, config.min_interval_micros, config.max_interval_micros)
    }
}

/// Whether an adaptive pump skips an iteration: when the output ring lacks headroom for
/// a block, or an instrument with inputs lacks a block of input.
pub open spec fn spec_preflight_skip(
    config: SharedMemoryPumpSchedulingConfig,
    ring: SharedMemoryPumpRingStatus,
) -> Option<SharedMemoryPumpPreflightSkip> {
    if config.mode == SharedMemoryPumpSchedulingMode::Fixed {
        None
    } else if ring.output_writable_frames < config.target_output_headroom_frames {
        Some(
            SharedMemoryPumpPreflightSkip {
                outcome: SharedMemoryPumpTickOutcome::OutputBackpressure,
                requested_frames: config.target_output_headroom_frames,
                available_frames: ring.output_writable_frames,
            },
        )
    } else if ring.input_channels > 0 && ring.input_readable_frames < config.target_input_frames {
        Some(
            SharedMemoryPumpPreflightSkip {
                outcome: SharedMemoryPumpTickOutcome::InputUnderrun,
                requested_frames: config.target_input_frames,
                available_frames: ring.input_readable_frames,
            },
        )
    } else {
        None
    }
}

impl SharedMemoryPumpSchedulingConfig {
    /// A schedule with one interval and block-sized targets.
    pub fn fixed(base_interval_micros: u64, frames: u16) -> (config: Self)
        ensures
            config == spec_fixed(base_interval_micros, frames),
    {
        SharedMemoryPumpSchedulingConfig {
            mode: SharedMemoryPumpSchedulingMode::Fixed,
            base_interval_micros,
            min_interval_micros: base_interval_micros,
            max_interval_micros: base_interval_micros,
            idle_backoff_micros: base_interval_micros,
            target_input_frames: frames as u64,
            target_output_headroom_frames: frames as u64,
        }
    }

    /// A schedule that adapts its interval to the ring fill levels.
    pub fn adaptive(
        base_interval_micros: u64,
        min_interval_micros: u64,
        max_interval_micros: u64,
        idle_backoff_micros: u64,
        frames: u16,
    ) -> (config: Self)
        ensures
            config == spec_adaptive(base_interval_micros, min_interval_micros, max_interval_micros, idle_backoff_micros, frames),
    {
        SharedMemoryPumpSchedulingConfig {
            mode: SharedMemoryPumpSchedulingMode::Adaptive,
            base_interval_micros,
            min_interval_micros,
            max_interval_micros,
            idle_backoff_micros,
            target_input_frames: frames as u64,
            target_output_headroom_frames: frames as u64,
        }
    }

    /// The delay before the next iteration. An adaptive schedule needs a window whose
    /// minimum does not exceed its maximum.
    pub fn next_delay_micros(self, outcome: SharedMemoryPumpTickOutcome, ring: Option<&SharedMemoryPumpRingStatus>) -> (delay: u64)
        requires
            self.mode == SharedMemoryPumpSchedulingMode::Adaptive ==> self.min_interval_micros <= self.max_interval_micros,
        ensures
            delay == spec_next_delay(self, outcome, match ring { Some(r) => Some(*r), None => None }),
    {
        if matches!(self.mode, SharedMemoryPumpSchedulingMode::Fixed) {
            return self.base_interval_micros;
        }
        let desired = match outcome {
            SharedMemoryPumpTickOutcome::InputUnderrun => self.idle_backoff_micros,
            SharedMemoryPumpTickOutcome::OutputBackpressure => self.max_interval_micros,
            SharedMemoryPumpTickOutcome::WorkerError => self.base_interval_micros,
            SharedMemoryPumpTickOutcome::Success => self.delay_from_ring(ring),
        };
        if desired < self.min_interval_micros {
            self.min_interval_micros
        } else if desired > self.max_interval_micros {
            self.max_interval_micros
        } else {
            desired
        }
    }

    /// Whether to skip the coming iteration, and why.
    pub fn preflight_skip(self, ring: &SharedMemoryPumpRingStatus) -> (skip: Option<SharedMemoryPumpPreflightSkip>)
        ensures
            skip == spec_preflight_skip(self, *ring),
    {
        if matches!(self.mode, SharedMemoryPumpSchedulingMode::Fixed) {
            return None;
        }
        if ring.output_writable_frames < self.target_output_headroom_frames {
            return Some(
                SharedMemoryPumpPreflightSkip {
                    outcome: SharedMemoryPumpTickOutcome::OutputBackpressure,
                    requested_frames: self.target_output_headroom_frames,
                    available_frames: ring.output_writable_frames,
                },
            );
        }
        if ring.input_channels > 0 && ring.input_readable_frames < self.target_input_frames {
            return Some(
                SharedMemoryPumpPreflightSkip {
                    outcome: SharedMemoryPumpTickOutcome::InputUnderrun,
                    requested_frames: self.target_input_frames,
                    available_frames: ring.input_readable_frames,
                },
            );
        }
        None
    }

    fn delay_from_ring(self, ring: Option<&SharedMemoryPumpRingStatus>) -> (delay: u64)
        ensures
            delay == spec_delay_from_ring(self, match ring { Some(r) => Some(*r), None => None }),
    {
        let ring = match ring {
            None => {
                return self.base_interval_micros;
            },
            Some(ring) => ring,
        };
        if ring.output_writable_frames < self.target_output_headroom_frames {
            return self.max_interval_micros;
        }
        if ring.input_channels == 0 {
            return self.base_interval_micros;
        }
        if ring.input_readable_frames < self.target_input_frames {
            return self.idle_backoff_micros;
        }
        if ring.input_readable_frames >= saturating_double_exec(self.target_input_frames)
            && ring.output_writable_frames >= saturating_double_exec(self.target_output_headroom_frames) {
            return self.min_interval_micros;
        }
        self.base_interval_micros
    }
}

/// After a successful iteration of an adaptive pump whose rings hold at least a block of
/// input and of output headroom, the pump catches up at the minimum interval only when
/// both rings hold at least two blocks; with less than two blocks of input it keeps the
/// base interval (for a window that holds the base interval).
pub proof fn lemma_adaptive_catch_up_needs_two_blocks(
    config: SharedMemoryPumpSchedulingConfig,
    ring: SharedMemoryPumpRingStatus,
)
    requires
        config.mode == SharedMemoryPumpSchedulingMode::Adaptive,
        config.min_interval_micros <= config.base_interval_micros <= config.max_interval_micros,
        2 * config.target_input_frames <= u64::MAX,
        2 * config.target_output_headroom_frames <= u64::MAX,
        ring.input_channels > 0,
        ring.input_readable_frames >= config.target_input_frames,
        ring.output_writable_frames >= config.target_output_headroom_frames,
    ensures
        ring.input_readable_frames < 2 * config.target_input_frames ==> spec_next_delay(
            config,
            SharedMemoryPumpTickOutcome::Success,
            Some(ring),
        ) == config.base_interval_micros,
        ring.output_writable_frames < 2 * config.target_output_headroom_frames ==> spec_next_delay(
            config,
            SharedMemoryPumpTickOutcome::Success,
            Some(ring),
        ) == config.base_interval_micros,
        ring.input_readable_frames >= 2 * config.target_input_frames && ring.output_writable_frames >= 2
            * config.target_output_headroom_frames ==> spec_next_delay(
            config,
            SharedMemoryPumpTickOutcome::Success,
            Some(ring),
        ) == config.min_interval_micros,
{
}

} // verus!
