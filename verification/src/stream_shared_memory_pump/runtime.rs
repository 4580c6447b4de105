use serde_json::Value;
use vstd::prelude::*;

use crate::json::{json_member_u64, json_u64_member};
use crate::metrics::{bump, bump_by, BridgeMetrics, MetricsCounters};
use crate::text::{decimal, push_decimal, push_str, string_view};
use crate::rpc::RpcData;
use crate::worker_supervisor_error::{spec_shared_memory_error_reason, WorkerSupervisorError};

use super::config::SharedMemoryPumpConfig;
use super::error::{spec_from_queue_error, SharedMemoryPumpError};
use super::event_queue::{
    drain_effect, enqueue_effect, sat_add, total_events, zero_queue_counters, QueueCounters,
    SharedMemoryPumpClearEventsResult, SharedMemoryPumpEnqueueEventsParams,
    SharedMemoryPumpEnqueueEventsResult, SharedMemoryPumpEventDrain,
    SharedMemoryPumpEventOverflowPolicy, SharedMemoryPumpEventQueue,
    SharedMemoryPumpEventQueueStatus,
};
use super::scheduler::{
    SharedMemoryPumpPreflightSkip, SharedMemoryPumpRingStatus, SharedMemoryPumpScheduleStatus,
};
use super::SharedMemoryPumpTickOutcome;

verus! {

/// What the pump knows of the error of its last failed iteration.
#[derive(Debug)]
pub enum SharedMemoryPumpLastErrorData {
    /// The iteration was skipped before the worker was asked.
    Preflight {
        reason: String,
        instance_id: u64,
        frames: u16,
        requested_frames: u64,
        available_frames: u64,
    },
    /// The data of the worker's error.
    Worker(RpcData),
}

/// The error of the last failed iteration, as the status reports it.
#[derive(Debug)]
pub struct SharedMemoryPumpLastError {
    pub code: i64,
    pub message: String,
    pub data: SharedMemoryPumpLastErrorData,
}

/// Two error data that say the same: equal preflight details, or worker data with the same
/// members and classification.
pub open spec fn same_error_data(a: SharedMemoryPumpLastErrorData, b: SharedMemoryPumpLastErrorData) -> bool {
    match (a, b) {
        (SharedMemoryPumpLastErrorData::Worker(x), SharedMemoryPumpLastErrorData::Worker(y)) => x.entries()
            == y.entries() && x.classification == y.classification,
        (SharedMemoryPumpLastErrorData::Preflight { .. }, SharedMemoryPumpLastErrorData::Preflight { .. }) => a == b,
        _ => false,
    }
}

pub open spec fn same_last_error(a: Option<SharedMemoryPumpLastError>, b: Option<SharedMemoryPumpLastError>) -> bool {
    match (a, b) {
        (Some(x), Some(y)) => x.code == y.code && x.message@ == y.message@ && same_error_data(x.data, y.data),
        (None, None) => true,
        _ => false,
    }
}

impl SharedMemoryPumpLastErrorData {
    /// A copy that says the same.
    pub fn copied(&self) -> (copy: Self)
        ensures
            same_error_data(copy, *self),
    {
        match self {
            SharedMemoryPumpLastErrorData::Preflight {
                reason,
                instance_id,
                frames,
                requested_frames,
                available_frames,
            } => SharedMemoryPumpLastErrorData::Preflight {
                reason: reason.clone(),
                instance_id: *instance_id,
                frames: *frames,
                requested_frames: *requested_frames,
                available_frames: *available_frames,
            },
            SharedMemoryPumpLastErrorData::Worker(data) => SharedMemoryPumpLastErrorData::Worker(data.copied()),
        }
    }
}

impl SharedMemoryPumpLastError {
    /// A copy that says the same.
    pub fn copied(&self) -> (copy: Self)
        ensures
            same_last_error(Some(copy), Some(*self)),
    {
        SharedMemoryPumpLastError { code: self.code, message: self.message.clone(), data: self.data.copied() }
    }
}

/// What a pump reports of itself.
#[derive(Debug)]
pub struct SharedMemoryPumpStatus {
    pub running: bool,
    pub task_finished: bool,
    pub uptime_ms: u64,
    pub config: SharedMemoryPumpConfig,
    pub iterations: u64,
    pub successes: u64,
    pub failures: u64,
    pub overruns: u64,
    pub input_underruns: u64,
    pub output_backpressure: u64,
    pub worker_errors: u64,
    pub last_process_micros: u64,
    pub max_process_micros: u64,
    pub last_overrun_micros: Option<u64>,
    pub last_outcome: Option<SharedMemoryPumpTickOutcome>,
    pub last_success_frames: Option<u64>,
    pub preflight_skips: u64,
    pub schedule: SharedMemoryPumpScheduleStatus,
    pub events: SharedMemoryPumpEventQueueStatus,
    pub last_error: Option<SharedMemoryPumpLastError>,
}

/// The counters and last observations of a running pump, and its event queue.
#[derive(Debug)]
pub struct SharedMemoryPumpRuntime {
    pub iterations: u64,
    pub successes: u64,
    pub failures: u64,
    pub preflight_skips: u64,
    pub overruns: u64,
    pub input_underruns: u64,
    pub output_backpressure: u64,
    pub worker_errors: u64,
    pub last_process_micros: u64,
    pub max_process_micros: u64,
    pub last_overrun_micros: u64,
    pub last_outcome: u64,
    pub last_success_frames: u64,
    pub current_interval_micros: u64,
    pub last_delay_micros: u64,
    pub last_ring_status: Option<SharedMemoryPumpRingStatus>,
    pub last_error: Option<SharedMemoryPumpLastError>,
    pub event_queue: SharedMemoryPumpEventQueue,
}

/// An empty queue that holds at most `max_queued_events` events.
pub open spec fn fresh_queue(queue: SharedMemoryPumpEventQueue, max_queued_events: u32) -> bool {
    &&& queue.wf()
    &&& queue.pending() == Seq::<super::event_queue::QueuedBatch>::empty()
    &&& queue.max_queued_events() == max_queued_events
    &&& queue.next_sequence() == 1
    &&& queue.counters() == zero_queue_counters()
}

/// A runtime that has not run yet, with the given interval and queue size.
pub open spec fn fresh_runtime(
    runtime: SharedMemoryPumpRuntime,
    initial_interval_micros: u64,
    max_queued_events: u32,
) -> bool {
    &&& runtime.iterations == 0
    &&& runtime.successes == 0
    &&& runtime.failures == 0
    &&& runtime.preflight_skips == 0
    &&& runtime.overruns == 0
    &&& runtime.input_underruns == 0
    &&& runtime.output_backpressure == 0
    &&& runtime.worker_errors == 0
    &&& runtime.last_process_micros == 0
    &&& runtime.max_process_micros == 0
    &&& runtime.last_overrun_micros == 0
    &&& runtime.last_outcome == 0
    &&& runtime.last_success_frames == 0
    &&& runtime.current_interval_micros == initial_interval_micros
    &&& runtime.last_delay_micros == initial_interval_micros
    &&& runtime.last_ring_status == None::<SharedMemoryPumpRingStatus>
    &&& runtime.last_error == None::<SharedMemoryPumpLastError>
    &&& fresh_queue(runtime.event_queue, max_queued_events)
}

/// The number under which an outcome is kept.
pub open spec fn spec_outcome_code(outcome: SharedMemoryPumpTickOutcome) -> u64 {
    match outcome {
        SharedMemoryPumpTickOutcome::Success => 1,
        SharedMemoryPumpTickOutcome::InputUnderrun => 2,
        SharedMemoryPumpTickOutcome::OutputBackpressure => 3,
        SharedMemoryPumpTickOutcome::WorkerError => 4,
    }
}

pub open spec fn spec_outcome_from_code(code: u64) -> Option<SharedMemoryPumpTickOutcome> {
    if code == 1 {
        Some(SharedMemoryPumpTickOutcome::Success)
    } else if code == 2 {
        Some(SharedMemoryPumpTickOutcome::InputUnderrun)
    } else if code == 3 {
        Some(SharedMemoryPumpTickOutcome::OutputBackpressure)
    } else if code == 4 {
        Some(SharedMemoryPumpTickOutcome::WorkerError)
    } else {
        None
    }
}

pub fn outcome_code(outcome: SharedMemoryPumpTickOutcome) -> (code: u64)
    ensures
        code == spec_outcome_code(outcome),
{
    match outcome {
        SharedMemoryPumpTickOutcome::Success => 1,
        SharedMemoryPumpTickOutcome::InputUnderrun => 2,
        SharedMemoryPumpTickOutcome::OutputBackpressure => 3,
        SharedMemoryPumpTickOutcome::WorkerError => 4,
    }
}

pub fn outcome_from_code(code: u64) -> (outcome: Option<SharedMemoryPumpTickOutcome>)
    ensures
        outcome == spec_outcome_from_code(code),
{
    match code {
        1 => Some(SharedMemoryPumpTickOutcome::Success),
        2 => Some(SharedMemoryPumpTickOutcome::InputUnderrun),
        3 => Some(SharedMemoryPumpTickOutcome::OutputBackpressure),
        4 => Some(SharedMemoryPumpTickOutcome::WorkerError),
        _ => None,
    }
}

/// Every outcome is read back from the number it is kept under, and the number an unset
/// runtime holds reads back as no outcome.
pub proof fn lemma_outcome_code_round_trip(outcome: SharedMemoryPumpTickOutcome)
    ensures
        spec_outcome_from_code(spec_outcome_code(outcome)) == Some(outcome),
        spec_outcome_from_code(0) == None::<SharedMemoryPumpTickOutcome>,
{
}

impl SharedMemoryPumpRuntime {
    pub open spec fn wf(&self) -> bool {
        self.event_queue.wf()
    }

    pub fn new(initial_interval_micros: u64, max_queued_events: u32) -> (runtime: Self)
        ensures
            runtime.wf(),
            fresh_runtime(runtime, initial_interval_micros, max_queued_events),
    {
        SharedMemoryPumpRuntime {
            iterations: 0,
            successes: 0,
            failures: 0,
            preflight_skips: 0,
            overruns: 0,
            input_underruns: 0,
            output_backpressure: 0,
            worker_errors: 0,
            last_process_micros: 0,
            max_process_micros: 0,
            last_overrun_micros: 0,
            last_outcome: 0,
            last_success_frames: 0,
            current_interval_micros: initial_interval_micros,
            last_delay_micros: initial_interval_micros,
            last_ring_status: None,
            last_error: None,
            event_queue: SharedMemoryPumpEventQueue::new(max_queued_events),
        }
    }

    /// Keeps the delay chosen for the next iteration and the ring fill it was chosen from.
    pub fn record_schedule(&mut self, delay_micros: u64, ring_status: Option<SharedMemoryPumpRingStatus>)
        ensures
            *final(self) == (SharedMemoryPumpRuntime {
                current_interval_micros: delay_micros,
                last_delay_micros: delay_micros,
                last_ring_status: ring_status,
                ..*old(self)
            }),
    {
        self.current_interval_micros = delay_micros;
        self.last_delay_micros = delay_micros;
        self.last_ring_status = ring_status;
    }

    /// Queues a batch of events for `target_iteration`; a refusal comes back as the pump's error.
    pub fn enqueue_events(
        &mut self,
        target_iteration: u64,
        midi_events: Vec<Value>,
        parameter_events: Vec<Value>,
        overflow_policy: SharedMemoryPumpEventOverflowPolicy,
    ) -> (result: Result<SharedMemoryPumpEnqueueEventsResult, SharedMemoryPumpError>)
        requires
            old(self).wf(),
        ensures
            final(self).wf(),
            *final(self) == (SharedMemoryPumpRuntime { event_queue: final(self).event_queue, ..*old(self) }),
            match result {
                Ok(accepted) => enqueue_effect(
                    old(self).event_queue,
                    final(self).event_queue,
                    target_iteration,
                    midi_events@,
                    parameter_events@,
                    overflow_policy,
                    Ok(accepted),
                ),
                Err(error) => exists|refusal| {
                    &&& enqueue_effect(
                        old(self).event_queue,
                        final(self).event_queue,
                        target_iteration,
                        midi_events@,
                        parameter_events@,
                        overflow_policy,
                        Err(refusal),
                    )
                    &&& error == spec_from_queue_error(refusal)
                },
            },
    {
        match self.event_queue.enqueue(target_iteration, midi_events, parameter_events, overflow_policy) {
            Ok(accepted) => Ok(accepted),
            Err(refusal) => Err(SharedMemoryPumpError::from(refusal)),
        }
    }

    /// Takes the events due at `iteration` from the queue.
    pub fn drain_events_for_iteration(&mut self, iteration: u64) -> (drain: SharedMemoryPumpEventDrain)
        requires
            old(self).wf(),
        ensures
            final(self).wf(),
            *final(self) == (SharedMemoryPumpRuntime { event_queue: final(self).event_queue, ..*old(self) }),
            drain_effect(old(self).event_queue, final(self).event_queue, iteration, drain),
            final(self).event_queue.max_queued_events() == old(self).event_queue.max_queued_events(),
            final(self).event_queue.next_sequence() == old(self).event_queue.next_sequence(),
    {
        self.event_queue.drain_ready(iteration)
    }

    /// Empties the queue and gives how many batches and events went.
    pub fn clear_events(&mut self) -> (cleared: (u64, u64))
        requires
            old(self).wf(),
        ensures
            final(self).wf(),
            *final(self) == (SharedMemoryPumpRuntime { event_queue: final(self).event_queue, ..*old(self) }),
            cleared == (
                old(self).event_queue.pending().len() as u64,
                total_events(old(self).event_queue.pending()) as u64,
            ),
            final(self).event_queue.pending() == Seq::<super::event_queue::QueuedBatch>::empty(),
            final(self).event_queue.max_queued_events() == old(self).event_queue.max_queued_events(),
            final(self).event_queue.next_sequence() == old(self).event_queue.next_sequence(),
            final(self).event_queue.counters() == (QueueCounters {
                cleared_batches: sat_add(
                    old(self).event_queue.counters().cleared_batches,
                    old(self).event_queue.pending().len() as int,
                ),
                cleared_events: sat_add(
                    old(self).event_queue.counters().cleared_events,
                    total_events(old(self).event_queue.pending()) as int,
                ),
                ..old(self).event_queue.counters()
            }),
    {
        self.event_queue.clear()
    }

    pub fn event_queue_status(&self) -> (status: SharedMemoryPumpEventQueueStatus)
        requires
            self.wf(),
        ensures
            status == self.event_queue.spec_status_of(),
    {
        self.event_queue.status()
    }
}

impl Default for SharedMemoryPumpRuntime {
    /// A runtime with a zero interval and a queue that holds nothing.
    fn default() -> (runtime: Self)
        ensures
            runtime.wf(),
            fresh_runtime(runtime, 0, 0),
    {
        SharedMemoryPumpRuntime::new(0, 0)
    }
}


/// The runtime after an iteration ended with `outcome`: the outcome is kept and the counter
/// of a failed outcome goes up.
pub open spec fn outcome_runtime(
    before: SharedMemoryPumpRuntime,
    outcome: SharedMemoryPumpTickOutcome,
) -> SharedMemoryPumpRuntime {
    SharedMemoryPumpRuntime {
        last_outcome: spec_outcome_code(outcome),
        input_underruns: if outcome == SharedMemoryPumpTickOutcome::InputUnderrun {
            bump(before.input_underruns)
        } else {
            before.input_underruns
        },
        output_backpressure: if outcome == SharedMemoryPumpTickOutcome::OutputBackpressure {
            bump(before.output_backpressure)
        } else {
            before.output_backpressure
        },
        worker_errors: if outcome == SharedMemoryPumpTickOutcome::WorkerError {
            bump(before.worker_errors)
        } else {
            before.worker_errors
        },
        ..before
    }
}

/// The bridge counters after an iteration ended with `outcome`.
pub open spec fn outcome_counters(before: MetricsCounters, outcome: SharedMemoryPumpTickOutcome) -> MetricsCounters {
    MetricsCounters {
        shared_memory_pump_input_underruns: if outcome == SharedMemoryPumpTickOutcome::InputUnderrun {
            bump(before.shared_memory_pump_input_underruns)
        } else {
            before.shared_memory_pump_input_underruns
        },
        shared_memory_pump_output_backpressure: if outcome == SharedMemoryPumpTickOutcome::OutputBackpressure {
            bump(before.shared_memory_pump_output_backpressure)
        } else {
            before.shared_memory_pump_output_backpressure
        },
        shared_memory_pump_worker_errors: if outcome == SharedMemoryPumpTickOutcome::WorkerError {
            bump(before.shared_memory_pump_worker_errors)
        } else {
            before.shared_memory_pump_worker_errors
        },
        ..before
    }
}

/// Keeps the outcome of an iteration and counts it when it is a failure.
pub fn record_tick_outcome(
    runtime: &mut SharedMemoryPumpRuntime,
    metrics: &mut BridgeMetrics,
    outcome: SharedMemoryPumpTickOutcome,
)
    requires
        old(metrics).wf(),
    ensures
        final(metrics).wf(),
        *final(runtime) == outcome_runtime(*old(runtime), outcome),
        final(metrics).counters() == outcome_counters(old(metrics).counters(), outcome),
        final(metrics).histograms() == old(metrics).histograms(),
{
    runtime.last_outcome = outcome_code(outcome);
    match outcome {
        SharedMemoryPumpTickOutcome::Success => {},
        SharedMemoryPumpTickOutcome::InputUnderrun => {
            runtime.input_underruns = runtime.input_underruns.wrapping_add(1);
            metrics.increment_shared_memory_pump_input_underruns();
        },
        SharedMemoryPumpTickOutcome::OutputBackpressure => {
            runtime.output_backpressure = runtime.output_backpressure.wrapping_add(1);
            metrics.increment_shared_memory_pump_output_backpressure();
        },
        SharedMemoryPumpTickOutcome::WorkerError => {
            runtime.worker_errors = runtime.worker_errors.wrapping_add(1);
            metrics.increment_shared_memory_pump_worker_errors();
        },
    }
}

/// The runtime after an iteration that took `latency_us`: the latency and the largest one are
/// kept, and a latency over the configured interval counts as an overrun by the excess.
pub open spec fn timing_runtime(
    before: SharedMemoryPumpRuntime,
    config: SharedMemoryPumpConfig,
    latency_us: u64,
) -> SharedMemoryPumpRuntime {
    SharedMemoryPumpRuntime {
        last_process_micros: latency_us,
        max_process_micros: if latency_us > before.max_process_micros {
            latency_us
        } else {
            before.max_process_micros
        },
        overruns: if latency_us > config.interval_micros { bump(before.overruns) } else { before.overruns },
        last_overrun_micros: if latency_us > config.interval_micros {
            (latency_us - config.interval_micros) as u64
        } else {
            before.last_overrun_micros
        },
        ..before
    }
}

pub open spec fn timing_counters(before: MetricsCounters, config: SharedMemoryPumpConfig, latency_us: u64) -> MetricsCounters {
    MetricsCounters {
        shared_memory_pump_overruns: if latency_us > config.interval_micros {
            bump(before.shared_memory_pump_overruns)
        } else {
            before.shared_memory_pump_overruns
        },
        ..before
    }
}

/// Keeps how long an iteration took, and counts an overrun when it took longer than the interval.
pub fn record_process_timing(
    config: SharedMemoryPumpConfig,
    metrics: &mut BridgeMetrics,
    runtime: &mut SharedMemoryPumpRuntime,
    latency_us: u64,
)
    requires
        old(metrics).wf(),
    ensures
        final(metrics).wf(),
        *final(runtime) == timing_runtime(*old(runtime), config, latency_us),
        final(metrics).counters() == timing_counters(old(metrics).counters(), config, latency_us),
        final(metrics).histograms() == old(metrics).histograms(),
{
    runtime.last_process_micros = latency_us;
    update_max(&mut runtime.max_process_micros, latency_us);
    if latency_us > config.interval_micros {
        runtime.overruns = runtime.overruns.wrapping_add(1);
        runtime.last_overrun_micros = latency_us - config.interval_micros;
        metrics.increment_shared_memory_pump_overruns();
    }
}

/// Raises a running maximum to `candidate` when the candidate is larger.
pub fn update_max(value: &mut u64, candidate: u64)
    ensures
        *final(value) == if candidate > *old(value) {
            candidate
        } else {
            *old(value)
        },
{
    if candidate > *value {
        *value = candidate;
    }
}

/// The reason a preflight skip reports.
pub open spec fn spec_preflight_reason(outcome: SharedMemoryPumpTickOutcome) -> Seq<char> {
    match outcome {
        SharedMemoryPumpTickOutcome::InputUnderrun => "input-underrun"@,
        SharedMemoryPumpTickOutcome::OutputBackpressure => "output-backpressure"@,
        _ => "preflight-skip"@,
    }
}

pub open spec fn spec_preflight_message(skip: SharedMemoryPumpPreflightSkip) -> Seq<char> {
    "shared memory pump preflight skipped "@ + spec_preflight_reason(skip.outcome) + ": requested "@ + decimal(
        skip.requested_frames as nat,
    ) + ", available "@ + decimal(skip.available_frames as nat)
}

/// The error a skipped iteration leaves: code 4094, a message that names the reason and the
/// frame counts, and the pump's instance and block size.
pub open spec fn is_preflight_error(
    error: SharedMemoryPumpLastError,
    config: SharedMemoryPumpConfig,
    skip: SharedMemoryPumpPreflightSkip,
) -> bool {
    &&& error.code == 4094
    &&& error.message@ == spec_preflight_message(skip)
    &&& error.data matches SharedMemoryPumpLastErrorData::Preflight {
        reason,
        instance_id,
        frames,
        requested_frames,
        available_frames,
    }
    &&& reason@ == spec_preflight_reason(skip.outcome)
    &&& instance_id == config.instance_id
    &&& frames == config.frames
    &&& requested_frames == skip.requested_frames
    &&& available_frames == skip.available_frames
}

fn preflight_reason(outcome: SharedMemoryPumpTickOutcome) -> (reason: String)
    ensures
        reason@ == spec_preflight_reason(outcome),
{
    match outcome {
        SharedMemoryPumpTickOutcome::InputUnderrun => String::from_str("input-underrun"),
        SharedMemoryPumpTickOutcome::OutputBackpressure => String::from_str("output-backpressure"),
        _ => String::from_str("preflight-skip"),
    }
}

/// The error that a skipped iteration leaves for the status.
pub fn preflight_error(config: SharedMemoryPumpConfig, skip: SharedMemoryPumpPreflightSkip) -> (error:
    SharedMemoryPumpLastError)
    ensures
        is_preflight_error(error, config, skip),
{
    let reason = preflight_reason(skip.outcome);
    let mut message = String::from_str("shared memory pump preflight skipped ");
    push_str(&mut message, reason.as_str());
    push_str(&mut message, ": requested ");
    push_decimal(&mut message, skip.requested_frames as u128);
    push_str(&mut message, ", available ");
    push_decimal(&mut message, skip.available_frames as u128);
    SharedMemoryPumpLastError {
        code: 4094,
        message,
        data: SharedMemoryPumpLastErrorData::Preflight {
            reason,
            instance_id: config.instance_id,
            frames: config.frames,
            requested_frames: skip.requested_frames,
            available_frames: skip.available_frames,
        },
    }
}

/// What a skipped iteration does: it counts as a failure and a preflight skip, its outcome is
/// kept and counted, and its error is left for the status.
pub open spec fn preflight_skip_effect(
    before: SharedMemoryPumpRuntime,
    after: SharedMemoryPumpRuntime,
    counters_before: MetricsCounters,
    counters_after: MetricsCounters,
    config: SharedMemoryPumpConfig,
    skip: SharedMemoryPumpPreflightSkip,
) -> bool {
    &&& after == (SharedMemoryPumpRuntime {
        failures: bump(before.failures),
        preflight_skips: bump(before.preflight_skips),
        last_error: after.last_error,
        ..outcome_runtime(before, skip.outcome)
    })
    &&& after.last_error matches Some(error) && is_preflight_error(error, config, skip)
    &&& counters_after == outcome_counters(
        MetricsCounters {
            shared_memory_pump_preflight_skips: bump(counters_before.shared_memory_pump_preflight_skips),
            ..counters_before
        },
        skip.outcome,
    )
}

/// Counts a skipped iteration as a failure and a preflight skip, keeps its outcome, and
/// leaves its error for the status.
pub fn record_preflight_skip(
    config: SharedMemoryPumpConfig,
    metrics: &mut BridgeMetrics,
    runtime: &mut SharedMemoryPumpRuntime,
    skip: SharedMemoryPumpPreflightSkip,
)
    requires
        old(metrics).wf(),
    ensures
        final(metrics).wf(),
        preflight_skip_effect(*old(runtime), *final(runtime), old(metrics).counters(), final(metrics).counters(), config, skip),
        final(metrics).histograms() == old(metrics).histograms(),
{
    runtime.failures = runtime.failures.wrapping_add(1);
    runtime.preflight_skips = runtime.preflight_skips.wrapping_add(1);
    metrics.increment_shared_memory_pump_preflight_skips();
    record_tick_outcome(runtime, metrics, skip.outcome);
    runtime.last_error = Some(preflight_error(config, skip));
}


/// The iteration a batch is for: the explicit target, or the current iteration plus the
/// delay (plus one without either), saturating; both at once is an error.
pub open spec fn spec_event_target_iteration(
    current_iteration: u64,
    target_iteration: Option<u64>,
    delay_iterations: Option<u64>,
) -> Result<u64, SharedMemoryPumpError> {
    match (target_iteration, delay_iterations) {
        (Some(_), Some(_)) => Err(SharedMemoryPumpError::InvalidEventTarget),
        (Some(target), None) => Ok(target),
        (None, Some(delay)) => Ok(sat_add(current_iteration, delay as int)),
        (None, None) => Ok(sat_add(current_iteration, 1)),
    }
}

pub fn event_target_iteration(
    current_iteration: u64,
    target_iteration: Option<u64>,
    delay_iterations: Option<u64>,
) -> (result: Result<u64, SharedMemoryPumpError>)
    ensures
        result == spec_event_target_iteration(current_iteration, target_iteration, delay_iterations),
{
    match (target_iteration, delay_iterations) {
        (Some(_), Some(_)) => Err(SharedMemoryPumpError::InvalidEventTarget),
        (Some(target), None) => Ok(target),
        (None, Some(delay)) => Ok(current_iteration.saturating_add(delay)),
        (None, None) => Ok(current_iteration.saturating_add(1)),
    }
}

/// Queues the events of an enqueue request on a running pump: the batch goes to the
/// iteration the request names, the answer carries the pump's instance, and the bridge
/// counts what was queued and dropped.
pub fn enqueue_pump_events(
    runtime: &mut SharedMemoryPumpRuntime,
    metrics: &mut BridgeMetrics,
    params: SharedMemoryPumpEnqueueEventsParams,
) -> (result: Result<SharedMemoryPumpEnqueueEventsResult, SharedMemoryPumpError>)
    requires
        old(runtime).wf(),
        old(metrics).wf(),
    ensures
        final(runtime).wf(),
        final(metrics).wf(),
        final(metrics).histograms() == old(metrics).histograms(),
        *final(runtime) == (SharedMemoryPumpRuntime { event_queue: final(runtime).event_queue, ..*old(runtime) }),
        ({
            let target = spec_event_target_iteration(
                old(runtime).iterations,
                params.target_iteration,
                params.delay_iterations,
            );
            match target {
                Err(error) => {
                    &&& result == Err::<SharedMemoryPumpEnqueueEventsResult, SharedMemoryPumpError>(error)
                    &&& final(runtime).event_queue == old(runtime).event_queue
                    &&& final(metrics).counters() == old(metrics).counters()
                },
                Ok(target_iteration) => match result {
                    Ok(accepted) => {
                        &&& enqueue_effect(
                            old(runtime).event_queue,
                            final(runtime).event_queue,
                            target_iteration,
                            params.midi_events@,
                            params.parameter_events@,
                            params.overflow_policy,
                            Ok(SharedMemoryPumpEnqueueEventsResult { instance_id: 0, ..accepted }),
                        )
                        &&& accepted.instance_id == params.instance_id
                        &&& final(metrics).counters() == (MetricsCounters {
                            shared_memory_pump_events_enqueued: bump_by(
                                old(metrics).counters().shared_memory_pump_events_enqueued,
                                accepted.queued_events,
                            ),
                            shared_memory_pump_events_dropped: if accepted.dropped_events > 0 {
                                bump_by(
                                    old(metrics).counters().shared_memory_pump_events_dropped,
                                    accepted.dropped_events,
                                )
                            } else {
                                old(metrics).counters().shared_memory_pump_events_dropped
                            },
                            ..old(metrics).counters()
                        })
                    },
                    Err(error) => {
                        &&& exists|refusal| {
                            &&& enqueue_effect(
                                old(runtime).event_queue,
                                final(runtime).event_queue,
                                target_iteration,
                                params.midi_events@,
                                params.parameter_events@,
                                params.overflow_policy,
                                Err(refusal),
                            )
                            &&& error == spec_from_queue_error(refusal)
                        }
                        &&& final(metrics).counters() == old(metrics).counters()
                    },
                },
            }
        }),
{
    let target_iteration = match event_target_iteration(
        runtime.iterations,
        params.target_iteration,
        params.delay_iterations,
    ) {
        Ok(target) => target,
        Err(error) => {
            return Err(error);
        },
    };
    let mut accepted = match runtime.enqueue_events(
        target_iteration,
        params.midi_events,
        params.parameter_events,
        params.overflow_policy,
    ) {
        Ok(accepted) => accepted,
        Err(error) => {
            return Err(error);
        },
    };
    accepted.instance_id = params.instance_id;
    metrics.record_shared_memory_pump_events_enqueued(accepted.queued_events);
    if accepted.dropped_events > 0 {
        metrics.record_shared_memory_pump_events_dropped(accepted.dropped_events);
    }
    Ok(accepted)
}

/// Clears the event queue of a running pump, counts what was cleared, and answers with the
/// queue's new status.
pub fn clear_pump_events(
    runtime: &mut SharedMemoryPumpRuntime,
    metrics: &mut BridgeMetrics,
    instance_id: u64,
) -> (cleared: SharedMemoryPumpClearEventsResult)
    requires
        old(runtime).wf(),
        old(metrics).wf(),
    ensures
        final(runtime).wf(),
        final(metrics).wf(),
        final(metrics).histograms() == old(metrics).histograms(),
        *final(runtime) == (SharedMemoryPumpRuntime { event_queue: final(runtime).event_queue, ..*old(runtime) }),
        final(runtime).event_queue.pending() == Seq::<super::event_queue::QueuedBatch>::empty(),
        final(runtime).event_queue.max_queued_events() == old(runtime).event_queue.max_queued_events(),
        final(runtime).event_queue.next_sequence() == old(runtime).event_queue.next_sequence(),
        final(runtime).event_queue.counters() == (QueueCounters {
            cleared_batches: sat_add(
                old(runtime).event_queue.counters().cleared_batches,
                old(runtime).event_queue.pending().len() as int,
            ),
            cleared_events: sat_add(
                old(runtime).event_queue.counters().cleared_events,
                total_events(old(runtime).event_queue.pending()) as int,
            ),
            ..old(runtime).event_queue.counters()
        }),
        cleared == (SharedMemoryPumpClearEventsResult {
            instance_id,
            cleared_events: total_events(old(runtime).event_queue.pending()) as u64,
            cleared_batches: old(runtime).event_queue.pending().len() as u64,
            status: final(runtime).event_queue.spec_status_of(),
        }),
        final(metrics).counters() == (MetricsCounters {
            shared_memory_pump_events_cleared: if total_events(old(runtime).event_queue.pending()) > 0 {
                bump_by(
                    old(metrics).counters().shared_memory_pump_events_cleared,
                    total_events(old(runtime).event_queue.pending()) as u64,
                )
            } else {
                old(metrics).counters().shared_memory_pump_events_cleared
            },
            ..old(metrics).counters()
        }),
{
    let (cleared_batches, cleared_events) = runtime.clear_events();
    if cleared_events > 0 {
        metrics.record_shared_memory_pump_events_cleared(cleared_events);
    }
    let status = runtime.event_queue_status();
    SharedMemoryPumpClearEventsResult { instance_id, cleared_events, cleared_batches, status }
}


/// How an iteration starts: skipped before the worker is asked, or with the events due.
#[derive(Debug)]
pub enum SharedMemoryPumpTickStart {
    Skipped(SharedMemoryPumpPreflightSkip),
    Process { iteration: u64, input_events: SharedMemoryPumpEventDrain },
}

/// The preflight skip the ring fill calls for, if the fill is known.
pub open spec fn skip_for(
    config: SharedMemoryPumpConfig,
    ring_status: Option<SharedMemoryPumpRingStatus>,
) -> Option<SharedMemoryPumpPreflightSkip> {
    match ring_status {
        Some(ring) => super::scheduler::spec_preflight_skip(config.scheduling, ring),
        None => None,
    }
}

/// Starts an iteration: counts it, then either skips it (as the scheduling asks for the ring
/// fill) or takes the events due at it from the queue and counts them.
pub fn begin_tick(
    config: SharedMemoryPumpConfig,
    metrics: &mut BridgeMetrics,
    runtime: &mut SharedMemoryPumpRuntime,
    ring_status: Option<SharedMemoryPumpRingStatus>,
) -> (start: SharedMemoryPumpTickStart)
    requires
        old(runtime).wf(),
        old(metrics).wf(),
        old(runtime).iterations < u64::MAX,
    ensures
        final(runtime).wf(),
        final(metrics).wf(),
        final(metrics).histograms() == old(metrics).histograms(),
        ({
            let iteration = (old(runtime).iterations + 1) as u64;
            let counted = SharedMemoryPumpRuntime { iterations: iteration, ..*old(runtime) };
            match skip_for(config, ring_status) {
                Some(skip) => {
                    &&& start == SharedMemoryPumpTickStart::Skipped(skip)
                    &&& preflight_skip_effect(
                        counted,
                        *final(runtime),
                        old(metrics).counters(),
                        final(metrics).counters(),
                        config,
                        skip,
                    )
                },
                None => {
                    &&& start matches SharedMemoryPumpTickStart::Process { iteration: due, input_events }
                    &&& due == iteration
                    &&& drain_effect(old(runtime).event_queue, final(runtime).event_queue, iteration, input_events)
                    &&& *final(runtime) == (SharedMemoryPumpRuntime { event_queue: final(runtime).event_queue, ..counted })
                    &&& final(metrics).counters() == if input_events.events > 0 {
                        MetricsCounters {
                            shared_memory_pump_events_drained: bump_by(
                                old(metrics).counters().shared_memory_pump_events_drained,
                                input_events.events,
                            ),
                            shared_memory_pump_events_late: bump_by(
                                old(metrics).counters().shared_memory_pump_events_late,
                                input_events.late_events,
                            ),
                            ..old(metrics).counters()
                        }
                    } else {
                        old(metrics).counters()
                    }
                },
            }
        }),
{
    runtime.iterations = runtime.iterations + 1;
    let iteration = runtime.iterations;
    let skip = match ring_status {
        Some(ring) => config.scheduling.preflight_skip(&ring),
        None => None,
    };
    if let Some(skip) = skip {
        record_preflight_skip(config, metrics, runtime, skip);
        return SharedMemoryPumpTickStart::Skipped(skip);
    }
    let input_events = runtime.drain_events_for_iteration(iteration);
    if input_events.events > 0 {
        metrics.record_shared_memory_pump_events_drained(input_events.events, input_events.late_events);
    }
    SharedMemoryPumpTickStart::Process { iteration, input_events }
}

/// The frames a worker reports processing: the `frames` member of its result when it is a
/// number, else none.
pub open spec fn spec_processed_frames(result: Value) -> u64 {
    match json_member_u64(result, "frames"@) {
        Some(frames) => frames,
        None => 0,
    }
}

/// Reads the frames a worker reports processing from its result.
pub fn processed_frames(result: &Value) -> (frames: u64)
    ensures
        frames == spec_processed_frames(*result),
{
    match json_u64_member(result, "frames") {
        Some(frames) => frames,
        None => 0,
    }
}

/// Ends an iteration the worker processed: counts the success, keeps the frames it produced,
/// clears the last error, and records the timing.
pub fn finish_tick_success(
    config: SharedMemoryPumpConfig,
    metrics: &mut BridgeMetrics,
    runtime: &mut SharedMemoryPumpRuntime,
    frames: u64,
    latency_us: u64,
)
    requires
        old(metrics).wf(),
    ensures
        final(metrics).wf(),
        *final(runtime) == timing_runtime(
            SharedMemoryPumpRuntime {
                successes: bump(old(runtime).successes),
                last_success_frames: frames,
                last_error: None,
                ..outcome_runtime(*old(runtime), SharedMemoryPumpTickOutcome::Success)
            },
            config,
            latency_us,
        ),
        final(metrics).counters() == (MetricsCounters {
            shared_memory_process_blocks: bump(old(metrics).counters().shared_memory_process_blocks),
            shared_memory_process_frames: bump_by(old(metrics).counters().shared_memory_process_frames, frames),
            ..timing_counters(old(metrics).counters(), config, latency_us)
        }),
        final(metrics).histograms() == (
            old(metrics).histograms().0,
            old(metrics).histograms().1,
            old(metrics).histograms().2.update(
                crate::metrics::spec_bucket_index(latency_us),
                bump(old(metrics).histograms().2[crate::metrics::spec_bucket_index(latency_us)]),
            ),
        ),
{
    runtime.successes = runtime.successes.wrapping_add(1);
    record_tick_outcome(runtime, metrics, SharedMemoryPumpTickOutcome::Success);
    runtime.last_success_frames = frames;
    runtime.last_error = None;
    record_process_timing(config, metrics, runtime, latency_us);
    metrics.record_shared_memory_process_success(frames, latency_us);
}

/// Ends an iteration the worker failed: counts the failure and its outcome, keeps the error,
/// and records the timing.
pub fn finish_tick_failure(
    config: SharedMemoryPumpConfig,
    metrics: &mut BridgeMetrics,
    runtime: &mut SharedMemoryPumpRuntime,
    outcome: SharedMemoryPumpTickOutcome,
    error: SharedMemoryPumpLastError,
    latency_us: u64,
)
    requires
        old(metrics).wf(),
    ensures
        final(metrics).wf(),
        *final(runtime) == timing_runtime(
            SharedMemoryPumpRuntime {
                failures: bump(old(runtime).failures),
                last_error: Some(error),
                ..outcome_runtime(*old(runtime), outcome)
            },
            config,
            latency_us,
        ),
        final(metrics).counters() == (MetricsCounters {
            shared_memory_process_failures: bump(old(metrics).counters().shared_memory_process_failures),
            ..timing_counters(outcome_counters(old(metrics).counters(), outcome), config, latency_us)
        }),
        final(metrics).histograms() == (
            old(metrics).histograms().0,
            old(metrics).histograms().1,
            old(metrics).histograms().2.update(
                crate::metrics::spec_bucket_index(latency_us),
                bump(old(metrics).histograms().2[crate::metrics::spec_bucket_index(latency_us)]),
            ),
        ),
{
    runtime.failures = runtime.failures.wrapping_add(1);
    record_tick_outcome(runtime, metrics, outcome);
    runtime.last_error = Some(error);
    record_process_timing(config, metrics, runtime, latency_us);
    metrics.record_shared_memory_process_failure(latency_us);
}

/// A counter that reads zero when nothing was recorded yet.
pub open spec fn nonzero(value: u64) -> Option<u64> {
    if value > 0 { Some(value) } else { None }
}

/// The status of a pump with the given configuration and runtime.
pub fn pump_status(
    config: SharedMemoryPumpConfig,
    runtime: &SharedMemoryPumpRuntime,
    running: bool,
    task_finished: bool,
    uptime_ms: u64,
) -> (status: SharedMemoryPumpStatus)
    requires
        runtime.wf(),
    ensures
        status == (SharedMemoryPumpStatus {
            running,
            task_finished,
            uptime_ms,
            config,
            iterations: runtime.iterations,
            successes: runtime.successes,
            failures: runtime.failures,
            overruns: runtime.overruns,
            input_underruns: runtime.input_underruns,
            output_backpressure: runtime.output_backpressure,
            worker_errors: runtime.worker_errors,
            last_process_micros: runtime.last_process_micros,
            max_process_micros: runtime.max_process_micros,
            last_overrun_micros: nonzero(runtime.last_overrun_micros),
            last_outcome: spec_outcome_from_code(runtime.last_outcome),
            last_success_frames: nonzero(runtime.last_success_frames),
            preflight_skips: runtime.preflight_skips,
            schedule: SharedMemoryPumpScheduleStatus {
                config: config.scheduling,
                current_interval_micros: runtime.current_interval_micros,
                last_delay_micros: runtime.last_delay_micros,
                last_ring_status: runtime.last_ring_status,
            },
            events: runtime.event_queue.spec_status_of(),
            last_error: status.last_error,
        }),
        same_last_error(status.last_error, runtime.last_error),
{
    let last_error = match &runtime.last_error {
        Some(error) => Some(error.copied()),
        None => None,
    };
    SharedMemoryPumpStatus {
        running,
        task_finished,
        uptime_ms,
        config,
        iterations: runtime.iterations,
        successes: runtime.successes,
        failures: runtime.failures,
        overruns: runtime.overruns,
        input_underruns: runtime.input_underruns,
        output_backpressure: runtime.output_backpressure,
        worker_errors: runtime.worker_errors,
        last_process_micros: runtime.last_process_micros,
        max_process_micros: runtime.max_process_micros,
        last_overrun_micros: if runtime.last_overrun_micros > 0 { Some(runtime.last_overrun_micros) } else { None },
        last_outcome: outcome_from_code(runtime.last_outcome),
        last_success_frames: if runtime.last_success_frames > 0 { Some(runtime.last_success_frames) } else { None },
        preflight_skips: runtime.preflight_skips,
        schedule: SharedMemoryPumpScheduleStatus {
            config: config.scheduling,
            current_interval_micros: runtime.current_interval_micros,
            last_delay_micros: runtime.last_delay_micros,
            last_ring_status: runtime.last_ring_status,
        },
        events: runtime.event_queue_status(),
        last_error,
    }
}

/// The outcome a shared memory failure reason stands for: a missing input block or a full
/// output ring; anything else is a worker error.
pub open spec fn spec_reason_outcome(reason: Option<Seq<char>>) -> SharedMemoryPumpTickOutcome {
    if reason == Some("input-underrun"@) {
        SharedMemoryPumpTickOutcome::InputUnderrun
    } else if reason == Some("output-backpressure"@) {
        SharedMemoryPumpTickOutcome::OutputBackpressure
    } else {
        SharedMemoryPumpTickOutcome::WorkerError
    }
}

/// The outcome a shared memory failure reason stands for.
pub fn outcome_for_reason(reason: Option<String>) -> (outcome: SharedMemoryPumpTickOutcome)
    ensures
        outcome == spec_reason_outcome(string_view(reason)),
{
    match reason {
        Some(text) => {
            if text == String::from_str("input-underrun") {
                SharedMemoryPumpTickOutcome::InputUnderrun
            } else if text == String::from_str("output-backpressure") {
                SharedMemoryPumpTickOutcome::OutputBackpressure
            } else {
                SharedMemoryPumpTickOutcome::WorkerError
            }
        },
        None => SharedMemoryPumpTickOutcome::WorkerError,
    }
}

/// The outcome of an iteration the worker failed: the one its rejection data names, and a
/// worker error for anything other than a rejection with data.
pub fn classify_worker_error(error: &WorkerSupervisorError) -> (outcome: SharedMemoryPumpTickOutcome)
    ensures
        outcome == spec_reason_outcome(spec_shared_memory_error_reason(*error)),
{
    outcome_for_reason(error.shared_memory_error_reason())
}

/// The error a failed iteration leaves for the status: the worker error's code, message and data.
pub fn last_error_from_worker(error: &WorkerSupervisorError) -> (last_error: SharedMemoryPumpLastError)
    ensures
        last_error.code == crate::worker_supervisor_error::spec_worker_error_code(*error),
        last_error.message@ == crate::worker_supervisor_error::spec_worker_error_message(*error),
        last_error.data matches SharedMemoryPumpLastErrorData::Worker(data) && data.entries()
            == crate::worker_supervisor_error::spec_worker_error_data(*error),
{
    SharedMemoryPumpLastError {
        code: error.rpc_code(),
        message: error.rpc_message(),
        data: SharedMemoryPumpLastErrorData::Worker(error.rpc_data()),
    }
}

} // verus!
