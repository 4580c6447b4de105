use vstd::prelude::*;

use crate::audio_stream_tracker::AudioStreamObservation;

verus! {

/// Number of latency buckets kept by every histogram.
pub const LATENCY_BUCKET_COUNT: usize = 13;

/// Upper bound (inclusive, in microseconds) of latency bucket `index`;
/// the last bucket is unbounded and is written as `u64::MAX`.
pub open spec fn spec_bucket_limit(index: int) -> u64 {
    if index == 0 {
        100
    } else if index == 1 {
        250
    } else if index == 2 {
        500
    } else if index == 3 {
        1_000
    } else if index == 4 {
        2_000
    } else if index == 5 {
        5_000
    } else if index == 6 {
        10_000
    } else if index == 7 {
        20_000
    } else if index == 8 {
        50_000
    } else if index == 9 {
        100_000
    } else if index == 10 {
        250_000
    } else if index == 11 {
        500_000
    } else {
        u64::MAX
    }
}

/// The bucket a latency sample falls into: the first bucket whose
/// upper bound is at least the sample.
pub open spec fn spec_bucket_index(value_us: u64) -> int
    decreases 0int,
{
    bucket_index_from(value_us, 0)
}

pub open spec fn bucket_index_from(value_us: u64, start: int) -> int
    decreases LATENCY_BUCKET_COUNT - start,
{
    if start >= LATENCY_BUCKET_COUNT - 1 {
        LATENCY_BUCKET_COUNT - 1
    } else if value_us <= spec_bucket_limit(start) {
        start
    } else {
        bucket_index_from(value_us, start + 1)
    }
}

fn bucket_limit(index: usize) -> (limit: u64)
    ensures
        limit == spec_bucket_limit(index as int),
{
    match index {
        0 => 100,
        1 => 250,
        2 => 500,
        3 => 1_000,
        4 => 2_000,
        5 => 5_000,
        6 => 10_000,
        7 => 20_000,
        8 => 50_000,
        9 => 100_000,
        10 => 250_000,
        11 => 500_000,
        _ => u64::MAX,
    }
}

/// The reported upper bound of bucket `index`: `None` for the unbounded bucket.
pub open spec fn spec_bucket_upper_bound(index: int) -> Option<u64> {
    if spec_bucket_limit(index) != u64::MAX {
        Some(spec_bucket_limit(index))
    } else {
        None
    }
}

pub fn bucket_upper_bound(index: usize) -> (bound: Option<u64>)
    requires
        index < LATENCY_BUCKET_COUNT,
    ensures
        bound == spec_bucket_upper_bound(index as int),
{
    let value = bucket_limit(index);
    if value != u64::MAX {
        Some(value)
    } else {
        None
    }
}

/// Adds one to a counter the way a relaxed atomic `fetch_add(1)` does: wrapping at `u64::MAX`.
pub open spec fn bump(value: u64) -> u64 {
    vstd::wrapping::u64_specs::wrapping_add(value, 1)
}

pub open spec fn bump_by(value: u64, amount: u64) -> u64 {
    vstd::wrapping::u64_specs::wrapping_add(value, amount)
}

#[derive(Debug, Clone)]
pub struct LatencyBucketSnapshot {
    pub le_us: Option<u64>,
    pub count: u64,
}

#[derive(Debug, Clone)]
pub struct LatencySnapshot {
    pub count: u64,
    pub p50_us: Option<u64>,
    pub p95_us: Option<u64>,
    pub p99_us: Option<u64>,
    pub buckets: Vec<LatencyBucketSnapshot>,
}

/// Sum of the first `n` bucket counts, without overflow.
pub open spec fn prefix_count(buckets: Seq<LatencyBucketSnapshot>, n: int) -> nat
    decreases n,
{
    if n <= 0 || n > buckets.len() {
        0
    } else {
        (prefix_count(buckets, n - 1) + buckets[n - 1].count) as nat
    }
}

/// The number of samples (rank) that a percentile asks for: `ceil(total * p / 100)`,
/// with the product saturated at `u64::MAX`, and at least one.
pub open spec fn percentile_target(total: u64, percentile: u64) -> int {
    let product: int = if total * percentile > u64::MAX { u64::MAX as int } else { total * percentile };
    let target: int = (product + 99) / 100;
    if target < 1 { 1 } else { target }
}

/// Scans buckets from `index` on, `seen` samples having been counted before it, and gives
/// the bound of the first bucket at which the running count reaches `target`.
pub open spec fn percentile_scan(
    buckets: Seq<LatencyBucketSnapshot>,
    target: int,
    index: int,
    seen: nat,
) -> Option<u64>
    decreases buckets.len() - index,
{
    if index < 0 || index >= buckets.len() {
        None
    } else if seen + buckets[index].count >= target {
        buckets[index].le_us
    } else {
        percentile_scan(buckets, target, index + 1, (seen + buckets[index].count) as nat)
    }
}

pub open spec fn spec_percentile(
    buckets: Seq<LatencyBucketSnapshot>,
    total: u64,
    percentile: u64,
) -> Option<u64> {
    if total == 0 {
        None
    } else {
        percentile_scan(buckets, percentile_target(total, percentile), 0, 0)
    }
}

fn saturating_mul_u64(a: u64, b: u64) -> (r: u64)
    ensures
        r == (if a * b > u64::MAX { u64::MAX as int } else { a * b }),
{
    match a.checked_mul(b) {
        Some(v) => v,
        None => u64::MAX,
    }
}

/// The latency bound below which `percentile` percent of the `total` samples fall,
/// read from cumulative bucket counts; `None` when there are no samples or the
/// rank falls in the unbounded bucket.
pub fn percentile_from_buckets(
    buckets: &Vec<LatencyBucketSnapshot>,
    total: u64,
    percentile: u64,
) -> (result: Option<u64>)
    ensures
        result == spec_percentile(buckets@, total, percentile),
{
    if total == 0 {
        return None;
    }
    let product = saturating_mul_u64(total, percentile);
    let ceil: u64 = product / 100 + if product % 100 == 0 { 0 } else { 1 };
    let target: u64 = if ceil < 1 { 1 } else { ceil };
    assert(target as int == percentile_target(total, percentile));
    let mut cumulative: u64 = 0;
    let ghost mut seen: nat = 0;
    let mut index: usize = 0;
    while index < buckets.len()
        invariant
            0 <= index <= buckets.len(),
            cumulative == (if seen > u64::MAX { u64::MAX as int } else { seen as int }),
            target as int == percentile_target(total, percentile),
            seen < target,
            spec_percentile(buckets@, total, percentile) == percentile_scan(
                buckets@,
                target as int,
                index as int,
                seen,
            ),
        decreases buckets.len() - index,
    {
        let count = buckets[index].count;
        cumulative = cumulative.saturating_add(count);
        proof {
            seen = (seen + count) as nat;
        }
        if cumulative >= target {
            return buckets[index].le_us;
        }
        index = index + 1;
    }
    None
}

/// A latency histogram over the fixed bucket bounds.
#[derive(Debug)]
pub struct LatencyHistogram {
    buckets: Vec<u64>,
}

impl LatencyHistogram {
    pub closed spec fn counts(&self) -> Seq<u64> {
        self.buckets@
    }

    pub closed spec fn wf(&self) -> bool {
        self.buckets@.len() == LATENCY_BUCKET_COUNT
    }

    pub fn new() -> (histogram: Self)
        ensures
            histogram.wf(),
            histogram.counts() == Seq::new(LATENCY_BUCKET_COUNT as nat, |i: int| 0u64),
    {
        let mut buckets: Vec<u64> = Vec::new();
        let mut i: usize = 0;
        while i < LATENCY_BUCKET_COUNT
            invariant
                i <= LATENCY_BUCKET_COUNT,
                buckets@ == Seq::new(i as nat, |j: int| 0u64),
            decreases LATENCY_BUCKET_COUNT - i,
        {
            buckets.push(0);
            i = i + 1;
        }
        LatencyHistogram { buckets }
    }

    /// Counts one sample in the first bucket whose bound is at least the sample.
    pub fn record(&mut self, value_us: u64)
        requires
            old(self).wf(),
        ensures
            final(self).wf(),
            final(self).counts() == old(self).counts().update(
                spec_bucket_index(value_us),
                bump(old(self).counts()[spec_bucket_index(value_us)]),
            ),
    {
        let mut bucket: usize = 0;
        while bucket < LATENCY_BUCKET_COUNT - 1 && value_us > bucket_limit(bucket)
            invariant
                bucket < LATENCY_BUCKET_COUNT,
                bucket_index_from(value_us, 0) == bucket_index_from(value_us, bucket as int),
            decreases LATENCY_BUCKET_COUNT - bucket,
        {
            bucket = bucket + 1;
        }
        assert(bucket_index_from(value_us, bucket as int) == bucket as int);
        let current = self.buckets[bucket];
        self.buckets.set(bucket, current.wrapping_add(1));
    }

    pub fn snapshot(&self) -> (snapshot: LatencySnapshot)
        requires
            self.wf(),
        ensures
            describes_histogram(snapshot, self.counts()),
    {
        let mut buckets: Vec<LatencyBucketSnapshot> = Vec::new();
        let mut count: u64 = 0;
        let mut index: usize = 0;
        assert(prefix_count(buckets@, 0) == 0);
        assert(0nat % (u64::MAX as nat + 1) == 0) by (nonlinear_arith);
        while index < LATENCY_BUCKET_COUNT
            invariant
                index <= LATENCY_BUCKET_COUNT,
                self.wf(),
                buckets@.len() == index,
                forall|i: int|
                    0 <= i < index ==> #[trigger] buckets@[i].count == self.counts()[i]
                        && buckets@[i].le_us == spec_bucket_upper_bound(i),
                count == prefix_count(buckets@, index as int) % (u64::MAX as nat + 1),
            decreases LATENCY_BUCKET_COUNT - index,
        {
            let bucket_count = self.buckets[index];
            let ghost before = buckets@;
            buckets.push(LatencyBucketSnapshot { le_us: bucket_upper_bound(index), count: bucket_count });
            proof {
                assert(prefix_count(before, index as int) == prefix_count(buckets@, index as int)) by {
                    lemma_prefix_count_extend(before, buckets@, index as int);
                }
            }
            let ghost old_count = count;
            count = count.wrapping_add(bucket_count);
            proof {
                let m: int = u64::MAX as int + 1;
                let p: int = prefix_count(buckets@, index as int) as int;
                assert(prefix_count(buckets@, index as int + 1) == p + bucket_count);
                assert(count as int == (old_count + bucket_count) % m);
                vstd::arithmetic::div_mod::lemma_add_mod_noop(p, bucket_count as int, m);
                vstd::arithmetic::div_mod::lemma_mod_twice(p, m);
                vstd::arithmetic::div_mod::lemma_small_mod(bucket_count as nat, m as nat);
            }
            index = index + 1;
        }
        let p50_us = percentile_from_buckets(&buckets, count, 50);
        let p95_us = percentile_from_buckets(&buckets, count, 95);
        let p99_us = percentile_from_buckets(&buckets, count, 99);
        LatencySnapshot { count, p50_us, p95_us, p99_us, buckets }
    }
}

proof fn lemma_prefix_count_extend(
    short: Seq<LatencyBucketSnapshot>,
    long: Seq<LatencyBucketSnapshot>,
    n: int,
)
    requires
        0 <= n <= short.len() <= long.len(),
        forall|i: int| 0 <= i < short.len() ==> short[i] == long[i],
    ensures
        prefix_count(short, n) == prefix_count(long, n),
    decreases n,
{
    if n > 0 {
        lemma_prefix_count_extend(short, long, n - 1);
    }
}


/// The counters of the bridge, as plain values.
#[derive(Debug, Clone, Copy, Default, PartialEq, Eq)]
pub struct MetricsCounters {
    pub websocket_connections: u64,
    pub control_messages: u64,
    pub binary_frames: u64,
    pub audio_frames_routed: u64,
    pub audio_frame_fallbacks: u64,
    pub audio_frame_route_failures: u64,
    pub audio_frame_invalid_headers: u64,
    pub audio_frame_invalid_lengths: u64,
    pub audio_frame_unmatched_streams: u64,
    pub hello_requests: u64,
    pub worker_failures: u64,
    pub worker_restarts: u64,
    pub worker_auto_restarts: u64,
    pub worker_shutdowns: u64,
    pub worker_kill_requests: u64,
    pub worker_tree_kill_requests: u64,
    pub worker_forced_kill_requests: u64,
    pub worker_wait_successes: u64,
    pub worker_wait_timeouts: u64,
    pub audio_sequence_gap_events: u64,
    pub audio_sequence_gap_frames: u64,
    pub audio_frames_duplicate: u64,
    pub audio_frames_out_of_order: u64,
    pub audio_frames_late: u64,
    pub audio_backpressure_drops: u64,
    pub shared_memory_process_blocks: u64,
    pub shared_memory_process_frames: u64,
    pub shared_memory_process_failures: u64,
    pub shared_memory_pump_overruns: u64,
    pub shared_memory_pump_preflight_skips: u64,
    pub shared_memory_pump_input_underruns: u64,
    pub shared_memory_pump_output_backpressure: u64,
    pub shared_memory_pump_worker_errors: u64,
    pub shared_memory_pump_events_enqueued: u64,
    pub shared_memory_pump_events_drained: u64,
    pub shared_memory_pump_events_late: u64,
    pub shared_memory_pump_events_dropped: u64,
    pub shared_memory_pump_events_cleared: u64,
}

/// A point-in-time copy of every counter and latency histogram.
#[derive(Debug, Clone)]
pub struct BridgeMetricsSnapshot {
    pub uptime_ms: u64,
    pub websocket_connections: u64,
    pub control_messages: u64,
    pub binary_frames: u64,
    pub audio_frames_routed: u64,
    pub audio_frame_fallbacks: u64,
    pub audio_frame_route_failures: u64,
    pub audio_frame_invalid_headers: u64,
    pub audio_frame_invalid_lengths: u64,
    pub audio_frame_unmatched_streams: u64,
    pub hello_requests: u64,
    pub worker_failures: u64,
    pub worker_restarts: u64,
    pub worker_auto_restarts: u64,
    pub worker_shutdowns: u64,
    pub worker_kill_requests: u64,
    pub worker_tree_kill_requests: u64,
    pub worker_forced_kill_requests: u64,
    pub worker_wait_successes: u64,
    pub worker_wait_timeouts: u64,
    pub audio_sequence_gap_events: u64,
    pub audio_sequence_gap_frames: u64,
    pub audio_frames_duplicate: u64,
    pub audio_frames_out_of_order: u64,
    pub audio_frames_late: u64,
    pub audio_backpressure_drops: u64,
    pub shared_memory_process_blocks: u64,
    pub shared_memory_process_frames: u64,
    pub shared_memory_process_failures: u64,
    pub shared_memory_pump_overruns: u64,
    pub shared_memory_pump_preflight_skips: u64,
    pub shared_memory_pump_input_underruns: u64,
    pub shared_memory_pump_output_backpressure: u64,
    pub shared_memory_pump_worker_errors: u64,
    pub shared_memory_pump_events_enqueued: u64,
    pub shared_memory_pump_events_drained: u64,
    pub shared_memory_pump_events_late: u64,
    pub shared_memory_pump_events_dropped: u64,
    pub shared_memory_pump_events_cleared: u64,
    pub audio_route_latency: LatencySnapshot,
    pub audio_interarrival_jitter: LatencySnapshot,
    pub shared_memory_process_latency: LatencySnapshot,
}

/// The snapshot's counters are those of `counters`.
pub open spec fn snapshot_counters_match(snapshot: BridgeMetricsSnapshot, counters: MetricsCounters) -> bool {
    &&& snapshot.websocket_connections == counters.websocket_connections
    &&& snapshot.control_messages == counters.control_messages
    &&& snapshot.binary_frames == counters.binary_frames
    &&& snapshot.audio_frames_routed == counters.audio_frames_routed
    &&& snapshot.audio_frame_fallbacks == counters.audio_frame_fallbacks
    &&& snapshot.audio_frame_route_failures == counters.audio_frame_route_failures
    &&& snapshot.audio_frame_invalid_headers == counters.audio_frame_invalid_headers
    &&& snapshot.audio_frame_invalid_lengths == counters.audio_frame_invalid_lengths
    &&& snapshot.audio_frame_unmatched_streams == counters.audio_frame_unmatched_streams
    &&& snapshot.hello_requests == counters.hello_requests
    &&& snapshot.worker_failures == counters.worker_failures
    &&& snapshot.worker_restarts == counters.worker_restarts
    &&& snapshot.worker_auto_restarts == counters.worker_auto_restarts
    &&& snapshot.worker_shutdowns == counters.worker_shutdowns
    &&& snapshot.worker_kill_requests == counters.worker_kill_requests
    &&& snapshot.worker_tree_kill_requests == counters.worker_tree_kill_requests
    &&& snapshot.worker_forced_kill_requests == counters.worker_forced_kill_requests
    &&& snapshot.worker_wait_successes == counters.worker_wait_successes
    &&& snapshot.worker_wait_timeouts == counters.worker_wait_timeouts
    &&& snapshot.audio_sequence_gap_events == counters.audio_sequence_gap_events
    &&& snapshot.audio_sequence_gap_frames == counters.audio_sequence_gap_frames
    &&& snapshot.audio_frames_duplicate == counters.audio_frames_duplicate
    &&& snapshot.audio_frames_out_of_order == counters.audio_frames_out_of_order
    &&& snapshot.audio_frames_late == counters.audio_frames_late
    &&& snapshot.audio_backpressure_drops == counters.audio_backpressure_drops
    &&& snapshot.shared_memory_process_blocks == counters.shared_memory_process_blocks
    &&& snapshot.shared_memory_process_frames == counters.shared_memory_process_frames
    &&& snapshot.shared_memory_process_failures == counters.shared_memory_process_failures
    &&& snapshot.shared_memory_pump_overruns == counters.shared_memory_pump_overruns
    &&& snapshot.shared_memory_pump_preflight_skips == counters.shared_memory_pump_preflight_skips
    &&& snapshot.shared_memory_pump_input_underruns == counters.shared_memory_pump_input_underruns
    &&& snapshot.shared_memory_pump_output_backpressure == counters.shared_memory_pump_output_backpressure
    &&& snapshot.shared_memory_pump_worker_errors == counters.shared_memory_pump_worker_errors
    &&& snapshot.shared_memory_pump_events_enqueued == counters.shared_memory_pump_events_enqueued
    &&& snapshot.shared_memory_pump_events_drained == counters.shared_memory_pump_events_drained
    &&& snapshot.shared_memory_pump_events_late == counters.shared_memory_pump_events_late
    &&& snapshot.shared_memory_pump_events_dropped == counters.shared_memory_pump_events_dropped
    &&& snapshot.shared_memory_pump_events_cleared == counters.shared_memory_pump_events_cleared
}

/// Every counter at zero.
pub open spec fn spec_zero_counters() -> MetricsCounters {
    MetricsCounters {
        websocket_connections: 0,
        control_messages: 0,
        binary_frames: 0,
        audio_frames_routed: 0,
        audio_frame_fallbacks: 0,
        audio_frame_route_failures: 0,
        audio_frame_invalid_headers: 0,
        audio_frame_invalid_lengths: 0,
        audio_frame_unmatched_streams: 0,
        hello_requests: 0,
        worker_failures: 0,
        worker_restarts: 0,
        worker_auto_restarts: 0,
        worker_shutdowns: 0,
        worker_kill_requests: 0,
        worker_tree_kill_requests: 0,
        worker_forced_kill_requests: 0,
        worker_wait_successes: 0,
        worker_wait_timeouts: 0,
        audio_sequence_gap_events: 0,
        audio_sequence_gap_frames: 0,
        audio_frames_duplicate: 0,
        audio_frames_out_of_order: 0,
        audio_frames_late: 0,
        audio_backpressure_drops: 0,
        shared_memory_process_blocks: 0,
        shared_memory_process_frames: 0,
        shared_memory_process_failures: 0,
        shared_memory_pump_overruns: 0,
        shared_memory_pump_preflight_skips: 0,
        shared_memory_pump_input_underruns: 0,
        shared_memory_pump_output_backpressure: 0,
        shared_memory_pump_worker_errors: 0,
        shared_memory_pump_events_enqueued: 0,
        shared_memory_pump_events_drained: 0,
        shared_memory_pump_events_late: 0,
        shared_memory_pump_events_dropped: 0,
        shared_memory_pump_events_cleared: 0,
    }
}

fn zero_counters() -> (counters: MetricsCounters)
    ensures
        counters == spec_zero_counters(),
{
    MetricsCounters {
        websocket_connections: 0,
        control_messages: 0,
        binary_frames: 0,
        audio_frames_routed: 0,
        audio_frame_fallbacks: 0,
        audio_frame_route_failures: 0,
        audio_frame_invalid_headers: 0,
        audio_frame_invalid_lengths: 0,
        audio_frame_unmatched_streams: 0,
        hello_requests: 0,
        worker_failures: 0,
        worker_restarts: 0,
        worker_auto_restarts: 0,
        worker_shutdowns: 0,
        worker_kill_requests: 0,
        worker_tree_kill_requests: 0,
        worker_forced_kill_requests: 0,
        worker_wait_successes: 0,
        worker_wait_timeouts: 0,
        audio_sequence_gap_events: 0,
        audio_sequence_gap_frames: 0,
        audio_frames_duplicate: 0,
        audio_frames_out_of_order: 0,
        audio_frames_late: 0,
        audio_backpressure_drops: 0,
        shared_memory_process_blocks: 0,
        shared_memory_process_frames: 0,
        shared_memory_process_failures: 0,
        shared_memory_pump_overruns: 0,
        shared_memory_pump_preflight_skips: 0,
        shared_memory_pump_input_underruns: 0,
        shared_memory_pump_output_backpressure: 0,
        shared_memory_pump_worker_errors: 0,
        shared_memory_pump_events_enqueued: 0,
        shared_memory_pump_events_drained: 0,
        shared_memory_pump_events_late: 0,
        shared_memory_pump_events_dropped: 0,
        shared_memory_pump_events_cleared: 0,
    }
}

/// The outcome of shutting a worker down, as the supervisor observed it.
#[derive(Debug, Clone, Copy, Default, PartialEq, Eq)]
pub struct WorkerShutdownAudit {
    pub kill_requested: bool,
    pub tree_kill_requested: bool,
    pub forced_kill_requested: bool,
    pub wait_succeeded: bool,
    pub wait_timed_out: bool,
}

pub open spec fn bump_if(value: u64, condition: bool) -> u64 {
    if condition { bump(value) } else { value }
}

/// The snapshot describes a histogram with bucket counts `counts`.
pub open spec fn describes_histogram(snapshot: LatencySnapshot, counts: Seq<u64>) -> bool {
    &&& snapshot.buckets@.len() == LATENCY_BUCKET_COUNT
    &&& forall|i: int|
        0 <= i < LATENCY_BUCKET_COUNT ==> #[trigger] snapshot.buckets@[i].count == counts[i]
            && snapshot.buckets@[i].le_us == spec_bucket_upper_bound(i)
    &&& snapshot.count == prefix_count(snapshot.buckets@, LATENCY_BUCKET_COUNT as int) % (
    u64::MAX as nat + 1)
    &&& snapshot.p50_us == spec_percentile(snapshot.buckets@, snapshot.count, 50)
    &&& snapshot.p95_us == spec_percentile(snapshot.buckets@, snapshot.count, 95)
    &&& snapshot.p99_us == spec_percentile(snapshot.buckets@, snapshot.count, 99)
}

/// A reported bound is at most another, an absent bound standing for no bound at all.
pub open spec fn bound_at_most(a: Option<u64>, b: Option<u64>) -> bool {
    match (a, b) {
        (_, None) => true,
        (None, Some(_)) => false,
        (Some(x), Some(y)) => x <= y,
    }
}

proof fn lemma_bucket_bounds_increase()
    ensures
        forall|i: int, j: int|
            0 <= i <= j < LATENCY_BUCKET_COUNT ==> bound_at_most(
                #[trigger] spec_bucket_upper_bound(i),
                #[trigger] spec_bucket_upper_bound(j),
            ),
{
}

/// A scan from `index` on gives no bound below `bound` when no bucket from `index` on has one.
proof fn lemma_scan_at_least(
    buckets: Seq<LatencyBucketSnapshot>,
    target: int,
    index: int,
    seen: nat,
    bound: Option<u64>,
)
    requires
        forall|j: int| index <= j < buckets.len() ==> bound_at_most(bound, #[trigger] buckets[j].le_us),
    ensures
        bound_at_most(bound, percentile_scan(buckets, target, index, seen)),
    decreases buckets.len() - index,
{
    if 0 <= index < buckets.len() && seen + buckets[index].count < target {
        lemma_scan_at_least(buckets, target, index + 1, (seen + buckets[index].count) as nat, bound);
    }
}

/// A scan for a larger target gives a bound at least as large, when the bounds increase.
proof fn lemma_scan_monotone(buckets: Seq<LatencyBucketSnapshot>, low: int, high: int, index: int, seen: nat)
    requires
        low <= high,
        forall|i: int, j: int|
            0 <= i <= j < buckets.len() ==> bound_at_most(#[trigger] buckets[i].le_us, #[trigger] buckets[j].le_us),
    ensures
        bound_at_most(percentile_scan(buckets, low, index, seen), percentile_scan(buckets, high, index, seen)),
    decreases buckets.len() - index,
{
    if 0 <= index < buckets.len() {
        let next = (seen + buckets[index].count) as nat;
        if seen + buckets[index].count >= high {
        } else if seen + buckets[index].count >= low {
            assert forall|j: int| index + 1 <= j < buckets.len() implies bound_at_most(
                buckets[index].le_us,
                #[trigger] buckets[j].le_us,
            ) by {
                assert(bound_at_most(buckets[index].le_us, buckets[j].le_us));
            }
            lemma_scan_at_least(buckets, high, index + 1, next, buckets[index].le_us);
        } else {
            lemma_scan_monotone(buckets, low, high, index + 1, next);
        }
    }
}

proof fn lemma_target_monotone(total: u64, low: u64, high: u64)
    requires
        low <= high,
    ensures
        percentile_target(total, low) <= percentile_target(total, high),
{
    assert(total * low <= total * high) by (nonlinear_arith)
        requires
            low <= high,
    ;
}

/// The percentiles of a histogram snapshot are ordered: the 50th is at most the 95th, which
/// is at most the 99th, an absent percentile counting as unbounded.
pub proof fn lemma_percentiles_ordered(snapshot: LatencySnapshot, counts: Seq<u64>)
    requires
        describes_histogram(snapshot, counts),
    ensures
        bound_at_most(snapshot.p50_us, snapshot.p95_us),
        bound_at_most(snapshot.p95_us, snapshot.p99_us),
{
    let buckets = snapshot.buckets@;
    lemma_bucket_bounds_increase();
    assert forall|i: int, j: int| 0 <= i <= j < buckets.len() implies bound_at_most(
        #[trigger] buckets[i].le_us,
        #[trigger] buckets[j].le_us,
    ) by {
        assert(buckets[i].count == counts[i]);
        assert(buckets[j].count == counts[j]);
    }
    if snapshot.count > 0 {
        lemma_target_monotone(snapshot.count, 50, 95);
        lemma_target_monotone(snapshot.count, 95, 99);
        lemma_scan_monotone(
            buckets,
            percentile_target(snapshot.count, 50),
            percentile_target(snapshot.count, 95),
            0,
            0,
        );
        lemma_scan_monotone(
            buckets,
            percentile_target(snapshot.count, 95),
            percentile_target(snapshot.count, 99),
            0,
            0,
        );
    }
}

/// Counters and latency histograms of the bridge.
#[derive(Debug)]
pub struct BridgeMetrics {
    started_at: std::time::Instant,
    counters: MetricsCounters,
    audio_route_latency: LatencyHistogram,
    audio_interarrival_jitter: LatencyHistogram,
    shared_memory_process_latency: LatencyHistogram,
}

impl BridgeMetrics {
    pub closed spec fn wf(&self) -> bool {
        &&& self.audio_route_latency.wf()
        &&& self.audio_interarrival_jitter.wf()
        &&& self.shared_memory_process_latency.wf()
    }

    pub closed spec fn counters(&self) -> MetricsCounters {
        self.counters
    }

    /// Bucket counts of the route latency, interarrival jitter and shared memory
    /// process latency histograms.
    pub closed spec fn histograms(&self) -> (Seq<u64>, Seq<u64>, Seq<u64>) {
        (
            self.audio_route_latency.counts(),
            self.audio_interarrival_jitter.counts(),
            self.shared_memory_process_latency.counts(),
        )
    }

    pub fn new() -> (metrics: Self)
        ensures
            metrics.wf(),
            metrics.counters() == spec_zero_counters(),
            metrics.histograms() == (
                Seq::new(LATENCY_BUCKET_COUNT as nat, |i: int| 0u64),
                Seq::new(LATENCY_BUCKET_COUNT as nat, |i: int| 0u64),
                Seq::new(LATENCY_BUCKET_COUNT as nat, |i: int| 0u64),
            ),
    {
        BridgeMetrics {
            started_at: std::time::Instant::now(),
            counters: zero_counters(),
            audio_route_latency: LatencyHistogram::new(),
            audio_interarrival_jitter: LatencyHistogram::new(),
            shared_memory_process_latency: LatencyHistogram::new(),
        }
    }

    pub fn increment_websocket_connections(&mut self)
        requires
            old(self).wf(),
        ensures
            final(self).wf(),
            final(self).counters() == (MetricsCounters { websocket_connections: bump(old(self).counters().websocket_connections), ..old(self).counters() }),
            final(self).histograms() == old(self).histograms(),
    {
        self.counters.websocket_connections = self.counters.websocket_connections.wrapping_add(1);
    }

    pub fn increment_control_messages(&mut self)
        requires
            old(self).wf(),
        ensures
            final(self).wf(),
            final(self).counters() == (MetricsCounters { control_messages: bump(old(self).counters().control_messages), ..old(self).counters() }),
            final(self).histograms() == old(self).histograms(),
    {
        self.counters.control_messages = self.counters.control_messages.wrapping_add(1);
    }

    pub fn increment_binary_frames(&mut self)
        requires
            old(self).wf(),
        ensures
            final(self).wf(),
            final(self).counters() == (MetricsCounters { binary_frames: bump(old(self).counters().binary_frames), ..old(self).counters() }),
            final(self).histograms() == old(self).histograms(),
    {
        self.counters.binary_frames = self.counters.binary_frames.wrapping_add(1);
    }

    pub fn increment_audio_frames_routed(&mut self)
        requires
            old(self).wf(),
        ensures
            final(self).wf(),
            final(self).counters() == (MetricsCounters { audio_frames_routed: bump(old(self).counters().audio_frames_routed), ..old(self).counters() }),
            final(self).histograms() == old(self).histograms(),
    {
        self.counters.audio_frames_routed = self.counters.audio_frames_routed.wrapping_add(1);
    }

    pub fn increment_audio_frame_fallbacks(&mut self)
        requires
            old(self).wf(),
        ensures
            final(self).wf(),
            final(self).counters() == (MetricsCounters { audio_frame_fallbacks: bump(old(self).counters().audio_frame_fallbacks), ..old(self).counters() }),
            final(self).histograms() == old(self).histograms(),
    {
        self.counters.audio_frame_fallbacks = self.counters.audio_frame_fallbacks.wrapping_add(1);
    }

    pub fn increment_audio_frame_route_failures(&mut self)
        requires
            old(self).wf(),
        ensures
            final(self).wf(),
            final(self).counters() == (MetricsCounters { audio_frame_route_failures: bump(old(self).counters().audio_frame_route_failures), ..old(self).counters() }),
            final(self).histograms() == old(self).histograms(),
    {
        self.counters.audio_frame_route_failures = self.counters.audio_frame_route_failures.wrapping_add(1);
    }

    pub fn increment_audio_frame_invalid_headers(&mut self)
        requires
            old(self).wf(),
        ensures
            final(self).wf(),
            final(self).counters() == (MetricsCounters { audio_frame_invalid_headers: bump(old(self).counters().audio_frame_invalid_headers), ..old(self).counters() }),
            final(self).histograms() == old(self).histograms(),
    {
        self.counters.audio_frame_invalid_headers = self.counters.audio_frame_invalid_headers.wrapping_add(1);
    }

    pub fn increment_audio_frame_invalid_lengths(&mut self)
        requires
            old(self).wf(),
        ensures
            final(self).wf(),
            final(self).counters() == (MetricsCounters { audio_frame_invalid_lengths: bump(old(self).counters().audio_frame_invalid_lengths), ..old(self).counters() }),
            final(self).histograms() == old(self).histograms(),
    {
        self.counters.audio_frame_invalid_lengths = self.counters.audio_frame_invalid_lengths.wrapping_add(1);
    }

    pub fn increment_audio_frame_unmatched_streams(&mut self)
        requires
            old(self).wf(),
        ensures
            final(self).wf(),
            final(self).counters() == (MetricsCounters { audio_frame_unmatched_streams: bump(old(self).counters().audio_frame_unmatched_streams), ..old(self).counters() }),
            final(self).histograms() == old(self).histograms(),
    {
        self.counters.audio_frame_unmatched_streams = self.counters.audio_frame_unmatched_streams.wrapping_add(1);
    }

    pub fn increment_hello_requests(&mut self)
        requires
            old(self).wf(),
        ensures
            final(self).wf(),
            final(self).counters() == (MetricsCounters { hello_requests: bump(old(self).counters().hello_requests), ..old(self).counters() }),
            final(self).histograms() == old(self).histograms(),
    {
        self.counters.hello_requests = self.counters.hello_requests.wrapping_add(1);
    }

    pub fn increment_worker_failures(&mut self)
        requires
            old(self).wf(),
        ensures
            final(self).wf(),
            final(self).counters() == (MetricsCounters { worker_failures: bump(old(self).counters().worker_failures), ..old(self).counters() }),
            final(self).histograms() == old(self).histograms(),
    {
        self.counters.worker_failures = self.counters.worker_failures.wrapping_add(1);
    }

    pub fn increment_worker_restarts(&mut self)
        requires
            old(self).wf(),
        ensures
            final(self).wf(),
            final(self).counters() == (MetricsCounters { worker_restarts: bump(old(self).counters().worker_restarts), ..old(self).counters() }),
            final(self).histograms() == old(self).histograms(),
    {
        self.counters.worker_restarts = self.counters.worker_restarts.wrapping_add(1);
    }

    pub fn increment_worker_auto_restarts(&mut self)
        requires
            old(self).wf(),
        ensures
            final(self).wf(),
            final(self).counters() == (MetricsCounters { worker_auto_restarts: bump(old(self).counters().worker_auto_restarts), ..old(self).counters() }),
            final(self).histograms() == old(self).histograms(),
    {
        self.counters.worker_auto_restarts = self.counters.worker_auto_restarts.wrapping_add(1);
    }

    pub fn increment_audio_backpressure_drops(&mut self)
        requires
            old(self).wf(),
        ensures
            final(self).wf(),
            final(self).counters() == (MetricsCounters { audio_backpressure_drops: bump(old(self).counters().audio_backpressure_drops), ..old(self).counters() }),
            final(self).histograms() == old(self).histograms(),
    {
        self.counters.audio_backpressure_drops = self.counters.audio_backpressure_drops.wrapping_add(1);
    }

    pub fn increment_shared_memory_pump_overruns(&mut self)
        requires
            old(self).wf(),
        ensures
            final(self).wf(),
            final(self).counters() == (MetricsCounters { shared_memory_pump_overruns: bump(old(self).counters().shared_memory_pump_overruns), ..old(self).counters() }),
            final(self).histograms() == old(self).histograms(),
    {
        self.counters.shared_memory_pump_overruns = self.counters.shared_memory_pump_overruns.wrapping_add(1);
    }

    pub fn increment_shared_memory_pump_preflight_skips(&mut self)
        requires
            old(self).wf(),
        ensures
            final(self).wf(),
            final(self).counters() == (MetricsCounters { shared_memory_pump_preflight_skips: bump(old(self).counters().shared_memory_pump_preflight_skips), ..old(self).counters() }),
            final(self).histograms() == old(self).histograms(),
    {
        self.counters.shared_memory_pump_preflight_skips = self.counters.shared_memory_pump_preflight_skips.wrapping_add(1);
    }

    pub fn increment_shared_memory_pump_input_underruns(&mut self)
        requires
            old(self).wf(),
        ensures
            final(self).wf(),
            final(self).counters() == (MetricsCounters { shared_memory_pump_input_underruns: bump(old(self).counters().shared_memory_pump_input_underruns), ..old(self).counters() }),
            final(self).histograms() == old(self).histograms(),
    {
        self.counters.shared_memory_pump_input_underruns = self.counters.shared_memory_pump_input_underruns.wrapping_add(1);
    }

    pub fn increment_shared_memory_pump_output_backpressure(&mut self)
        requires
            old(self).wf(),
        ensures
            final(self).wf(),
            final(self).counters() == (MetricsCounters { shared_memory_pump_output_backpressure: bump(old(self).counters().shared_memory_pump_output_backpressure), ..old(self).counters() }),
            final(self).histograms() == old(self).histograms(),
    {
        self.counters.shared_memory_pump_output_backpressure = self.counters.shared_memory_pump_output_backpressure.wrapping_add(1);
    }

    pub fn increment_shared_memory_pump_worker_errors(&mut self)
        requires
            old(self).wf(),
        ensures
            final(self).wf(),
            final(self).counters() == (MetricsCounters { shared_memory_pump_worker_errors: bump(old(self).counters().shared_memory_pump_worker_errors), ..old(self).counters() }),
            final(self).histograms() == old(self).histograms(),
    {
        self.counters.shared_memory_pump_worker_errors = self.counters.shared_memory_pump_worker_errors.wrapping_add(1);
    }
    /// Counts one worker shutdown and each of the steps its audit reports.
    pub fn record_worker_shutdown(&mut self, audit: WorkerShutdownAudit)
        requires
            old(self).wf(),
        ensures
            final(self).wf(),
            final(self).counters() == (MetricsCounters {
                worker_shutdowns: bump(old(self).counters().worker_shutdowns),
                worker_kill_requests: bump_if(old(self).counters().worker_kill_requests, audit.kill_requested),
                worker_tree_kill_requests: bump_if(old(self).counters().worker_tree_kill_requests, audit.tree_kill_requested),
                worker_forced_kill_requests: bump_if(old(self).counters().worker_forced_kill_requests, audit.forced_kill_requested),
                worker_wait_successes: bump_if(old(self).counters().worker_wait_successes, audit.wait_succeeded),
                worker_wait_timeouts: bump_if(old(self).counters().worker_wait_timeouts, audit.wait_timed_out),
                ..old(self).counters()
            }),
            final(self).histograms() == old(self).histograms(),
    {
        self.counters.worker_shutdowns = self.counters.worker_shutdowns.wrapping_add(1);
        if audit.kill_requested {
            self.counters.worker_kill_requests = self.counters.worker_kill_requests.wrapping_add(1);
        }
        if audit.tree_kill_requested {
            self.counters.worker_tree_kill_requests = self.counters.worker_tree_kill_requests.wrapping_add(1);
        }
        if audit.forced_kill_requested {
            self.counters.worker_forced_kill_requests = self.counters.worker_forced_kill_requests.wrapping_add(1);
        }
        if audit.wait_succeeded {
            self.counters.worker_wait_successes = self.counters.worker_wait_successes.wrapping_add(1);
        }
        if audit.wait_timed_out {
            self.counters.worker_wait_timeouts = self.counters.worker_wait_timeouts.wrapping_add(1);
        }
    }

    pub fn record_audio_route_latency_us(&mut self, value: u64)
        requires
            old(self).wf(),
        ensures
            final(self).wf(),
            final(self).counters() == old(self).counters(),
            final(self).histograms() == (
                old(self).histograms().0.update(spec_bucket_index(value), bump(old(self).histograms().0[spec_bucket_index(value)])),
                old(self).histograms().1,
                old(self).histograms().2,
            ),
    {
        self.audio_route_latency.record(value);
    }

    /// Counts one processed shared memory block of `frames` frames and its latency.
    pub fn record_shared_memory_process_success(&mut self, frames: u64, latency_us: u64)
        requires
            old(self).wf(),
        ensures
            final(self).wf(),
            final(self).counters() == (MetricsCounters {
                shared_memory_process_blocks: bump(old(self).counters().shared_memory_process_blocks),
                shared_memory_process_frames: bump_by(old(self).counters().shared_memory_process_frames, frames),
                ..old(self).counters()
            }),
            final(self).histograms() == (
                old(self).histograms().0,
                old(self).histograms().1,
                old(self).histograms().2.update(spec_bucket_index(latency_us), bump(old(self).histograms().2[spec_bucket_index(latency_us)])),
            ),
    {
        self.counters.shared_memory_process_blocks = self.counters.shared_memory_process_blocks.wrapping_add(1);
        self.counters.shared_memory_process_frames = self.counters.shared_memory_process_frames.wrapping_add(frames);
        self.shared_memory_process_latency.record(latency_us);
    }

    /// Counts one failed shared memory block and its latency.
    pub fn record_shared_memory_process_failure(&mut self, latency_us: u64)
        requires
            old(self).wf(),
        ensures
            final(self).wf(),
            final(self).counters() == (MetricsCounters {
                shared_memory_process_failures: bump(old(self).counters().shared_memory_process_failures),
                ..old(self).counters()
            }),
            final(self).histograms() == (
                old(self).histograms().0,
                old(self).histograms().1,
                old(self).histograms().2.update(spec_bucket_index(latency_us), bump(old(self).histograms().2[spec_bucket_index(latency_us)])),
            ),
    {
        self.counters.shared_memory_process_failures = self.counters.shared_memory_process_failures.wrapping_add(1);
        self.shared_memory_process_latency.record(latency_us);
    }

    /// Counts sequence gaps, duplicates, reordering and lateness of one audio frame and
    /// records its jitter when it has one.
    pub fn record_audio_stream_observation(&mut self, observation: AudioStreamObservation)
        requires
            old(self).wf(),
        ensures
            final(self).wf(),
            final(self).counters() == (MetricsCounters {
                audio_sequence_gap_events: bump_if(old(self).counters().audio_sequence_gap_events, observation.sequence_gap > 0),
                audio_sequence_gap_frames: if observation.sequence_gap > 0 {
                    bump_by(old(self).counters().audio_sequence_gap_frames, observation.sequence_gap)
                } else {
                    old(self).counters().audio_sequence_gap_frames
                },
                audio_frames_duplicate: bump_if(old(self).counters().audio_frames_duplicate, observation.duplicate),
                audio_frames_out_of_order: bump_if(old(self).counters().audio_frames_out_of_order, observation.out_of_order),
                audio_frames_late: bump_if(old(self).counters().audio_frames_late, observation.late),
                ..old(self).counters()
            }),
            final(self).histograms() == (
                old(self).histograms().0,
                match observation.interarrival_jitter_us {
                    Some(jitter) => old(self).histograms().1.update(spec_bucket_index(jitter), bump(old(self).histograms().1[spec_bucket_index(jitter)])),
                    None => old(self).histograms().1,
                },
                old(self).histograms().2,
            ),
    {
        if observation.sequence_gap > 0 {
            self.counters.audio_sequence_gap_events = self.counters.audio_sequence_gap_events.wrapping_add(1);
            self.counters.audio_sequence_gap_frames = self.counters.audio_sequence_gap_frames.wrapping_add(observation.sequence_gap);
        }
        if observation.duplicate {
            self.counters.audio_frames_duplicate = self.counters.audio_frames_duplicate.wrapping_add(1);
        }
        if observation.out_of_order {
            self.counters.audio_frames_out_of_order = self.counters.audio_frames_out_of_order.wrapping_add(1);
        }
        if observation.late {
            self.counters.audio_frames_late = self.counters.audio_frames_late.wrapping_add(1);
        }
        if let Some(jitter_us) = observation.interarrival_jitter_us {
            self.audio_interarrival_jitter.record(jitter_us);
        }
    }

    pub fn record_shared_memory_pump_events_enqueued(&mut self, events: u64)
        requires
            old(self).wf(),
        ensures
            final(self).wf(),
            final(self).counters() == (MetricsCounters {
                shared_memory_pump_events_enqueued: bump_by(old(self).counters().shared_memory_pump_events_enqueued, events),
                ..old(self).counters()
            }),
            final(self).histograms() == old(self).histograms(),
    {
        self.counters.shared_memory_pump_events_enqueued = self.counters.shared_memory_pump_events_enqueued.wrapping_add(events);
    }

    /// Counts drained pump events, `late_events` of which were drained after their target iteration.
    pub fn record_shared_memory_pump_events_drained(&mut self, events: u64, late_events: u64)
        requires
            old(self).wf(),
        ensures
            final(self).wf(),
            final(self).counters() == (MetricsCounters {
                shared_memory_pump_events_drained: bump_by(old(self).counters().shared_memory_pump_events_drained, events),
                shared_memory_pump_events_late: bump_by(old(self).counters().shared_memory_pump_events_late, late_events),
                ..old(self).counters()
            }),
            final(self).histograms() == old(self).histograms(),
    {
        self.counters.shared_memory_pump_events_drained = self.counters.shared_memory_pump_events_drained.wrapping_add(events);
        self.counters.shared_memory_pump_events_late = self.counters.shared_memory_pump_events_late.wrapping_add(late_events);
    }

    pub fn record_shared_memory_pump_events_dropped(&mut self, events: u64)
        requires
            old(self).wf(),
        ensures
            final(self).wf(),
            final(self).counters() == (MetricsCounters {
                shared_memory_pump_events_dropped: bump_by(old(self).counters().shared_memory_pump_events_dropped, events),
                ..old(self).counters()
            }),
            final(self).histograms() == old(self).histograms(),
    {
        self.counters.shared_memory_pump_events_dropped = self.counters.shared_memory_pump_events_dropped.wrapping_add(events);
    }

    pub fn record_shared_memory_pump_events_cleared(&mut self, events: u64)
        requires
            old(self).wf(),
        ensures
            final(self).wf(),
            final(self).counters() == (MetricsCounters {
                shared_memory_pump_events_cleared: bump_by(old(self).counters().shared_memory_pump_events_cleared, events),
                ..old(self).counters()
            }),
            final(self).histograms() == old(self).histograms(),
    {
        self.counters.shared_memory_pump_events_cleared = self.counters.shared_memory_pump_events_cleared.wrapping_add(events);
    }

    /// Every counter and histogram as it stands; the uptime is read from the clock.
    pub fn snapshot(&self) -> (snapshot: BridgeMetricsSnapshot)
        requires
            self.wf(),
        ensures
            snapshot_counters_match(snapshot, self.counters()),
            describes_histogram(snapshot.audio_route_latency, self.histograms().0),
            describes_histogram(snapshot.audio_interarrival_jitter, self.histograms().1),
            describes_histogram(snapshot.shared_memory_process_latency, self.histograms().2),
    {
        let counters = self.counters;
        BridgeMetricsSnapshot {
            uptime_ms: crate::clock::elapsed_millis(&self.started_at),
            websocket_connections: counters.websocket_connections,
            control_messages: counters.control_messages,
            binary_frames: counters.binary_frames,
            audio_frames_routed: counters.audio_frames_routed,
            audio_frame_fallbacks: counters.audio_frame_fallbacks,
            audio_frame_route_failures: counters.audio_frame_route_failures,
            audio_frame_invalid_headers: counters.audio_frame_invalid_headers,
            audio_frame_invalid_lengths: counters.audio_frame_invalid_lengths,
            audio_frame_unmatched_streams: counters.audio_frame_unmatched_streams,
            hello_requests: counters.hello_requests,
            worker_failures: counters.worker_failures,
            worker_restarts: counters.worker_restarts,
            worker_auto_restarts: counters.worker_auto_restarts,
            worker_shutdowns: counters.worker_shutdowns,
            worker_kill_requests: counters.worker_kill_requests,
            worker_tree_kill_requests: counters.worker_tree_kill_requests,
            worker_forced_kill_requests: counters.worker_forced_kill_requests,
            worker_wait_successes: counters.worker_wait_successes,
            worker_wait_timeouts: counters.worker_wait_timeouts,
            audio_sequence_gap_events: counters.audio_sequence_gap_events,
            audio_sequence_gap_frames: counters.audio_sequence_gap_frames,
            audio_frames_duplicate: counters.audio_frames_duplicate,
            audio_frames_out_of_order: counters.audio_frames_out_of_order,
            audio_frames_late: counters.audio_frames_late,
            audio_backpressure_drops: counters.audio_backpressure_drops,
            shared_memory_process_blocks: counters.shared_memory_process_blocks,
            shared_memory_process_frames: counters.shared_memory_process_frames,
            shared_memory_process_failures: counters.shared_memory_process_failures,
            shared_memory_pump_overruns: counters.shared_memory_pump_overruns,
            shared_memory_pump_preflight_skips: counters.shared_memory_pump_preflight_skips,
            shared_memory_pump_input_underruns: counters.shared_memory_pump_input_underruns,
            shared_memory_pump_output_backpressure: counters.shared_memory_pump_output_backpressure,
            shared_memory_pump_worker_errors: counters.shared_memory_pump_worker_errors,
            shared_memory_pump_events_enqueued: counters.shared_memory_pump_events_enqueued,
            shared_memory_pump_events_drained: counters.shared_memory_pump_events_drained,
            shared_memory_pump_events_late: counters.shared_memory_pump_events_late,
            shared_memory_pump_events_dropped: counters.shared_memory_pump_events_dropped,
            shared_memory_pump_events_cleared: counters.shared_memory_pump_events_cleared,
            audio_route_latency: self.audio_route_latency.snapshot(),
            audio_interarrival_jitter: self.audio_interarrival_jitter.snapshot(),
            shared_memory_process_latency: self.shared_memory_process_latency.snapshot(),
        }
    }
}

/// A read-only handle that takes snapshots of shared metrics.
#[derive(Debug, Clone)]
pub struct BridgeMetricsHandle {
    metrics: std::sync::Arc<BridgeMetrics>,
}

impl BridgeMetricsHandle {
    pub closed spec fn wf(&self) -> bool {
        self.metrics.wf()
    }

    pub closed spec fn counters(&self) -> MetricsCounters {
        self.metrics.counters()
    }

    pub closed spec fn histograms(&self) -> (Seq<u64>, Seq<u64>, Seq<u64>) {
        self.metrics.histograms()
    }

    pub fn new(metrics: std::sync::Arc<BridgeMetrics>) -> (handle: Self)
        ensures
            handle.wf() == metrics.wf(),
            handle.counters() == metrics.counters(),
            handle.histograms() == metrics.histograms(),
    {
        BridgeMetricsHandle { metrics }
    }

    pub fn snapshot(&self) -> (snapshot: BridgeMetricsSnapshot)
        requires
            self.wf(),
        ensures
            snapshot_counters_match(snapshot, self.counters()),
            describes_histogram(snapshot.audio_route_latency, self.histograms().0),
            describes_histogram(snapshot.audio_interarrival_jitter, self.histograms().1),
            describes_histogram(snapshot.shared_memory_process_latency, self.histograms().2),
    {
        self.metrics.snapshot()
    }
}

} // verus!
