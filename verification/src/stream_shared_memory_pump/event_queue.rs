use serde_json::Value;
use vstd::prelude::*;
use vstd::std_specs::iter::IteratorSpec;

verus! {

pub const DEFAULT_MAX_QUEUED_EVENTS: u32 = 1024;

pub const MAX_QUEUED_EVENTS_LIMIT: u32 = 65_536;

/// What to do with a batch that does not fit in the queue.
#[derive(Debug, Clone, Copy, PartialEq, Eq)]
pub enum SharedMemoryPumpEventOverflowPolicy {
    Reject,
    DropOldest,
}

impl Default for SharedMemoryPumpEventOverflowPolicy {
    fn default() -> (policy: Self)
        ensures
            policy == SharedMemoryPumpEventOverflowPolicy::Reject,
    {
        SharedMemoryPumpEventOverflowPolicy::Reject
    }
}

/// Parameters of `stream.sharedMemory.pump.enqueueEvents`.
#[derive(Debug, Clone, PartialEq)]
pub struct SharedMemoryPumpEnqueueEventsParams {
    pub instance_id: u64,
    pub target_iteration: Option<u64>,
    pub delay_iterations: Option<u64>,
    pub midi_events: Vec<Value>,
    pub parameter_events: Vec<Value>,
    pub overflow_policy: SharedMemoryPumpEventOverflowPolicy,
}

/// Parameters of `stream.sharedMemory.pump.clearEvents`.
#[derive(Debug, Clone, PartialEq, Eq)]
pub struct SharedMemoryPumpClearEventsParams {
    pub instance_id: u64,
}

/// The state of a pump's event queue.
#[derive(Debug, Clone, Copy, PartialEq, Eq)]
pub struct SharedMemoryPumpEventQueueStatus {
    pub max_queued_events: u32,
    pub pending_batches: u64,
    pub pending_events: u64,
    pub pending_midi_events: u64,
    pub pending_parameter_events: u64,
    pub next_sequence: u64,
    pub oldest_target_iteration: Option<u64>,
    pub newest_target_iteration: Option<u64>,
    pub enqueued_batches: u64,
    pub enqueued_events: u64,
    pub drained_batches: u64,
    pub drained_events: u64,
    pub late_batches: u64,
    pub late_events: u64,
    pub dropped_batches: u64,
    pub dropped_events: u64,
    pub cleared_batches: u64,
    pub cleared_events: u64,
}

/// The answer to an accepted batch.
#[derive(Debug, Clone, Copy, PartialEq, Eq)]
pub struct SharedMemoryPumpEnqueueEventsResult {
    pub instance_id: u64,
    pub target_iteration: u64,
    pub sequence: u64,
    pub queued_events: u64,
    pub queued_midi_events: u64,
    pub queued_parameter_events: u64,
    pub dropped_events: u64,
    pub dropped_batches: u64,
    pub status: SharedMemoryPumpEventQueueStatus,
}

/// The answer to a cleared queue.
#[derive(Debug, Clone, Copy, PartialEq, Eq)]
pub struct SharedMemoryPumpClearEventsResult {
    pub instance_id: u64,
    pub cleared_events: u64,
    pub cleared_batches: u64,
    pub status: SharedMemoryPumpEventQueueStatus,
}

/// Why a batch was refused.
#[derive(Debug, Clone, Copy, PartialEq, Eq)]
pub enum SharedMemoryPumpEventQueueError {
    EmptyBatch,
    BatchExceedsCapacity { requested_events: u64, max_queued_events: u32 },
    CapacityExceeded { queued_events: u64, requested_events: u64, max_queued_events: u32 },
}

/// A batch of events waiting for its target iteration.
#[derive(Debug)]
pub struct SharedMemoryPumpQueuedEventBatch {
    target_iteration: u64,
    sequence: u64,
    midi_events: Vec<Value>,
    parameter_events: Vec<Value>,
}

/// A queued batch as a mathematical value.
pub struct QueuedBatch {
    pub target_iteration: u64,
    pub sequence: u64,
    pub midi_events: Seq<Value>,
    pub parameter_events: Seq<Value>,
}

impl View for SharedMemoryPumpQueuedEventBatch {
    type V = QueuedBatch;

    closed spec fn view(&self) -> QueuedBatch {
        QueuedBatch {
            target_iteration: self.target_iteration,
            sequence: self.sequence,
            midi_events: self.midi_events@,
            parameter_events: self.parameter_events@,
        }
    }
}

/// The events an iteration takes from the queue.
#[derive(Debug)]
pub struct SharedMemoryPumpEventDrain {
    pub midi_events: Vec<Value>,
    pub parameter_events: Vec<Value>,
    pub batches: u64,
    pub events: u64,
    pub late_batches: u64,
    pub late_events: u64,
}

/// The number of events of a batch: the sum of its two lists, saturated at `usize::MAX`.
pub open spec fn spec_event_count(midi_events: nat, parameter_events: nat) -> nat {
    if midi_events + parameter_events > usize::MAX {
        usize::MAX as nat
    } else {
        midi_events + parameter_events
    }
}

pub fn event_count(midi_events: usize, parameter_events: usize) -> (count: u64)
    ensures
        count == spec_event_count(midi_events as nat, parameter_events as nat),
{
    let sum = midi_events.saturating_add(parameter_events);
    sum as u64
}

pub open spec fn batch_events(batch: QueuedBatch) -> nat {
    spec_event_count(batch.midi_events.len(), batch.parameter_events.len())
}

/// Sum of `f` over the batches.
pub open spec fn batch_sum(batches: Seq<QueuedBatch>, f: spec_fn(QueuedBatch) -> nat) -> nat
    decreases batches.len(),
{
    if batches.len() == 0 {
        0
    } else {
        batch_sum(batches.drop_last(), f) + f(batches.last())
    }
}

/// The concatenation of `f` over the batches.
pub open spec fn batch_flatten(batches: Seq<QueuedBatch>, f: spec_fn(QueuedBatch) -> Seq<Value>) -> Seq<Value>
    decreases batches.len(),
{
    if batches.len() == 0 {
        Seq::empty()
    } else {
        batch_flatten(batches.drop_last(), f) + f(batches.last())
    }
}

pub open spec fn events_of(batch: QueuedBatch) -> nat {
    batch_events(batch)
}

pub open spec fn midi_of(batch: QueuedBatch) -> Seq<Value> {
    batch.midi_events
}

pub open spec fn parameters_of(batch: QueuedBatch) -> Seq<Value> {
    batch.parameter_events
}

/// Total number of events of the batches.
pub open spec fn total_events(batches: Seq<QueuedBatch>) -> nat {
    batch_sum(batches, |b: QueuedBatch| events_of(b))
}

pub proof fn lemma_sum_concat(a: Seq<QueuedBatch>, b: Seq<QueuedBatch>, f: spec_fn(QueuedBatch) -> nat)
    ensures
        batch_sum(a + b, f) == batch_sum(a, f) + batch_sum(b, f),
    decreases b.len(),
{
    if b.len() == 0 {
        assert(a + b =~= a);
    } else {
        lemma_sum_concat(a, b.drop_last(), f);
        assert((a + b).drop_last() =~= a + b.drop_last());
        assert((a + b).last() == b.last());
    }
}

pub proof fn lemma_flatten_concat(a: Seq<QueuedBatch>, b: Seq<QueuedBatch>, f: spec_fn(QueuedBatch) -> Seq<Value>)
    ensures
        batch_flatten(a + b, f) == batch_flatten(a, f) + batch_flatten(b, f),
    decreases b.len(),
{
    if b.len() == 0 {
        assert(a + b =~= a);
        assert(batch_flatten(a, f) + batch_flatten(b, f) =~= batch_flatten(a, f));
    } else {
        lemma_flatten_concat(a, b.drop_last(), f);
        assert((a + b).drop_last() =~= a + b.drop_last());
        assert((a + b).last() == b.last());
        assert(batch_flatten(a + b, f) =~= batch_flatten(a, f) + batch_flatten(b, f));
    }
}

pub proof fn lemma_sum_single(b: QueuedBatch, f: spec_fn(QueuedBatch) -> nat)
    ensures
        batch_sum(seq![b], f) == f(b),
{
    assert(seq![b].drop_last() =~= Seq::<QueuedBatch>::empty());
    assert(batch_sum(Seq::<QueuedBatch>::empty(), f) == 0);
    assert(seq![b].last() == b);
}

/// The sum over a prefix grows by the next element.
pub proof fn lemma_sum_take(s: Seq<QueuedBatch>, i: int, f: spec_fn(QueuedBatch) -> nat)
    requires
        0 <= i < s.len(),
    ensures
        batch_sum(s.take(i + 1), f) == batch_sum(s.take(i), f) + f(s[i]),
{
    assert(s.take(i + 1).drop_last() =~= s.take(i));
}

pub proof fn lemma_flatten_take(s: Seq<QueuedBatch>, i: int, f: spec_fn(QueuedBatch) -> Seq<Value>)
    requires
        0 <= i < s.len(),
    ensures
        batch_flatten(s.take(i + 1), f) == batch_flatten(s.take(i), f) + f(s[i]),
{
    assert(s.take(i + 1).drop_last() =~= s.take(i));
}

/// Splitting off the first batch.
pub proof fn lemma_sum_front(s: Seq<QueuedBatch>, f: spec_fn(QueuedBatch) -> nat)
    requires
        s.len() > 0,
    ensures
        batch_sum(s, f) == f(s[0]) + batch_sum(s.skip(1), f),
{
    lemma_sum_concat(seq![s[0]], s.skip(1), f);
    lemma_sum_single(s[0], f);
    assert(seq![s[0]] + s.skip(1) =~= s);
}

/// `a` sorts no later than `b`: by target iteration, then by sequence number.
pub open spec fn key_le(a: QueuedBatch, b: QueuedBatch) -> bool {
    a.target_iteration < b.target_iteration || (a.target_iteration == b.target_iteration && a.sequence <= b.sequence)
}

pub open spec fn sorted(batches: Seq<QueuedBatch>) -> bool {
    forall|i: int, j: int| 0 <= i < j < batches.len() ==> key_le(batches[i], batches[j])
}

/// Where a new batch goes: after every batch that sorts no later than it.
pub open spec fn insert_position(batches: Seq<QueuedBatch>, batch: QueuedBatch, index: int) -> int
    decreases batches.len() - index,
{
    if index < 0 || index >= batches.len() {
        batches.len() as int
    } else if !key_le(batches[index], batch) {
        index
    } else {
        insert_position(batches, batch, index + 1)
    }
}

pub open spec fn spec_insert(batches: Seq<QueuedBatch>, batch: QueuedBatch) -> Seq<QueuedBatch> {
    let p = insert_position(batches, batch, 0);
    batches.take(p) + seq![batch] + batches.skip(p)
}

/// What the search for an insert position finds: every batch before it sorts no later than the
/// new batch, and the batch at it (if any) sorts after.
pub proof fn lemma_insert_position(batches: Seq<QueuedBatch>, batch: QueuedBatch, index: int)
    requires
        0 <= index <= batches.len(),
        forall|i: int| 0 <= i < index ==> key_le(#[trigger] batches[i], batch),
    ensures
        index <= insert_position(batches, batch, index) <= batches.len(),
        forall|i: int| 0 <= i < insert_position(batches, batch, index) ==> key_le(#[trigger] batches[i], batch),
        insert_position(batches, batch, index) < batches.len() ==> !key_le(
            batches[insert_position(batches, batch, index)],
            batch,
        ),
    decreases batches.len() - index,
{
    if index < batches.len() && key_le(batches[index], batch) {
        lemma_insert_position(batches, batch, index + 1);
    }
}

/// Inserting into a sorted queue keeps it sorted and adds the batch's events to the total.
pub proof fn lemma_insert_sorted(batches: Seq<QueuedBatch>, batch: QueuedBatch)
    requires
        sorted(batches),
    ensures
        sorted(spec_insert(batches, batch)),
        total_events(spec_insert(batches, batch)) == total_events(batches) + events_of(batch),
        spec_insert(batches, batch).len() == batches.len() + 1,
{
    lemma_insert_position(batches, batch, 0);
    let p = insert_position(batches, batch, 0);
    let result = spec_insert(batches, batch);
    assert forall|i: int, j: int| 0 <= i < j < result.len() implies key_le(result[i], result[j]) by {
        if j < p {
            assert(result[i] == batches[i] && result[j] == batches[j]);
        } else if j == p {
            assert(result[i] == batches[i]);
        } else if i < p {
            assert(result[i] == batches[i] && result[j] == batches[j - 1]);
            assert(key_le(batches[i], batch));
            assert(!key_le(batches[p], batch));
            assert(key_le(batches[p], batches[j - 1]));
        } else if i == p {
            assert(result[j] == batches[j - 1]);
            assert(!key_le(batches[p], batch));
            assert(key_le(batches[p], batches[j - 1]));
        } else {
            assert(result[i] == batches[i - 1] && result[j] == batches[j - 1]);
        }
    }
    let f = |b: QueuedBatch| events_of(b);
    lemma_sum_concat(batches.take(p) + seq![batch], batches.skip(p), f);
    lemma_sum_concat(batches.take(p), seq![batch], f);
    lemma_sum_single(batch, f);
    lemma_sum_concat(batches.take(p), batches.skip(p), f);
    assert(batches.take(p) + batches.skip(p) =~= batches);
}

/// How many batches, oldest first, must go before `incoming` more events fit in `max`.
pub open spec fn drop_count(batches: Seq<QueuedBatch>, incoming: nat, max: nat, dropped: int) -> int
    decreases batches.len() - dropped,
{
    if dropped < 0 || dropped >= batches.len() || total_events(batches.skip(dropped)) + incoming <= max {
        if dropped < 0 { 0 } else { dropped }
    } else {
        drop_count(batches, incoming, max, dropped + 1)
    }
}

/// How many leading batches are due at `iteration`.
pub open spec fn ready_count(batches: Seq<QueuedBatch>, iteration: u64, index: int) -> int
    decreases batches.len() - index,
{
    if index < 0 || index >= batches.len() || batches[index].target_iteration > iteration {
        if index < 0 { 0 } else { index }
    } else {
        ready_count(batches, iteration, index + 1)
    }
}

/// A prefix and the rest add up to the whole.
pub proof fn lemma_sum_split(s: Seq<QueuedBatch>, i: int, f: spec_fn(QueuedBatch) -> nat)
    requires
        0 <= i <= s.len(),
    ensures
        batch_sum(s, f) == batch_sum(s.take(i), f) + batch_sum(s.skip(i), f),
{
    lemma_sum_concat(s.take(i), s.skip(i), f);
    assert(s.take(i) + s.skip(i) =~= s);
}

/// What the search for due batches finds: the batches before it are due, the one at it is not.
pub proof fn lemma_ready_count(batches: Seq<QueuedBatch>, iteration: u64, index: int)
    requires
        0 <= index <= batches.len(),
        forall|i: int| 0 <= i < index ==> (#[trigger] batches[i]).target_iteration <= iteration,
    ensures
        index <= ready_count(batches, iteration, index) <= batches.len(),
        forall|i: int|
            0 <= i < ready_count(batches, iteration, index) ==> (#[trigger] batches[i]).target_iteration
                <= iteration,
        ready_count(batches, iteration, index) < batches.len() ==> batches[ready_count(
            batches,
            iteration,
            index,
        )].target_iteration > iteration,
    decreases batches.len() - index,
{
    if index < batches.len() && batches[index].target_iteration <= iteration {
        lemma_ready_count(batches, iteration, index + 1);
    }
}

pub open spec fn sat_add(a: u64, b: int) -> u64 {
    if a + b > u64::MAX { u64::MAX } else if a + b < 0 { 0 } else { (a + b) as u64 }
}

/// Lifetime counters of a queue.
#[derive(Debug, Clone, Copy, Default, PartialEq, Eq)]
pub struct QueueCounters {
    pub enqueued_batches: u64,
    pub enqueued_events: u64,
    pub drained_batches: u64,
    pub drained_events: u64,
    pub late_batches: u64,
    pub late_events: u64,
    pub dropped_batches: u64,
    pub dropped_events: u64,
    pub cleared_batches: u64,
    pub cleared_events: u64,
}

pub open spec fn saturating_sum(batches: Seq<QueuedBatch>, f: spec_fn(QueuedBatch) -> nat) -> u64 {
    if batch_sum(batches, f) > u64::MAX { u64::MAX } else { batch_sum(batches, f) as u64 }
}

pub open spec fn midi_count(batch: QueuedBatch) -> nat {
    batch.midi_events.len()
}

pub open spec fn parameter_count(batch: QueuedBatch) -> nat {
    batch.parameter_events.len()
}

/// The status a queue reports.
pub open spec fn spec_status(
    max_queued_events: u32,
    pending: Seq<QueuedBatch>,
    next_sequence: u64,
    counters: QueueCounters,
) -> SharedMemoryPumpEventQueueStatus {
    SharedMemoryPumpEventQueueStatus {
        max_queued_events,
        pending_batches: pending.len() as u64,
        pending_events: total_events(pending) as u64,
        pending_midi_events: saturating_sum(pending, |b: QueuedBatch| midi_count(b)),
        pending_parameter_events: saturating_sum(pending, |b: QueuedBatch| parameter_count(b)),
        next_sequence,
        oldest_target_iteration: if pending.len() > 0 { Some(pending[0].target_iteration) } else { None },
        newest_target_iteration: if pending.len() > 0 { Some(pending.last().target_iteration) } else { None },
        enqueued_batches: counters.enqueued_batches,
        enqueued_events: counters.enqueued_events,
        drained_batches: counters.drained_batches,
        drained_events: counters.drained_events,
        late_batches: counters.late_batches,
        late_events: counters.late_events,
        dropped_batches: counters.dropped_batches,
        dropped_events: counters.dropped_events,
        cleared_batches: counters.cleared_batches,
        cleared_events: counters.cleared_events,
    }
}


pub open spec fn is_late(batch: QueuedBatch, iteration: u64) -> bool {
    batch.target_iteration < iteration
}

pub open spec fn late_batch_count(iteration: u64) -> spec_fn(QueuedBatch) -> nat {
    |b: QueuedBatch| if is_late(b, iteration) { 1nat } else { 0nat }
}

pub open spec fn late_event_count(iteration: u64) -> spec_fn(QueuedBatch) -> nat {
    |b: QueuedBatch| if is_late(b, iteration) { events_of(b) } else { 0nat }
}

pub open spec fn zero_queue_counters() -> QueueCounters {
    QueueCounters {
        enqueued_batches: 0,
        enqueued_events: 0,
        drained_batches: 0,
        drained_events: 0,
        late_batches: 0,
        late_events: 0,
        dropped_batches: 0,
        dropped_events: 0,
        cleared_batches: 0,
        cleared_events: 0,
    }
}

/// Why a batch of `incoming` events would be refused, if it would.
pub open spec fn enqueue_refusal(
    pending: Seq<QueuedBatch>,
    max_queued_events: u32,
    incoming: nat,
    overflow_policy: SharedMemoryPumpEventOverflowPolicy,
) -> Option<SharedMemoryPumpEventQueueError> {
    if incoming == 0 {
        Some(SharedMemoryPumpEventQueueError::EmptyBatch)
    } else if incoming > max_queued_events {
        Some(
            SharedMemoryPumpEventQueueError::BatchExceedsCapacity {
                requested_events: incoming as u64,
                max_queued_events,
            },
        )
    } else if total_events(pending) + incoming > max_queued_events && overflow_policy
        == SharedMemoryPumpEventOverflowPolicy::Reject {
        Some(
            SharedMemoryPumpEventQueueError::CapacityExceeded {
                queued_events: total_events(pending) as u64,
                requested_events: incoming as u64,
                max_queued_events,
            },
        )
    } else {
        None
    }
}

/// The batch an accepted enqueue adds.
pub open spec fn queued_batch(
    target_iteration: u64,
    sequence: u64,
    midi_events: Seq<Value>,
    parameter_events: Seq<Value>,
) -> QueuedBatch {
    QueuedBatch { target_iteration, sequence, midi_events, parameter_events }
}

/// Events that were dropped to make room.
#[derive(Debug, Clone, Copy, Default, PartialEq, Eq)]
pub struct DroppedEvents {
    pub batches: u64,
    pub events: u64,
}

/// The events a pump holds for future iterations, ordered by target iteration and then by
/// arrival, and never more than `max_queued_events` of them.
#[derive(Debug)]
pub struct SharedMemoryPumpEventQueue {
    max_queued_events: u32,
    pending: Vec<SharedMemoryPumpQueuedEventBatch>,
    pending_events: u64,
    next_sequence: u64,
    counters: QueueCounters,
}

/// What an enqueue does: a refused batch leaves the queue as it was; an accepted one drops
/// the oldest batches that the policy lets go, inserts the batch in order and reports it.
pub open spec fn enqueue_effect(
    before: SharedMemoryPumpEventQueue,
    after: SharedMemoryPumpEventQueue,
    target_iteration: u64,
    midi_events: Seq<Value>,
    parameter_events: Seq<Value>,
    overflow_policy: SharedMemoryPumpEventOverflowPolicy,
    result: Result<SharedMemoryPumpEnqueueEventsResult, SharedMemoryPumpEventQueueError>,
) -> bool {
    let incoming = spec_event_count(midi_events.len(), parameter_events.len());
    let refusal = enqueue_refusal(
        before.pending(),
        before.max_queued_events(),
        incoming,
        overflow_policy,
    );
    let dropped = drop_count(before.pending(), incoming, before.max_queued_events() as nat, 0);
    let dropped_events = total_events(before.pending().take(dropped));
    let batch = queued_batch(target_iteration, before.next_sequence(), midi_events, parameter_events);
    &&& refusal is Some ==> result == Err::<SharedMemoryPumpEnqueueEventsResult, SharedMemoryPumpEventQueueError>(
        refusal->0,
    ) && after == before
    &&& refusal is None ==> {
        &&& after.pending() == spec_insert(before.pending().skip(dropped), batch)
        &&& after.next_sequence() == sat_add(before.next_sequence(), 1)
        &&& after.counters() == (QueueCounters {
            enqueued_batches: sat_add(before.counters().enqueued_batches, 1),
            enqueued_events: sat_add(before.counters().enqueued_events, incoming as int),
            dropped_batches: sat_add(before.counters().dropped_batches, dropped),
            dropped_events: sat_add(before.counters().dropped_events, dropped_events as int),
            ..before.counters()
        })
        &&& result == Ok::<SharedMemoryPumpEnqueueEventsResult, SharedMemoryPumpEventQueueError>(
            SharedMemoryPumpEnqueueEventsResult {
                instance_id: 0,
                target_iteration,
                sequence: before.next_sequence(),
                queued_events: incoming as u64,
                queued_midi_events: midi_events.len() as u64,
                queued_parameter_events: parameter_events.len() as u64,
                dropped_events: dropped_events as u64,
                dropped_batches: dropped as u64,
                status: after.spec_status_of(),
            },
        )
    }
}

/// What draining at `iteration` does: the leading batches that are due leave the queue, their
/// events come out in queue order, and the drained and late counters grow by them.
pub open spec fn drain_effect(
    before: SharedMemoryPumpEventQueue,
    after: SharedMemoryPumpEventQueue,
    iteration: u64,
    drain: SharedMemoryPumpEventDrain,
) -> bool {
    let ready = before.pending().take(ready_count(before.pending(), iteration, 0));
    &&& after.pending() == before.pending().skip(ready_count(before.pending(), iteration, 0))
    &&& drain.midi_events@ == batch_flatten(ready, |b: QueuedBatch| midi_of(b))
    &&& drain.parameter_events@ == batch_flatten(ready, |b: QueuedBatch| parameters_of(b))
    &&& drain.batches == ready.len()
    &&& drain.events == total_events(ready)
    &&& drain.late_batches == batch_sum(ready, late_batch_count(iteration))
    &&& drain.late_events == batch_sum(ready, late_event_count(iteration))
    &&& after.counters() == (QueueCounters {
        drained_batches: sat_add(before.counters().drained_batches, ready.len() as int),
        drained_events: sat_add(before.counters().drained_events, total_events(ready) as int),
        late_batches: sat_add(before.counters().late_batches, drain.late_batches as int),
        late_events: sat_add(before.counters().late_events, drain.late_events as int),
        ..before.counters()
    })
}

impl SharedMemoryPumpEventQueue {
    /// The waiting batches, in the order they will be drained.
    pub closed spec fn pending(&self) -> Seq<QueuedBatch> {
        self.pending@.map_values(|b: SharedMemoryPumpQueuedEventBatch| b@)
    }

    pub closed spec fn max_queued_events(&self) -> u32 {
        self.max_queued_events
    }

    pub closed spec fn next_sequence(&self) -> u64 {
        self.next_sequence
    }

    pub closed spec fn counters(&self) -> QueueCounters {
        self.counters
    }

    /// The queue is sorted, holds at most `max_queued_events` events, and knows how many.
    pub closed spec fn wf(&self) -> bool {
        &&& sorted(self.pending())
        &&& total_events(self.pending()) <= self.max_queued_events
        &&& self.pending_events == total_events(self.pending())
    }

    pub open spec fn spec_status_of(&self) -> SharedMemoryPumpEventQueueStatus {
        spec_status(self.max_queued_events(), self.pending(), self.next_sequence(), self.counters())
    }

    pub fn new(max_queued_events: u32) -> (queue: Self)
        ensures
            queue.wf(),
            queue.pending() == Seq::<QueuedBatch>::empty(),
            queue.max_queued_events() == max_queued_events,
            queue.next_sequence() == 1,
            queue.counters() == zero_queue_counters(),
    {
        let queue = SharedMemoryPumpEventQueue {
            max_queued_events,
            pending: Vec::new(),
            pending_events: 0,
            next_sequence: 1,
            counters: QueueCounters {
                enqueued_batches: 0,
                enqueued_events: 0,
                drained_batches: 0,
                drained_events: 0,
                late_batches: 0,
                late_events: 0,
                dropped_batches: 0,
                dropped_events: 0,
                cleared_batches: 0,
                cleared_events: 0,
            },
        };
        assert(queue.pending() =~= Seq::<QueuedBatch>::empty());
        queue
    }

    /// The queue's status.
    pub fn status(&self) -> (status: SharedMemoryPumpEventQueueStatus)
        requires
            self.wf(),
        ensures
            status == self.spec_status_of(),
    {
        let mut midi: u64 = 0;
        let mut parameters: u64 = 0;
        let mut index: usize = 0;
        let ghost pending = self.pending();
        while index < self.pending.len()
            invariant
                index <= self.pending@.len(),
                pending == self.pending(),
                pending.len() == self.pending@.len(),
                midi == saturating_sum(pending.take(index as int), |b: QueuedBatch| midi_count(b)),
                parameters == saturating_sum(pending.take(index as int), |b: QueuedBatch| parameter_count(b)),
            decreases self.pending@.len() - index,
        {
            let batch = &self.pending[index];
            proof {
                assert(pending[index as int] == batch@);
                lemma_sum_take(pending, index as int, |b: QueuedBatch| midi_count(b));
                lemma_sum_take(pending, index as int, |b: QueuedBatch| parameter_count(b));
            }
            midi = midi.saturating_add(batch.midi_events.len() as u64);
            parameters = parameters.saturating_add(batch.parameter_events.len() as u64);
            index = index + 1;
        }
        assert(pending.take(index as int) =~= pending);
        let count = self.pending.len();
        let oldest = if count > 0 { Some(self.pending[0].target_iteration) } else { None };
        let newest = if count > 0 { Some(self.pending[count - 1].target_iteration) } else { None };
        SharedMemoryPumpEventQueueStatus {
            max_queued_events: self.max_queued_events,
            pending_batches: count as u64,
            pending_events: self.pending_events,
            pending_midi_events: midi,
            pending_parameter_events: parameters,
            next_sequence: self.next_sequence,
            oldest_target_iteration: oldest,
            newest_target_iteration: newest,
            enqueued_batches: self.counters.enqueued_batches,
            enqueued_events: self.counters.enqueued_events,
            drained_batches: self.counters.drained_batches,
            drained_events: self.counters.drained_events,
            late_batches: self.counters.late_batches,
            late_events: self.counters.late_events,
            dropped_batches: self.counters.dropped_batches,
            dropped_events: self.counters.dropped_events,
            cleared_batches: self.counters.cleared_batches,
            cleared_events: self.counters.cleared_events,
        }
    }

    /// Drops every waiting batch and gives how many batches and events went.
    pub fn clear(&mut self) -> (cleared: (u64, u64))
        requires
            old(self).wf(),
        ensures
            final(self).wf(),
            cleared == (old(self).pending().len() as u64, total_events(old(self).pending()) as u64),
            final(self).pending() == Seq::<QueuedBatch>::empty(),
            final(self).max_queued_events() == old(self).max_queued_events(),
            final(self).next_sequence() == old(self).next_sequence(),
            final(self).counters() == (QueueCounters {
                cleared_batches: sat_add(old(self).counters().cleared_batches, old(self).pending().len() as int),
                cleared_events: sat_add(old(self).counters().cleared_events, total_events(old(self).pending()) as int),
                ..old(self).counters()
            }),
    {
        let batches = self.pending.len() as u64;
        let events = self.pending_events;
        self.pending.clear();
        self.pending_events = 0;
        self.counters.cleared_batches = self.counters.cleared_batches.saturating_add(batches);
        self.counters.cleared_events = self.counters.cleared_events.saturating_add(events);
        assert(self.pending() =~= Seq::<QueuedBatch>::empty());
        (batches, events)
    }

    /// Where a batch with the given key goes: after every waiting batch that sorts no later.
    fn insert_index(&self, target_iteration: u64, sequence: u64, batch: Ghost<QueuedBatch>) -> (index: usize)
        requires
            batch@.target_iteration == target_iteration,
            batch@.sequence == sequence,
        ensures
            index == insert_position(self.pending(), batch@, 0),
    {
        let mut index: usize = 0;
        while index < self.pending.len()
            invariant
                index <= self.pending@.len(),
                batch@.target_iteration == target_iteration,
                batch@.sequence == sequence,
                insert_position(self.pending(), batch@, 0) == insert_position(self.pending(), batch@, index as int),
            decreases self.pending@.len() - index,
        {
            let waiting = &self.pending[index];
            proof {
                assert(self.pending()[index as int] == waiting@);
            }
            if waiting.target_iteration > target_iteration || (waiting.target_iteration == target_iteration
                && waiting.sequence > sequence) {
                return index;
            }
            index = index + 1;
        }
        index
    }

    /// Queues a batch for `target_iteration`, making room first as `overflow_policy` says.
    /// Batches come out by target iteration, and in arrival order within one iteration.
    pub fn enqueue(
        &mut self,
        target_iteration: u64,
        midi_events: Vec<Value>,
        parameter_events: Vec<Value>,
        overflow_policy: SharedMemoryPumpEventOverflowPolicy,
    ) -> (result: Result<SharedMemoryPumpEnqueueEventsResult, SharedMemoryPumpEventQueueError>)
        requires
            old(self).wf(),
        ensures
            final(self).wf(),
            final(self).max_queued_events() == old(self).max_queued_events(),
            enqueue_effect(*old(self), *final(self), target_iteration, midi_events@, parameter_events@, overflow_policy, result),
    {
        let incoming_events = event_count(midi_events.len(), parameter_events.len());
        if incoming_events == 0 {
            return Err(SharedMemoryPumpEventQueueError::EmptyBatch);
        }
        if incoming_events > self.max_queued_events as u64 {
            return Err(
                SharedMemoryPumpEventQueueError::BatchExceedsCapacity {
                    requested_events: incoming_events,
                    max_queued_events: self.max_queued_events,
                },
            );
        }
        let ghost before = self.pending();
        proof {
            assert(before.skip(0) =~= before);
            assert(before.take(0) =~= Seq::<QueuedBatch>::empty());
        }
        let dropped = match self.reserve_capacity(incoming_events, overflow_policy) {
            Ok(dropped) => dropped,
            Err(error) => {
                return Err(error);
            },
        };
        let sequence = self.next_sequence;
        self.next_sequence = self.next_sequence.saturating_add(1);
        let queued_midi_events = midi_events.len() as u64;
        let queued_parameter_events = parameter_events.len() as u64;
        let batch = SharedMemoryPumpQueuedEventBatch { target_iteration, sequence, midi_events, parameter_events };
        let ghost kept = self.pending();
        let ghost view = batch@;
        let index = self.insert_index(target_iteration, sequence, Ghost(view));
        proof {
            lemma_insert_position(kept, view, 0);
            lemma_insert_sorted(kept, view);
        }
        self.pending.insert(index, batch);
        proof {
            assert(self.pending() =~= kept.insert(index as int, view));
            assert(kept.insert(index as int, view) =~= spec_insert(kept, view));
        }
        self.pending_events = self.pending_events + incoming_events;
        self.counters.enqueued_batches = self.counters.enqueued_batches.saturating_add(1);
        self.counters.enqueued_events = self.counters.enqueued_events.saturating_add(incoming_events);
        let status = self.status();
        Ok(
            SharedMemoryPumpEnqueueEventsResult {
                instance_id: 0,
                target_iteration,
                sequence,
                queued_events: incoming_events,
                queued_midi_events,
                queued_parameter_events,
                dropped_events: dropped.events,
                dropped_batches: dropped.batches,
                status,
            },
        )
    }

    /// How many leading batches are due at `iteration`.
    fn ready_index(&self, iteration: u64) -> (count: usize)
        ensures
            count == ready_count(self.pending(), iteration, 0),
    {
        let mut index: usize = 0;
        while index < self.pending.len()
            invariant
                index <= self.pending@.len(),
                ready_count(self.pending(), iteration, 0) == ready_count(self.pending(), iteration, index as int),
            decreases self.pending@.len() - index,
        {
            let waiting = &self.pending[index];
            proof {
                assert(self.pending()[index as int] == waiting@);
            }
            if waiting.target_iteration > iteration {
                return index;
            }
            index = index + 1;
        }
        index
    }

    /// Takes every batch due at `iteration` (its target iteration is no later), in queue
    /// order, and counts those that are late (their target iteration is earlier).
    pub fn drain_ready(&mut self, iteration: u64) -> (drain: SharedMemoryPumpEventDrain)
        requires
            old(self).wf(),
        ensures
            final(self).wf(),
            final(self).max_queued_events() == old(self).max_queued_events(),
            final(self).next_sequence() == old(self).next_sequence(),
            drain_effect(*old(self), *final(self), iteration, drain),
    {
        let ghost before = self.pending();
        let ready_count = self.ready_index(iteration);
        proof {
            lemma_ready_count(before, iteration, 0);
            lemma_sum_split(before, ready_count as int, |b: QueuedBatch| events_of(b));
        }
        if ready_count == 0 {
            proof {
                assert(before.skip(0) =~= before);
                assert(before.take(0) =~= Seq::<QueuedBatch>::empty());
                assert(batch_flatten(before.take(0), |b: QueuedBatch| midi_of(b)) =~= Seq::<Value>::empty());
                assert(batch_flatten(before.take(0), |b: QueuedBatch| parameters_of(b)) =~= Seq::<Value>::empty());
            }
            return SharedMemoryPumpEventDrain {
                midi_events: Vec::new(),
                parameter_events: Vec::new(),
                batches: 0,
                events: 0,
                late_batches: 0,
                late_events: 0,
            };
        }
        let mut ready = self.pending.split_off(ready_count);
        std::mem::swap(&mut ready, &mut self.pending);
        let ghost ready_view = before.take(ready_count as int);
        proof {
            assert(self.pending() =~= before.skip(ready_count as int));
            assert(ready@.map_values(|b: SharedMemoryPumpQueuedEventBatch| b@) =~= ready_view);
        }
        let ready_len = ready.len();
        let mut drain = SharedMemoryPumpEventDrain {
            midi_events: Vec::new(),
            parameter_events: Vec::new(),
            batches: 0,
            events: 0,
            late_batches: 0,
            late_events: 0,
        };
        let ghost ready_value = ready;
        let batches = ready.into_iter();
        let ghost all = batches.remaining();
        proof {
            assert(all == vstd::std_specs::vec::spec_into_iter(ready_value).remaining());
            assert(ready_view.take(0) =~= Seq::<QueuedBatch>::empty());
            assert(batch_flatten(ready_view.take(0), |b: QueuedBatch| midi_of(b)) =~= Seq::<Value>::empty());
            assert(batch_flatten(ready_view.take(0), |b: QueuedBatch| parameters_of(b)) =~= Seq::<Value>::empty());
        }
        for batch in it: batches
            invariant
                it.seq() == all,
                all.len() == ready_view.len(),
                ready_view.len() == ready_len,
                forall|i: int| 0 <= i < all.len() ==> (#[trigger] all[i])@ == ready_view[i],
                total_events(ready_view) <= u32::MAX,
                drain.batches == it.index(),
                drain.events == total_events(ready_view.take(it.index())),
                drain.late_batches == batch_sum(ready_view.take(it.index()), late_batch_count(iteration)),
                drain.late_events == batch_sum(ready_view.take(it.index()), late_event_count(iteration)),
                drain.late_batches <= drain.batches,
                drain.late_events <= drain.events,
                drain.midi_events@ == batch_flatten(ready_view.take(it.index()), |b: QueuedBatch| midi_of(b)),
                drain.parameter_events@ == batch_flatten(
                    ready_view.take(it.index()),
                    |b: QueuedBatch| parameters_of(b),
                ),
        {
            let mut batch = batch;
            let ghost index = it.index();
            proof {
                assert(it.seq()[index] == batch);
                assert(ready_view[index] == batch@);
                lemma_sum_take(ready_view, index, |b: QueuedBatch| events_of(b));
                lemma_sum_take(ready_view, index, late_batch_count(iteration));
                lemma_sum_take(ready_view, index, late_event_count(iteration));
                lemma_flatten_take(ready_view, index, |b: QueuedBatch| midi_of(b));
                lemma_flatten_take(ready_view, index, |b: QueuedBatch| parameters_of(b));
                lemma_sum_split(ready_view, index + 1, |b: QueuedBatch| events_of(b));
            }
            let batch_events = event_count(batch.midi_events.len(), batch.parameter_events.len());
            drain.batches = drain.batches + 1;
            drain.events = drain.events + batch_events;
            if batch.target_iteration < iteration {
                drain.late_batches = drain.late_batches + 1;
                drain.late_events = drain.late_events + batch_events;
            }
            drain.midi_events.append(&mut batch.midi_events);
            drain.parameter_events.append(&mut batch.parameter_events);
        }
        proof {
            assert(ready_view.take(ready_view.len() as int) =~= ready_view);
        }
        self.pending_events = self.pending_events - drain.events;
        self.counters.drained_batches = self.counters.drained_batches.saturating_add(drain.batches);
        self.counters.drained_events = self.counters.drained_events.saturating_add(drain.events);
        self.counters.late_batches = self.counters.late_batches.saturating_add(drain.late_batches);
        self.counters.late_events = self.counters.late_events.saturating_add(drain.late_events);
        drain
    }

    /// Makes room for `incoming` events: nothing to do when they fit; otherwise an error
    /// under the reject policy, or the oldest batches dropped until they fit.
    fn reserve_capacity(&mut self, incoming_events: u64, overflow_policy: SharedMemoryPumpEventOverflowPolicy) -> (result:
        Result<DroppedEvents, SharedMemoryPumpEventQueueError>)
        requires
            old(self).wf(),
            incoming_events <= old(self).max_queued_events(),
        ensures
            final(self).wf(),
            final(self).max_queued_events() == old(self).max_queued_events(),
            final(self).next_sequence() == old(self).next_sequence(),
            total_events(old(self).pending()) + incoming_events <= old(self).max_queued_events() ==> result == Ok::<
                DroppedEvents,
                SharedMemoryPumpEventQueueError,
            >(DroppedEvents { batches: 0, events: 0 }) && *final(self) == *old(self),
            total_events(old(self).pending()) + incoming_events > old(self).max_queued_events() && overflow_policy
                == SharedMemoryPumpEventOverflowPolicy::Reject ==> result == Err::<DroppedEvents, SharedMemoryPumpEventQueueError>(
                SharedMemoryPumpEventQueueError::CapacityExceeded {
                    queued_events: total_events(old(self).pending()) as u64,
                    requested_events: incoming_events,
                    max_queued_events: old(self).max_queued_events(),
                },
            ) && *final(self) == *old(self),
            total_events(old(self).pending()) + incoming_events > old(self).max_queued_events() && overflow_policy
                == SharedMemoryPumpEventOverflowPolicy::DropOldest ==> ({
                let dropped = drop_count(old(self).pending(), incoming_events as nat, old(self).max_queued_events() as nat, 0);
                &&& result == Ok::<DroppedEvents, SharedMemoryPumpEventQueueError>(DroppedEvents {
                    batches: dropped as u64,
                    events: total_events(old(self).pending().take(dropped)) as u64,
                })
                &&& final(self).pending() == old(self).pending().skip(dropped)
                &&& final(self).counters() == (QueueCounters {
                    dropped_batches: sat_add(old(self).counters().dropped_batches, dropped),
                    dropped_events: sat_add(old(self).counters().dropped_events, total_events(old(self).pending().take(dropped)) as int),
                    ..old(self).counters()
                })
            }),
            result is Ok ==> total_events(final(self).pending()) + incoming_events <= final(self).max_queued_events(),
    {
        let max_queued_events = self.max_queued_events as u64;
        if self.pending_events + incoming_events <= max_queued_events {
            return Ok(DroppedEvents { batches: 0, events: 0 });
        }
        if matches!(overflow_policy, SharedMemoryPumpEventOverflowPolicy::Reject) {
            return Err(
                SharedMemoryPumpEventQueueError::CapacityExceeded {
                    queued_events: self.pending_events,
                    requested_events: incoming_events,
                    max_queued_events: self.max_queued_events,
                },
            );
        }
        let ghost queued_before = self.pending();
        let ghost max = self.max_queued_events as nat;
        let mut dropped = DroppedEvents { batches: 0, events: 0 };
        let mut count: usize = 0;
        let queued_before_len: usize = self.pending.len();
        proof {
            assert(queued_before.skip(0) =~= queued_before);
            assert(queued_before.take(0) =~= Seq::<QueuedBatch>::empty());
        }
        while self.pending_events + incoming_events > max_queued_events && self.pending.len() > 0
            invariant
                self.wf(),
                self.max_queued_events == max,
                max_queued_events == max,
                incoming_events <= max,
                count <= queued_before.len(),
                self.pending@.len() + count == queued_before.len(),
                queued_before.len() == queued_before_len,
                self.pending() == queued_before.skip(count as int),
                total_events(queued_before) == total_events(queued_before.take(count as int)) + total_events(self.pending()),
                dropped.batches == count,
                dropped.events == total_events(queued_before.take(count as int)),
                drop_count(queued_before, incoming_events as nat, max, 0) == drop_count(queued_before, incoming_events as nat, max, count as int),
                self.next_sequence == old(self).next_sequence,
                self.counters == old(self).counters,
                total_events(queued_before) <= max,
            decreases self.pending@.len(),
        {
            let ghost before = self.pending();
            let batch = self.pending.remove(0);
            let batch_count = event_count(batch.midi_events.len(), batch.parameter_events.len());
            proof {
                assert(before[0] == batch@);
                lemma_sum_front(before, |b: QueuedBatch| events_of(b));
                assert(self.pending() =~= before.skip(1));
                assert(queued_before.skip(count as int).skip(1) =~= queued_before.skip(count as int + 1));
                lemma_sum_take(queued_before, count as int, |b: QueuedBatch| events_of(b));
                assert(queued_before[count as int] == before[0]);
                assert(sorted(self.pending()));
            }
            self.pending_events = self.pending_events - batch_count;
            dropped.batches = dropped.batches + 1;
            dropped.events = dropped.events + batch_count;
            count = count + 1;
        }
        proof {
            if self.pending@.len() == 0 {
                assert(self.pending() =~= Seq::<QueuedBatch>::empty());
            }
            assert(drop_count(queued_before, incoming_events as nat, max, count as int) == count);
        }
        self.counters.dropped_batches = self.counters.dropped_batches.saturating_add(dropped.batches);
        self.counters.dropped_events = self.counters.dropped_events.saturating_add(dropped.events);
        Ok(dropped)
    }
}

} // verus!
