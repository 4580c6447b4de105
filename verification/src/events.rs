use std::collections::VecDeque;
use vstd::prelude::*;

verus! {

/// The kind a VST3 component handler callback reports, as the worker names it.
#[derive(Debug, Clone, PartialEq, Eq)]
pub struct Vst3ComponentHandlerEventKind(pub String);

/// What part of a plugin's metadata a restart request makes stale.
#[derive(Debug, Clone, Copy, PartialEq, Eq, Structural)]
pub enum Vst3MetadataInvalidationReason {
    ReloadComponent,
    AudioIo,
    ParameterValues,
    ParameterInfo,
    Latency,
    MidiMapping,
    NoteExpression,
    RoutingInfo,
    PrefetchableSupport,
    Keyswitches,
}

/// How much a host has to redo after a restart request.
#[derive(Debug, Clone, Copy, PartialEq, Eq, Structural)]
pub enum Vst3MetadataRefreshPolicy {
    RefreshMetadata,
    RebuildAudioGraph,
    ReloadComponent,
}

/// Why a worker is being brought back.
#[derive(Debug, Clone, Copy, PartialEq, Eq, Structural)]
pub enum WorkerRecoveryMode {
    ManualRestart,
    AutoHeartbeat,
}

/// The flags of a VST3 `restartComponent` request, decoded.
#[derive(Debug, Clone, Copy, PartialEq, Eq, Structural)]
pub struct Vst3RestartFlags {
    pub raw: i32,
    pub reload_component: bool,
    pub io_changed: bool,
    pub param_values_changed: bool,
    pub latency_changed: bool,
    pub param_titles_changed: bool,
    pub midi_cc_assignment_changed: bool,
    pub note_expression_changed: bool,
    pub io_titles_changed: bool,
    pub prefetchable_support_changed: bool,
    pub routing_info_changed: bool,
    pub keyswitch_changed: bool,
    pub param_id_mapping_changed: bool,
    pub unknown_bits: i32,
}

/// How many past events the bridge keeps for clients that ask for them.
pub const RECENT_EVENT_LIMIT: usize = 512;

/// An event as published: its sequence number and what happened.
#[derive(Debug, Clone)]
pub struct BridgeEvent<K> {
    pub sequence: u64,
    pub kind: K,
}

/// The most recent events, numbered in the order they were emitted.
#[derive(Debug)]
pub struct RecentEventLog<K> {
    next_sequence: u64,
    recent: VecDeque<BridgeEvent<K>>,
}

/// The events after `after`, in order (all of them without a bound).
pub open spec fn events_after<K>(events: Seq<BridgeEvent<K>>, after: Option<u64>) -> Seq<BridgeEvent<K>>
    decreases events.len(),
{
    if events.len() == 0 {
        Seq::empty()
    } else {
        let rest = events_after(events.drop_last(), after);
        match after {
            Some(bound) if events.last().sequence <= bound => rest,
            _ => rest.push(events.last()),
        }
    }
}

impl<K> RecentEventLog<K> {
    pub closed spec fn events(&self) -> Seq<BridgeEvent<K>> {
        self.recent@
    }

    pub closed spec fn next_sequence(&self) -> u64 {
        self.next_sequence
    }

    /// No more than `RECENT_EVENT_LIMIT` events are kept.
    pub open spec fn wf(&self) -> bool {
        self.events().len() <= RECENT_EVENT_LIMIT
    }

    pub fn new() -> (log: Self)
        ensures
            log.wf(),
            log.events() == Seq::<BridgeEvent<K>>::empty(),
            log.next_sequence() == 1,
    {
        RecentEventLog { next_sequence: 1, recent: VecDeque::new() }
    }

    /// Numbers an event with the next sequence number (wrapping, as an atomic counter does)
    /// and keeps it, dropping the oldest event when the log is full.
    pub fn emit(&mut self, kind: K) -> (sequence: u64)
        requires
            old(self).wf(),
        ensures
            final(self).wf(),
            sequence == old(self).next_sequence(),
            final(self).next_sequence() == vstd::wrapping::u64_specs::wrapping_add(old(self).next_sequence(), 1),
            final(self).events() == if old(self).events().len() >= RECENT_EVENT_LIMIT {
                old(self).events().skip(1)
            } else {
                old(self).events()
            }.push(BridgeEvent { sequence, kind }),
    {
        let sequence = self.next_sequence;
        self.next_sequence = self.next_sequence.wrapping_add(1);
        let ghost before = self.recent@;
        if self.recent.len() >= RECENT_EVENT_LIMIT {
            self.recent.pop_front();
            assert(self.recent@ =~= before.skip(1));
        }
        self.recent.push_back(BridgeEvent { sequence, kind });
        sequence
    }

    /// The kept events after `after_sequence` (all of them without one), oldest first.
    pub fn recent_since(&self, after_sequence: Option<u64>) -> (events: Vec<&BridgeEvent<K>>)
        ensures
            events@.map_values(|event: &BridgeEvent<K>| *event) == events_after(self.events(), after_sequence),
    {
        let mut events: Vec<&BridgeEvent<K>> = Vec::new();
        let mut index: usize = 0;
        while index < self.recent.len()
            invariant
                index <= self.recent@.len(),
                events@.map_values(|event: &BridgeEvent<K>| *event) == events_after(
                    self.recent@.take(index as int),
                    after_sequence,
                ),
            decreases self.recent@.len() - index,
        {
            let event = &self.recent[index];
            proof {
                assert(self.recent@.take(index + 1).drop_last() =~= self.recent@.take(index as int));
            }
            let keep = match after_sequence {
                Some(after) => event.sequence > after,
                None => true,
            };
            if keep {
                events.push(event);
            }
            proof {
                assert(events@.map_values(|event: &BridgeEvent<K>| *event) =~= events_after(
                    self.recent@.take(index + 1),
                    after_sequence,
                ));
            }
            index = index + 1;
        }
        proof {
            assert(self.recent@.take(index as int) =~= self.recent@);
        }
        events
    }
}

/// Every event a log returns for a bound comes after it.
pub proof fn lemma_events_after_are_newer<K>(events: Seq<BridgeEvent<K>>, after: u64)
    ensures
        forall|i: int|
            0 <= i < events_after(events, Some(after)).len() ==> #[trigger] events_after(events, Some(after))[i].sequence
                > after,
    decreases events.len(),
{
    if events.len() > 0 {
        lemma_events_after_are_newer(events.drop_last(), after);
        let rest = events_after(events.drop_last(), Some(after));
        let all = events_after(events, Some(after));
        assert forall|i: int| 0 <= i < all.len() implies #[trigger] all[i].sequence > after by {
            if i < rest.len() {
                assert(all[i] == rest[i]);
            }
        }
    }
}

/// Without a bound a log returns every event it keeps.
pub proof fn lemma_events_after_none<K>(events: Seq<BridgeEvent<K>>)
    ensures
        events_after(events, None) == events,
    decreases events.len(),
{
    if events.len() > 0 {
        lemma_events_after_none(events.drop_last());
        assert(events.drop_last().push(events.last()) =~= events);
    }
}

} // verus!
