use std::collections::BTreeMap;
use vstd::prelude::*;

use serde_json::Value;

use crate::events::{Vst3MetadataInvalidationReason, Vst3MetadataRefreshPolicy, Vst3RestartFlags};
use crate::json::{
    json_array, json_bool_member, json_elements, json_get, json_i64_member, json_is_object, json_member,
    json_member_bool, json_member_i64, json_member_text, json_member_u64, json_object, json_string_member,
    json_u64_member,
};

verus! {

broadcast use vstd::std_specs::btree::group_btree_axioms;

/// The part of a component handler event that decides whether and how it is published.
#[derive(Debug, Clone, Copy, PartialEq, Eq)]
pub struct ComponentHandlerEventHeader {
    pub sequence: u64,
    pub restart_flags: Option<Vst3RestartFlags>,
}

/// A run of handler events that the worker's recent-events window no longer holds.
#[derive(Debug, Clone, Copy, PartialEq, Eq)]
pub struct ComponentHandlerEventsLost {
    pub from_sequence: u64,
    pub to_sequence: u64,
    pub lost_count: u64,
}

/// What to publish for one snapshot: the lost run, if any, then the new events, by their
/// positions in the snapshot's recent events.
#[derive(Debug, Clone, PartialEq, Eq)]
pub struct ComponentHandlerPublication {
    pub lost: Option<ComponentHandlerEventsLost>,
    pub events: Vec<usize>,
}

/// The metadata a restart request makes stale, and what the host has to redo.
#[derive(Debug, Clone, PartialEq, Eq)]
pub struct Vst3MetadataInvalidation {
    pub reasons: Vec<Vst3MetadataInvalidationReason>,
    pub refresh_policy: Vst3MetadataRefreshPolicy,
}

/// A 32-bit signed member, when the member is a number that fits.
pub open spec fn spec_json_i32(value: Value, key: Seq<char>) -> Option<i32> {
    match json_member_i64(value, key) {
        Some(n) => if i32::MIN <= n <= i32::MAX {
            Some(n as i32)
        } else {
            None
        },
        None => None,
    }
}

fn json_i32(value: &Value, key: &str) -> (number: Option<i32>)
    ensures
        number == spec_json_i32(*value, key@),
{
    match json_i64_member(value, key) {
        Some(n) => if i32::MIN as i64 <= n && n <= i32::MAX as i64 {
            Some(n as i32)
        } else {
            None
        },
        None => None,
    }
}

/// The restart flags a worker reports, when every flag is a boolean and the raw and unknown
/// bits are 32-bit numbers.
pub open spec fn spec_restart_flags(value: Value) -> Option<Vst3RestartFlags> {
    let flag = |key: Seq<char>| json_member_bool(value, key);
    if spec_json_i32(value, "raw"@) is Some && flag("reloadComponent"@) is Some && flag("ioChanged"@) is Some
        && flag("paramValuesChanged"@) is Some && flag("latencyChanged"@) is Some && flag(
        "paramTitlesChanged"@,
    ) is Some && flag("midiCcAssignmentChanged"@) is Some && flag("noteExpressionChanged"@) is Some && flag(
        "ioTitlesChanged"@,
    ) is Some && flag("prefetchableSupportChanged"@) is Some && flag("routingInfoChanged"@) is Some && flag(
        "keyswitchChanged"@,
    ) is Some && flag("paramIdMappingChanged"@) is Some && spec_json_i32(value, "unknownBits"@) is Some {
        Some(
            Vst3RestartFlags {
                raw: spec_json_i32(value, "raw"@)->0,
                reload_component: flag("reloadComponent"@)->0,
                io_changed: flag("ioChanged"@)->0,
                param_values_changed: flag("paramValuesChanged"@)->0,
                latency_changed: flag("latencyChanged"@)->0,
                param_titles_changed: flag("paramTitlesChanged"@)->0,
                midi_cc_assignment_changed: flag("midiCcAssignmentChanged"@)->0,
                note_expression_changed: flag("noteExpressionChanged"@)->0,
                io_titles_changed: flag("ioTitlesChanged"@)->0,
                prefetchable_support_changed: flag("prefetchableSupportChanged"@)->0,
                routing_info_changed: flag("routingInfoChanged"@)->0,
                keyswitch_changed: flag("keyswitchChanged"@)->0,
                param_id_mapping_changed: flag("paramIdMappingChanged"@)->0,
                unknown_bits: spec_json_i32(value, "unknownBits"@)->0,
            },
        )
    } else {
        None
    }
}

/// Reads the restart flags of a component handler event.
pub fn restart_flags(value: &Value) -> (flags: Option<Vst3RestartFlags>)
    ensures
        flags == spec_restart_flags(*value),
{
    let raw = json_i32(value, "raw")?;
    let reload_component = json_bool_member(value, "reloadComponent")?;
    let io_changed = json_bool_member(value, "ioChanged")?;
    let param_values_changed = json_bool_member(value, "paramValuesChanged")?;
    let latency_changed = json_bool_member(value, "latencyChanged")?;
    let param_titles_changed = json_bool_member(value, "paramTitlesChanged")?;
    let midi_cc_assignment_changed = json_bool_member(value, "midiCcAssignmentChanged")?;
    let note_expression_changed = json_bool_member(value, "noteExpressionChanged")?;
    let io_titles_changed = json_bool_member(value, "ioTitlesChanged")?;
    let prefetchable_support_changed = json_bool_member(value, "prefetchableSupportChanged")?;
    let routing_info_changed = json_bool_member(value, "routingInfoChanged")?;
    let keyswitch_changed = json_bool_member(value, "keyswitchChanged")?;
    let param_id_mapping_changed = json_bool_member(value, "paramIdMappingChanged")?;
    let unknown_bits = json_i32(value, "unknownBits")?;
    Some(
        Vst3RestartFlags {
            raw,
            reload_component,
            io_changed,
            param_values_changed,
            latency_changed,
            param_titles_changed,
            midi_cc_assignment_changed,
            note_expression_changed,
            io_titles_changed,
            prefetchable_support_changed,
            routing_info_changed,
            keyswitch_changed,
            param_id_mapping_changed,
            unknown_bits,
        },
    )
}

/// A component handler event the worker reports: the part that decides its publication, its
/// kind, and the whole event as the worker wrote it.
#[derive(Debug, Clone)]
pub struct ComponentHandlerEvent {
    pub header: ComponentHandlerEventHeader,
    pub kind: String,
    pub value: Value,
}

impl View for ComponentHandlerEvent {
    type V = (ComponentHandlerEventHeader, Seq<char>, Value);

    open spec fn view(&self) -> (ComponentHandlerEventHeader, Seq<char>, Value) {
        (self.header, self.kind@, self.value)
    }
}

/// The component handler part of a worker's metrics for one stream: the worker's event total
/// and the recent events it still holds.
#[derive(Debug, Clone)]
pub struct ComponentHandlerSnapshot {
    pub total_events: u64,
    pub recent_events: Vec<ComponentHandlerEvent>,
}

impl View for ComponentHandlerSnapshot {
    type V = (u64, Seq<(ComponentHandlerEventHeader, Seq<char>, Value)>);

    open spec fn view(&self) -> (u64, Seq<(ComponentHandlerEventHeader, Seq<char>, Value)>) {
        (self.total_events, self.recent_events@.map_values(|event: ComponentHandlerEvent| event@))
    }
}

/// An event of the worker's recent events: read when it has a numeric `sequence` and a text
/// `kind`; its restart flags are read from `restartFlags` when they are complete.
pub open spec fn spec_handler_event(value: Value) -> Option<(ComponentHandlerEventHeader, Seq<char>, Value)> {
    match (json_member_u64(value, "sequence"@), json_member_text(value, "kind"@)) {
        (Some(sequence), Some(kind)) => Some(
            (
                ComponentHandlerEventHeader {
                    sequence,
                    restart_flags: match json_member(value, "restartFlags"@) {
                        Some(flags) => spec_restart_flags(flags),
                        None => None,
                    },
                },
                kind,
                value,
            ),
        ),
        _ => None,
    }
}

/// The events that can be read, in the worker's order; the others are left out.
pub open spec fn spec_handler_events(values: Seq<Value>) -> Seq<(ComponentHandlerEventHeader, Seq<char>, Value)>
    decreases values.len(),
{
    if values.len() == 0 {
        Seq::empty()
    } else {
        spec_handler_events(values.drop_last()) + match spec_handler_event(values.last()) {
            Some(event) => seq![event],
            None => Seq::empty(),
        }
    }
}

/// The first runtime entry, from position `i` on, whose `streamId` is the stream.
pub open spec fn stream_entry_from(entries: Seq<Value>, stream_id: u64, i: int) -> Option<Value>
    decreases entries.len() - i,
{
    if i < 0 || i >= entries.len() {
        None
    } else if json_member_u64(entries[i], "streamId"@) == Some(stream_id) {
        Some(entries[i])
    } else {
        stream_entry_from(entries, stream_id, i + 1)
    }
}

/// The component handler snapshot of a stream in a worker's metrics: the first entry of the
/// `runtime` array for the stream, whose `diagnostics.componentHandler` is an object with a
/// numeric `totalEvents` and an array `recentEvents`; none when any of these is missing.
pub open spec fn spec_component_handler_snapshot(worker_metrics: Value, stream_id: u64) -> Option<
    (u64, Seq<(ComponentHandlerEventHeader, Seq<char>, Value)>),
> {
    match json_member(worker_metrics, "runtime"@) {
        Some(runtime) => match json_elements(runtime) {
            Some(entries) => match stream_entry_from(entries, stream_id, 0) {
                Some(entry) => match json_member(entry, "diagnostics"@) {
                    Some(diagnostics) => match json_member(diagnostics, "componentHandler"@) {
                        Some(handler) => if json_is_object(handler) {
                            match (json_member_u64(handler, "totalEvents"@), json_member(handler, "recentEvents"@)) {
                                (Some(total), Some(recent)) => match json_elements(recent) {
                                    Some(values) => Some((total, spec_handler_events(values))),
                                    None => None,
                                },
                                _ => None,
                            }
                        } else {
                            None
                        },
                        None => None,
                    },
                    None => None,
                },
                None => None,
            },
            None => None,
        },
        None => None,
    }
}

fn handler_event(value: &Value) -> (event: Option<ComponentHandlerEvent>)
    ensures
        match event {
            Some(found) => spec_handler_event(*value) == Some(found@),
            None => spec_handler_event(*value) is None,
        },
{
    let sequence = json_u64_member(value, "sequence")?;
    let kind = json_string_member(value, "kind")?;
    let restart = match json_get(value, "restartFlags") {
        Some(flags) => restart_flags(&flags),
        None => None,
    };
    Some(
        ComponentHandlerEvent {
            header: ComponentHandlerEventHeader { sequence, restart_flags: restart },
            kind,
            value: value.clone(),
        },
    )
}

fn stream_entry(entries: &Vec<Value>, stream_id: u64) -> (entry: Option<Value>)
    ensures
        entry == stream_entry_from(entries@, stream_id, 0),
{
    let mut index: usize = 0;
    while index < entries.len()
        invariant
            index <= entries@.len(),
            stream_entry_from(entries@, stream_id, 0) == stream_entry_from(entries@, stream_id, index as int),
        decreases entries@.len() - index,
    {
        if json_u64_member(&entries[index], "streamId") == Some(stream_id) {
            return Some(entries[index].clone());
        }
        index = index + 1;
    }
    None
}

/// Reads the component handler snapshot of a stream from a worker's metrics.
pub fn component_handler_snapshot(worker_metrics: &Value, stream_id: u64) -> (snapshot: Option<
    ComponentHandlerSnapshot,
>)
    ensures
        match snapshot {
            Some(found) => spec_component_handler_snapshot(*worker_metrics, stream_id) == Some(found@),
            None => spec_component_handler_snapshot(*worker_metrics, stream_id) is None,
        },
{
    let runtime = json_get(worker_metrics, "runtime")?;
    let entries = json_array(&runtime)?;
    let entry = stream_entry(&entries, stream_id)?;
    let diagnostics = json_get(&entry, "diagnostics")?;
    let handler = json_get(&diagnostics, "componentHandler")?;
    if !json_object(&handler) {
        return None;
    }
    let total_events = json_u64_member(&handler, "totalEvents")?;
    let recent = json_get(&handler, "recentEvents")?;
    let values = json_array(&recent)?;
    let mut recent_events: Vec<ComponentHandlerEvent> = Vec::new();
    let mut index: usize = 0;
    while index < values.len()
        invariant
            index <= values@.len(),
            recent_events@.map_values(|event: ComponentHandlerEvent| event@) == spec_handler_events(
                values@.take(index as int),
            ),
        decreases values@.len() - index,
    {
        let event = handler_event(&values[index]);
        proof {
            assert(values@.take(index + 1).drop_last() =~= values@.take(index as int));
            assert(values@.take(index + 1).last() == values@[index as int]);
        }
        match event {
            Some(found) => {
                recent_events.push(found);
            },
            None => {},
        }
        proof {
            assert(recent_events@.map_values(|event: ComponentHandlerEvent| event@) =~= spec_handler_events(
                values@.take(index + 1),
            ));
        }
        index = index + 1;
    }
    proof {
        assert(values@.take(index as int) =~= values@);
    }
    Some(ComponentHandlerSnapshot { total_events, recent_events })
}

/// `reasons` with `reason` added when `condition` holds.
pub open spec fn push_if(
    reasons: Seq<Vst3MetadataInvalidationReason>,
    condition: bool,
    reason: Vst3MetadataInvalidationReason,
) -> Seq<Vst3MetadataInvalidationReason> {
    if condition {
        reasons.push(reason)
    } else {
        reasons
    }
}

/// The reasons a restart request gives, in a fixed order.
pub open spec fn spec_invalidation_reasons(flags: Vst3RestartFlags) -> Seq<Vst3MetadataInvalidationReason> {
    let r = push_if(Seq::empty(), flags.reload_component, Vst3MetadataInvalidationReason::ReloadComponent);
    let r = push_if(r, flags.io_changed || flags.io_titles_changed, Vst3MetadataInvalidationReason::AudioIo);
    let r = push_if(r, flags.param_values_changed, Vst3MetadataInvalidationReason::ParameterValues);
    let r = push_if(
        r,
        flags.param_titles_changed || flags.param_id_mapping_changed,
        Vst3MetadataInvalidationReason::ParameterInfo,
    );
    let r = push_if(r, flags.latency_changed, Vst3MetadataInvalidationReason::Latency);
    let r = push_if(r, flags.midi_cc_assignment_changed, Vst3MetadataInvalidationReason::MidiMapping);
    let r = push_if(r, flags.note_expression_changed, Vst3MetadataInvalidationReason::NoteExpression);
    let r = push_if(r, flags.routing_info_changed, Vst3MetadataInvalidationReason::RoutingInfo);
    let r = push_if(r, flags.prefetchable_support_changed, Vst3MetadataInvalidationReason::PrefetchableSupport);
    push_if(r, flags.keyswitch_changed, Vst3MetadataInvalidationReason::Keyswitches)
}

/// A component reload outranks an audio graph rebuild, which outranks a metadata refresh.
pub open spec fn spec_refresh_policy(flags: Vst3RestartFlags) -> Vst3MetadataRefreshPolicy {
    if flags.reload_component {
        Vst3MetadataRefreshPolicy::ReloadComponent
    } else if flags.io_changed || flags.io_titles_changed || flags.routing_info_changed {
        Vst3MetadataRefreshPolicy::RebuildAudioGraph
    } else {
        Vst3MetadataRefreshPolicy::RefreshMetadata
    }
}

pub fn metadata_invalidation_reasons(restart_flags: Vst3RestartFlags) -> (reasons: Vec<Vst3MetadataInvalidationReason>)
    ensures
        reasons@ == spec_invalidation_reasons(restart_flags),
{
    let f = restart_flags;
    let mut reasons: Vec<Vst3MetadataInvalidationReason> = Vec::new();
    if f.reload_component {
        reasons.push(Vst3MetadataInvalidationReason::ReloadComponent);
    }
    if f.io_changed || f.io_titles_changed {
        reasons.push(Vst3MetadataInvalidationReason::AudioIo);
    }
    if f.param_values_changed {
        reasons.push(Vst3MetadataInvalidationReason::ParameterValues);
    }
    if f.param_titles_changed || f.param_id_mapping_changed {
        reasons.push(Vst3MetadataInvalidationReason::ParameterInfo);
    }
    if f.latency_changed {
        reasons.push(Vst3MetadataInvalidationReason::Latency);
    }
    if f.midi_cc_assignment_changed {
        reasons.push(Vst3MetadataInvalidationReason::MidiMapping);
    }
    if f.note_expression_changed {
        reasons.push(Vst3MetadataInvalidationReason::NoteExpression);
    }
    if f.routing_info_changed {
        reasons.push(Vst3MetadataInvalidationReason::RoutingInfo);
    }
    if f.prefetchable_support_changed {
        reasons.push(Vst3MetadataInvalidationReason::PrefetchableSupport);
    }
    if f.keyswitch_changed {
        reasons.push(Vst3MetadataInvalidationReason::Keyswitches);
    }
    reasons
}

pub fn metadata_refresh_policy(restart_flags: Vst3RestartFlags) -> (policy: Vst3MetadataRefreshPolicy)
    ensures
        policy == spec_refresh_policy(restart_flags),
{
    if restart_flags.reload_component {
        return Vst3MetadataRefreshPolicy::ReloadComponent;
    }
    if restart_flags.io_changed || restart_flags.io_titles_changed || restart_flags.routing_info_changed {
        return Vst3MetadataRefreshPolicy::RebuildAudioGraph;
    }
    Vst3MetadataRefreshPolicy::RefreshMetadata
}

/// The invalidation a restart request announces; none when it gives no reason.
pub fn metadata_invalidation(restart_flags: Vst3RestartFlags) -> (invalidation: Option<Vst3MetadataInvalidation>)
    ensures
        spec_invalidation_reasons(restart_flags).len() == 0 <==> invalidation is None,
        invalidation matches Some(found) ==> (found.reasons@ == spec_invalidation_reasons(restart_flags)
            && found.refresh_policy == spec_refresh_policy(restart_flags)),
{
    let reasons = metadata_invalidation_reasons(restart_flags);
    if reasons.len() == 0 {
        None
    } else {
        Some(Vst3MetadataInvalidation { reasons, refresh_policy: metadata_refresh_policy(restart_flags) })
    }
}

/// The last total an instance was seen at, forgotten when the worker's count went back.
pub open spec fn spec_last_seen(last_sequences: Map<u64, u64>, instance_id: u64, total_events: u64) -> u64 {
    let seen = if last_sequences.contains_key(instance_id) {
        last_sequences[instance_id]
    } else {
        0
    };
    if total_events < seen {
        0
    } else {
        seen
    }
}

/// The positions, among the first `n` recent events, of those newer than `last_seen`, in order.
pub open spec fn new_event_indices(recent: Seq<ComponentHandlerEventHeader>, last_seen: u64, n: int) -> Seq<usize>
    decreases n,
{
    if n <= 0 {
        Seq::empty()
    } else {
        new_event_indices(recent, last_seen, n - 1) + if recent[n - 1].sequence > last_seen {
            seq![(n - 1) as usize]
        } else {
            Seq::empty()
        }
    }
}

/// The run between the last event seen and the first new one, when there is a hole.
pub open spec fn spec_lost(last_seen: u64, first_sequence: u64) -> Option<ComponentHandlerEventsLost> {
    if first_sequence > last_seen + 1 {
        Some(
            ComponentHandlerEventsLost {
                from_sequence: (last_seen + 1) as u64,
                to_sequence: (first_sequence - 1) as u64,
                lost_count: (first_sequence - last_seen - 1) as u64,
            },
        )
    } else {
        None
    }
}

/// What publishing a snapshot of an instance does: nothing is published when the worker has
/// no events, and the instance is forgotten if its count went back; otherwise the total is
/// remembered and the events newer than the total seen last time are published, preceded by
/// the run of events lost in between, if any.
pub open spec fn publish_effect(
    before: Map<u64, u64>,
    instance_id: u64,
    total_events: u64,
    recent: Seq<ComponentHandlerEventHeader>,
    after: Map<u64, u64>,
    publication: Option<ComponentHandlerPublication>,
) -> bool {
    &&& total_events == 0 ==> publication is None && after == if before.contains_key(instance_id) && 0
        < before[instance_id] {
        before.remove(instance_id)
    } else {
        before
    }
    &&& total_events > 0 ==> ({
        let last_seen = spec_last_seen(before, instance_id, total_events);
        let indices = new_event_indices(recent, last_seen, recent.len() as int);
        &&& after == before.insert(instance_id, total_events)
        &&& indices.len() == 0 ==> publication is None
        &&& indices.len() > 0 ==> (publication matches Some(found) && found.events@ == indices && found.lost
            == spec_lost(last_seen, recent[indices[0] as int].sequence))
    })
}

/// Publishes each component handler event of an instance once: it remembers, per instance,
/// the worker's event total at the last snapshot.
#[derive(Debug)]
pub struct ComponentHandlerEventPublisher {
    last_sequences: BTreeMap<u64, u64>,
}

impl ComponentHandlerEventPublisher {
    /// The event total last seen of each instance.
    pub closed spec fn last_sequences(&self) -> Map<u64, u64> {
        self.last_sequences@
    }

    pub fn new() -> (publisher: Self)
        ensures
            publisher.last_sequences() == Map::<u64, u64>::empty(),
    {
        ComponentHandlerEventPublisher { last_sequences: BTreeMap::new() }
    }

    /// Forgets what was seen of an instance.
    pub fn reset_instance(&mut self, instance_id: u64)
        ensures
            final(self).last_sequences() == old(self).last_sequences().remove(instance_id),
    {
        self.last_sequences.remove(&instance_id);
    }

    fn reset_if_worker_sequence_restarted(&mut self, instance_id: u64, total_events: u64)
        ensures
            final(self).last_sequences() == if old(self).last_sequences().contains_key(instance_id)
                && total_events < old(self).last_sequences()[instance_id] {
                old(self).last_sequences().remove(instance_id)
            } else {
                old(self).last_sequences()
            },
    {
        let restarted = match self.last_sequences.get(&instance_id) {
            Some(last_seen) => total_events < *last_seen,
            None => false,
        };
        if restarted {
            self.last_sequences.remove(&instance_id);
        }
    }

    fn new_events(
        &mut self,
        instance_id: u64,
        total_events: u64,
        recent_events: &Vec<ComponentHandlerEventHeader>,
    ) -> (found: (u64, Vec<usize>))
        ensures
            found.0 == spec_last_seen(old(self).last_sequences(), instance_id, total_events),
            found.1@ == new_event_indices(recent_events@, found.0, recent_events@.len() as int),
            final(self).last_sequences() == old(self).last_sequences().insert(instance_id, total_events),
    {
        let seen = match self.last_sequences.get(&instance_id) {
            Some(seen) => *seen,
            None => 0,
        };
        let last_seen = if total_events < seen {
            0
        } else {
            seen
        };
        let mut indices: Vec<usize> = Vec::new();
        let mut index: usize = 0;
        while index < recent_events.len()
            invariant
                index <= recent_events@.len(),
                indices@ == new_event_indices(recent_events@, last_seen, index as int),
            decreases recent_events@.len() - index,
        {
            if recent_events[index].sequence > last_seen {
                indices.push(index);
            }
            proof {
                assert(indices@ =~= new_event_indices(recent_events@, last_seen, index + 1));
            }
            index = index + 1;
        }
        self.last_sequences.insert(instance_id, total_events);
        (last_seen, indices)
    }

    /// Reads the component handler snapshot of the instance's stream from the worker's
    /// metrics and decides what to publish for it: nothing, and nothing changes, when the
    /// metrics hold no snapshot for the stream; otherwise what `publish` does with the
    /// snapshot's total and events. The snapshot comes back with the publication, whose
    /// positions are positions of its recent events.
    pub fn publish_from_worker_metrics(
        &mut self,
        instance_id: u64,
        stream_id: u64,
        worker_metrics: &Value,
    ) -> (published: Option<(ComponentHandlerSnapshot, ComponentHandlerPublication)>)
        ensures
            spec_component_handler_snapshot(*worker_metrics, stream_id) is None ==> published is None
                && final(self).last_sequences() == old(self).last_sequences(),
            spec_component_handler_snapshot(*worker_metrics, stream_id) matches Some(
                found,
            ) ==> publish_effect(
                old(self).last_sequences(),
                instance_id,
                found.0,
                found.1.map_values(|event: (ComponentHandlerEventHeader, Seq<char>, Value)| event.0),
                final(self).last_sequences(),
                match published {
                    Some(both) => Some(both.1),
                    None => None,
                },
            ) && (published matches Some(both) ==> both.0@ == found),
    {
        let snapshot = match component_handler_snapshot(worker_metrics, stream_id) {
            Some(snapshot) => snapshot,
            None => return None,
        };
        let mut headers: Vec<ComponentHandlerEventHeader> = Vec::new();
        let mut index: usize = 0;
        while index < snapshot.recent_events.len()
            invariant
                index <= snapshot.recent_events@.len(),
                headers@.len() == index,
                forall|i: int| 0 <= i < index ==> #[trigger] headers@[i] == snapshot.recent_events@[i].header,
            decreases snapshot.recent_events@.len() - index,
        {
            headers.push(snapshot.recent_events[index].header);
            index = index + 1;
        }
        proof {
            let events = snapshot@.1;
            assert(headers@ =~= events.map_values(|event: (ComponentHandlerEventHeader, Seq<char>, Value)| event.0));
        }
        match self.publish(instance_id, snapshot.total_events, &headers) {
            Some(publication) => Some((snapshot, publication)),
            None => None,
        }
    }

    /// Decides what to publish for a snapshot of an instance's component handler: nothing
    /// when the worker has no events (forgetting the instance if its count went back);
    /// otherwise the events newer than the total seen last time, preceded by the run of
    /// events that were lost in between, if any. The total is remembered either way.
    pub fn publish(
        &mut self,
        instance_id: u64,
        total_events: u64,
        recent_events: &Vec<ComponentHandlerEventHeader>,
    ) -> (publication: Option<ComponentHandlerPublication>)
        ensures
            publish_effect(
                old(self).last_sequences(),
                instance_id,
                total_events,
                recent_events@,
                final(self).last_sequences(),
                publication,
            ),
    {
        if total_events == 0 {
            self.reset_if_worker_sequence_restarted(instance_id, 0);
            return None;
        }
        let snapshot_len = recent_events.len();
        let (last_seen, indices) = self.new_events(instance_id, total_events, recent_events);
        if indices.len() == 0 {
            return None;
        }
        proof {
            lemma_new_event_indices_bounded(recent_events@, last_seen, snapshot_len as int);
        }
        let first_sequence = recent_events[indices[0]].sequence;
        let lost = if first_sequence > last_seen.saturating_add(1) {
            let from_sequence = last_seen.saturating_add(1);
            let to_sequence = first_sequence.saturating_sub(1);
            Some(
                ComponentHandlerEventsLost {
                    from_sequence,
                    to_sequence,
                    lost_count: to_sequence.saturating_sub(from_sequence).saturating_add(1),
                },
            )
        } else {
            None
        };
        Some(ComponentHandlerPublication { lost, events: indices })
    }
}

/// Every position listed is a position of the snapshot, and its event is newer than `last_seen`.
pub proof fn lemma_new_event_indices_bounded(recent: Seq<ComponentHandlerEventHeader>, last_seen: u64, n: int)
    requires
        0 <= n <= recent.len(),
        recent.len() <= usize::MAX,
    ensures
        forall|k: int|
            0 <= k < new_event_indices(recent, last_seen, n).len() ==> #[trigger] new_event_indices(
                recent,
                last_seen,
                n,
            )[k] < n && recent[new_event_indices(recent, last_seen, n)[k] as int].sequence > last_seen,
    decreases n,
{
    if n > 0 {
        lemma_new_event_indices_bounded(recent, last_seen, n - 1);
        let prev = new_event_indices(recent, last_seen, n - 1);
        let cur = new_event_indices(recent, last_seen, n);
        assert forall|k: int| 0 <= k < cur.len() implies cur[k] < n && recent[cur[k] as int].sequence > last_seen by {
            if k < prev.len() {
                assert(cur[k] == prev[k]);
            } else {
                assert(cur[k] == (n - 1) as usize);
            }
        }
    }
}

/// No event is newer than a total at least as large as every sequence of the snapshot.
pub proof fn lemma_no_new_events_after_total(recent: Seq<ComponentHandlerEventHeader>, last_seen: u64, n: int)
    requires
        0 <= n <= recent.len(),
        forall|i: int| 0 <= i < recent.len() ==> (#[trigger] recent[i]).sequence <= last_seen,
    ensures
        new_event_indices(recent, last_seen, n).len() == 0,
    decreases n,
{
    if n > 0 {
        lemma_no_new_events_after_total(recent, last_seen, n - 1);
        assert(new_event_indices(recent, last_seen, n) =~= new_event_indices(recent, last_seen, n - 1));
    }
}

/// Each event is published once: after a snapshot whose events are all numbered up to its
/// total has been published, publishing the same snapshot again publishes nothing.
pub proof fn lemma_publish_once(
    last_sequences: Map<u64, u64>,
    instance_id: u64,
    total_events: u64,
    recent: Seq<ComponentHandlerEventHeader>,
)
    requires
        total_events > 0,
        forall|i: int| 0 <= i < recent.len() ==> (#[trigger] recent[i]).sequence <= total_events,
    ensures
        new_event_indices(
            recent,
            spec_last_seen(last_sequences.insert(instance_id, total_events), instance_id, total_events),
            recent.len() as int,
        ).len() == 0,
{
    assert(spec_last_seen(last_sequences.insert(instance_id, total_events), instance_id, total_events) == total_events);
    lemma_no_new_events_after_total(recent, total_events, recent.len() as int);
}

/// Without a component reload, a change of audio inputs or outputs, of their titles, or of
/// the routing rebuilds the audio graph; only when none of these four flags is set is a
/// metadata refresh enough. A reload outranks everything.
pub proof fn lemma_refresh_policy_flags(flags: Vst3RestartFlags)
    ensures
        flags.reload_component ==> spec_refresh_policy(flags) == Vst3MetadataRefreshPolicy::ReloadComponent,
        !flags.reload_component && (flags.io_changed || flags.io_titles_changed || flags.routing_info_changed)
            ==> spec_refresh_policy(flags) == Vst3MetadataRefreshPolicy::RebuildAudioGraph,
        spec_refresh_policy(flags) == Vst3MetadataRefreshPolicy::RefreshMetadata <==> !flags.reload_component
            && !flags.io_changed && !flags.io_titles_changed && !flags.routing_info_changed,
{
}

} // verus!
