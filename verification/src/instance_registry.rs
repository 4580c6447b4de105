use std::collections::BTreeMap;
use vstd::prelude::*;

use crate::rpc::{text, unsigned, RpcData, RpcValueView};
use vstd::std_specs::iter::IteratorSpec;

use crate::plugin::{PluginClass, PluginDescriptor};
use crate::runtime_capabilities::{spec_default_capabilities, RuntimeCapabilities};
use crate::text::{decimal, push_decimal, push_signed_decimal, push_str, signed_decimal};

pub mod types;

pub use types::{
    copy_optional_string, spec_tail_from_samples, InstanceCreateParams, InstanceDestroyParams,
    InstanceDestroyResult, InstanceError, InstanceParameterParams, InstanceParameterValueByStringParams,
    InstanceProcessingParams, InstanceProgramDataParams, InstanceRecord, InstanceRecordView,
    InstanceRestartParams, InstanceSelectUnitParams, InstanceSetProgramDataParams, InstanceSetStateParams,
    InstanceSetUnitDataParams, InstanceState, InstanceStatusParams, InstanceUnitByBusParams,
    InstanceUnitDataParams, InstanceUnitProgramDataParams, RuntimeTailInfo, RuntimeTailKind,
    StreamLifecycleParams, StreamState, WorkerRuntimeInfo, WorkerState,
};

verus! {

broadcast use vstd::std_specs::btree::group_btree_axioms;

/// The answers of the audio core's own checks on the format of a new instance: whether
/// the sample rate, the block size and the output channel count are accepted, and the
/// largest channel count it supports.
#[derive(Debug, Clone, Copy, PartialEq, Eq)]
pub struct AudioFormatChecks {
    pub sample_rate_valid: bool,
    pub max_block_frames_valid: bool,
    pub output_channels_valid: bool,
    pub max_channel_count: u16,
}

/// The first validation error of creation parameters, if any.
pub open spec fn spec_create_params_error(
    params: InstanceCreateParams,
    checks: AudioFormatChecks,
) -> Option<InstanceError> {
    if params.plugin_id@.len() == 0 {
        Some(InstanceError::InvalidPluginId)
    } else if !checks.sample_rate_valid {
        Some(InstanceError::InvalidSampleRate(params.sample_rate))
    } else if !checks.max_block_frames_valid {
        Some(InstanceError::InvalidMaxBlockFrames(params.max_block_frames))
    } else if params.input_channels > checks.max_channel_count {
        Some(InstanceError::InvalidInputChannels(params.input_channels))
    } else if !checks.output_channels_valid {
        Some(InstanceError::InvalidOutputChannels(params.output_channels))
    } else {
        None
    }
}

pub fn validate_create_params(params: &InstanceCreateParams, checks: AudioFormatChecks) -> (result:
    Result<(), InstanceError>)
    ensures
        match spec_create_params_error(*params, checks) {
            Some(error) => result == Err::<(), InstanceError>(error),
            None => result is Ok,
        },
{
    if params.plugin_id.as_str().is_empty() {
        return Err(InstanceError::InvalidPluginId);
    }
    if !checks.sample_rate_valid {
        return Err(InstanceError::InvalidSampleRate(params.sample_rate));
    }
    if !checks.max_block_frames_valid {
        return Err(InstanceError::InvalidMaxBlockFrames(params.max_block_frames));
    }
    if params.input_channels > checks.max_channel_count {
        return Err(InstanceError::InvalidInputChannels(params.input_channels));
    }
    if !checks.output_channels_valid {
        return Err(InstanceError::InvalidOutputChannels(params.output_channels));
    }
    Ok(())
}

/// The first class of `classes`, from `index` on, whose id is `class_id`.
pub open spec fn class_search(classes: Seq<PluginClass>, class_id: Seq<char>, index: int) -> Option<PluginClass>
    decreases classes.len() - index,
{
    if index < 0 || index >= classes.len() {
        None
    } else if classes[index].class_id matches Some(id) && id@ == class_id {
        Some(classes[index])
    } else {
        class_search(classes, class_id, index + 1)
    }
}

/// The class an instance gets: the first class when none is requested, the first class
/// with the requested id otherwise (possibly none); an empty requested id is an error.
pub open spec fn spec_select_class(classes: Seq<PluginClass>, requested: Option<String>) -> Result<
    Option<PluginClass>,
    InstanceError,
> {
    match requested {
        None => Ok(if classes.len() > 0 { Some(classes[0]) } else { None }),
        Some(id) => if id@.len() == 0 {
            Err(InstanceError::ClassNotFound(id))
        } else {
            Ok(class_search(classes, id@, 0))
        },
    }
}

pub fn select_class<'a>(plugin: &'a PluginDescriptor, requested_class_id: Option<&String>) -> (result:
    Result<Option<&'a PluginClass>, InstanceError>)
    ensures
        match (result, spec_select_class(plugin.classes@, match requested_class_id { Some(id) => Some(*id), None => None })) {
            (Ok(Some(class)), Ok(Some(expected))) => *class == expected,
            (Ok(None), Ok(None)) => true,
            (Err(error), Err(expected)) => error == expected,
            _ => false,
        },
{
    let requested = match requested_class_id {
        None => {
            if plugin.classes.len() > 0 {
                return Ok(Some(&plugin.classes[0]));
            }
            return Ok(None);
        },
        Some(requested) => requested,
    };
    if requested.as_str().is_empty() {
        return Err(InstanceError::ClassNotFound(requested.clone()));
    }
    let mut index: usize = 0;
    while index < plugin.classes.len()
        invariant
            index <= plugin.classes@.len(),
            requested@.len() != 0,
            requested_class_id == Some(requested),
            class_search(plugin.classes@, requested@, 0) == class_search(
                plugin.classes@,
                requested@,
                index as int,
            ),
        decreases plugin.classes@.len() - index,
    {
        let class = &plugin.classes[index];
        if let Some(id) = &class.class_id {
            if *id == *requested {
                assert(class_search(plugin.classes@, requested@, index as int) == Some(plugin.classes@[index as int]));
                assert((match requested_class_id { Some(id) => Some(*id), None => None }) == Some(*requested));
                assert(spec_select_class(plugin.classes@, Some(*requested)) == Ok::<Option<PluginClass>, InstanceError>(Some(plugin.classes@[index as int])));
                return Ok(Some(class));
            }
        }
        index = index + 1;
    }
    Ok(None)
}

/// A closed stream whose instance and worker are both ready or both stopped may be reclaimed.
pub open spec fn spec_is_reclaimable_idle_worker(record: InstanceRecordView) -> bool {
    &&& record.stream_state == StreamState::Closed
    &&& (record.state == InstanceState::Ready || record.state == InstanceState::Stopped)
    &&& (record.worker_state == WorkerState::Ready || record.worker_state == WorkerState::Stopped)
}

pub fn is_reclaimable_idle_worker(record: &InstanceRecord) -> (reclaimable: bool)
    ensures
        reclaimable == spec_is_reclaimable_idle_worker(record@),
{
    matches!(record.stream_state, StreamState::Closed) && matches!(
        record.state,
        InstanceState::Ready | InstanceState::Stopped
    ) && matches!(record.worker_state, WorkerState::Ready | WorkerState::Stopped)
}

/// A search over the records.
pub enum RecordQuery {
    /// The record of a stream.
    StreamId(u64),
    /// The record of a stream that is open.
    OpenStreamId(u64),
    /// An idle worker of the plugin that may be reclaimed, other than the excluded instance.
    ReclaimCandidate { plugin_id: String, exclude_instance_id: u64 },
}

pub open spec fn query_matches(query: RecordQuery, record: InstanceRecordView) -> bool {
    match query {
        RecordQuery::StreamId(stream_id) => record.stream_id == stream_id,
        RecordQuery::OpenStreamId(stream_id) => record.stream_id == stream_id
            && record.stream_state == StreamState::Open,
        RecordQuery::ReclaimCandidate { plugin_id, exclude_instance_id } => {
            &&& record.plugin_id@ == plugin_id@
            &&& record.instance_id != exclude_instance_id
            &&& spec_is_reclaimable_idle_worker(record)
        },
    }
}

fn record_matches(query: &RecordQuery, record: &InstanceRecord) -> (matched: bool)
    ensures
        matched == query_matches(*query, record@),
{
    match query {
        RecordQuery::StreamId(stream_id) => record.stream_id == *stream_id,
        RecordQuery::OpenStreamId(stream_id) => record.stream_id == *stream_id && matches!(
            record.stream_state,
            StreamState::Open
        ),
        RecordQuery::ReclaimCandidate { plugin_id, exclude_instance_id } => {
            record.plugin_id == *plugin_id && record.instance_id != *exclude_instance_id
                && is_reclaimable_idle_worker(record)
        },
    }
}

/// `key` is the smallest key whose record matches the query.
pub open spec fn is_first_match(records: Map<u64, InstanceRecordView>, query: RecordQuery, key: u64) -> bool {
    &&& records.contains_key(key)
    &&& query_matches(query, records[key])
    &&& forall|other: u64|
        other < key && #[trigger] records.contains_key(other) ==> !query_matches(query, records[other])
}

/// The result of a search: the matching record with the smallest instance id, or none.
pub open spec fn is_search_result(
    records: Map<u64, InstanceRecordView>,
    query: RecordQuery,
    result: Option<InstanceRecordView>,
) -> bool {
    match result {
        Some(found) => exists|key: u64| is_first_match(records, query, key) && records[key] == found,
        None => forall|key: u64| #[trigger] records.contains_key(key) ==> !query_matches(query, records[key]),
    }
}

/// A search result is the matching record with the least instance id.
pub open spec fn has_least_instance_id(
    records: Map<u64, InstanceRecordView>,
    query: RecordQuery,
    result: Option<InstanceRecordView>,
) -> bool {
    result matches Some(found) ==> forall|key: u64| #[trigger]
        records.contains_key(key) && query_matches(query, records[key]) ==> found.instance_id
            <= records[key].instance_id
}

proof fn lemma_search_result_is_least(
    records: Map<u64, InstanceRecordView>,
    query: RecordQuery,
    result: Option<InstanceRecordView>,
)
    requires
        is_search_result(records, query, result),
        forall|key: u64| #[trigger] records.contains_key(key) ==> records[key].instance_id == key,
    ensures
        has_least_instance_id(records, query, result),
{
    if let Some(found) = result {
        let first = choose|key: u64| is_first_match(records, query, key) && records[key] == found;
        assert forall|key: u64| #[trigger]
            records.contains_key(key) && query_matches(query, records[key]) implies found.instance_id
                <= records[key].instance_id by {
            assert(records.contains_key(first));
            if key < first {
                assert(!query_matches(query, records[key]));
            }
        }
    }
}

pub open spec fn view_records(records: Map<u64, InstanceRecord>) -> Map<u64, InstanceRecordView> {
    records.map_values(|record: InstanceRecord| record@)
}

/// The instance state a worker-ready report leaves: processing and stopped instances keep
/// their state, any other instance becomes ready.
pub open spec fn spec_ready_states(state: InstanceState) -> (InstanceState, WorkerState) {
    match state {
        InstanceState::Processing => (InstanceState::Processing, WorkerState::Processing),
        InstanceState::Stopped => (InstanceState::Stopped, WorkerState::Stopped),
        _ => (InstanceState::Ready, WorkerState::Ready),
    }
}

/// The record after a worker-ready report, with the runtime information when it came with one.
pub open spec fn spec_mark_ready(record: InstanceRecordView, runtime: Option<WorkerRuntimeInfo>) -> InstanceRecordView {
    let (state, worker_state) = spec_ready_states(record.state);
    match runtime {
        None => InstanceRecordView { state, worker_state, ..record },
        Some(runtime) => InstanceRecordView {
            state,
            worker_state,
            backend: runtime.backend,
            controller_class_id: runtime.controller_class_id,
            runtime_capabilities: runtime.runtime_capabilities@,
            latency_samples: runtime.latency_samples,
            tail_samples: runtime.tail_samples,
            tail_info: runtime.tail_info,
            ..record
        },
    }
}

/// The record a successful creation stores.
pub open spec fn spec_new_record(
    params: InstanceCreateParams,
    plugin: PluginDescriptor,
    class: Option<PluginClass>,
    instance_id: u64,
    stream_id: u64,
) -> InstanceRecordView {
    InstanceRecordView {
        instance_id,
        stream_id,
        plugin_id: plugin.plugin_id,
        plugin_path: plugin.path,
        class_id: match params.class_id {
            Some(id) => Some(id),
            None => match class {
                Some(class) => class.class_id,
                None => None,
            },
        },
        class_name: match class {
            Some(class) => Some(class.name),
            None => None,
        },
        sample_rate: params.sample_rate,
        max_block_frames: params.max_block_frames,
        input_channels: params.input_channels,
        output_channels: params.output_channels,
        input_bus_index: params.input_bus_index,
        output_bus_index: params.output_bus_index,
        state: InstanceState::Allocated,
        worker_state: WorkerState::NotStarted,
        stream_state: StreamState::Open,
        backend: None,
        controller_class_id: None,
        runtime_capabilities: spec_default_capabilities(),
        latency_samples: 0,
        tail_samples: 0,
        tail_info: spec_tail_from_samples(0),
    }
}

pub open spec fn view_option(record: Option<InstanceRecord>) -> Option<InstanceRecordView> {
    match record {
        Some(record) => Some(record@),
        None => None,
    }
}

/// An update of one record: when the instance exists the registry holds `updated` in its
/// place and returns it; otherwise nothing changes and the instance is reported missing.
pub open spec fn spec_updated(
    before: Map<u64, InstanceRecordView>,
    after: Map<u64, InstanceRecordView>,
    instance_id: u64,
    updated: InstanceRecordView,
    result: Result<InstanceRecord, InstanceError>,
) -> bool {
    if before.contains_key(instance_id) {
        &&& result matches Ok(record) && record@ == updated
        &&& after == before.insert(instance_id, updated)
    } else {
        &&& result == Err::<InstanceRecord, InstanceError>(InstanceError::InstanceNotFound(instance_id))
        &&& after == before
    }
}

/// The plugin instances of the bridge, keyed by instance id, with the counters that hand
/// out instance and stream ids.
#[derive(Debug)]
pub struct InstanceRegistry {
    next_instance_id: u64,
    next_stream_id: u64,
    records: BTreeMap<u64, InstanceRecord>,
}

impl InstanceRegistry {
    /// The records, keyed by instance id.
    pub closed spec fn records(&self) -> Map<u64, InstanceRecordView> {
        view_records(self.records@)
    }

    /// Every record is stored under its own instance id.
    pub closed spec fn wf(&self) -> bool {
        forall|key: u64| #[trigger] self.records@.contains_key(key) ==> self.records@[key].instance_id == key
    }

    /// The instance id and stream id the next creation hands out.
    pub closed spec fn next_ids(&self) -> (u64, u64) {
        (self.next_instance_id, self.next_stream_id)
    }

    pub fn new() -> (registry: Self)
        ensures
            registry.wf(),
            registry.records() == Map::<u64, InstanceRecordView>::empty(),
            registry.next_ids() == (1u64, 1u64),
    {
        let registry = InstanceRegistry { next_instance_id: 1, next_stream_id: 1, records: BTreeMap::new() };
        assert(registry.records() =~= Map::<u64, InstanceRecordView>::empty());
        registry
    }

    /// Validates the parameters, picks the plugin class and stores a new record with fresh
    /// instance and stream ids.
    pub fn create(&mut self, params: InstanceCreateParams, plugin: &PluginDescriptor, checks: AudioFormatChecks) -> (result:
        Result<InstanceRecord, InstanceError>)
        requires
            old(self).wf(),
        ensures
            final(self).wf(),
            match spec_create_params_error(params, checks) {
                Some(error) => result == Err::<InstanceRecord, InstanceError>(error) && *final(self) == *old(self),
                None => if params.plugin_id@ != plugin.plugin_id@ {
                    result == Err::<InstanceRecord, InstanceError>(InstanceError::PluginNotFound(params.plugin_id))
                        && *final(self) == *old(self)
                } else {
                    match spec_select_class(plugin.classes@, params.class_id) {
                        Err(error) => result == Err::<InstanceRecord, InstanceError>(error) && *final(self) == *old(self),
                        Ok(class) => {
                            let (instance_id, stream_id) = old(self).next_ids();
                            let record = spec_new_record(params, *plugin, class, instance_id, stream_id);
                            &&& result matches Ok(created) && created@ == record
                            &&& final(self).records() == old(self).records().insert(instance_id, record)
                            &&& final(self).next_ids() == (
                                crate::metrics::bump(instance_id),
                                crate::metrics::bump(stream_id),
                            )
                        },
                    }
                },
            },
    {
        validate_create_params(&params, checks)?;
        if params.plugin_id != plugin.plugin_id {
            return Err(InstanceError::PluginNotFound(params.plugin_id));
        }
        let class = select_class(plugin, params.class_id.as_ref())?;
        let instance_id = self.next_instance_id;
        let stream_id = self.next_stream_id;
        self.next_instance_id = self.next_instance_id.wrapping_add(1);
        self.next_stream_id = self.next_stream_id.wrapping_add(1);
        let class_id = match params.class_id {
            Some(id) => Some(id),
            None => match class {
                Some(item) => copy_optional_string(&item.class_id),
                None => None,
            },
        };
        let class_name = match class {
            Some(item) => Some(item.name.clone()),
            None => None,
        };
        let record = InstanceRecord {
            instance_id,
            stream_id,
            plugin_id: plugin.plugin_id.clone(),
            plugin_path: plugin.path.clone(),
            class_id,
            class_name,
            sample_rate: params.sample_rate,
            max_block_frames: params.max_block_frames,
            input_channels: params.input_channels,
            output_channels: params.output_channels,
            input_bus_index: params.input_bus_index,
            output_bus_index: params.output_bus_index,
            state: InstanceState::Allocated,
            worker_state: WorkerState::NotStarted,
            stream_state: StreamState::Open,
            backend: None,
            controller_class_id: None,
            runtime_capabilities: RuntimeCapabilities::default(),
            latency_samples: 0,
            tail_samples: 0,
            tail_info: RuntimeTailInfo::from_samples(0),
        };
        let stored = record.copied();
        let ghost before = self.records@;
        self.records.insert(instance_id, stored);
        proof {
            assert(view_records(self.records@) =~= view_records(before).insert(instance_id, record@));
        }
        Ok(record)
    }

    /// Every record, in increasing instance id order.
    pub fn list(&self) -> (records: Vec<InstanceRecord>)
        requires
            self.wf(),
        ensures
            records@.len() == self.records().len(),
            forall|i: int, j: int| 0 <= i < j < records@.len() ==> records@[i].instance_id < records@[j].instance_id,
            forall|i: int| 0 <= i < records@.len() ==> self.records().contains_key(#[trigger] records@[i].instance_id)
                && self.records()[records@[i].instance_id] == records@[i]@,
            forall|key: u64| #[trigger]
                self.records().contains_key(key) ==> exists|i: int|
                    0 <= i < records@.len() && #[trigger] records@[i].instance_id == key,
    {
        let entries = self.records.iter();
        let ghost all = entries.remaining();
        proof {
            let keys = all.map_values(|entry: (&u64, &InstanceRecord)| *entry.0);
            crate::key_order::lemma_increasing_u64_keys(keys);
            assert(all == vstd::std_specs::btree::spec_btree_map_iter(&self.records).remaining());
            assert forall|i: int, j: int| 0 <= i < j < all.len() implies *all[i].0 < *all[j].0 by {
                assert(keys[i] == *all[i].0);
                assert(keys[j] == *all[j].0);
            }
        }
        let mut result: Vec<InstanceRecord> = Vec::new();
        for (key, record) in it: entries
            invariant
                it.seq() == all,
                all == vstd::std_specs::btree::spec_btree_map_iter(&self.records).remaining(),
                self.wf(),
                forall|i: int, j: int| 0 <= i < j < all.len() ==> *all[i].0 < *all[j].0,
                result@.len() == it.index(),
                forall|i: int| 0 <= i < it.index() ==> #[trigger] result@[i]@ == (*all[i].1)@,
                forall|i: int| 0 <= i < it.index() ==> #[trigger] result@[i].instance_id == *all[i].0,
        {
            proof {
                assert(it.seq()[it.index()] == (key, record));
                assert(self.records@.contains_key(*key) && self.records@[*key] == *record);
            }
            result.push(record.copied());
        }
        proof {
            assert(self.records().dom() =~= self.records@.dom());
            assert(all.len() == self.records@.dom().len());
            assert forall|i: int| 0 <= i < result@.len() implies self.records().contains_key(
                #[trigger] result@[i].instance_id,
            ) && self.records()[result@[i].instance_id] == result@[i]@ by {
                assert(result@[i]@ == (*all[i].1)@);
                assert(result@[i].instance_id == *all[i].0);
                assert(self.records@.contains_key(*all[i].0) && self.records@[*all[i].0] == *all[i].1);
                assert(self.records().contains_key(*all[i].0));
                assert(self.records()[*all[i].0] == self.records@[*all[i].0]@);
            }
            self.lemma_records_keyed_by_instance_id();
            let ids = result@.map_values(|record: InstanceRecord| record.instance_id);
            let dom = self.records().dom();
            assert(ids.no_duplicates()) by {
                assert forall|i: int, j: int| 0 <= i < ids.len() && 0 <= j < ids.len() && i != j implies ids[i]
                    != ids[j] by {
                    if i < j {
                        assert(ids[i] < ids[j]);
                    } else {
                        assert(ids[j] < ids[i]);
                    }
                }
            }
            ids.unique_seq_to_set();
            assert(ids.to_set().subset_of(dom)) by {
                assert forall|id: u64| ids.to_set().contains(id) implies dom.contains(id) by {
                    let i = choose|i: int| 0 <= i < ids.len() && ids[i] == id;
                    assert(result@[i].instance_id == id);
                }
            }
            assert forall|key: u64| #[trigger] self.records().contains_key(key) implies exists|i: int|
                0 <= i < result@.len() && #[trigger] result@[i].instance_id == key by {
                if !ids.to_set().contains(key) {
                    assert(ids.to_set().subset_of(dom.remove(key)));
                    vstd::set_lib::lemma_len_subset(ids.to_set(), dom.remove(key));
                    assert(false);
                }
                let i = choose|i: int| 0 <= i < ids.len() && ids[i] == key;
                assert(result@[i].instance_id == key);
            }
        }
        result
    }

    /// The records are finitely many, and each is stored under its own instance id, so a
    /// record found under the smallest key is the one with the least instance id.
    pub proof fn lemma_records_keyed_by_instance_id(&self)
        requires
            self.wf(),
        ensures
            self.records().dom().finite(),
            forall|key: u64| #[trigger] self.records().contains_key(key) ==> self.records()[key].instance_id == key,
    {
        vstd::std_specs::btree::axiom_btree_map_view_finite_dom(self.records);
        assert(self.records().dom() =~= self.records@.dom());
    }

    /// The record of an instance.
    pub fn get(&self, instance_id: u64) -> (result: Result<InstanceRecord, InstanceError>)
        requires
            self.wf(),
        ensures
            if self.records().contains_key(instance_id) {
                result matches Ok(record) && record@ == self.records()[instance_id]
            } else {
                result == Err::<InstanceRecord, InstanceError>(InstanceError::InstanceNotFound(instance_id))
            },
    {
        match self.records.get(&instance_id) {
            Some(record) => Ok(record.copied()),
            None => Err(InstanceError::InstanceNotFound(instance_id)),
        }
    }

    /// The record with the smallest instance id that matches the query.
    fn search(&self, query: &RecordQuery) -> (result: Option<InstanceRecord>)
        requires
            self.wf(),
        ensures
            is_search_result(self.records(), *query, view_option(result)),
    {
        let entries = self.records.iter();
        let ghost all = entries.remaining();
        proof {
            let keys = all.map_values(|entry: (&u64, &InstanceRecord)| *entry.0);
            crate::key_order::lemma_increasing_u64_keys(keys);
            assert(all == vstd::std_specs::btree::spec_btree_map_iter(&self.records).remaining());
            assert forall|i: int, j: int| 0 <= i < j < all.len() implies *all[i].0 < *all[j].0 by {
                assert(keys[i] == *all[i].0);
                assert(keys[j] == *all[j].0);
            }
        }
        for (key, record) in it: entries
            invariant
                it.seq() == all,
                all == vstd::std_specs::btree::spec_btree_map_iter(&self.records).remaining(),
                forall|i: int, j: int| 0 <= i < j < all.len() ==> *all[i].0 < *all[j].0,
                forall|key: u64| #[trigger] self.records@.contains_key(key) ==> all.contains((&key, &self.records@[key])),
                forall|i: int| 0 <= i < it.index() ==> !query_matches(*query, (#[trigger] all[i]).1@),
        {
            proof {
                assert(it.seq()[it.index()] == (key, record));
                assert(self.records@.contains_key(*key) && self.records@[*key] == *record);
            }
            if record_matches(query, record) {
                proof {
                    let idx = it.index();
                    assert forall|other: u64| other < *key && #[trigger] self.records().contains_key(other) implies !query_matches(*query, self.records()[other]) by {
                        assert(self.records@.contains_key(other));
                        assert(all.contains((&other, &self.records@[other])));
                        let p = choose|p: int| 0 <= p < all.len() && all[p] == (&other, &self.records@[other]);
                        if p >= idx {
                            assert(*all[idx].0 <= *all[p].0);
                        }
                        assert(!query_matches(*query, all[p].1@));
                    }
                    assert(is_first_match(self.records(), *query, *key));
                }
                return Some(record.copied());
            }
        }
        proof {
            assert forall|key: u64| #[trigger] self.records().contains_key(key) implies !query_matches(*query, self.records()[key]) by {
                assert(self.records@.contains_key(key));
                assert(all.contains((&key, &self.records@[key])));
                let p = choose|p: int| 0 <= p < all.len() && all[p] == (&key, &self.records@[key]);
                assert(!query_matches(*query, all[p].1@));
            }
        }
        None
    }

    /// The record of a stream, if any (the one with the smallest instance id).
    pub fn find_by_stream_id(&self, stream_id: u64) -> (result: Option<InstanceRecord>)
        requires
            self.wf(),
        ensures
            is_search_result(self.records(), RecordQuery::StreamId(stream_id), view_option(result)),
            has_least_instance_id(self.records(), RecordQuery::StreamId(stream_id), view_option(result)),
    {
        let result = self.search(&RecordQuery::StreamId(stream_id));
        proof {
            self.lemma_records_keyed_by_instance_id();
            lemma_search_result_is_least(self.records(), RecordQuery::StreamId(stream_id), view_option(result));
        }
        result
    }

    /// The record of a stream that is open, if any.
    pub fn find_open_by_stream_id(&self, stream_id: u64) -> (result: Option<InstanceRecord>)
        requires
            self.wf(),
        ensures
            is_search_result(self.records(), RecordQuery::OpenStreamId(stream_id), view_option(result)),
            has_least_instance_id(self.records(), RecordQuery::OpenStreamId(stream_id), view_option(result)),
    {
        let result = self.search(&RecordQuery::OpenStreamId(stream_id));
        proof {
            self.lemma_records_keyed_by_instance_id();
            lemma_search_result_is_least(self.records(), RecordQuery::OpenStreamId(stream_id), view_option(result));
        }
        result
    }

    /// An idle worker of the plugin, other than `exclude_instance_id`, whose instance may be
    /// reclaimed to make room for a new one.
    pub fn idle_worker_reclaim_candidate(&self, plugin_id: &str, exclude_instance_id: u64) -> (result:
        Option<InstanceRecord>)
        requires
            self.wf(),
        ensures
            exists|wanted: String|
                wanted@ == plugin_id@ && is_search_result(
                    self.records(),
                    RecordQuery::ReclaimCandidate { plugin_id: wanted, exclude_instance_id },
                    view_option(result),
                ) && has_least_instance_id(
                    self.records(),
                    RecordQuery::ReclaimCandidate { plugin_id: wanted, exclude_instance_id },
                    view_option(result),
                ),
    {
        let wanted = plugin_id.to_owned();
        let query = RecordQuery::ReclaimCandidate { plugin_id: wanted, exclude_instance_id };
        let result = self.search(&query);
        proof {
            self.lemma_records_keyed_by_instance_id();
            lemma_search_result_is_least(self.records(), query, view_option(result));
            if let RecordQuery::ReclaimCandidate { plugin_id: w, .. } = query {
                assert(w@ == plugin_id@);
            }
        }
        result
    }

    /// Replaces the lifecycle states of a record.
    fn set_states(&mut self, instance_id: u64, state: InstanceState, worker_state: WorkerState) -> (result:
        Result<InstanceRecord, InstanceError>)
        requires
            old(self).wf(),
        ensures
            final(self).wf(),
            final(self).next_ids() == old(self).next_ids(),
            spec_updated(
                old(self).records(),
                final(self).records(),
                instance_id,
                InstanceRecordView { state, worker_state, ..old(self).records()[instance_id] },
                result,
            ),
    {
        let ghost before = self.records@;
        match self.records.remove(&instance_id) {
            None => {
                assert(self.records@ =~= before);
                Err(InstanceError::InstanceNotFound(instance_id))
            },
            Some(mut record) => {
                record.state = state;
                record.worker_state = worker_state;
                let copy = record.copied();
                self.records.insert(instance_id, record);
                proof {
                    assert(view_records(self.records@) =~= view_records(before).insert(instance_id, copy@));
                }
                Ok(copy)
            },
        }
    }

    fn set_stream_state(&mut self, instance_id: u64, stream_state: StreamState) -> (result: Result<
        InstanceRecord,
        InstanceError,
    >)
        requires
            old(self).wf(),
        ensures
            final(self).wf(),
            final(self).next_ids() == old(self).next_ids(),
            spec_updated(
                old(self).records(),
                final(self).records(),
                instance_id,
                InstanceRecordView { stream_state, ..old(self).records()[instance_id] },
                result,
            ),
    {
        let ghost before = self.records@;
        match self.records.remove(&instance_id) {
            None => {
                assert(self.records@ =~= before);
                Err(InstanceError::InstanceNotFound(instance_id))
            },
            Some(mut record) => {
                record.stream_state = stream_state;
                let copy = record.copied();
                self.records.insert(instance_id, record);
                proof {
                    assert(view_records(self.records@) =~= view_records(before).insert(instance_id, copy@));
                }
                Ok(copy)
            },
        }
    }

    /// Opens the stream of an instance.
    pub fn open_stream(&mut self, params: StreamLifecycleParams) -> (result: Result<InstanceRecord, InstanceError>)
        requires
            old(self).wf(),
        ensures
            final(self).wf(),
            final(self).next_ids() == old(self).next_ids(),
            spec_updated(
                old(self).records(),
                final(self).records(),
                params.instance_id,
                InstanceRecordView { stream_state: StreamState::Open, ..old(self).records()[params.instance_id] },
                result,
            ),
    {
        self.set_stream_state(params.instance_id, StreamState::Open)
    }

    /// Closes the stream of an instance.
    pub fn close_stream(&mut self, params: StreamLifecycleParams) -> (result: Result<InstanceRecord, InstanceError>)
        requires
            old(self).wf(),
        ensures
            final(self).wf(),
            final(self).next_ids() == old(self).next_ids(),
            spec_updated(
                old(self).records(),
                final(self).records(),
                params.instance_id,
                InstanceRecordView { stream_state: StreamState::Closed, ..old(self).records()[params.instance_id] },
                result,
            ),
    {
        self.set_stream_state(params.instance_id, StreamState::Closed)
    }

    /// Records that the worker of an instance is ready (a heartbeat or a finished start).
    pub fn mark_worker_ready(&mut self, instance_id: u64) -> (result: Result<InstanceRecord, InstanceError>)
        requires
            old(self).wf(),
        ensures
            final(self).wf(),
            final(self).next_ids() == old(self).next_ids(),
            spec_updated(
                old(self).records(),
                final(self).records(),
                instance_id,
                spec_mark_ready(old(self).records()[instance_id], None),
                result,
            ),
    {
        self.mark_worker_ready_inner(instance_id, None)
    }

    /// Records that the worker of an instance is ready and what it reported of the plugin.
    pub fn mark_worker_ready_with_runtime(&mut self, instance_id: u64, runtime: WorkerRuntimeInfo) -> (result:
        Result<InstanceRecord, InstanceError>)
        requires
            old(self).wf(),
        ensures
            final(self).wf(),
            final(self).next_ids() == old(self).next_ids(),
            spec_updated(
                old(self).records(),
                final(self).records(),
                instance_id,
                spec_mark_ready(old(self).records()[instance_id], Some(runtime)),
                result,
            ),
    {
        self.mark_worker_ready_inner(instance_id, Some(runtime))
    }

    fn mark_worker_ready_inner(&mut self, instance_id: u64, runtime: Option<WorkerRuntimeInfo>) -> (result:
        Result<InstanceRecord, InstanceError>)
        requires
            old(self).wf(),
        ensures
            final(self).wf(),
            final(self).next_ids() == old(self).next_ids(),
            spec_updated(
                old(self).records(),
                final(self).records(),
                instance_id,
                spec_mark_ready(old(self).records()[instance_id], runtime),
                result,
            ),
    {
        let ghost before = self.records@;
        match self.records.remove(&instance_id) {
            None => {
                assert(self.records@ =~= before);
                Err(InstanceError::InstanceNotFound(instance_id))
            },
            Some(mut record) => {
                match record.state {
                    InstanceState::Processing => {
                        record.worker_state = WorkerState::Processing;
                    },
                    InstanceState::Stopped => {
                        record.worker_state = WorkerState::Stopped;
                    },
                    _ => {
                        record.state = InstanceState::Ready;
                        record.worker_state = WorkerState::Ready;
                    },
                }
                if let Some(runtime) = runtime {
                    record.backend = runtime.backend;
                    record.controller_class_id = runtime.controller_class_id;
                    record.runtime_capabilities = runtime.runtime_capabilities;
                    record.latency_samples = runtime.latency_samples;
                    record.tail_samples = runtime.tail_samples;
                    record.tail_info = runtime.tail_info;
                }
                let copy = record.copied();
                self.records.insert(instance_id, record);
                proof {
                    assert(view_records(self.records@) =~= view_records(before).insert(instance_id, copy@));
                }
                Ok(copy)
            },
        }
    }

    /// Records that the worker of an instance is starting.
    pub fn mark_worker_starting(&mut self, instance_id: u64) -> (result: Result<InstanceRecord, InstanceError>)
        requires
            old(self).wf(),
        ensures
            final(self).wf(),
            final(self).next_ids() == old(self).next_ids(),
            spec_updated(
                old(self).records(),
                final(self).records(),
                instance_id,
                InstanceRecordView {
                    state: InstanceState::Starting,
                    worker_state: WorkerState::Starting,
                    ..old(self).records()[instance_id]
                },
                result,
            ),
    {
        self.set_states(instance_id, InstanceState::Starting, WorkerState::Starting)
    }

    /// Records that the worker of an instance failed.
    pub fn mark_worker_failed(&mut self, instance_id: u64) -> (result: Result<InstanceRecord, InstanceError>)
        requires
            old(self).wf(),
        ensures
            final(self).wf(),
            final(self).next_ids() == old(self).next_ids(),
            spec_updated(
                old(self).records(),
                final(self).records(),
                instance_id,
                InstanceRecordView {
                    state: InstanceState::Failed,
                    worker_state: WorkerState::Failed,
                    ..old(self).records()[instance_id]
                },
                result,
            ),
    {
        self.set_states(instance_id, InstanceState::Failed, WorkerState::Failed)
    }

    /// Records that the worker of an instance is being recovered.
    pub fn mark_worker_recovering(&mut self, instance_id: u64) -> (result: Result<InstanceRecord, InstanceError>)
        requires
            old(self).wf(),
        ensures
            final(self).wf(),
            final(self).next_ids() == old(self).next_ids(),
            spec_updated(
                old(self).records(),
                final(self).records(),
                instance_id,
                InstanceRecordView {
                    state: InstanceState::Recovering,
                    worker_state: WorkerState::Recovering,
                    ..old(self).records()[instance_id]
                },
                result,
            ),
    {
        self.set_states(instance_id, InstanceState::Recovering, WorkerState::Recovering)
    }

    /// Records that an instance is processing audio.
    pub fn mark_processing(&mut self, instance_id: u64) -> (result: Result<InstanceRecord, InstanceError>)
        requires
            old(self).wf(),
        ensures
            final(self).wf(),
            final(self).next_ids() == old(self).next_ids(),
            spec_updated(
                old(self).records(),
                final(self).records(),
                instance_id,
                InstanceRecordView {
                    state: InstanceState::Processing,
                    worker_state: WorkerState::Processing,
                    ..old(self).records()[instance_id]
                },
                result,
            ),
    {
        self.set_states(instance_id, InstanceState::Processing, WorkerState::Processing)
    }

    /// Records that an instance is stopping processing.
    pub fn mark_stopping(&mut self, instance_id: u64) -> (result: Result<InstanceRecord, InstanceError>)
        requires
            old(self).wf(),
        ensures
            final(self).wf(),
            final(self).next_ids() == old(self).next_ids(),
            spec_updated(
                old(self).records(),
                final(self).records(),
                instance_id,
                InstanceRecordView {
                    state: InstanceState::Stopping,
                    worker_state: WorkerState::Stopping,
                    ..old(self).records()[instance_id]
                },
                result,
            ),
    {
        self.set_states(instance_id, InstanceState::Stopping, WorkerState::Stopping)
    }

    /// Records that an instance stopped processing.
    pub fn mark_stopped(&mut self, instance_id: u64) -> (result: Result<InstanceRecord, InstanceError>)
        requires
            old(self).wf(),
        ensures
            final(self).wf(),
            final(self).next_ids() == old(self).next_ids(),
            spec_updated(
                old(self).records(),
                final(self).records(),
                instance_id,
                InstanceRecordView {
                    state: InstanceState::Stopped,
                    worker_state: WorkerState::Stopped,
                    ..old(self).records()[instance_id]
                },
                result,
            ),
    {
        self.set_states(instance_id, InstanceState::Stopped, WorkerState::Stopped)
    }
    /// Removes an instance's record.
    pub fn destroy(&mut self, params: InstanceDestroyParams) -> (result: Result<InstanceDestroyResult, InstanceError>)
        requires
            old(self).wf(),
        ensures
            final(self).wf(),
            final(self).next_ids() == old(self).next_ids(),
            final(self).records() == old(self).records().remove(params.instance_id),
            if old(self).records().contains_key(params.instance_id) {
                result == Ok::<InstanceDestroyResult, InstanceError>(InstanceDestroyResult {
                    instance_id: params.instance_id,
                    stream_id: old(self).records()[params.instance_id].stream_id,
                    state: InstanceState::Destroyed,
                })
            } else {
                result == Err::<InstanceDestroyResult, InstanceError>(InstanceError::InstanceNotFound(params.instance_id))
            },
    {
        let ghost before = self.records@;
        let removed = self.records.remove(&params.instance_id);
        proof {
            assert(view_records(self.records@) =~= view_records(before).remove(params.instance_id));
        }
        match removed {
            None => Err(InstanceError::InstanceNotFound(params.instance_id)),
            Some(record) => Ok(InstanceDestroyResult {
                instance_id: record.instance_id,
                stream_id: record.stream_id,
                state: InstanceState::Destroyed,
            }),
        }
    }
}

impl InstanceError {
    /// The JSON-RPC error code: missing things are 4040, an unavailable registry 5034,
    /// invalid parameters 4220.
    pub fn rpc_code(&self) -> (code: i64)
        ensures
            code == match self {
                InstanceError::PluginNotFound(_) | InstanceError::ClassNotFound(_) | InstanceError::InstanceNotFound(_) => 4040i64,
                InstanceError::RegistryUnavailable => 5034i64,
                _ => 4220i64,
            },
    {
        match self {
            InstanceError::PluginNotFound(_) | InstanceError::ClassNotFound(_) | InstanceError::InstanceNotFound(_) => 4040,
            InstanceError::RegistryUnavailable => 5034,
            _ => 4220,
        }
    }

    /// The human-readable message of the error.
    pub fn rpc_message(&self) -> (message: String)
        ensures
            message@ == spec_instance_error_message(*self),
    {
        match self {
            InstanceError::InvalidPluginId => String::from_str("pluginId is required"),
            InstanceError::PluginNotFound(plugin_id) => {
                let mut text = String::from_str("plugin not found in registry: ");
                push_str(&mut text, plugin_id.as_str());
                text
            },
            InstanceError::ClassNotFound(class_id) => {
                let mut text = String::from_str("plugin class not found: ");
                push_str(&mut text, class_id.as_str());
                text
            },
            InstanceError::InvalidSampleRate(value) => {
                let mut text = String::from_str("invalid sampleRate: ");
                push_decimal(&mut text, *value as u128);
                text
            },
            InstanceError::InvalidMaxBlockFrames(value) => {
                let mut text = String::from_str("invalid maxBlockFrames: ");
                push_decimal(&mut text, *value as u128);
                text
            },
            InstanceError::InvalidInputChannels(value) => {
                let mut text = String::from_str("invalid inputChannels: ");
                push_decimal(&mut text, *value as u128);
                text
            },
            InstanceError::InvalidOutputChannels(value) => {
                let mut text = String::from_str("invalid outputChannels: ");
                push_decimal(&mut text, *value as u128);
                text
            },
            InstanceError::InvalidInputBusIndex(value) => {
                let mut text = String::from_str("invalid inputBusIndex: ");
                push_signed_decimal(&mut text, *value as i64);
                text
            },
            InstanceError::InvalidOutputBusIndex(value) => {
                let mut text = String::from_str("invalid outputBusIndex: ");
                push_signed_decimal(&mut text, *value as i64);
                text
            },
            InstanceError::InstanceNotFound(instance_id) => {
                let mut text = String::from_str("instance not found: ");
                push_decimal(&mut text, *instance_id as u128);
                text
            },
            InstanceError::RegistryUnavailable => String::from_str("instance registry unavailable"),
        }
    }
}

pub open spec fn spec_instance_error_message(error: InstanceError) -> Seq<char> {
    match error {
        InstanceError::InvalidPluginId => "pluginId is required"@,
        InstanceError::PluginNotFound(plugin_id) => "plugin not found in registry: "@ + plugin_id@,
        InstanceError::ClassNotFound(class_id) => "plugin class not found: "@ + class_id@,
        InstanceError::InvalidSampleRate(value) => "invalid sampleRate: "@ + decimal(value as nat),
        InstanceError::InvalidMaxBlockFrames(value) => "invalid maxBlockFrames: "@ + decimal(value as nat),
        InstanceError::InvalidInputChannels(value) => "invalid inputChannels: "@ + decimal(value as nat),
        InstanceError::InvalidOutputChannels(value) => "invalid outputChannels: "@ + decimal(value as nat),
        InstanceError::InvalidInputBusIndex(value) => "invalid inputBusIndex: "@ + signed_decimal(value as int),
        InstanceError::InvalidOutputBusIndex(value) => "invalid outputBusIndex: "@ + signed_decimal(value as int),
        InstanceError::InstanceNotFound(instance_id) => "instance not found: "@ + decimal(instance_id as nat),
        InstanceError::RegistryUnavailable => "instance registry unavailable"@,
    }
}

/// The data of a registry error: its kind and the value it is about.
pub open spec fn spec_instance_error_data(error: InstanceError) -> Seq<(Seq<char>, RpcValueView)> {
    match error {
        InstanceError::InvalidPluginId => seq![("kind"@, text("invalid-plugin-id"@))],
        InstanceError::PluginNotFound(plugin_id) => seq![
            ("kind"@, text("plugin-not-found"@)),
            ("pluginId"@, text(plugin_id@)),
        ],
        InstanceError::ClassNotFound(class_id) => seq![("kind"@, text("class-not-found"@)), ("classId"@, text(class_id@))],
        InstanceError::InvalidSampleRate(value) => seq![
            ("kind"@, text("invalid-sample-rate"@)),
            ("sampleRate"@, unsigned(value as int)),
        ],
        InstanceError::InvalidMaxBlockFrames(value) => seq![
            ("kind"@, text("invalid-max-block-frames"@)),
            ("maxBlockFrames"@, unsigned(value as int)),
        ],
        InstanceError::InvalidInputChannels(value) => seq![
            ("kind"@, text("invalid-input-channels"@)),
            ("inputChannels"@, unsigned(value as int)),
        ],
        InstanceError::InvalidOutputChannels(value) => seq![
            ("kind"@, text("invalid-output-channels"@)),
            ("outputChannels"@, unsigned(value as int)),
        ],
        InstanceError::InvalidInputBusIndex(value) => seq![
            ("kind"@, text("invalid-input-bus-index"@)),
            ("inputBusIndex"@, RpcValueView::Signed(value as int)),
        ],
        InstanceError::InvalidOutputBusIndex(value) => seq![
            ("kind"@, text("invalid-output-bus-index"@)),
            ("outputBusIndex"@, RpcValueView::Signed(value as int)),
        ],
        InstanceError::InstanceNotFound(instance_id) => seq![
            ("kind"@, text("instance-not-found"@)),
            ("instanceId"@, unsigned(instance_id as int)),
        ],
        InstanceError::RegistryUnavailable => seq![("kind"@, text("registry-unavailable"@))],
    }
}

impl InstanceError {
    pub fn rpc_data(&self) -> (data: RpcData)
        ensures
            data.entries() == spec_instance_error_data(*self),
    {
        match self {
            InstanceError::InvalidPluginId => RpcData::of_kind("invalid-plugin-id"),
            InstanceError::PluginNotFound(plugin_id) => RpcData::of_kind("plugin-not-found").with_text(
                "pluginId",
                plugin_id.as_str(),
            ),
            InstanceError::ClassNotFound(class_id) => RpcData::of_kind("class-not-found").with_text(
                "classId",
                class_id.as_str(),
            ),
            InstanceError::InvalidSampleRate(value) => RpcData::of_kind("invalid-sample-rate").with_unsigned(
                "sampleRate",
                *value as u128,
            ),
            InstanceError::InvalidMaxBlockFrames(value) => RpcData::of_kind("invalid-max-block-frames").with_unsigned(
                "maxBlockFrames",
                *value as u128,
            ),
            InstanceError::InvalidInputChannels(value) => RpcData::of_kind("invalid-input-channels").with_unsigned(
                "inputChannels",
                *value as u128,
            ),
            InstanceError::InvalidOutputChannels(value) => RpcData::of_kind("invalid-output-channels").with_unsigned(
                "outputChannels",
                *value as u128,
            ),
            InstanceError::InvalidInputBusIndex(value) => RpcData::of_kind("invalid-input-bus-index").with_signed(
                "inputBusIndex",
                *value as i128,
            ),
            InstanceError::InvalidOutputBusIndex(value) => RpcData::of_kind("invalid-output-bus-index").with_signed(
                "outputBusIndex",
                *value as i128,
            ),
            InstanceError::InstanceNotFound(instance_id) => RpcData::of_kind("instance-not-found").with_unsigned(
                "instanceId",
                *instance_id as u128,
            ),
            InstanceError::RegistryUnavailable => RpcData::of_kind("registry-unavailable"),
        }
    }
}

/// A worker-ready report never changes the state of a stopped or processing instance: a
/// stopped instance stays stopped with a stopped worker, a processing one keeps processing;
/// any other instance becomes ready. A second report changes no state.
pub proof fn lemma_worker_ready_keeps_stopped_and_processing(
    record: InstanceRecordView,
    runtime: Option<WorkerRuntimeInfo>,
    later: Option<WorkerRuntimeInfo>,
)
    ensures
        record.state == InstanceState::Stopped ==> spec_mark_ready(record, runtime).state == InstanceState::Stopped
            && spec_mark_ready(record, runtime).worker_state == WorkerState::Stopped,
        record.state == InstanceState::Processing ==> spec_mark_ready(record, runtime).state
            == InstanceState::Processing && spec_mark_ready(record, runtime).worker_state == WorkerState::Processing,
        record.state != InstanceState::Stopped && record.state != InstanceState::Processing ==> spec_mark_ready(
            record,
            runtime,
        ).state == InstanceState::Ready && spec_mark_ready(record, runtime).worker_state == WorkerState::Ready,
        spec_mark_ready(spec_mark_ready(record, runtime), later).state == spec_mark_ready(record, runtime).state,
        spec_mark_ready(spec_mark_ready(record, runtime), later).worker_state == spec_mark_ready(
            record,
            runtime,
        ).worker_state,
{
}

} // verus!
