use serde_json::Value;
use vstd::prelude::*;

use crate::instance_registry::InstanceRecord;
use crate::json::{json_get, json_member};
use crate::rpc::{text, unsigned, RpcData, RpcValueView};

verus! {

/// The members of the parameters that load an instance into a worker: its ids, plugin,
/// class and audio format, then the bus indices that were asked for.
pub open spec fn spec_instance_create_params(record: InstanceRecord) -> Seq<(Seq<char>, RpcValueView)> {
    let optional = |value: Option<String>|
        match value {
            Some(value) => text(value@),
            None => RpcValueView::Null,
        };
    let base = seq![
        ("instanceId"@, unsigned(record.instance_id as int)),
        ("streamId"@, unsigned(record.stream_id as int)),
        ("pluginId"@, text(record.plugin_id@)),
        ("pluginPath"@, text(record.plugin_path@)),
        ("classId"@, optional(record.class_id)),
        ("className"@, optional(record.class_name)),
        ("sampleRate"@, unsigned(record.sample_rate as int)),
        ("maxBlockFrames"@, unsigned(record.max_block_frames as int)),
        ("inputChannels"@, unsigned(record.input_channels as int)),
        ("outputChannels"@, unsigned(record.output_channels as int)),
    ];
    let with_input = match record.input_bus_index {
        Some(index) => base.push(("inputBusIndex"@, RpcValueView::Signed(index as int))),
        None => base,
    };
    match record.output_bus_index {
        Some(index) => with_input.push(("outputBusIndex"@, RpcValueView::Signed(index as int))),
        None => with_input,
    }
}

/// The parameters of a worker's `instance.create` request for a record.
pub fn instance_create_params(record: &InstanceRecord) -> (params: RpcData)
    ensures
        params.entries() == spec_instance_create_params(*record),
        params.classification is None,
{
    let params = RpcData::empty().with_unsigned("instanceId", record.instance_id as u128).with_unsigned(
        "streamId",
        record.stream_id as u128,
    ).with_text("pluginId", record.plugin_id.as_str()).with_text("pluginPath", record.plugin_path.as_str()).with_optional_text(
        "classId",
        &record.class_id,
    ).with_optional_text("className", &record.class_name).with_unsigned(
        "sampleRate",
        record.sample_rate as u128,
    ).with_unsigned("maxBlockFrames", record.max_block_frames as u128).with_unsigned(
        "inputChannels",
        record.input_channels as u128,
    ).with_unsigned("outputChannels", record.output_channels as u128);
    let params = match record.input_bus_index {
        Some(index) => params.with_signed("inputBusIndex", index as i128),
        None => params,
    };
    match record.output_bus_index {
        Some(index) => params.with_signed("outputBusIndex", index as i128),
        None => params,
    }
}

/// The requests that follow a write in a refresh batch, and where the optional answers land.
#[derive(Debug, Clone, PartialEq, Eq)]
pub struct RefreshBatchPlan {
    /// The methods after the write, in order.
    pub methods: Vec<&'static str>,
    /// The position of the state answer in the batch (the write is at 0).
    pub state_index: Option<usize>,
    /// The position of the worker metrics answer in the batch.
    pub worker_index: Option<usize>,
}

/// A write-then-refresh batch: after the write come the parameters and the units, then the
/// state and the worker metrics when asked for.
pub fn refresh_batch_plan(include_state: bool, include_worker_metrics: bool) -> (plan: RefreshBatchPlan)
    ensures
        plan.methods@.map_values(|method: &str| method@) == seq!["instance.parameters"@, "instance.units"@] + (
        if include_state {
            seq!["instance.getState"@]
        } else {
            Seq::empty()
        }) + (if include_worker_metrics {
            seq!["worker.metrics"@]
        } else {
            Seq::empty()
        }),
        plan.state_index == (if include_state {
            Some(3usize)
        } else {
            None
        }),
        plan.worker_index == (if include_worker_metrics {
            Some(if include_state {
                4usize
            } else {
                3usize
            })
        } else {
            None
        }),
{
    let mut methods: Vec<&'static str> = Vec::new();
    methods.push("instance.parameters");
    methods.push("instance.units");
    let state_index = if include_state {
        methods.push("instance.getState");
        Some(3usize)
    } else {
        None
    };
    let worker_index = if include_worker_metrics {
        let index = methods.len() + 1;
        methods.push("worker.metrics");
        Some(index)
    } else {
        None
    };
    let plan = RefreshBatchPlan { methods, state_index, worker_index };
    assert(plan.methods@.map_values(|method: &str| method@) =~= seq!["instance.parameters"@, "instance.units"@] + (
    if include_state {
        seq!["instance.getState"@]
    } else {
        Seq::empty()
    }) + (if include_worker_metrics {
        seq!["worker.metrics"@]
    } else {
        Seq::empty()
    }));
    plan
}

/// The answer at a position of a batch, if there is one.
pub open spec fn answer_at(results: Seq<Value>, index: Option<usize>) -> Option<Value> {
    match index {
        Some(index) => if index < results.len() {
            Some(results[index as int])
        } else {
            None
        },
        None => None,
    }
}

/// A member of the answer at a position, if both are there.
pub open spec fn member_of_answer(results: Seq<Value>, index: usize, key: Seq<char>) -> Option<Value> {
    match answer_at(results, Some(index)) {
        Some(answer) => json_member(answer, key),
        None => None,
    }
}

pub open spec fn payload_or_null(value: Option<Value>) -> RpcValueView {
    match value {
        Some(payload) => RpcValueView::Payload(payload),
        None => RpcValueView::Null,
    }
}

fn answer(results: &Vec<Value>, index: Option<usize>) -> (found: Option<Value>)
    ensures
        found == answer_at(results@, index),
{
    match index {
        Some(index) => if index < results.len() {
            Some(results[index].clone())
        } else {
            None
        },
        None => None,
    }
}

/// The refreshed metadata of an instance, read from the answers of a refresh batch: the
/// `parameters` of the parameters answer, the `unitInfo` of the units answer, and the state
/// and worker answers as they came (`null` for anything missing).
pub fn metadata_refresh_value(
    instance_id: u64,
    results: &Vec<Value>,
    parameters_index: usize,
    units_index: usize,
    state_index: Option<usize>,
    worker_index: Option<usize>,
) -> (metadata: RpcData)
    ensures
        metadata.entries() == seq![
            ("instanceId"@, unsigned(instance_id as int)),
            ("parameters"@, payload_or_null(member_of_answer(results@, parameters_index, "parameters"@))),
            ("unitInfo"@, payload_or_null(member_of_answer(results@, units_index, "unitInfo"@))),
            ("state"@, payload_or_null(answer_at(results@, state_index))),
            ("worker"@, payload_or_null(answer_at(results@, worker_index))),
        ],
        metadata.classification is None,
{
    let parameters = match answer(results, Some(parameters_index)) {
        Some(answer) => json_get(&answer, "parameters"),
        None => None,
    };
    let unit_info = match answer(results, Some(units_index)) {
        Some(answer) => json_get(&answer, "unitInfo"),
        None => None,
    };
    let metadata = RpcData::empty().with_unsigned("instanceId", instance_id as u128).with_optional_payload(
        "parameters",
        parameters,
    ).with_optional_payload("unitInfo", unit_info).with_optional_payload("state", answer(results, state_index)).with_optional_payload(
        "worker",
        answer(results, worker_index),
    );
    metadata
}

} // verus!
