use std::path::PathBuf;

use vstd::prelude::*;

use crate::config::{spec_origin_is_allowed, spec_token_is_valid, BridgeConfig};
use crate::metrics::{bump, BridgeMetrics, MetricsCounters};
use crate::text::push_str;

verus! {

/// The answer to one control message, and whether the session is authorized afterwards.
#[derive(Debug, Clone)]
pub struct ControlResponse {
    pub text: String,
    pub session_authorized: bool,
}

impl ControlResponse {
    pub fn new(text: String, session_authorized: bool) -> (response: Self)
        ensures
            response.text == text,
            response.session_authorized == session_authorized,
    {
        ControlResponse { text, session_authorized }
    }
}

/// The path `<PathBuf as From<String>>::from` makes of a text.
pub uninterp spec fn path_from_text(text: Seq<char>) -> PathBuf;

/// `<PathBuf as From<String>>::from`: the path of the string's text (std moves the string's
/// buffer into the path), named by `path_from_text`.
pub assume_specification[ <std::path::PathBuf as From<String>>::from ](path: String) -> (converted: PathBuf)
    ensures
        converted == path_from_text(path@),
;

/// The scan paths of a request, as paths, in order.
pub fn paths_from_strings(paths: Vec<String>) -> (converted: Vec<PathBuf>)
    ensures
        converted@.len() == paths@.len(),
        forall|i: int| 0 <= i < paths@.len() ==> #[trigger] converted@[i] == path_from_text(paths@[i]@),
{
    let mut converted: Vec<PathBuf> = Vec::new();
    let mut index: usize = 0;
    while index < paths.len()
        invariant
            index <= paths@.len(),
            converted@.len() == index,
            forall|i: int| 0 <= i < index ==> #[trigger] converted@[i] == path_from_text(paths@[i]@),
        decreases paths@.len() - index,
    {
        let text = paths[index].clone();
        converted.push(PathBuf::from(text));
        index = index + 1;
    }
    converted
}

/// A control method the bridge answers.
#[derive(Debug, Clone, Copy, PartialEq, Eq, Structural)]
pub enum ControlMethod {
    BridgeHello,
    BridgeMetrics,
    BridgeEvents,
    PluginScan,
    PluginList,
    PluginFactoryInfo,
    InstanceCreate,
    InstanceList,
    InstanceStatus,
    InstanceRestart,
    InstanceStart,
    InstanceStop,
    InstanceParameters,
    InstanceUnits,
    InstanceMetadataRefresh,
    InstanceRuntimeSnapshot,
    InstanceSelectUnit,
    InstanceUnitByBus,
    InstanceSetUnitProgramData,
    InstanceSetUnitProgramDataAndRefresh,
    InstanceProgramDataSupported,
    InstanceProgramDataGet,
    InstanceProgramDataSet,
    InstanceProgramDataSetAndRefresh,
    InstanceUnitDataSupported,
    InstanceUnitDataGet,
    InstanceUnitDataSet,
    InstanceUnitDataSetAndRefresh,
    InstanceParameterGet,
    InstanceParameterInfo,
    InstanceParameterValueByString,
    InstanceParameterNormalizedByPlain,
    InstanceParameterSet,
    InstanceParameterBeginEdit,
    InstanceParameterPerformEdit,
    InstanceParameterEndEdit,
    InstanceParameterEdit,
    InstanceGetState,
    InstanceSetState,
    InstanceStateSetAndRefresh,
    InstanceConnectionNotifyComponent,
    InstanceConnectionNotifyComponentAndRefresh,
    InstanceConnectionNotifyController,
    InstanceConnectionNotifyControllerAndRefresh,
    InstanceDestroy,
    StreamOpen,
    StreamClose,
    StreamSharedMemoryCreate,
    StreamSharedMemoryDestroy,
    StreamSharedMemoryStatus,
    StreamSharedMemoryPumpStart,
    StreamSharedMemoryPumpStop,
    StreamSharedMemoryPumpStatus,
    StreamSharedMemoryPumpEnqueueEvents,
    StreamSharedMemoryPumpClearEvents,
    StreamSharedMemoryProcess,
}

/// The wire name of a control method.
pub open spec fn spec_method_name(method: ControlMethod) -> Seq<char> {
    match method {
        ControlMethod::BridgeHello => "bridge.hello"@,
        ControlMethod::BridgeMetrics => "bridge.metrics"@,
        ControlMethod::BridgeEvents => "bridge.events"@,
        ControlMethod::PluginScan => "plugin.scan"@,
        ControlMethod::PluginList => "plugin.list"@,
        ControlMethod::PluginFactoryInfo => "plugin.factoryInfo"@,
        ControlMethod::InstanceCreate => "instance.create"@,
        ControlMethod::InstanceList => "instance.list"@,
        ControlMethod::InstanceStatus => "instance.status"@,
        ControlMethod::InstanceRestart => "instance.restart"@,
        ControlMethod::InstanceStart => "instance.start"@,
        ControlMethod::InstanceStop => "instance.stop"@,
        ControlMethod::InstanceParameters => "instance.parameters"@,
        ControlMethod::InstanceUnits => "instance.units"@,
        ControlMethod::InstanceMetadataRefresh => "instance.metadata.refresh"@,
        ControlMethod::InstanceRuntimeSnapshot => "instance.runtime.snapshot"@,
        ControlMethod::InstanceSelectUnit => "instance.selectUnit"@,
        ControlMethod::InstanceUnitByBus => "instance.unitByBus"@,
        ControlMethod::InstanceSetUnitProgramData => "instance.setUnitProgramData"@,
        ControlMethod::InstanceSetUnitProgramDataAndRefresh => "instance.setUnitProgramDataAndRefresh"@,
        ControlMethod::InstanceProgramDataSupported => "instance.programData.supported"@,
        ControlMethod::InstanceProgramDataGet => "instance.programData.get"@,
        ControlMethod::InstanceProgramDataSet => "instance.programData.set"@,
        ControlMethod::InstanceProgramDataSetAndRefresh => "instance.programData.setAndRefresh"@,
        ControlMethod::InstanceUnitDataSupported => "instance.unitData.supported"@,
        ControlMethod::InstanceUnitDataGet => "instance.unitData.get"@,
        ControlMethod::InstanceUnitDataSet => "instance.unitData.set"@,
        ControlMethod::InstanceUnitDataSetAndRefresh => "instance.unitData.setAndRefresh"@,
        ControlMethod::InstanceParameterGet => "instance.parameter.get"@,
        ControlMethod::InstanceParameterInfo => "instance.parameter.info"@,
        ControlMethod::InstanceParameterValueByString => "instance.parameter.valueByString"@,
        ControlMethod::InstanceParameterNormalizedByPlain => "instance.parameter.normalizedByPlain"@,
        ControlMethod::InstanceParameterSet => "instance.parameter.set"@,
        ControlMethod::InstanceParameterBeginEdit => "instance.parameter.beginEdit"@,
        ControlMethod::InstanceParameterPerformEdit => "instance.parameter.performEdit"@,
        ControlMethod::InstanceParameterEndEdit => "instance.parameter.endEdit"@,
        ControlMethod::InstanceParameterEdit => "instance.parameter.edit"@,
        ControlMethod::InstanceGetState => "instance.getState"@,
        ControlMethod::InstanceSetState => "instance.setState"@,
        ControlMethod::InstanceStateSetAndRefresh => "instance.state.setAndRefresh"@,
        ControlMethod::InstanceConnectionNotifyComponent => "instance.connection.notifyComponent"@,
        ControlMethod::InstanceConnectionNotifyComponentAndRefresh => "instance.connection.notifyComponentAndRefresh"@,
        ControlMethod::InstanceConnectionNotifyController => "instance.connection.notifyController"@,
        ControlMethod::InstanceConnectionNotifyControllerAndRefresh => "instance.connection.notifyControllerAndRefresh"@,
        ControlMethod::InstanceDestroy => "instance.destroy"@,
        ControlMethod::StreamOpen => "stream.open"@,
        ControlMethod::StreamClose => "stream.close"@,
        ControlMethod::StreamSharedMemoryCreate => "stream.sharedMemory.create"@,
        ControlMethod::StreamSharedMemoryDestroy => "stream.sharedMemory.destroy"@,
        ControlMethod::StreamSharedMemoryStatus => "stream.sharedMemory.status"@,
        ControlMethod::StreamSharedMemoryPumpStart => "stream.sharedMemory.pump.start"@,
        ControlMethod::StreamSharedMemoryPumpStop => "stream.sharedMemory.pump.stop"@,
        ControlMethod::StreamSharedMemoryPumpStatus => "stream.sharedMemory.pump.status"@,
        ControlMethod::StreamSharedMemoryPumpEnqueueEvents => "stream.sharedMemory.pump.enqueueEvents"@,
        ControlMethod::StreamSharedMemoryPumpClearEvents => "stream.sharedMemory.pump.clearEvents"@,
        ControlMethod::StreamSharedMemoryProcess => "stream.sharedMemory.process"@,
    }
}

/// Whether a name is the wire name of a control method.
pub open spec fn spec_is_method_name(name: Seq<char>) -> bool {
    ||| name == "bridge.hello"@
    ||| name == "bridge.metrics"@
    ||| name == "bridge.events"@
    ||| name == "plugin.scan"@
    ||| name == "plugin.list"@
    ||| name == "plugin.factoryInfo"@
    ||| name == "instance.create"@
    ||| name == "instance.list"@
    ||| name == "instance.status"@
    ||| name == "instance.restart"@
    ||| name == "instance.start"@
    ||| name == "instance.stop"@
    ||| name == "instance.parameters"@
    ||| name == "instance.units"@
    ||| name == "instance.metadata.refresh"@
    ||| name == "instance.runtime.snapshot"@
    ||| name == "instance.selectUnit"@
    ||| name == "instance.unitByBus"@
    ||| name == "instance.setUnitProgramData"@
    ||| name == "instance.setUnitProgramDataAndRefresh"@
    ||| name == "instance.programData.supported"@
    ||| name == "instance.programData.get"@
    ||| name == "instance.programData.set"@
    ||| name == "instance.programData.setAndRefresh"@
    ||| name == "instance.unitData.supported"@
    ||| name == "instance.unitData.get"@
    ||| name == "instance.unitData.set"@
    ||| name == "instance.unitData.setAndRefresh"@
    ||| name == "instance.parameter.get"@
    ||| name == "instance.parameter.info"@
    ||| name == "instance.parameter.valueByString"@
    ||| name == "instance.parameter.normalizedByPlain"@
    ||| name == "instance.parameter.set"@
    ||| name == "instance.parameter.beginEdit"@
    ||| name == "instance.parameter.performEdit"@
    ||| name == "instance.parameter.endEdit"@
    ||| name == "instance.parameter.edit"@
    ||| name == "instance.getState"@
    ||| name == "instance.setState"@
    ||| name == "instance.state.setAndRefresh"@
    ||| name == "instance.connection.notifyComponent"@
    ||| name == "instance.connection.notifyComponentAndRefresh"@
    ||| name == "instance.connection.notifyController"@
    ||| name == "instance.connection.notifyControllerAndRefresh"@
    ||| name == "instance.destroy"@
    ||| name == "stream.open"@
    ||| name == "stream.close"@
    ||| name == "stream.sharedMemory.create"@
    ||| name == "stream.sharedMemory.destroy"@
    ||| name == "stream.sharedMemory.status"@
    ||| name == "stream.sharedMemory.pump.start"@
    ||| name == "stream.sharedMemory.pump.stop"@
    ||| name == "stream.sharedMemory.pump.status"@
    ||| name == "stream.sharedMemory.pump.enqueueEvents"@
    ||| name == "stream.sharedMemory.pump.clearEvents"@
    ||| name == "stream.sharedMemory.process"@
}

/// The control method with a wire name, if there is one.
pub fn control_method(method: &str) -> (found: Option<ControlMethod>)
    ensures
        match found {
            Some(known) => spec_method_name(known) == method@,
            None => !spec_is_method_name(method@),
        },
{
    let name = String::from_str(method);
    if name == String::from_str("bridge.hello") {
        return Some(ControlMethod::BridgeHello);
    }
    if name == String::from_str("bridge.metrics") {
        return Some(ControlMethod::BridgeMetrics);
    }
    if name == String::from_str("bridge.events") {
        return Some(ControlMethod::BridgeEvents);
    }
    if name == String::from_str("plugin.scan") {
        return Some(ControlMethod::PluginScan);
    }
    if name == String::from_str("plugin.list") {
        return Some(ControlMethod::PluginList);
    }
    if name == String::from_str("plugin.factoryInfo") {
        return Some(ControlMethod::PluginFactoryInfo);
    }
    if name == String::from_str("instance.create") {
        return Some(ControlMethod::InstanceCreate);
    }
    if name == String::from_str("instance.list") {
        return Some(ControlMethod::InstanceList);
    }
    if name == String::from_str("instance.status") {
        return Some(ControlMethod::InstanceStatus);
    }
    if name == String::from_str("instance.restart") {
        return Some(ControlMethod::InstanceRestart);
    }
    if name == String::from_str("instance.start") {
        return Some(ControlMethod::InstanceStart);
    }
    if name == String::from_str("instance.stop") {
        return Some(ControlMethod::InstanceStop);
    }
    if name == String::from_str("instance.parameters") {
        return Some(ControlMethod::InstanceParameters);
    }
    if name == String::from_str("instance.units") {
        return Some(ControlMethod::InstanceUnits);
    }
    if name == String::from_str("instance.metadata.refresh") {
        return Some(ControlMethod::InstanceMetadataRefresh);
    }
    if name == String::from_str("instance.runtime.snapshot") {
        return Some(ControlMethod::InstanceRuntimeSnapshot);
    }
    if name == String::from_str("instance.selectUnit") {
        return Some(ControlMethod::InstanceSelectUnit);
    }
    if name == String::from_str("instance.unitByBus") {
        return Some(ControlMethod::InstanceUnitByBus);
    }
    if name == String::from_str("instance.setUnitProgramData") {
        return Some(ControlMethod::InstanceSetUnitProgramData);
    }
    if name == String::from_str("instance.setUnitProgramDataAndRefresh") {
        return Some(ControlMethod::InstanceSetUnitProgramDataAndRefresh);
    }
    if name == String::from_str("instance.programData.supported") {
        return Some(ControlMethod::InstanceProgramDataSupported);
    }
    if name == String::from_str("instance.programData.get") {
        return Some(ControlMethod::InstanceProgramDataGet);
    }
    if name == String::from_str("instance.programData.set") {
        return Some(ControlMethod::InstanceProgramDataSet);
    }
    if name == String::from_str("instance.programData.setAndRefresh") {
        return Some(ControlMethod::InstanceProgramDataSetAndRefresh);
    }
    if name == String::from_str("instance.unitData.supported") {
        return Some(ControlMethod::InstanceUnitDataSupported);
    }
    if name == String::from_str("instance.unitData.get") {
        return Some(ControlMethod::InstanceUnitDataGet);
    }
    if name == String::from_str("instance.unitData.set") {
        return Some(ControlMethod::InstanceUnitDataSet);
    }
    if name == String::from_str("instance.unitData.setAndRefresh") {
        return Some(ControlMethod::InstanceUnitDataSetAndRefresh);
    }
    if name == String::from_str("instance.parameter.get") {
        return Some(ControlMethod::InstanceParameterGet);
    }
    if name == String::from_str("instance.parameter.info") {
        return Some(ControlMethod::InstanceParameterInfo);
    }
    if name == String::from_str("instance.parameter.valueByString") {
        return Some(ControlMethod::InstanceParameterValueByString);
    }
    if name == String::from_str("instance.parameter.normalizedByPlain") {
        return Some(ControlMethod::InstanceParameterNormalizedByPlain);
    }
    if name == String::from_str("instance.parameter.set") {
        return Some(ControlMethod::InstanceParameterSet);
    }
    if name == String::from_str("instance.parameter.beginEdit") {
        return Some(ControlMethod::InstanceParameterBeginEdit);
    }
    if name == String::from_str("instance.parameter.performEdit") {
        return Some(ControlMethod::InstanceParameterPerformEdit);
    }
    if name == String::from_str("instance.parameter.endEdit") {
        return Some(ControlMethod::InstanceParameterEndEdit);
    }
    if name == String::from_str("instance.parameter.edit") {
        return Some(ControlMethod::InstanceParameterEdit);
    }
    if name == String::from_str("instance.getState") {
        return Some(ControlMethod::InstanceGetState);
    }
    if name == String::from_str("instance.setState") {
        return Some(ControlMethod::InstanceSetState);
    }
    if name == String::from_str("instance.state.setAndRefresh") {
        return Some(ControlMethod::InstanceStateSetAndRefresh);
    }
    if name == String::from_str("instance.connection.notifyComponent") {
        return Some(ControlMethod::InstanceConnectionNotifyComponent);
    }
    if name == String::from_str("instance.connection.notifyComponentAndRefresh") {
        return Some(ControlMethod::InstanceConnectionNotifyComponentAndRefresh);
    }
    if name == String::from_str("instance.connection.notifyController") {
        return Some(ControlMethod::InstanceConnectionNotifyController);
    }
    if name == String::from_str("instance.connection.notifyControllerAndRefresh") {
        return Some(ControlMethod::InstanceConnectionNotifyControllerAndRefresh);
    }
    if name == String::from_str("instance.destroy") {
        return Some(ControlMethod::InstanceDestroy);
    }
    if name == String::from_str("stream.open") {
        return Some(ControlMethod::StreamOpen);
    }
    if name == String::from_str("stream.close") {
        return Some(ControlMethod::StreamClose);
    }
    if name == String::from_str("stream.sharedMemory.create") {
        return Some(ControlMethod::StreamSharedMemoryCreate);
    }
    if name == String::from_str("stream.sharedMemory.destroy") {
        return Some(ControlMethod::StreamSharedMemoryDestroy);
    }
    if name == String::from_str("stream.sharedMemory.status") {
        return Some(ControlMethod::StreamSharedMemoryStatus);
    }
    if name == String::from_str("stream.sharedMemory.pump.start") {
        return Some(ControlMethod::StreamSharedMemoryPumpStart);
    }
    if name == String::from_str("stream.sharedMemory.pump.stop") {
        return Some(ControlMethod::StreamSharedMemoryPumpStop);
    }
    if name == String::from_str("stream.sharedMemory.pump.status") {
        return Some(ControlMethod::StreamSharedMemoryPumpStatus);
    }
    if name == String::from_str("stream.sharedMemory.pump.enqueueEvents") {
        return Some(ControlMethod::StreamSharedMemoryPumpEnqueueEvents);
    }
    if name == String::from_str("stream.sharedMemory.pump.clearEvents") {
        return Some(ControlMethod::StreamSharedMemoryPumpClearEvents);
    }
    if name == String::from_str("stream.sharedMemory.process") {
        return Some(ControlMethod::StreamSharedMemoryProcess);
    }
    None
}

/// What to do with a control request: hand it to its method's handler, or answer it with
/// an error code and message.
#[derive(Debug)]
pub enum ControlRoute {
    Dispatch(ControlMethod),
    Refuse { code: i64, message: String, session_authorized: bool },
}

/// A request other than `bridge.hello` on an unauthorized session is refused (4012) and the
/// session stays unauthorized; an unknown method is refused (-32601) with its name.
pub fn route_control_method(method: &str, session_authorized: bool) -> (route: ControlRoute)
    ensures
        method@ != "bridge.hello"@ && !session_authorized ==> (route matches ControlRoute::Refuse {
            code,
            message,
            session_authorized: authorized,
        } && code == 4012 && message@ == "bridge session not authorized"@ && !authorized),
        method@ == "bridge.hello"@ || session_authorized ==> match route {
            ControlRoute::Dispatch(known) => spec_method_name(known) == method@,
            ControlRoute::Refuse { code, message, session_authorized: authorized } => {
                &&& !spec_is_method_name(method@)
                &&& code == -32601
                &&& message@ == "method not found: "@ + method@
                &&& authorized == session_authorized
            },
        },
{
    let hello = String::from_str("bridge.hello");
    if !(String::from_str(method) == hello) && !session_authorized {
        return ControlRoute::Refuse {
            code: 4012,
            message: String::from_str("bridge session not authorized"),
            session_authorized: false,
        };
    }
    match control_method(method) {
        Some(known) => ControlRoute::Dispatch(known),
        None => {
            let mut message = String::from_str("method not found: ");
            push_str(&mut message, method);
            ControlRoute::Refuse { code: -32601, message, session_authorized }
        },
    }
}

/// The origin a hello is judged by: the connection's, else the one the hello names.
pub open spec fn effective_origin(connection_origin: Option<Seq<char>>, hello_origin: Option<Seq<char>>) -> Option<
    Seq<char>,
> {
    match connection_origin {
        Some(origin) => Some(origin),
        None => hello_origin,
    }
}

pub open spec fn optional_view(value: Option<&str>) -> Option<Seq<char>> {
    match value {
        Some(text) => Some(text@),
        None => None,
    }
}

/// Why a hello is refused, checked in this order: a denied origin (4010), a wrong pairing
/// token (4011), another audio frame version (4091), no common protocol version (4090).
pub open spec fn spec_hello_refusal(
    config: crate::config::BridgeConfigView,
    origin: Option<Seq<char>>,
    token: Option<Seq<char>>,
    audio_frame_version: u16,
    expected_audio_frame_version: u16,
    protocol_agreed: bool,
) -> Option<(i64, Seq<char>)> {
    if !spec_origin_is_allowed(config, origin) {
        Some((4010, "origin denied"@))
    } else if !spec_token_is_valid(config, token) {
        Some((4011, "invalid pairing token"@))
    } else if audio_frame_version != expected_audio_frame_version {
        Some((4091, "unsupported audio frame version"@))
    } else if !protocol_agreed {
        Some((4090, "protocol version mismatch"@))
    } else {
        None
    }
}

/// Judges a `bridge.hello`: refused as `spec_hello_refusal` says, else accepted and counted,
/// which authorizes the session.
pub fn hello_decision(
    config: &BridgeConfig,
    metrics: &mut BridgeMetrics,
    connection_origin: Option<&str>,
    hello_origin: Option<&str>,
    token: Option<&str>,
    audio_frame_version: u16,
    expected_audio_frame_version: u16,
    protocol_agreed: bool,
) -> (result: Result<(), (i64, String)>)
    requires
        old(metrics).wf(),
    ensures
        final(metrics).wf(),
        final(metrics).histograms() == old(metrics).histograms(),
        match spec_hello_refusal(
            config@,
            effective_origin(optional_view(connection_origin), optional_view(hello_origin)),
            optional_view(token),
            audio_frame_version,
            expected_audio_frame_version,
            protocol_agreed,
        ) {
            Some((code, message)) => result matches Err((refused, text)) && refused == code && text@ == message
                && final(metrics).counters() == old(metrics).counters(),
            None => result is Ok && final(metrics).counters() == (MetricsCounters {
                hello_requests: bump(old(metrics).counters().hello_requests),
                ..old(metrics).counters()
            }),
        },
{
    let origin = match connection_origin {
        Some(origin) => Some(origin),
        None => hello_origin,
    };
    if !config.origin_is_allowed(origin) {
        return Err((4010, String::from_str("origin denied")));
    }
    if !config.token_is_valid(token) {
        return Err((4011, String::from_str("invalid pairing token")));
    }
    if audio_frame_version != expected_audio_frame_version {
        return Err((4091, String::from_str("unsupported audio frame version")));
    }
    if !protocol_agreed {
        return Err((4090, String::from_str("protocol version mismatch")));
    }
    metrics.increment_hello_requests();
    Ok(())
}

/// Whether refresh requests also fetch the worker's metrics when they do not say: they do.
pub fn default_include_worker_metrics() -> (fetch_metrics: bool)
    ensures
        fetch_metrics,
{
    true
}

} // verus!
