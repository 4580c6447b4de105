use serde_json::Value;
use vstd::prelude::*;

use crate::json::{json_bool_member, json_member_bool, json_member_u64, json_u64_member};

verus! {

/// A runtime capability that a plugin instance may lack.
#[derive(Debug, Clone, Copy, PartialEq, Eq)]
pub enum RuntimeCapability {
    ComponentState,
    Controller,
    ControllerState,
    Parameters,
    Units,
    UnitProgramData,
    ProgramListData,
    UnitData,
    MidiMapping,
    ComponentHandlerEvents,
    ConnectionPoints,
    ProcessContext,
    OutputEvents,
    OutputParameterChanges,
}

/// Why a capability is unavailable.
#[derive(Debug, Clone, Copy, PartialEq, Eq)]
pub enum RuntimeCapabilityUnavailableReason {
    ControllerUnavailable,
    InterfaceUnavailable,
    FeatureUnavailable,
    ProbeFailed,
}

/// A worker's explanation of one unavailable capability.
#[derive(Debug, Clone, PartialEq, Eq)]
pub struct RuntimeCapabilityDiagnostic {
    pub capability: RuntimeCapability,
    pub reason: RuntimeCapabilityUnavailableReason,
    pub message: Option<String>,
    pub hint: String,
}

impl RuntimeCapabilityDiagnostic {
    /// A field-by-field copy.
    pub fn copied(&self) -> (copy: Self)
        ensures
            copy == *self,
    {
        RuntimeCapabilityDiagnostic {
            capability: self.capability,
            reason: self.reason,
            message: match &self.message {
                Some(message) => Some(message.clone()),
                None => None,
            },
            hint: self.hint.clone(),
        }
    }
}

/// What a worker reported it can do for an instance.
#[derive(Debug, Clone, PartialEq, Eq)]
pub struct RuntimeCapabilities {
    pub schema_version: u16,
    pub binary_audio_process: bool,
    pub component_state: bool,
    pub controller: bool,
    pub controller_state: bool,
    pub parameters: bool,
    pub parameter_automation: bool,
    pub units: bool,
    pub unit_program_data: bool,
    pub program_list_data: bool,
    pub unit_data: bool,
    pub midi_mapping: bool,
    pub output_events: bool,
    pub output_parameter_changes: bool,
    pub component_handler_events: bool,
    pub connection_points: bool,
    pub process_context: bool,
    pub unavailable: Vec<RuntimeCapabilityDiagnostic>,
}

/// `RuntimeCapabilities` as a mathematical value.
pub struct RuntimeCapabilitiesView {
    pub schema_version: u16,
    pub binary_audio_process: bool,
    pub component_state: bool,
    pub controller: bool,
    pub controller_state: bool,
    pub parameters: bool,
    pub parameter_automation: bool,
    pub units: bool,
    pub unit_program_data: bool,
    pub program_list_data: bool,
    pub unit_data: bool,
    pub midi_mapping: bool,
    pub output_events: bool,
    pub output_parameter_changes: bool,
    pub component_handler_events: bool,
    pub connection_points: bool,
    pub process_context: bool,
    pub unavailable: Seq<RuntimeCapabilityDiagnostic>,
}

impl View for RuntimeCapabilities {
    type V = RuntimeCapabilitiesView;

    open spec fn view(&self) -> RuntimeCapabilitiesView {
        RuntimeCapabilitiesView {
            schema_version: self.schema_version,
            binary_audio_process: self.binary_audio_process,
            component_state: self.component_state,
            controller: self.controller,
            controller_state: self.controller_state,
            parameters: self.parameters,
            parameter_automation: self.parameter_automation,
            units: self.units,
            unit_program_data: self.unit_program_data,
            program_list_data: self.program_list_data,
            unit_data: self.unit_data,
            midi_mapping: self.midi_mapping,
            output_events: self.output_events,
            output_parameter_changes: self.output_parameter_changes,
            component_handler_events: self.component_handler_events,
            connection_points: self.connection_points,
            process_context: self.process_context,
            unavailable: self.unavailable@,
        }
    }
}

/// No capability, schema version 0 and no diagnostics.
pub open spec fn spec_default_capabilities() -> RuntimeCapabilitiesView {
    RuntimeCapabilitiesView {
        schema_version: 0,
        binary_audio_process: false,
        component_state: false,
        controller: false,
        controller_state: false,
        parameters: false,
        parameter_automation: false,
        units: false,
        unit_program_data: false,
        program_list_data: false,
        unit_data: false,
        midi_mapping: false,
        output_events: false,
        output_parameter_changes: false,
        component_handler_events: false,
        connection_points: false,
        process_context: false,
        unavailable: Seq::empty(),
    }
}

impl RuntimeCapabilities {
    /// A field-by-field copy.
    pub fn copied(&self) -> (copy: Self)
        ensures
            copy@ == self@,
    {
        let mut unavailable: Vec<RuntimeCapabilityDiagnostic> = Vec::new();
        let mut index: usize = 0;
        while index < self.unavailable.len()
            invariant
                index <= self.unavailable.len(),
                unavailable@ == self.unavailable@.take(index as int),
            decreases self.unavailable.len() - index,
        {
            unavailable.push(self.unavailable[index].copied());
            index = index + 1;
        }
        assert(unavailable@ =~= self.unavailable@);
        RuntimeCapabilities {
            schema_version: self.schema_version,
            binary_audio_process: self.binary_audio_process,
            component_state: self.component_state,
            controller: self.controller,
            controller_state: self.controller_state,
            parameters: self.parameters,
            parameter_automation: self.parameter_automation,
            units: self.units,
            unit_program_data: self.unit_program_data,
            program_list_data: self.program_list_data,
            unit_data: self.unit_data,
            midi_mapping: self.midi_mapping,
            output_events: self.output_events,
            output_parameter_changes: self.output_parameter_changes,
            component_handler_events: self.component_handler_events,
            connection_points: self.connection_points,
            process_context: self.process_context,
            unavailable,
        }
    }
}

impl Default for RuntimeCapabilities {
    fn default() -> (capabilities: Self)
        ensures
            capabilities@ == spec_default_capabilities(),
    {
        RuntimeCapabilities {
            schema_version: 0,
            binary_audio_process: false,
            component_state: false,
            controller: false,
            controller_state: false,
            parameters: false,
            parameter_automation: false,
            units: false,
            unit_program_data: false,
            program_list_data: false,
            unit_data: false,
            midi_mapping: false,
            output_events: false,
            output_parameter_changes: false,
            component_handler_events: false,
            connection_points: false,
            process_context: false,
            unavailable: Vec::new(),
        }
    }
}

/// A flag of a worker result: `true` only when the member is the JSON `true`.
pub open spec fn spec_json_flag(value: Value, key: Seq<char>) -> bool {
    json_member_bool(value, key) == Some(true)
}

/// A 16-bit number of a worker result: 0 when the member is missing, not a number or too big.
pub open spec fn spec_json_u16(value: Value, key: Seq<char>) -> u16 {
    match json_member_u64(value, key) {
        Some(n) => if n <= u16::MAX {
            n as u16
        } else {
            0
        },
        None => 0,
    }
}

/// A 32-bit number of a worker result: 0 when the member is missing, not a number or too big.
pub open spec fn spec_json_u32(value: Value, key: Seq<char>) -> u32 {
    match json_member_u64(value, key) {
        Some(n) => if n <= u32::MAX {
            n as u32
        } else {
            0
        },
        None => 0,
    }
}

pub fn json_flag(value: &Value, key: &str) -> (flag: bool)
    ensures
        flag == spec_json_flag(*value, key@),
{
    match json_bool_member(value, key) {
        Some(flag) => flag,
        None => false,
    }
}

pub fn json_u16(value: &Value, key: &str) -> (number: u16)
    ensures
        number == spec_json_u16(*value, key@),
{
    match json_u64_member(value, key) {
        Some(n) => if n <= u16::MAX as u64 {
            n as u16
        } else {
            0
        },
        None => 0,
    }
}

pub fn json_u32(value: &Value, key: &str) -> (number: u32)
    ensures
        number == spec_json_u32(*value, key@),
{
    match json_u64_member(value, key) {
        Some(n) => if n <= u32::MAX as u64 {
            n as u32
        } else {
            0
        },
        None => 0,
    }
}

/// The capabilities a worker result reports, with the diagnostics of its `unavailable` list.
pub open spec fn spec_capabilities_from(value: Value, unavailable: Seq<RuntimeCapabilityDiagnostic>) -> RuntimeCapabilitiesView {
    RuntimeCapabilitiesView {
        schema_version: spec_json_u16(value, "schemaVersion"@),
        binary_audio_process: spec_json_flag(value, "binaryAudioProcess"@),
        component_state: spec_json_flag(value, "componentState"@),
        controller: spec_json_flag(value, "controller"@),
        controller_state: spec_json_flag(value, "controllerState"@),
        parameters: spec_json_flag(value, "parameters"@),
        parameter_automation: spec_json_flag(value, "parameterAutomation"@),
        units: spec_json_flag(value, "units"@),
        unit_program_data: spec_json_flag(value, "unitProgramData"@),
        program_list_data: spec_json_flag(value, "programListData"@),
        unit_data: spec_json_flag(value, "unitData"@),
        midi_mapping: spec_json_flag(value, "midiMapping"@),
        output_events: spec_json_flag(value, "outputEvents"@),
        output_parameter_changes: spec_json_flag(value, "outputParameterChanges"@),
        component_handler_events: spec_json_flag(value, "componentHandlerEvents"@),
        connection_points: spec_json_flag(value, "connectionPoints"@),
        process_context: spec_json_flag(value, "processContext"@),
        unavailable,
    }
}

impl RuntimeCapabilities {
    /// Reads a worker's `runtimeCapabilities` object: absent, it means no capability; else each
    /// flag is read, a missing one counting as `false`. `unavailable` holds the entries of its
    /// `unavailable` list that parsed as diagnostics, in order.
    pub fn from_worker_result(value: Option<&Value>, unavailable: Vec<RuntimeCapabilityDiagnostic>) -> (capabilities:
        Self)
        ensures
            capabilities@ == match value {
                None => spec_default_capabilities(),
                Some(value) => spec_capabilities_from(*value, unavailable@),
            },
    {
        let value = match value {
            Some(value) => value,
            None => return RuntimeCapabilities::default(),
        };
        RuntimeCapabilities {
            schema_version: json_u16(value, "schemaVersion"),
            binary_audio_process: json_flag(value, "binaryAudioProcess"),
            component_state: json_flag(value, "componentState"),
            controller: json_flag(value, "controller"),
            controller_state: json_flag(value, "controllerState"),
            parameters: json_flag(value, "parameters"),
            parameter_automation: json_flag(value, "parameterAutomation"),
            units: json_flag(value, "units"),
            unit_program_data: json_flag(value, "unitProgramData"),
            program_list_data: json_flag(value, "programListData"),
            unit_data: json_flag(value, "unitData"),
            midi_mapping: json_flag(value, "midiMapping"),
            output_events: json_flag(value, "outputEvents"),
            output_parameter_changes: json_flag(value, "outputParameterChanges"),
            component_handler_events: json_flag(value, "componentHandlerEvents"),
            connection_points: json_flag(value, "connectionPoints"),
            process_context: json_flag(value, "processContext"),
            unavailable,
        }
    }
}

} // verus!
