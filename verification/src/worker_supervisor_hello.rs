use serde_json::Value;
use vstd::prelude::*;

use crate::json::{json_member_u64, json_u64_member};
use crate::text::{decimal, push_decimal, push_str, string_view};
use crate::worker_supervisor_error::WorkerSupervisorError;

verus! {

/// The worker IPC version this bridge speaks.
pub const EXPECTED_WORKER_IPC_VERSION: u16 = 1;

/// The framed control IPC schema version a worker must announce when framing is required.
pub const WORKER_CONTROL_IPC_SCHEMA_VERSION: u16 = 1;

/// The capabilities a worker announces in its hello; an absent flag reads as `false`.
#[derive(Debug, Clone, Copy)]
pub struct WorkerCapabilities {
    pub instance_lifecycle: bool,
    pub binary_audio_process: bool,
    pub framed_control_ipc: bool,
    pub framed_control_ipc_version: Option<u16>,
}

/// A worker hello, as parsed from the worker's first message.
#[derive(Debug, Clone, Copy)]
pub struct WorkerHello {
    pub ipc_version: u16,
    pub capabilities: WorkerCapabilities,
}

/// The `Debug` text of an optional version: `Some(n)` or `None`.
pub open spec fn optional_version_text(version: Option<u16>) -> Seq<char> {
    match version {
        Some(n) => "Some("@ + decimal(n as nat) + ")"@,
        None => "None"@,
    }
}

/// Why a parsed hello is incompatible, checked in order, or `None` when it is compatible.
/// The framed control checks apply only when framing is required.
pub open spec fn spec_hello_incompatibility(hello: WorkerHello, require_framed_control_ipc: bool) -> Option<
    Seq<char>,
> {
    if hello.ipc_version != EXPECTED_WORKER_IPC_VERSION {
        Some(
            "unsupported ipcVersion "@ + decimal(hello.ipc_version as nat) + ", expected "@ + decimal(
                EXPECTED_WORKER_IPC_VERSION as nat,
            ),
        )
    } else if !hello.capabilities.instance_lifecycle {
        Some("missing instanceLifecycle capability"@)
    } else if !hello.capabilities.binary_audio_process {
        Some("missing binaryAudioProcess capability"@)
    } else if require_framed_control_ipc && !hello.capabilities.framed_control_ipc {
        Some("missing framedControlIpc capability"@)
    } else if require_framed_control_ipc && hello.capabilities.framed_control_ipc_version != Some(
        WORKER_CONTROL_IPC_SCHEMA_VERSION,
    ) {
        Some(
            "unsupported framedControlIpcVersion "@ + optional_version_text(
                hello.capabilities.framed_control_ipc_version,
            ) + ", expected "@ + decimal(WORKER_CONTROL_IPC_SCHEMA_VERSION as nat),
        )
    } else {
        None
    }
}

/// The reason a parsed hello is incompatible with this bridge, if it is.
pub fn hello_incompatibility(hello: &WorkerHello, require_framed_control_ipc: bool) -> (reason: Option<String>)
    ensures
        string_view(reason) == spec_hello_incompatibility(*hello, require_framed_control_ipc),
{
    let capabilities = &hello.capabilities;
    if hello.ipc_version != EXPECTED_WORKER_IPC_VERSION {
        let mut reason = String::from_str("unsupported ipcVersion ");
        push_decimal(&mut reason, hello.ipc_version as u128);
        push_str(&mut reason, ", expected ");
        push_decimal(&mut reason, EXPECTED_WORKER_IPC_VERSION as u128);
        Some(reason)
    } else if !capabilities.instance_lifecycle {
        Some(String::from_str("missing instanceLifecycle capability"))
    } else if !capabilities.binary_audio_process {
        Some(String::from_str("missing binaryAudioProcess capability"))
    } else if require_framed_control_ipc && !capabilities.framed_control_ipc {
        Some(String::from_str("missing framedControlIpc capability"))
    } else if require_framed_control_ipc && !(match capabilities.framed_control_ipc_version {
        Some(version) => version == WORKER_CONTROL_IPC_SCHEMA_VERSION,
        None => false,
    }) {
        let mut reason = String::from_str("unsupported framedControlIpcVersion ");
        match capabilities.framed_control_ipc_version {
            Some(version) => {
                push_str(&mut reason, "Some(");
                push_decimal(&mut reason, version as u128);
                push_str(&mut reason, ")");
            },
            None => push_str(&mut reason, "None"),
        }
        push_str(&mut reason, ", expected ");
        push_decimal(&mut reason, WORKER_CONTROL_IPC_SCHEMA_VERSION as u128);
        Some(reason)
    } else {
        None
    }
}

/// An incompatible-worker error carrying the hello as received and the worker's stderr.
pub fn incompatible_worker(reason: String, actual_ipc_version: Option<u64>, hello: Value, stderr: String) -> (error:
    WorkerSupervisorError)
    ensures
        error == (WorkerSupervisorError::IncompatibleWorker {
            reason,
            expected_ipc_version: EXPECTED_WORKER_IPC_VERSION,
            actual_ipc_version,
            hello,
            stderr,
        }),
{
    WorkerSupervisorError::IncompatibleWorker {
        reason,
        expected_ipc_version: EXPECTED_WORKER_IPC_VERSION,
        actual_ipc_version,
        hello,
        stderr,
    }
}

/// The outcome of validating a worker hello, given the hello as received and the result of
/// parsing it (the parse failure's text on error).
pub open spec fn spec_validate_worker_hello(
    stderr: String,
    hello: Value,
    parsed: Result<WorkerHello, String>,
    require_framed_control_ipc: bool,
) -> Result<(), (Seq<char>, Option<u64>)> {
    match parsed {
        Err(error) => Err(("invalid worker hello: "@ + error@, json_member_u64(hello, "ipcVersion"@))),
        Ok(parsed) => match spec_hello_incompatibility(parsed, require_framed_control_ipc) {
            Some(reason) => Err((reason, Some(parsed.ipc_version as u64))),
            None => Ok(()),
        },
    }
}

/// Validates a worker hello: a hello that did not parse, or whose version or capabilities do
/// not match, gives an incompatible-worker error with the reason and the version found.
pub fn validate_worker_hello(
    stderr: String,
    hello: Value,
    parsed: Result<WorkerHello, String>,
    require_framed_control_ipc: bool,
) -> (result: Result<(), WorkerSupervisorError>)
    ensures
        match spec_validate_worker_hello(stderr, hello, parsed, require_framed_control_ipc) {
            Ok(()) => result is Ok,
            Err((reason, actual)) => result matches Err(WorkerSupervisorError::IncompatibleWorker {
                reason: r,
                expected_ipc_version,
                actual_ipc_version,
                hello: h,
                stderr: s,
            }) && r@ == reason && expected_ipc_version == EXPECTED_WORKER_IPC_VERSION && actual_ipc_version
                == actual && h == hello && s == stderr,
        },
{
    match parsed {
        Err(error) => {
            let mut reason = String::from_str("invalid worker hello: ");
            push_str(&mut reason, error.as_str());
            let actual = json_u64_member(&hello, "ipcVersion");
            Err(incompatible_worker(reason, actual, hello, stderr))
        },
        Ok(parsed) => match hello_incompatibility(&parsed, require_framed_control_ipc) {
            Some(reason) => Err(incompatible_worker(reason, Some(parsed.ipc_version as u64), hello, stderr)),
            None => Ok(()),
        },
    }
}

} // verus!
