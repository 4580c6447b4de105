use vstd::prelude::*;

use crate::text::{decimal, push_decimal, push_str};

verus! {

/// The largest body a framed control message may carry: 16 MiB.
pub const WORKER_CONTROL_IPC_MAX_BODY_LEN: u32 = 16_777_216;

/// The kind of a framed control message.
#[derive(Debug, Clone, Copy, PartialEq, Eq, Structural)]
pub enum WorkerControlMessageKind {
    Request,
    Response,
    ErrorResponse,
    BatchRequest,
    BatchResponse,
}

/// The decoded header of a framed control message.
#[derive(Debug, Clone, Copy, PartialEq, Eq, Structural)]
pub struct WorkerControlIpcHeader {
    pub kind: WorkerControlMessageKind,
    pub status_code: u16,
    pub sequence: u64,
    pub body_len: u32,
}

impl WorkerControlIpcHeader {
    pub fn new(kind: WorkerControlMessageKind, status_code: u16, sequence: u64, body_len: u32) -> (header: Self)
        ensures
            header == (WorkerControlIpcHeader { kind, status_code, sequence, body_len }),
    {
        WorkerControlIpcHeader { kind, status_code, sequence, body_len }
    }
}

/// Why a framed header cannot answer request `id` of `method`, or `None` when it can: the
/// sequence must echo the request, a response carries status zero, an error response a
/// nonzero status, and no other kind answers a single request.
pub open spec fn spec_framed_response_header_error(header: WorkerControlIpcHeader, id: u64, method: Seq<char>) -> Option<
    Seq<char>,
> {
    if header.sequence != id {
        Some("framed response sequence mismatch for "@ + method)
    } else {
        match header.kind {
            WorkerControlMessageKind::Response => if header.status_code == 0 {
                None
            } else {
                Some(
                    "framed response for "@ + method + " used nonzero status "@ + decimal(
                        header.status_code as nat,
                    ),
                )
            },
            WorkerControlMessageKind::ErrorResponse => if header.status_code == 0 {
                Some("framed error response for "@ + method + " used zero status"@)
            } else {
                None
            },
            WorkerControlMessageKind::Request => Some(
                "worker sent request frame while responding to "@ + method,
            ),
            WorkerControlMessageKind::BatchRequest => Some(
                "worker sent batch request frame while responding to "@ + method,
            ),
            WorkerControlMessageKind::BatchResponse => Some(
                "worker sent batch response frame to non-batch request "@ + method,
            ),
        }
    }
}

/// Checks that a framed header answers request `id` of `method`; the error is a protocol message.
pub fn validate_framed_response_header(header: &WorkerControlIpcHeader, id: u64, method: &str) -> (result: Result<
    (),
    String,
>)
    ensures
        match spec_framed_response_header_error(*header, id, method@) {
            None => result is Ok,
            Some(message) => result matches Err(m) && m@ == message,
        },
{
    if header.sequence != id {
        let mut message = String::from_str("framed response sequence mismatch for ");
        push_str(&mut message, method);
        return Err(message);
    }
    match header.kind {
        WorkerControlMessageKind::Response => {
            if header.status_code == 0 {
                Ok(())
            } else {
                let mut message = String::from_str("framed response for ");
                push_str(&mut message, method);
                push_str(&mut message, " used nonzero status ");
                push_decimal(&mut message, header.status_code as u128);
                Err(message)
            }
        },
        WorkerControlMessageKind::ErrorResponse => {
            if header.status_code == 0 {
                let mut message = String::from_str("framed error response for ");
                push_str(&mut message, method);
                push_str(&mut message, " used zero status");
                Err(message)
            } else {
                Ok(())
            }
        },
        WorkerControlMessageKind::Request => {
            let mut message = String::from_str("worker sent request frame while responding to ");
            push_str(&mut message, method);
            Err(message)
        },
        WorkerControlMessageKind::BatchRequest => {
            let mut message = String::from_str("worker sent batch request frame while responding to ");
            push_str(&mut message, method);
            Err(message)
        },
        WorkerControlMessageKind::BatchResponse => {
            let mut message = String::from_str("worker sent batch response frame to non-batch request ");
            push_str(&mut message, method);
            Err(message)
        },
    }
}

/// The `Debug` name of a message kind.
pub open spec fn kind_name(kind: WorkerControlMessageKind) -> Seq<char> {
    match kind {
        WorkerControlMessageKind::Request => "Request"@,
        WorkerControlMessageKind::Response => "Response"@,
        WorkerControlMessageKind::ErrorResponse => "ErrorResponse"@,
        WorkerControlMessageKind::BatchRequest => "BatchRequest"@,
        WorkerControlMessageKind::BatchResponse => "BatchResponse"@,
    }
}

fn push_kind_name(text: &mut String, kind: WorkerControlMessageKind)
    ensures
        final(text)@ == old(text)@ + kind_name(kind),
{
    match kind {
        WorkerControlMessageKind::Request => push_str(text, "Request"),
        WorkerControlMessageKind::Response => push_str(text, "Response"),
        WorkerControlMessageKind::ErrorResponse => push_str(text, "ErrorResponse"),
        WorkerControlMessageKind::BatchRequest => push_str(text, "BatchRequest"),
        WorkerControlMessageKind::BatchResponse => push_str(text, "BatchResponse"),
    }
}

/// Why a framed header cannot answer the control batch with `sequence`, or `None` when it can:
/// it must echo the batch sequence and be a batch response with status zero.
pub open spec fn spec_batch_response_header_error(header: WorkerControlIpcHeader, sequence: u64) -> Option<Seq<char>> {
    if header.sequence != sequence {
        Some("framed batch response sequence mismatch"@)
    } else if header.kind == WorkerControlMessageKind::BatchResponse {
        if header.status_code == 0 {
            None
        } else {
            Some("framed batch response used nonzero status "@ + decimal(header.status_code as nat))
        }
    } else {
        Some("worker sent "@ + kind_name(header.kind) + " frame while responding to control batch"@)
    }
}

/// Checks that a framed header answers the control batch with `sequence`.
pub fn validate_framed_batch_response_header(header: &WorkerControlIpcHeader, sequence: u64) -> (result: Result<
    (),
    String,
>)
    ensures
        match spec_batch_response_header_error(*header, sequence) {
            None => result is Ok,
            Some(message) => result matches Err(m) && m@ == message,
        },
{
    if header.sequence != sequence {
        return Err(String::from_str("framed batch response sequence mismatch"));
    }
    match header.kind {
        WorkerControlMessageKind::BatchResponse => {
            if header.status_code == 0 {
                Ok(())
            } else {
                let mut message = String::from_str("framed batch response used nonzero status ");
                push_decimal(&mut message, header.status_code as u128);
                Err(message)
            }
        },
        other => {
            let mut message = String::from_str("worker sent ");
            push_kind_name(&mut message, other);
            push_str(&mut message, " frame while responding to control batch");
            Err(message)
        },
    }
}

/// Refuses a framed response body over the maximum, before anything is allocated for it.
pub fn validate_framed_response_body_len(body_len: u32) -> (result: Result<(), String>)
    ensures
        body_len <= WORKER_CONTROL_IPC_MAX_BODY_LEN ==> result is Ok,
        body_len > WORKER_CONTROL_IPC_MAX_BODY_LEN ==> (result matches Err(message) && message@
            == "framed response body too large: max "@ + decimal(WORKER_CONTROL_IPC_MAX_BODY_LEN as nat)
            + ", got "@ + decimal(body_len as nat)),
{
    if body_len > WORKER_CONTROL_IPC_MAX_BODY_LEN {
        let mut message = String::from_str("framed response body too large: max ");
        push_decimal(&mut message, WORKER_CONTROL_IPC_MAX_BODY_LEN as u128);
        push_str(&mut message, ", got ");
        push_decimal(&mut message, body_len as u128);
        return Err(message);
    }
    Ok(())
}

} // verus!
