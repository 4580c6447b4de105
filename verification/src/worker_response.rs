use serde_json::Value;
use vstd::prelude::*;

use crate::text::{decimal, push_decimal, push_str};
use crate::worker_supervisor_audio::protocol_error_with;
use crate::worker_supervisor_error::WorkerSupervisorError;

verus! {

/// The error member of a worker's JSON-RPC response.
#[derive(Debug)]
pub struct WorkerResponseError {
    pub code: i64,
    pub message: String,
    pub data: Option<Value>,
}

/// A worker's JSON-RPC response, as parsed from its body.
#[derive(Debug)]
pub struct WorkerResponse {
    pub id: Value,
    pub result: Option<Value>,
    pub error: Option<WorkerResponseError>,
}

/// What `Value::as_u64` yields on a JSON value; a response id equals the JSON number `id`
/// exactly when it yields `Some(id)`.
pub uninterp spec fn json_as_u64(value: Value) -> Option<u64>;

/// `serde_json::Value::as_u64`: the number is the one named by `json_as_u64`.
#[verifier::external_body]
fn as_u64(value: &Value) -> (number: Option<u64>)
    ensures
        number == json_as_u64(*value),
{
    value.as_u64()
}

fn protocol_error(message: String) -> (error: WorkerSupervisorError)
    ensures
        protocol_error_with(error, message@),
{
    WorkerSupervisorError::Protocol { message, stderr: String::new() }
}

/// How a parsed response to request `id` of `method` ends: an id other than the request's is
/// a protocol error; an error member is the worker's rejection, with the worker's stderr;
/// otherwise the result, which must be there.
pub fn response_outcome(id: u64, method: &str, response: WorkerResponse, stderr: String) -> (outcome: Result<
    Value,
    WorkerSupervisorError,
>)
    ensures
        if json_as_u64(response.id) != Some(id) {
            outcome matches Err(error) && protocol_error_with(error, "response id mismatch for "@ + method@)
        } else {
            match response.error {
                Some(rejection) => outcome matches Err(WorkerSupervisorError::WorkerRejected {
                    code,
                    message,
                    data,
                    stderr: s,
                }) && code == rejection.code && message == rejection.message && data == rejection.data && s
                    == stderr,
                None => match response.result {
                    Some(result) => outcome == Ok::<Value, WorkerSupervisorError>(result),
                    None => outcome matches Err(error) && protocol_error_with(error, "missing result"@),
                },
            }
        },
{
    if !(match as_u64(&response.id) {
        Some(found) => found == id,
        None => false,
    }) {
        let mut message = String::from_str("response id mismatch for ");
        push_str(&mut message, method);
        return Err(protocol_error(message));
    }
    match response.error {
        Some(rejection) => Err(
            WorkerSupervisorError::WorkerRejected {
                code: rejection.code,
                message: rejection.message,
                data: rejection.data,
                stderr,
            },
        ),
        None => match response.result {
            Some(result) => Ok(result),
            None => Err(protocol_error(String::from_str("missing result"))),
        },
    }
}

/// The request ids of a batch: one per request, counted up from `next_request_id` (stopping at
/// `u64::MAX`), then the batch's own sequence.
pub open spec fn batch_id(next_request_id: u64, index: int) -> u64 {
    if next_request_id + index > u64::MAX {
        u64::MAX
    } else {
        (next_request_id + index) as u64
    }
}

/// Assigns request ids to the `count` requests of a batch and a sequence to the batch, from
/// `next_request_id`; returns the ids, the batch sequence and the next free id.
pub fn batch_request_ids(next_request_id: u64, count: usize) -> (ids: (Vec<u64>, u64, u64))
    ensures
        ids.0@.len() == count,
        forall|i: int| 0 <= i < count ==> #[trigger] ids.0@[i] == batch_id(next_request_id, i),
        ids.1 == batch_id(next_request_id, count as int),
        ids.2 == batch_id(next_request_id, count + 1),
{
    let mut request_ids: Vec<u64> = Vec::new();
    let mut next = next_request_id;
    let mut index: usize = 0;
    while index < count
        invariant
            index <= count,
            request_ids@.len() == index,
            next == batch_id(next_request_id, index as int),
            forall|i: int| 0 <= i < index ==> #[trigger] request_ids@[i] == batch_id(next_request_id, i),
        decreases count - index,
    {
        request_ids.push(next);
        next = next.saturating_add(1);
        index = index + 1;
    }
    let batch_sequence = next;
    let following = next.saturating_add(1);
    (request_ids, batch_sequence, following)
}

/// A batch answer must carry one response per request.
pub fn check_batch_response_count(expected: usize, got: usize) -> (result: Result<(), WorkerSupervisorError>)
    ensures
        expected == got ==> result is Ok,
        expected != got ==> (result matches Err(error) && protocol_error_with(
            error,
            "batch response count mismatch: expected "@ + decimal(expected as nat) + ", got "@ + decimal(
                got as nat,
            ),
        )),
{
    if expected != got {
        let mut message = String::from_str("batch response count mismatch: expected ");
        push_decimal(&mut message, expected as u128);
        push_str(&mut message, ", got ");
        push_decimal(&mut message, got as u128);
        return Err(protocol_error(message));
    }
    Ok(())
}

} // verus!
