use serde_json::Value;
use vstd::prelude::*;

use crate::audio_route::frame_len_matches;
use crate::text::{decimal, push_decimal, push_str};
use crate::worker_supervisor_error::WorkerSupervisorError;

verus! {

/// The kind of a message on the worker's audio connection.
#[derive(Debug, Clone, Copy, PartialEq, Eq)]
pub enum WorkerAudioMessageKind {
    ProcessRequest,
    ProcessResponse,
    ProcessError,
}

/// The fields of an audio frame header that a processed frame must echo.
#[derive(Debug, Clone, Copy, PartialEq, Eq)]
pub struct AudioFrameFields {
    pub stream_id: u64,
    pub sequence: u64,
    pub sent_frame_time: u64,
    pub sample_rate: u32,
    pub frames: u32,
    pub channels: u16,
    pub payload_len: u32,
}

/// A worker's audio processing error, decoded from its body.
#[derive(Debug)]
pub struct DecodedWorkerAudioError {
    pub message: String,
    pub data: Option<Value>,
}

pub open spec fn protocol_error_with(error: WorkerSupervisorError, message: Seq<char>) -> bool {
    error matches WorkerSupervisorError::Protocol { message: m, stderr } && m@ == message && stderr@ == Seq::<
        char,
    >::empty()
}

fn protocol_error(message: String) -> (error: WorkerSupervisorError)
    ensures
        protocol_error_with(error, message@),
{
    WorkerSupervisorError::Protocol { message, stderr: String::new() }
}

/// Checks that the worker answered the audio request it was sent.
pub fn check_audio_response_sequence(expected: u64, got: u64) -> (result: Result<(), WorkerSupervisorError>)
    ensures
        expected == got ==> result is Ok,
        expected != got ==> (result matches Err(error) && protocol_error_with(
            error,
            "audio response sequence mismatch: expected "@ + decimal(expected as nat) + ", got "@ + decimal(
                got as nat,
            ),
        )),
{
    if expected != got {
        let mut message = String::from_str("audio response sequence mismatch: expected ");
        push_decimal(&mut message, expected as u128);
        push_str(&mut message, ", got ");
        push_decimal(&mut message, got as u128);
        return Err(protocol_error(message));
    }
    Ok(())
}

/// A processed frame fits its request when it has the request's stream, sequence, send time,
/// sample rate and frame count, and the instance's output channel count.
pub open spec fn echoes_request(response: AudioFrameFields, request: AudioFrameFields, expected_output_channels: u16) -> bool {
    &&& response.stream_id == request.stream_id
    &&& response.sequence == request.sequence
    &&& response.sent_frame_time == request.sent_frame_time
    &&& response.sample_rate == request.sample_rate
    &&& response.frames == request.frames
    &&& response.channels == expected_output_channels
}

/// Validates the processed frame of `frame_len` bytes, whose header decoded to `response`
/// (the decoding failure's text on error), against the request's header.
pub fn validate_audio_response_frame(
    frame_len: usize,
    header_len: usize,
    response: Result<AudioFrameFields, String>,
    request: AudioFrameFields,
    expected_output_channels: u16,
) -> (result: Result<(), WorkerSupervisorError>)
    ensures
        match response {
            Err(decode_error) => result matches Err(error) && protocol_error_with(
                error,
                "invalid audio response frame: "@ + decode_error@,
            ),
            Ok(response) => if header_len + response.payload_len > usize::MAX {
                result matches Err(error) && protocol_error_with(error, "audio response frame length overflow"@)
            } else if frame_len_matches(frame_len as int, header_len as int, response.payload_len as int)
                && echoes_request(response, request, expected_output_channels) {
                result is Ok
            } else {
                result matches Err(error) && protocol_error_with(
                    error,
                    "audio response frame does not match request or instance configuration"@,
                )
            },
        },
{
    let response = match response {
        Ok(response) => response,
        Err(decode_error) => {
            let mut message = String::from_str("invalid audio response frame: ");
            push_str(&mut message, decode_error.as_str());
            return Err(protocol_error(message));
        },
    };
    let expected_len = match header_len.checked_add(response.payload_len as usize) {
        Some(expected_len) => expected_len,
        None => return Err(protocol_error(String::from_str("audio response frame length overflow"))),
    };
    if frame_len != expected_len || response.stream_id != request.stream_id || response.sequence != request.sequence
        || response.sent_frame_time != request.sent_frame_time || response.sample_rate != request.sample_rate
        || response.frames != request.frames || response.channels != expected_output_channels {
        return Err(
            protocol_error(String::from_str("audio response frame does not match request or instance configuration")),
        );
    }
    Ok(())
}

/// The error a processing failure reported by the worker becomes: a rejection with the
/// frame's status code and the decoded message and data.
pub fn process_error_rejection(status_code: u16, error: DecodedWorkerAudioError) -> (rejection:
    WorkerSupervisorError)
    ensures
        rejection matches WorkerSupervisorError::WorkerRejected { code, message, data, stderr } && code
            == status_code as i64 && message == error.message && data == error.data && stderr@ == Seq::<
            char,
        >::empty(),
{
    WorkerSupervisorError::WorkerRejected {
        code: status_code as i64,
        message: error.message,
        data: error.data,
        stderr: String::new(),
    }
}

/// The protocol error text for an audio response kind that cannot answer a request: only a
/// request frame on the response path.
pub open spec fn response_kind_error(kind: WorkerAudioMessageKind) -> Option<Seq<char>> {
    match kind {
        WorkerAudioMessageKind::ProcessRequest => Some("worker returned request on response path"@),
        _ => None,
    }
}

/// The protocol error for a response frame of a kind that cannot answer a request, if it is one.
pub fn response_kind_check(kind: WorkerAudioMessageKind) -> (result: Result<(), WorkerSupervisorError>)
    ensures
        match response_kind_error(kind) {
            None => result is Ok,
            Some(message) => result matches Err(error) && protocol_error_with(error, message),
        },
{
    match kind {
        WorkerAudioMessageKind::ProcessRequest => Err(
            protocol_error(String::from_str("worker returned request on response path")),
        ),
        _ => Ok(()),
    }
}

} // verus!
