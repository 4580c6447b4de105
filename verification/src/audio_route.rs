use vstd::prelude::*;

use crate::metrics::{bump, BridgeMetrics, MetricsCounters};
use crate::instance_registry::{
    is_search_result, view_option, InstanceRecord, InstanceRecordView, InstanceRegistry, InstanceState,
    RecordQuery, StreamState,
};

verus! {

/// The fields of a decoded audio frame header that routing reads.
#[derive(Debug, Clone, Copy, PartialEq, Eq)]
pub struct RoutedFrameHeader {
    pub stream_id: u64,
    pub payload_len: u32,
    pub channels: u16,
}

/// Why a diagnostic silence frame answers in place of processed audio.
#[derive(Debug, Clone, Copy, PartialEq, Eq)]
pub enum SilenceReason {
    /// The stream is closed: silence that also ends the stream.
    EndOfStream,
    /// The frame could not be processed: silence flagged as a processing error.
    ProcessError,
    /// The frame was dropped because another frame of its stream is still being processed:
    /// silence flagged as late.
    Late,
}

/// What to do with a binary audio frame.
#[derive(Debug, Clone, Copy, PartialEq, Eq)]
pub enum AudioRoutePlan {
    /// Bytes that do not decode as an audio frame: answered with nothing.
    Reject,
    /// A frame whose length is not its header's length plus its payload length: answered
    /// with error silence of the frame's own channel count.
    InvalidLength { channels: u16 },
    /// A whole frame of a stream that no instance has: answered with error silence of the
    /// frame's own channel count.
    UnmatchedStream { channels: u16 },
    /// Answer with a silence frame of the instance's output channel count.
    Silence { instance_id: u64, output_channels: u16, reason: SilenceReason },
    /// Hand the frame to the instance's worker.
    Process { instance_id: u64, output_channels: u16 },
}

/// A frame is whole when its length is the header length plus the announced payload length.
pub open spec fn frame_len_matches(frame_len: int, header_len: int, payload_len: int) -> bool {
    header_len + payload_len == frame_len
}

/// Whether a frame's length is its header length plus its payload length (an overflowing sum
/// never matches).
pub fn frame_has_length(frame_len: usize, header_len: usize, payload_len: u32) -> (matches: bool)
    ensures
        matches == frame_len_matches(frame_len as int, header_len as int, payload_len as int),
{
    match header_len.checked_add(payload_len as usize) {
        Some(expected) => frame_len == expected,
        None => false,
    }
}

/// The plan for a frame of the stream whose record was found: a closed stream ends with
/// silence, an instance that is not processing answers with error silence, else the worker
/// processes the frame.
pub open spec fn spec_plan_for_record(found: Option<InstanceRecordView>, channels: u16) -> AudioRoutePlan {
    match found {
        None => AudioRoutePlan::UnmatchedStream { channels },
        Some(record) => if record.stream_state != StreamState::Open {
            AudioRoutePlan::Silence {
                instance_id: record.instance_id,
                output_channels: record.output_channels,
                reason: SilenceReason::EndOfStream,
            }
        } else if record.state != InstanceState::Processing {
            AudioRoutePlan::Silence {
                instance_id: record.instance_id,
                output_channels: record.output_channels,
                reason: SilenceReason::ProcessError,
            }
        } else {
            AudioRoutePlan::Process { instance_id: record.instance_id, output_channels: record.output_channels }
        },
    }
}

fn plan_for_record(found: &Option<InstanceRecord>, channels: u16) -> (plan: AudioRoutePlan)
    ensures
        plan == spec_plan_for_record(view_option(*found), channels),
{
    match found {
        None => AudioRoutePlan::UnmatchedStream { channels },
        Some(record) => {
            if !matches!(record.stream_state, StreamState::Open) {
                AudioRoutePlan::Silence {
                    instance_id: record.instance_id,
                    output_channels: record.output_channels,
                    reason: SilenceReason::EndOfStream,
                }
            } else if !matches!(record.state, InstanceState::Processing) {
                AudioRoutePlan::Silence {
                    instance_id: record.instance_id,
                    output_channels: record.output_channels,
                    reason: SilenceReason::ProcessError,
                }
            } else {
                AudioRoutePlan::Process { instance_id: record.instance_id, output_channels: record.output_channels }
            }
        },
    }
}

/// Decides how to route a binary frame of `frame_len` bytes whose header decoded to `header`
/// (`None` when it did not decode): bytes that do not decode are rejected, a frame whose
/// length does not match its header and a whole frame of a stream that has no record are
/// answered with error silence; otherwise the plan follows the stream's record (the one with
/// the smallest instance id).
pub fn plan_audio_route(
    registry: &InstanceRegistry,
    frame_len: usize,
    header_len: usize,
    header: Option<RoutedFrameHeader>,
) -> (plan: AudioRoutePlan)
    requires
        registry.wf(),
    ensures
        match header {
            None => plan == AudioRoutePlan::Reject,
            Some(header) => if !frame_len_matches(frame_len as int, header_len as int, header.payload_len as int) {
                plan == AudioRoutePlan::InvalidLength { channels: header.channels }
            } else {
                exists|found: Option<InstanceRecordView>|
                    is_search_result(registry.records(), RecordQuery::StreamId(header.stream_id), found) && plan
                        == spec_plan_for_record(found, header.channels)
            },
        },
{
    match header {
        None => AudioRoutePlan::Reject,
        Some(header) => {
            if !frame_has_length(frame_len, header_len, header.payload_len) {
                return AudioRoutePlan::InvalidLength { channels: header.channels };
            }
            let found = registry.find_by_stream_id(header.stream_id);
            plan_for_record(&found, header.channels)
        },
    }
}

/// The counters a plan moves before any worker is asked: an undecodable frame counts as an
/// invalid header, a frame of the wrong length as an invalid length, and a frame of an
/// unknown stream as an unmatched stream.
pub open spec fn spec_plan_counters(before: MetricsCounters, plan: AudioRoutePlan) -> MetricsCounters {
    match plan {
        AudioRoutePlan::Reject => MetricsCounters {
            audio_frame_invalid_headers: bump(before.audio_frame_invalid_headers),
            ..before
        },
        AudioRoutePlan::InvalidLength { .. } => MetricsCounters {
            audio_frame_invalid_lengths: bump(before.audio_frame_invalid_lengths),
            ..before
        },
        AudioRoutePlan::UnmatchedStream { .. } => MetricsCounters {
            audio_frame_unmatched_streams: bump(before.audio_frame_unmatched_streams),
            ..before
        },
        _ => before,
    }
}

/// Counts what a plan says of the frame in the bridge metrics.
pub fn record_route_plan(metrics: &mut BridgeMetrics, plan: AudioRoutePlan)
    requires
        old(metrics).wf(),
    ensures
        final(metrics).wf(),
        final(metrics).counters() == spec_plan_counters(old(metrics).counters(), plan),
        final(metrics).histograms() == old(metrics).histograms(),
{
    match plan {
        AudioRoutePlan::Reject => metrics.increment_audio_frame_invalid_headers(),
        AudioRoutePlan::InvalidLength { .. } => metrics.increment_audio_frame_invalid_lengths(),
        AudioRoutePlan::UnmatchedStream { .. } => metrics.increment_audio_frame_unmatched_streams(),
        _ => {},
    }
}

/// Whether the worker's processed frame may go back to the client: it decoded, its length
/// matches its header and it belongs to the same stream as the request.
pub open spec fn spec_processed_frame_accepted(
    request: RoutedFrameHeader,
    processed_len: int,
    header_len: int,
    processed: Option<RoutedFrameHeader>,
) -> bool {
    match processed {
        None => false,
        Some(processed) => frame_len_matches(processed_len, header_len, processed.payload_len as int)
            && processed.stream_id == request.stream_id,
    }
}

/// Checks the worker's processed frame against the request; a rejected frame is answered
/// with error silence.
pub fn processed_frame_accepted(
    request: RoutedFrameHeader,
    processed_len: usize,
    header_len: usize,
    processed: Option<RoutedFrameHeader>,
) -> (accepted: bool)
    ensures
        accepted == spec_processed_frame_accepted(request, processed_len as int, header_len as int, processed),
{
    match processed {
        None => false,
        Some(processed) => frame_has_length(processed_len, header_len, processed.payload_len)
            && processed.stream_id == request.stream_id,
    }
}

/// A whole frame of a stream that is not open is answered with end-of-stream silence,
/// whatever the instance's state; a processing instance with an open stream processes the
/// frame; error silence answers only an open stream of an instance that is not processing.
pub proof fn lemma_closed_stream_ends_with_silence(record: InstanceRecordView, channels: u16)
    ensures
        record.stream_state != StreamState::Open ==> spec_plan_for_record(Some(record), channels)
            == (AudioRoutePlan::Silence {
            instance_id: record.instance_id,
            output_channels: record.output_channels,
            reason: SilenceReason::EndOfStream,
        }),
        record.stream_state == StreamState::Open && record.state == InstanceState::Processing ==> spec_plan_for_record(
            Some(record),
            channels,
        ) == (AudioRoutePlan::Process { instance_id: record.instance_id, output_channels: record.output_channels }),
        spec_plan_for_record(Some(record), channels) matches AudioRoutePlan::Silence {
            reason: SilenceReason::ProcessError,
            ..
        } ==> record.stream_state == StreamState::Open && record.state != InstanceState::Processing,
{
}

} // verus!
