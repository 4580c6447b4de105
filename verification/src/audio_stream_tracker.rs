use std::collections::BTreeMap;
use vstd::prelude::*;

verus! {

broadcast use vstd::std_specs::btree::group_btree_axioms;

/// The fields of an audio frame header that stream tracking reads.
#[derive(Debug, Clone, Copy, PartialEq, Eq)]
pub struct AudioFrameHeader {
    pub stream_id: u64,
    pub sequence: u64,
    pub frames: u32,
    pub sample_rate: u32,
    pub late: bool,
}

/// What tracking learned from one frame.
#[derive(Debug, Clone, Copy, Default, PartialEq, Eq)]
pub struct AudioStreamObservation {
    pub sequence_gap: u64,
    pub duplicate: bool,
    pub out_of_order: bool,
    pub late: bool,
    pub interarrival_jitter_us: Option<u64>,
}

/// Per-stream tracking state: the next expected sequence number and the arrival time
/// (microseconds on the caller's monotonic clock) of the previous frame.
#[derive(Debug, Clone, Copy, Default, PartialEq, Eq)]
pub struct StreamAudioState {
    pub expected_sequence: Option<u64>,
    pub last_arrival_us: Option<u64>,
}

/// The nominal duration of a block, in microseconds; 0 when the sample rate is 0.
pub open spec fn spec_expected_block_duration_us(header: AudioFrameHeader) -> u64 {
    if header.sample_rate == 0 {
        0
    } else {
        ((header.frames * 1_000_000) / (header.sample_rate as int)) as u64
    }
}

pub fn expected_block_duration_us(header: AudioFrameHeader) -> (micros: u64)
    ensures
        micros == spec_expected_block_duration_us(header),
{
    let frames = header.frames as u64;
    assert(frames * 1_000_000 <= u64::MAX) by (nonlinear_arith)
        requires
            frames <= u32::MAX,
    ;
    let scaled = frames * 1_000_000;
    match scaled.checked_div(header.sample_rate as u64) {
        Some(value) => value,
        None => 0,
    }
}

pub open spec fn abs_diff(a: u64, b: u64) -> u64 {
    if a >= b {
        (a - b) as u64
    } else {
        (b - a) as u64
    }
}

/// How far the gap between two arrivals is from the block duration. An arrival before
/// the previous one counts as no time passed.
pub open spec fn spec_interarrival_jitter_us(header: AudioFrameHeader, arrived_at_us: u64, last_arrival_us: u64) -> u64 {
    let actual: u64 = if arrived_at_us >= last_arrival_us {
        (arrived_at_us - last_arrival_us) as u64
    } else {
        0
    };
    abs_diff(actual, spec_expected_block_duration_us(header))
}

pub fn interarrival_jitter_us(header: AudioFrameHeader, arrived_at_us: u64, last_arrival_us: u64) -> (jitter: u64)
    ensures
        jitter == spec_interarrival_jitter_us(header, arrived_at_us, last_arrival_us),
{
    let actual_us = arrived_at_us.saturating_sub(last_arrival_us);
    let expected_us = expected_block_duration_us(header);
    if actual_us >= expected_us {
        actual_us - expected_us
    } else {
        expected_us - actual_us
    }
}

pub open spec fn next_expected(sequence: u64) -> Option<u64> {
    if sequence == u64::MAX {
        None
    } else {
        Some((sequence + 1) as u64)
    }
}

/// The new stream state and the observation for one frame arriving at `arrived_at_us`.
pub open spec fn spec_observe(
    state: StreamAudioState,
    header: AudioFrameHeader,
    arrived_at_us: u64,
) -> (StreamAudioState, AudioStreamObservation) {
    let jitter = match state.last_arrival_us {
        Some(last) => Some(spec_interarrival_jitter_us(header, arrived_at_us, last)),
        None => None,
    };
    let base = AudioStreamObservation {
        sequence_gap: 0,
        duplicate: false,
        out_of_order: false,
        late: header.late,
        interarrival_jitter_us: jitter,
    };
    let (expected, observation) = match state.expected_sequence {
        None => (next_expected(header.sequence), base),
        Some(expected) => if header.sequence == expected {
            (next_expected(header.sequence), base)
        } else if header.sequence > expected {
            (
                next_expected(header.sequence),
                AudioStreamObservation { sequence_gap: (header.sequence - expected) as u64, ..base },
            )
        } else if header.sequence + 1 == expected || (expected == 0 && header.sequence == 0) {
            (state.expected_sequence, AudioStreamObservation { duplicate: true, ..base })
        } else {
            (state.expected_sequence, AudioStreamObservation { out_of_order: true, ..base })
        },
    };
    (StreamAudioState { expected_sequence: expected, last_arrival_us: Some(arrived_at_us) }, observation)
}

/// Tracks sequence numbers and arrival times of the audio frames of each stream.
#[derive(Debug, Default)]
pub struct AudioStreamTracker {
    streams: BTreeMap<u64, StreamAudioState>,
}

impl AudioStreamTracker {
    pub closed spec fn streams(&self) -> Map<u64, StreamAudioState> {
        self.streams@
    }

    pub fn new() -> (tracker: Self)
        ensures
            tracker.streams() == Map::<u64, StreamAudioState>::empty(),
    {
        AudioStreamTracker { streams: BTreeMap::new() }
    }

    /// Forgets everything known of a stream.
    pub fn reset(&mut self, stream_id: u64)
        ensures
            final(self).streams() == old(self).streams().remove(stream_id),
    {
        self.streams.remove(&stream_id);
    }

    /// Records a frame of `header.stream_id` arriving at `arrived_at_us` and reports
    /// sequence gaps, duplicates, reordering, lateness and jitter against the stream's
    /// previous frames.
    pub fn observe_at(&mut self, header: AudioFrameHeader, arrived_at_us: u64) -> (observation:
        AudioStreamObservation)
        ensures
            ({
                let state = if old(self).streams().contains_key(header.stream_id) {
                    old(self).streams()[header.stream_id]
                } else {
                    StreamAudioState { expected_sequence: None, last_arrival_us: None }
                };
                let (next, expected_observation) = spec_observe(state, header, arrived_at_us);
                &&& observation == expected_observation
                &&& final(self).streams() == old(self).streams().insert(header.stream_id, next)
            }),
    {
        let state = match self.streams.get(&header.stream_id) {
            Some(state) => *state,
            None => StreamAudioState { expected_sequence: None, last_arrival_us: None },
        };
        let jitter = match state.last_arrival_us {
            Some(last) => Some(interarrival_jitter_us(header, arrived_at_us, last)),
            None => None,
        };
        let mut observation = AudioStreamObservation {
            sequence_gap: 0,
            duplicate: false,
            out_of_order: false,
            late: header.late,
            interarrival_jitter_us: jitter,
        };
        let mut expected_sequence = state.expected_sequence;
        match state.expected_sequence {
            Some(expected) => {
                if header.sequence == expected {
                    expected_sequence = header.sequence.checked_add(1);
                } else if header.sequence > expected {
                    observation.sequence_gap = header.sequence - expected;
                    expected_sequence = header.sequence.checked_add(1);
                } else if header.sequence == expected.saturating_sub(1) {
                    observation.duplicate = true;
                } else {
                    observation.out_of_order = true;
                }
            },
            None => {
                expected_sequence = header.sequence.checked_add(1);
            },
        }
        self.streams.insert(
            header.stream_id,
            StreamAudioState { expected_sequence, last_arrival_us: Some(arrived_at_us) },
        );
        observation
    }
}

/// Frames in order stay in order: after a frame that was neither a duplicate nor out of
/// order, the frame with the next sequence number shows no gap, no duplicate and no
/// reordering, whatever the arrival times.
pub proof fn lemma_consecutive_frames_in_order(
    state: StreamAudioState,
    first: AudioFrameHeader,
    first_arrival_us: u64,
    second: AudioFrameHeader,
    second_arrival_us: u64,
)
    requires
        first.sequence < u64::MAX,
        second.sequence == first.sequence + 1,
        !spec_observe(state, first, first_arrival_us).1.duplicate,
        !spec_observe(state, first, first_arrival_us).1.out_of_order,
    ensures
        ({
            let observation = spec_observe(spec_observe(state, first, first_arrival_us).0, second, second_arrival_us).1;
            &&& observation.sequence_gap == 0
            &&& !observation.duplicate
            &&& !observation.out_of_order
        }),
{
}

/// The first frame of a stream starts it: it shows no gap, duplicate or reordering.
pub proof fn lemma_first_frame_in_order(header: AudioFrameHeader, arrived_at_us: u64)
    ensures
        ({
            let observation = spec_observe(
                StreamAudioState { expected_sequence: None, last_arrival_us: None },
                header,
                arrived_at_us,
            ).1;
            &&& observation.sequence_gap == 0
            &&& !observation.duplicate
            &&& !observation.out_of_order
            &&& observation.interarrival_jitter_us is None
        }),
{
}

} // verus!
