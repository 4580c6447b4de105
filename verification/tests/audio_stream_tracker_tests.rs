use wvst_bridge_server::audio_stream_tracker::{
    expected_block_duration_us, interarrival_jitter_us, AudioFrameHeader, AudioStreamObservation,
    AudioStreamTracker,
};

fn header(sequence: u64, late: bool) -> AudioFrameHeader {
    AudioFrameHeader {
        stream_id: 7,
        sequence,
        frames: 48,
        sample_rate: 48_000,
        late,
    }
}

#[test]
fn reports_sequence_gap_duplicate_out_of_order_and_late() {
    let mut tracker = AudioStreamTracker::new();
    let start: u64 = 5_000_000;

    assert_eq!(
        tracker.observe_at(header(10, false), start),
        AudioStreamObservation::default()
    );

    let gap = tracker.observe_at(header(12, false), start + 1_000);
    assert_eq!(gap.sequence_gap, 1);
    assert_eq!(gap.interarrival_jitter_us, Some(0));

    let duplicate = tracker.observe_at(header(12, true), start + 2_200);
    assert!(duplicate.duplicate);
    assert!(duplicate.late);
    assert_eq!(duplicate.interarrival_jitter_us, Some(200));

    let out_of_order = tracker.observe_at(header(11, false), start + 3_200);
    assert!(out_of_order.out_of_order);
}

#[test]
fn reset_drops_previous_sequence_state() {
    let mut tracker = AudioStreamTracker::new();
    let start: u64 = 5_000_000;

    let _ = tracker.observe_at(header(10, false), start);
    tracker.reset(7);

    assert_eq!(
        tracker.observe_at(header(0, false), start),
        AudioStreamObservation::default()
    );
}

#[test]
fn block_duration_and_jitter_formulas() {
    assert_eq!(expected_block_duration_us(header(0, false)), 1_000);
    let zero_rate = AudioFrameHeader { sample_rate: 0, ..header(0, false) };
    assert_eq!(expected_block_duration_us(zero_rate), 0);
    assert_eq!(interarrival_jitter_us(header(0, false), 2_300, 1_000), 300);
    assert_eq!(interarrival_jitter_us(header(0, false), 1_700, 1_000), 300);
}
