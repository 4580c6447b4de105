use wvst_bridge_server::audio_in_flight::AudioInFlightLimiter;

#[test]
fn one_frame_per_stream_is_in_flight() {
    let mut limiter = AudioInFlightLimiter::new();
    assert!(!limiter.is_in_flight(9));
    assert!(limiter.try_acquire(9));
    assert!(!limiter.try_acquire(9));
    assert!(limiter.is_in_flight(9));
    assert!(limiter.try_acquire(10));
    limiter.release(9);
    assert!(!limiter.is_in_flight(9));
    assert!(limiter.is_in_flight(10));
    assert!(limiter.try_acquire(9));
}
