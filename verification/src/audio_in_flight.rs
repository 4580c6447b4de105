use std::collections::BTreeSet;
use vstd::prelude::*;

verus! {

broadcast use vstd::std_specs::btree::group_btree_axioms;

/// The streams that have an audio frame with their worker: at most one frame per stream is
/// in flight at a time.
#[derive(Debug)]
pub struct AudioInFlightLimiter {
    streams: BTreeSet<u64>,
}

impl AudioInFlightLimiter {
    /// The streams with a frame in flight.
    pub closed spec fn in_flight(&self) -> Set<u64> {
        self.streams@
    }

    pub fn new() -> (limiter: Self)
        ensures
            limiter.in_flight() == Set::<u64>::empty(),
    {
        AudioInFlightLimiter { streams: BTreeSet::new() }
    }

    /// Claims the stream for one frame; fails when a frame of the stream is already in flight.
    pub fn try_acquire(&mut self, stream_id: u64) -> (acquired: bool)
        ensures
            acquired == !old(self).in_flight().contains(stream_id),
            final(self).in_flight() == old(self).in_flight().insert(stream_id),
    {
        self.streams.insert(stream_id)
    }

    /// Whether a frame of the stream is in flight.
    pub fn is_in_flight(&self, stream_id: u64) -> (busy: bool)
        ensures
            busy == self.in_flight().contains(stream_id),
    {
        self.streams.contains(&stream_id)
    }

    /// Frees the stream once its frame has come back.
    pub fn release(&mut self, stream_id: u64)
        ensures
            final(self).in_flight() == old(self).in_flight().remove(stream_id),
    {
        self.streams.remove(&stream_id);
    }
}

/// A stream claimed for a frame cannot be claimed again until it is released, and can be
/// claimed again right after.
pub proof fn lemma_one_frame_in_flight_per_stream(in_flight: Set<u64>, stream_id: u64)
    ensures
        in_flight.insert(stream_id).contains(stream_id),
        !in_flight.insert(stream_id).remove(stream_id).contains(stream_id),
{
}

} // verus!
