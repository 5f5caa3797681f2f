//! The buffer of mixed samples and the decision to cut a chunk from it.

use crate::clock::nanos_since;
use std::time::Instant;
use vstd::prelude::*;

verus! {

/// Sample rate, in hertz, that the transcription service requires.
pub const TRANSCRIPTION_SAMPLE_RATE: u32 = 16000;

/// Length of a full chunk, in milliseconds.
pub const CHUNK_DURATION_MS: u64 = 30000;

/// Shortest chunk that is sent, in milliseconds.
pub const MIN_CHUNK_DURATION_MS: u64 = 2000;

/// Samples in a full chunk: thirty seconds at the transcription rate.
pub const TARGET_CHUNK_SAMPLES: usize = 480000;

/// Samples in the shortest chunk: two seconds at the transcription rate.
pub const MIN_CHUNK_SAMPLES: usize = 32000;

/// Whether a buffer of `buffered` samples is cut into a chunk when
/// `elapsed_nanos` nanoseconds have passed since the last cut: it is full,
/// or it holds the minimum and a full chunk's time has passed.
pub open spec fn flush_due(buffered: nat, elapsed_nanos: nat) -> bool {
    buffered >= TARGET_CHUNK_SAMPLES || (buffered >= MIN_CHUNK_SAMPLES && elapsed_nanos
        >= CHUNK_DURATION_MS * 1_000_000)
}

/// Decides [`flush_due`].
pub fn should_flush(buffered: usize, elapsed_nanos: u128) -> (due: bool)
    ensures
        due == flush_due(buffered as nat, elapsed_nanos as nat),
{
    buffered >= TARGET_CHUNK_SAMPLES || (buffered >= MIN_CHUNK_SAMPLES && elapsed_nanos
        >= 30_000_000_000)
}

/// The chunk sizes are the chunk durations at the transcription rate.
pub proof fn law_chunk_sizes_follow_rate()
    ensures
        TARGET_CHUNK_SAMPLES == TRANSCRIPTION_SAMPLE_RATE * CHUNK_DURATION_MS / 1000,
        MIN_CHUNK_SAMPLES == TRANSCRIPTION_SAMPLE_RATE * MIN_CHUNK_DURATION_MS / 1000,
{
}

/// A full buffer is cut whatever the time; a buffer with at least the
/// minimum is cut once a full chunk's time has passed; and nothing else is
/// cut.
pub proof fn law_flush_conditions(buffered: nat, elapsed_nanos: nat)
    ensures
        buffered >= 480000 ==> flush_due(buffered, elapsed_nanos),
        buffered >= 32000 && elapsed_nanos >= 30_000_000_000 ==> flush_due(
            buffered,
            elapsed_nanos,
        ),
        buffered < 32000 ==> !flush_due(buffered, elapsed_nanos),
        buffered < 480000 && elapsed_nanos < 30_000_000_000 ==> !flush_due(
            buffered,
            elapsed_nanos,
        ),
{
}

/// Appends a copy of each sample to the buffer.
pub fn extend_copy<T: Copy>(buffer: &mut Vec<T>, samples: &[T])
    ensures
        final(buffer)@ == old(buffer)@ + samples@,
{
    let mut i: usize = 0;
    while i < samples.len()
        invariant
            i <= samples.len(),
            buffer@ == old(buffer)@ + samples@.take(i as int),
        decreases samples.len() - i,
    {
        buffer.push(samples[i]);
        i += 1;
    }
}

/// Mixed samples waiting to be cut into a chunk, with the clock reading of
/// the last cut.
pub struct ChunkAccumulator<T> {
    buffer: Vec<T>,
    last_flush: Instant,
}

impl<T> View for ChunkAccumulator<T> {
    type V = Seq<T>;

    closed spec fn view(&self) -> Seq<T> {
        self.buffer@
    }
}

impl<T: Copy> ChunkAccumulator<T> {
    /// The clock reading taken at the last cut.
    pub closed spec fn last_flush(&self) -> Instant {
        self.last_flush
    }

    /// An empty buffer whose last cut is now.
    pub fn new() -> (acc: Self)
        ensures
            acc@ == Seq::<T>::empty(),
    {
        ChunkAccumulator { buffer: Vec::new(), last_flush: Instant::now() }
    }

    /// Number of samples that wait.
    pub fn len(&self) -> (n: usize)
        ensures
            n == self@.len(),
    {
        self.buffer.len()
    }

    /// Appends samples to the buffer.
    pub fn append(&mut self, samples: &[T])
        ensures
            final(self)@ == old(self)@ + samples@,
            final(self).last_flush() == old(self).last_flush(),
    {
        extend_copy(&mut self.buffer, samples);
    }

    /// Cuts the buffer into a chunk if that is due, given the nanoseconds
    /// that have passed since the last cut and the clock reading `now`.
    ///
    /// When it is due the whole buffer is returned, the buffer is left
    /// empty and `now` becomes the time of the last cut. Otherwise nothing
    /// changes.
    pub fn take_due_after(&mut self, elapsed_nanos: u128, now: Instant) -> (chunk: Option<Vec<T>>)
        ensures
            chunk is Some <==> flush_due(old(self)@.len(), elapsed_nanos as nat),
            chunk matches Some(c) ==> c@ == old(self)@ && final(self)@ == Seq::<T>::empty()
                && final(self).last_flush() == now,
            chunk is None ==> *final(self) == *old(self),
    {
        if should_flush(self.buffer.len(), elapsed_nanos) {
            let mut chunk: Vec<T> = Vec::new();
            std::mem::swap(&mut chunk, &mut self.buffer);
            self.last_flush = now;
            Some(chunk)
        } else {
            None
        }
    }

    /// Nanoseconds that have passed since the last cut.
    pub(crate) fn nanos_since_flush(&self) -> u128 {
        nanos_since(&self.last_flush)
    }

    /// Cuts the buffer into a chunk if that is due by the clock.
    ///
    /// Whatever the clock says: a full buffer is cut; a buffer under the
    /// minimum is not; a chunk is the whole buffer, which is left empty;
    /// and without a chunk nothing changes.
    pub fn take_due(&mut self) -> (chunk: Option<Vec<T>>)
        ensures
            old(self)@.len() >= TARGET_CHUNK_SAMPLES ==> chunk is Some,
            old(self)@.len() < MIN_CHUNK_SAMPLES ==> chunk is None,
            chunk matches Some(c) ==> c@ == old(self)@ && final(self)@ == Seq::<T>::empty(),
            chunk is None ==> *final(self) == *old(self),
    {
        let elapsed = self.nanos_since_flush();
        let now = Instant::now();
        self.take_due_after(elapsed, now)
    }
}

} // verus!
