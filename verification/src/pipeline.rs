//! One tick of the mixing loop: timeout check, mixing, buffering and the
//! cut of a chunk.
//!
//! The loop itself, its polling interval and the draining of the capture
//! sources belong to the caller; each tick it hands over what it drained
//! and carries out what the tick decides.

use crate::chunk::{flush_due, ChunkAccumulator, TRANSCRIPTION_SAMPLE_RATE};
use crate::mixer::{can_mix, is_mix_of, mix_samples};
use crate::resample::{can_resample, resampled, try_resample};
use crate::transcript::{
    initial_state, segment_views, state_after_segments, state_after_timeout, timeout_update,
    update_from_timeout,
    update_is, update_views, updates_from_segments, AccumulatorState, TranscriptAccumulator,
    TranscriptSegment, TranscriptUpdate,
};
use std::time::Instant;
use vstd::prelude::*;

verus! {

/// Time between two ticks of the mixing loop, in milliseconds.
pub const POLL_INTERVAL_MS: u64 = 10;

/// The clock as one tick sees it.
pub struct TickClock {
    /// Nanoseconds since the sentence accumulator last changed.
    pub since_update_nanos: u128,
    /// Nanoseconds since the last chunk was cut.
    pub since_flush_nanos: u128,
    /// The reading that becomes the time of the cut, if a chunk is cut.
    pub now: Instant,
}

/// What the caller does after a tick.
#[derive(Debug)]
pub struct TickOutcome<T> {
    /// A sentence that timed out, to be emitted.
    pub timeout_update: Option<TranscriptUpdate>,
    /// The microphone gave no samples: subscribe to it anew.
    pub resubscribe_mic: bool,
    /// The system audio gave no samples: subscribe to it anew.
    pub resubscribe_system: bool,
    /// A chunk that was cut, at the capture rate, to be transcribed.
    pub chunk: Option<Vec<T>>,
}

/// The state of the mixing loop.
pub ghost struct PipelineView<T> {
    pub sentence: AccumulatorState,
    pub buffered: Seq<T>,
}

/// Whether `after` and `outcome` are what a tick makes of `before` when it
/// is handed the batches `mic` and `system`, and the clock shows
/// `since_update` nanoseconds since the last sentence change and
/// `since_flush` nanoseconds since the last cut.
pub open spec fn tick_result<T, F: Fn(T, T) -> T>(
    before: PipelineView<T>,
    after: PipelineView<T>,
    outcome: TickOutcome<T>,
    mic: Seq<T>,
    system: Seq<T>,
    silence: T,
    blend: F,
    since_update: nat,
    since_flush: nat,
) -> bool {
    &&& after.sentence == state_after_timeout(before.sentence, since_update)
    &&& update_is(outcome.timeout_update, update_from_timeout(before.sentence, since_update))
    &&& outcome.resubscribe_mic == (mic.len() == 0)
    &&& outcome.resubscribe_system == (system.len() == 0)
    &&& exists|mixed: Seq<T>|
        {
            &&& #[trigger] is_mix_of(mixed, mic, system, silence, blend)
            &&& if flush_due((before.buffered + mixed).len(), since_flush) {
                &&& outcome.chunk matches Some(c)
                &&& c@ == before.buffered + mixed
                &&& after.buffered == Seq::<T>::empty()
            } else {
                &&& outcome.chunk is None
                &&& after.buffered == before.buffered + mixed
            }
        }
}

/// The sentence accumulator and the chunk buffer of one session.
pub struct Pipeline<T> {
    accumulator: TranscriptAccumulator,
    chunk: ChunkAccumulator<T>,
}

impl<T> View for Pipeline<T> {
    type V = PipelineView<T>;

    closed spec fn view(&self) -> PipelineView<T> {
        PipelineView { sentence: self.accumulator@, buffered: self.chunk@ }
    }
}

impl<T: Copy> Pipeline<T> {
    /// A pipeline with no sentence in progress and nothing buffered.
    pub fn new() -> (p: Self)
        ensures
            p@.sentence == initial_state(),
            p@.buffered == Seq::<T>::empty(),
    {
        Pipeline { accumulator: TranscriptAccumulator::new(), chunk: ChunkAccumulator::new() }
    }

    /// Number of mixed samples that wait for the next cut.
    pub fn buffered_len(&self) -> (n: usize)
        ensures
            n == self@.buffered.len(),
    {
        self.chunk.len()
    }

    /// One tick, with the clock given.
    ///
    /// In order: a sentence that has waited for more than a second is
    /// emitted; a capture source that gave nothing is marked for a new
    /// subscription; the two batches are mixed and the mix is appended to
    /// the buffer; and the buffer is cut into a chunk if that is due.
    pub fn tick_at<F: Fn(T, T) -> T>(
        &mut self,
        mic: &[T],
        system: &[T],
        silence: T,
        blend: &F,
        clock: TickClock,
    ) -> (outcome: TickOutcome<T>)
        requires
            can_mix(mic@, system@, silence, *blend),
        ensures
            tick_result(
                old(self)@,
                final(self)@,
                outcome,
                mic@,
                system@,
                silence,
                *blend,
                clock.since_update_nanos as nat,
                clock.since_flush_nanos as nat,
            ),
    {
        let timeout_update = self.accumulator.check_timeout_after(clock.since_update_nanos);
        let mixed = mix_samples(mic, system, silence, blend);
        self.chunk.append(mixed.as_slice());
        let chunk = self.chunk.take_due_after(clock.since_flush_nanos, clock.now);
        let outcome = TickOutcome {
            timeout_update,
            resubscribe_mic: mic.len() == 0,
            resubscribe_system: system.len() == 0,
            chunk,
        };
        assert(is_mix_of(mixed@, mic@, system@, silence, *blend));
        outcome
    }

    /// One tick by the clock.
    ///
    /// The result is that of [`Pipeline::tick_at`] for the two times that
    /// the clock shows, whatever they are.
    pub fn tick<F: Fn(T, T) -> T>(
        &mut self,
        mic: &[T],
        system: &[T],
        silence: T,
        blend: &F,
    ) -> (outcome: TickOutcome<T>)
        requires
            can_mix(mic@, system@, silence, *blend),
        ensures
            exists|since_update: nat, since_flush: nat| #[trigger]
                tick_result(
                    old(self)@,
                    final(self)@,
                    outcome,
                    mic@,
                    system@,
                    silence,
                    *blend,
                    since_update,
                    since_flush,
                ),
    {
        let clock = TickClock {
            since_update_nanos: self.accumulator.idle_nanos(),
            since_flush_nanos: self.chunk.nanos_since_flush(),
            now: Instant::now(),
        };
        self.tick_at(mic, system, silence, blend, clock)
    }

    /// Takes in the segments of one transcription response and returns the
    /// sentences that they complete, in order.
    pub fn deliver(&mut self, segments: &[TranscriptSegment]) -> (updates: Vec<TranscriptUpdate>)
        ensures
            final(self)@.sentence == state_after_segments(
                old(self)@.sentence,
                segment_views(segments@),
            ),
            update_views(updates@) == updates_from_segments(
                old(self)@.sentence,
                segment_views(segments@),
            ),
            final(self)@.buffered == old(self)@.buffered,
    {
        self.accumulator.add_segments(segments)
    }

    /// The last timeout check, made when the loop ends.
    ///
    /// Whatever the clock says: nothing is emitted while no sentence is in
    /// progress; an emitted update is the sentence in progress, which is
    /// then cleared; and without an update nothing changes.
    pub fn finish(&mut self) -> (update: Option<TranscriptUpdate>)
        ensures
            old(self)@.sentence.sentence.len() == 0 ==> update is None,
            update is None ==> final(self)@ == old(self)@,
            update matches Some(u) ==> u@ == timeout_update(old(self)@.sentence)
                && final(self)@.sentence == (AccumulatorState {
                sentence: Seq::empty(),
                ..old(self)@.sentence
            }),
            final(self)@.buffered == old(self)@.buffered,
    {
        self.accumulator.check_timeout()
    }
}

/// Brings a chunk from the capture rate to the rate that the transcription
/// service requires. A chunk that is at that rate already is handed on as
/// it is. The answer is `None` where the chunk cannot be converted.
pub fn prepare_chunk<T: Copy>(chunk: &[T], capture_rate: u32) -> (out: Option<Vec<T>>)
    ensures
        out is Some <==> can_resample(
            chunk@.len(),
            capture_rate as nat,
            TRANSCRIPTION_SAMPLE_RATE as nat,
        ),
        out matches Some(v) ==> v@ == resampled(
            chunk@,
            capture_rate as nat,
            TRANSCRIPTION_SAMPLE_RATE as nat,
        ),
        capture_rate == TRANSCRIPTION_SAMPLE_RATE ==> (out matches Some(v) && v@ == chunk@),
{
    try_resample(chunk, capture_rate, TRANSCRIPTION_SAMPLE_RATE)
}

} // verus!
