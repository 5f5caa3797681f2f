//! Transcript segments, sentence updates, and the accumulator that turns a
//! stream of segments into finished sentences.

use crate::clock::nanos_since;
use crate::fingerprint::{fingerprint, segment_fingerprint};
use crate::text::{
    chars_of, is_trimmed, lemma_trim_is_trimmed, remove_all, remove_pattern, string_of, trim,
    trim_chars,
};
use crate::timestamp::{format_range, range_text};
use std::time::Instant;
use vstd::prelude::*;
use vstd::string::StringExecFns;

verus! {

/// Shortest segment, in milliseconds, that is taken for speech.
pub const MIN_SEGMENT_MS: u64 = 1000;

/// Silence, in milliseconds, after which an unfinished sentence is emitted.
pub const SENTENCE_TIMEOUT_MS: u64 = 1000;

/// Name of the event that carries a finished sentence to the user
/// interface.
pub const UPDATE_EVENT: &'static str = "transcript-update";

/// One timestamped text fragment returned by the transcription service.
/// Times are in milliseconds from the start of the audio.
#[derive(Clone, Debug, PartialEq, Eq)]
pub struct TranscriptSegment {
    pub text: String,
    pub t0_ms: u64,
    pub t1_ms: u64,
}

/// The mathematical content of a [`TranscriptSegment`].
pub ghost struct SegmentView {
    pub text: Seq<char>,
    pub t0_ms: u64,
    pub t1_ms: u64,
}

impl View for TranscriptSegment {
    type V = SegmentView;

    open spec fn view(&self) -> SegmentView {
        SegmentView { text: self.text@, t0_ms: self.t0_ms, t1_ms: self.t1_ms }
    }
}

/// A finished sentence with its time range and the label of its source.
#[derive(Clone, Debug, PartialEq, Eq)]
pub struct TranscriptUpdate {
    pub text: String,
    pub timestamp: String,
    pub source: String,
}

/// The mathematical content of a [`TranscriptUpdate`].
pub ghost struct UpdateView {
    pub text: Seq<char>,
    pub timestamp: Seq<char>,
    pub source: Seq<char>,
}

impl View for TranscriptUpdate {
    type V = UpdateView;

    open spec fn view(&self) -> UpdateView {
        UpdateView { text: self.text@, timestamp: self.timestamp@, source: self.source@ }
    }
}

/// Whether an optional update holds exactly the expected content.
pub open spec fn update_is(got: Option<TranscriptUpdate>, expected: Option<UpdateView>) -> bool {
    match got {
        Some(u) => expected == Some(u@),
        None => expected is None,
    }
}

/// Marker that the service puts in place of silence.
pub open spec fn blank_audio_marker() -> Seq<char> {
    "[BLANK_AUDIO]"@
}

/// Marker that the service puts in place of audio that dropped out.
pub open spec fn audio_out_marker() -> Seq<char> {
    "[AUDIO OUT]"@
}

/// Label of the mixed microphone and system stream.
pub open spec fn source_label() -> Seq<char> {
    "Mixed Audio"@
}

/// A segment's text without the non-speech markers and without surrounding
/// whitespace.
pub open spec fn clean_text(raw: Seq<char>) -> Seq<char> {
    trim(remove_all(remove_all(raw, blank_audio_marker()), audio_out_marker()))
}

/// Whether a text ends in a mark that closes a sentence.
pub open spec fn ends_sentence(text: Seq<char>) -> bool {
    text.len() > 0 && (text.last() == '.' || text.last() == '?' || text.last() == '!')
}

/// A segment that carries no speech: nothing is left of its text after
/// cleaning, or it lasts less than a second.
pub open spec fn is_noise(seg: SegmentView) -> bool {
    clean_text(seg.text).len() == 0 || seg.t1_ms - seg.t0_ms < MIN_SEGMENT_MS
}

/// The sentence in progress extended by a cleaned segment text, with one
/// space between them.
pub open spec fn joined(sentence: Seq<char>, clean: Seq<char>) -> Seq<char> {
    if sentence.len() == 0 {
        clean
    } else {
        sentence + seq![' '] + clean
    }
}

/// What the accumulator remembers between segments, apart from the clock
/// reading of its last change.
pub ghost struct AccumulatorState {
    pub sentence: Seq<char>,
    pub sentence_start_ms: u64,
    pub last_fingerprint: Option<u64>,
}

/// The state of a new accumulator.
pub open spec fn initial_state() -> AccumulatorState {
    AccumulatorState { sentence: Seq::empty(), sentence_start_ms: 0, last_fingerprint: None }
}

/// A segment that the accumulator drops without any change: noise, or a
/// repetition of the segment taken just before.
pub open spec fn is_discarded(state: AccumulatorState, seg: SegmentView) -> bool {
    is_noise(seg) || state.last_fingerprint == Some(
        segment_fingerprint(seg.text, seg.t0_ms, seg.t1_ms),
    )
}

/// Start time of the sentence that `seg` continues or begins.
pub open spec fn sentence_start(state: AccumulatorState, seg: SegmentView) -> u64 {
    if state.sentence.len() == 0 {
        seg.t0_ms
    } else {
        state.sentence_start_ms
    }
}

/// The state after a segment has been offered.
pub open spec fn state_after_segment(
    state: AccumulatorState,
    seg: SegmentView,
) -> AccumulatorState {
    if is_discarded(state, seg) {
        state
    } else {
        let clean = clean_text(seg.text);
        AccumulatorState {
            sentence: if ends_sentence(clean) {
                Seq::empty()
            } else {
                joined(state.sentence, clean)
            },
            sentence_start_ms: sentence_start(state, seg),
            last_fingerprint: Some(segment_fingerprint(seg.text, seg.t0_ms, seg.t1_ms)),
        }
    }
}

/// The sentence, if any, that offering a segment completes.
pub open spec fn update_from_segment(
    state: AccumulatorState,
    seg: SegmentView,
) -> Option<UpdateView> {
    let clean = clean_text(seg.text);
    if is_discarded(state, seg) || !ends_sentence(clean) {
        None
    } else {
        Some(
            UpdateView {
                text: joined(state.sentence, clean),
                timestamp: range_text(sentence_start(state, seg) as nat, seg.t1_ms as nat),
                source: source_label(),
            },
        )
    }
}

/// Whether an unfinished sentence has waited long enough to be emitted.
pub open spec fn timeout_due(state: AccumulatorState, elapsed_nanos: nat) -> bool {
    state.sentence.len() > 0 && elapsed_nanos > SENTENCE_TIMEOUT_MS * 1_000_000
}

/// The state after a timeout check.
pub open spec fn state_after_timeout(
    state: AccumulatorState,
    elapsed_nanos: nat,
) -> AccumulatorState {
    if timeout_due(state, elapsed_nanos) {
        AccumulatorState { sentence: Seq::empty(), ..state }
    } else {
        state
    }
}

/// The update that a timeout emits for the sentence in progress: it ends
/// one timeout after it began.
pub open spec fn timeout_update(state: AccumulatorState) -> UpdateView {
    UpdateView {
        text: state.sentence,
        timestamp: range_text(
            state.sentence_start_ms as nat,
            (state.sentence_start_ms + SENTENCE_TIMEOUT_MS) as nat,
        ),
        source: source_label(),
    }
}

/// The sentence, if any, that a timeout check emits.
pub open spec fn update_from_timeout(
    state: AccumulatorState,
    elapsed_nanos: nat,
) -> Option<UpdateView> {
    if timeout_due(state, elapsed_nanos) {
        Some(timeout_update(state))
    } else {
        None
    }
}

/// The state after the segments of one response have been offered in
/// order.
pub open spec fn state_after_segments(
    state: AccumulatorState,
    segs: Seq<SegmentView>,
) -> AccumulatorState
    decreases segs.len(),
{
    if segs.len() == 0 {
        state
    } else {
        state_after_segment(state_after_segments(state, segs.drop_last()), segs.last())
    }
}

/// The sentences that the segments of one response complete, in order.
pub open spec fn updates_from_segments(
    state: AccumulatorState,
    segs: Seq<SegmentView>,
) -> Seq<UpdateView>
    decreases segs.len(),
{
    if segs.len() == 0 {
        Seq::empty()
    } else {
        let before = updates_from_segments(state, segs.drop_last());
        match update_from_segment(state_after_segments(state, segs.drop_last()), segs.last()) {
            Some(u) => before.push(u),
            None => before,
        }
    }
}

/// The contents of a list of segments.
pub open spec fn segment_views(segments: Seq<TranscriptSegment>) -> Seq<SegmentView> {
    segments.map_values(|s: TranscriptSegment| s@)
}

/// The contents of a list of updates.
pub open spec fn update_views(updates: Seq<TranscriptUpdate>) -> Seq<UpdateView> {
    updates.map_values(|u: TranscriptUpdate| u@)
}

/// Removes the non-speech markers from a raw segment text and trims it.
pub fn clean_segment_text(raw: &str) -> (clean: Vec<char>)
    ensures
        clean@ == clean_text(raw@),
{
    let chars = chars_of(raw);
    let blank = chars_of("[BLANK_AUDIO]");
    let audio_out = chars_of("[AUDIO OUT]");
    let without_blank = remove_pattern(chars.as_slice(), blank.as_slice());
    let without_markers = remove_pattern(without_blank.as_slice(), audio_out.as_slice());
    trim_chars(without_markers.as_slice())
}

/// Tests whether a text ends in `.`, `?` or `!`.
pub fn has_sentence_end(text: &[char]) -> (b: bool)
    ensures
        b == ends_sentence(text@),
{
    let n = text.len();
    if n == 0 {
        false
    } else {
        let last = text[n - 1];
        last == '.' || last == '?' || last == '!'
    }
}

/// Merges transcript segments into sentences. A sentence is emitted when a
/// segment ends it with `.`, `?` or `!`, or when no segment has extended it
/// for more than a second.
pub struct TranscriptAccumulator {
    current_sentence: Vec<char>,
    sentence_start_ms: u64,
    last_update_time: Instant,
    last_segment_hash: Option<u64>,
}

impl View for TranscriptAccumulator {
    type V = AccumulatorState;

    closed spec fn view(&self) -> AccumulatorState {
        AccumulatorState {
            sentence: self.current_sentence@,
            sentence_start_ms: self.sentence_start_ms,
            last_fingerprint: self.last_segment_hash,
        }
    }
}

impl TranscriptAccumulator {
    /// The sentence in progress neither starts nor ends with whitespace.
    #[verifier::type_invariant]
    spec fn sentence_is_trimmed(self) -> bool {
        is_trimmed(self.current_sentence@)
    }

    /// The clock reading taken when the state last changed.
    pub closed spec fn last_update(&self) -> Instant {
        self.last_update_time
    }

    /// An accumulator with no sentence in progress.
    pub fn new() -> (acc: Self)
        ensures
            acc@ == initial_state(),
    {
        TranscriptAccumulator {
            current_sentence: Vec::new(),
            sentence_start_ms: 0,
            last_update_time: Instant::now(),
            last_segment_hash: None,
        }
    }

    /// Whether a sentence is in progress.
    pub fn has_pending(&self) -> (b: bool)
        ensures
            b == (self@.sentence.len() > 0),
    {
        self.current_sentence.len() > 0
    }

    /// The text of the sentence in progress.
    pub fn pending_text(&self) -> (text: String)
        ensures
            text@ == self@.sentence,
    {
        string_of(self.current_sentence.as_slice())
    }

    /// Offers a segment that arrived at the clock reading `now`.
    ///
    /// Noise and a repetition of the segment taken just before are dropped
    /// and leave the accumulator as it was. Any other segment extends the
    /// sentence in progress; if its text ends the sentence, the sentence is
    /// returned and a new one begins.
    pub fn add_segment_at(
        &mut self,
        segment: &TranscriptSegment,
        now: Instant,
    ) -> (update: Option<TranscriptUpdate>)
        ensures
            final(self)@ == state_after_segment(old(self)@, segment@),
            update_is(update, update_from_segment(old(self)@, segment@)),
            is_discarded(old(self)@, segment@) ==> *final(self) == *old(self),
            !is_discarded(old(self)@, segment@) ==> final(self).last_update() == now,
    {
        proof {
            use_type_invariant(&*self);
        }
        let clean = clean_segment_text(segment.text.as_str());
        if clean.len() == 0 || segment.t1_ms < segment.t0_ms || segment.t1_ms - segment.t0_ms
            < MIN_SEGMENT_MS {
            return None;
        }
        let hash = fingerprint(segment.text.as_str(), segment.t0_ms, segment.t1_ms);
        match self.last_segment_hash {
            Some(last) => {
                if hash == last {
                    return None;
                }
            },
            None => {},
        }
        proof {
            lemma_trim_is_trimmed(
                remove_all(remove_all(segment.text@, blank_audio_marker()), audio_out_marker()),
            );
        }
        let start_ms = if self.current_sentence.len() == 0 {
            segment.t0_ms
        } else {
            self.sentence_start_ms
        };
        let mut sentence: Vec<char> = Vec::new();
        if self.current_sentence.len() > 0 {
            sentence.extend_from_slice(self.current_sentence.as_slice());
            sentence.push(' ');
        }
        sentence.extend_from_slice(clean.as_slice());
        assert(sentence@ =~= joined(old(self)@.sentence, clean@));
        if has_sentence_end(clean.as_slice()) {
            let range = format_range(start_ms as u128, segment.t1_ms as u128);
            let update = TranscriptUpdate {
                text: string_of(sentence.as_slice()),
                timestamp: string_of(range.as_slice()),
                source: String::from_str("Mixed Audio"),
            };
            self.current_sentence = Vec::new();
            self.sentence_start_ms = start_ms;
            self.last_update_time = now;
            self.last_segment_hash = Some(hash);
            Some(update)
        } else {
            self.current_sentence = sentence;
            self.sentence_start_ms = start_ms;
            self.last_update_time = now;
            self.last_segment_hash = Some(hash);
            None
        }
    }

    /// Offers a segment that arrives now. The reading of the clock is kept
    /// only when the segment is taken.
    pub fn add_segment(
        &mut self,
        segment: &TranscriptSegment,
    ) -> (update: Option<TranscriptUpdate>)
        ensures
            final(self)@ == state_after_segment(old(self)@, segment@),
            update_is(update, update_from_segment(old(self)@, segment@)),
            is_discarded(old(self)@, segment@) ==> *final(self) == *old(self),
    {
        let now = Instant::now();
        self.add_segment_at(segment, now)
    }

    /// Offers the segments of one response in order, each as it arrives
    /// now, and collects the sentences that they complete.
    pub fn add_segments(
        &mut self,
        segments: &[TranscriptSegment],
    ) -> (updates: Vec<TranscriptUpdate>)
        ensures
            final(self)@ == state_after_segments(old(self)@, segment_views(segments@)),
            update_views(updates@) == updates_from_segments(old(self)@, segment_views(segments@)),
    {
        let mut updates: Vec<TranscriptUpdate> = Vec::new();
        let mut i: usize = 0;
        while i < segments.len()
            invariant
                i <= segments.len(),
                self@ == state_after_segments(old(self)@, segment_views(segments@.take(i as int))),
                update_views(updates@) == updates_from_segments(
                    old(self)@,
                    segment_views(segments@.take(i as int)),
                ),
            decreases segments.len() - i,
        {
            let ghost before = self@;
            let ghost seen = update_views(updates@);
            let update = self.add_segment(&segments[i]);
            proof {
                let next = segment_views(segments@.take(i + 1));
                assert(next.drop_last() =~= segment_views(segments@.take(i as int)));
                assert(next.last() == segments@[i as int]@);
            }
            match update {
                Some(u) => {
                    updates.push(u);
                    assert(update_views(updates@) =~= seen.push(u@));
                },
                None => {},
            }
            i += 1;
        }
        assert(segments@.take(segments.len() as int) =~= segments@);
        updates
    }

    /// Nanoseconds that have passed since the accumulator last changed.
    pub(crate) fn idle_nanos(&self) -> u128 {
        nanos_since(&self.last_update_time)
    }

    /// Checks for a timeout, given the nanoseconds that have passed since
    /// the accumulator last changed.
    ///
    /// A sentence in progress is emitted, and cleared, if and only if more
    /// than a second has passed. Its range ends one second after it began.
    pub fn check_timeout_after(&mut self, elapsed_nanos: u128) -> (update: Option<TranscriptUpdate>)
        ensures
            final(self)@ == state_after_timeout(old(self)@, elapsed_nanos as nat),
            update_is(update, update_from_timeout(old(self)@, elapsed_nanos as nat)),
            update is Some <==> timeout_due(old(self)@, elapsed_nanos as nat),
            final(self).last_update() == old(self).last_update(),
            update is None ==> *final(self) == *old(self),
    {
        proof {
            use_type_invariant(&*self);
        }
        if self.current_sentence.len() > 0 && elapsed_nanos > 1_000_000_000 {
            let end_ms: u128 = self.sentence_start_ms as u128 + SENTENCE_TIMEOUT_MS as u128;
            let range = format_range(self.sentence_start_ms as u128, end_ms);
            let update = TranscriptUpdate {
                text: string_of(self.current_sentence.as_slice()),
                timestamp: string_of(range.as_slice()),
                source: String::from_str("Mixed Audio"),
            };
            self.current_sentence = Vec::new();
            Some(update)
        } else {
            None
        }
    }

    /// Checks for a timeout against the clock.
    ///
    /// Whatever the clock says: nothing is emitted while no sentence is in
    /// progress; an emitted update is the sentence in progress, which is
    /// then cleared; and without an update nothing changes.
    pub fn check_timeout(&mut self) -> (update: Option<TranscriptUpdate>)
        ensures
            old(self)@.sentence.len() == 0 ==> update is None,
            update is None ==> *final(self) == *old(self),
            update matches Some(u) ==> u@ == timeout_update(old(self)@) && final(self)@
                == (AccumulatorState { sentence: Seq::empty(), ..old(self)@ }),
            final(self).last_update() == old(self).last_update(),
    {
        let elapsed = self.idle_nanos();
        self.check_timeout_after(elapsed)
    }
}

/// A segment shorter than a second, or with nothing left after cleaning,
/// changes nothing and emits nothing, whatever the state.
pub proof fn law_noise_is_ignored(state: AccumulatorState, seg: SegmentView)
    requires
        is_noise(seg),
    ensures
        state_after_segment(state, seg) == state,
        update_from_segment(state, seg) is None,
{
}

/// Offering the same segment twice in a row: the second offer changes
/// nothing and emits nothing.
pub proof fn law_repeated_segment_is_ignored(state: AccumulatorState, seg: SegmentView)
    ensures
        state_after_segment(state_after_segment(state, seg), seg) == state_after_segment(
            state,
            seg,
        ),
        update_from_segment(state_after_segment(state, seg), seg) is None,
{
}

/// A segment completes a sentence exactly when it is taken and its cleaned
/// text ends in `.`, `?` or `!`. The sentence is then emitted once: nothing
/// of it stays behind, so neither a timeout nor the same segment offered
/// again emits it a second time.
pub proof fn law_sentence_is_emitted_once(
    state: AccumulatorState,
    seg: SegmentView,
    elapsed_nanos: nat,
)
    ensures
        update_from_segment(state, seg) is Some <==> !is_discarded(state, seg) && ends_sentence(
            clean_text(seg.text),
        ),
        update_from_segment(state, seg) is Some ==> {
            let after = state_after_segment(state, seg);
            &&& after.sentence.len() == 0
            &&& update_from_timeout(after, elapsed_nanos) is None
            &&& update_from_segment(after, seg) is None
        },
{
}

/// Two segments that are both taken, the first without a closing mark and
/// the second with one, offered when no sentence is in progress, make one
/// sentence: the first offer emits nothing, and the second emits the two
/// cleaned texts with a space between them, over the range from the start
/// of the first segment to the end of the second.
pub proof fn law_two_segments_make_one_sentence(
    state: AccumulatorState,
    first: SegmentView,
    second: SegmentView,
)
    requires
        state.sentence.len() == 0,
        !is_discarded(state, first),
        !ends_sentence(clean_text(first.text)),
        !is_discarded(state_after_segment(state, first), second),
        ends_sentence(clean_text(second.text)),
    ensures
        update_from_segment(state, first) is None,
        update_from_segment(state_after_segment(state, first), second) == Some(
            UpdateView {
                text: clean_text(first.text) + seq![' '] + clean_text(second.text),
                timestamp: range_text(first.t0_ms as nat, second.t1_ms as nat),
                source: source_label(),
            },
        ),
        state_after_segment(state_after_segment(state, first), second).sentence.len() == 0,
{
}

/// A timeout is emitted exactly when a sentence is in progress and more
/// than a second has passed; once emitted, further checks emit nothing,
/// however much time passes, until a segment is taken.
pub proof fn law_timeout_emits_once(state: AccumulatorState, first: nat, second: nat)
    ensures
        update_from_timeout(state, first) is Some <==> state.sentence.len() > 0 && first
            > 1_000_000_000,
        update_from_timeout(state, first) is Some ==> update_from_timeout(
            state_after_timeout(state, first),
            second,
        ) is None,
        first <= 1_000_000_000 ==> state_after_timeout(state, first) == state,
{
}

/// A sentence built from cleaned segments is itself free of surrounding
/// whitespace, so an emitted text needs no further trimming.
pub proof fn law_sentence_stays_trimmed(state: AccumulatorState, seg: SegmentView)
    requires
        is_trimmed(state.sentence),
    ensures
        is_trimmed(state_after_segment(state, seg).sentence),
        update_from_segment(state, seg) matches Some(u) ==> trim(u.text) == u.text && u.text.len()
            > 0,
{
    lemma_trim_is_trimmed(
        remove_all(remove_all(seg.text, blank_audio_marker()), audio_out_marker()),
    );
}

} // verus!
