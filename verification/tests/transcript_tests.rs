use meeting_minutes::transcript::{
    clean_segment_text, has_sentence_end, TranscriptAccumulator, TranscriptSegment,
    TranscriptUpdate,
};
use std::time::Instant;

fn seg(text: &str, t0_ms: u64, t1_ms: u64) -> TranscriptSegment {
    TranscriptSegment { text: text.to_string(), t0_ms, t1_ms }
}

fn update(text: &str, timestamp: &str) -> TranscriptUpdate {
    TranscriptUpdate {
        text: text.to_string(),
        timestamp: timestamp.to_string(),
        source: "Mixed Audio".to_string(),
    }
}

fn cleaned(raw: &str) -> String {
    clean_segment_text(raw).into_iter().collect()
}

#[test]
fn cleaning_strips_markers_and_trims() {
    assert_eq!(cleaned("  Hello there.  "), "Hello there.");
    assert_eq!(cleaned("[BLANK_AUDIO]"), "");
    assert_eq!(cleaned(" [AUDIO OUT] "), "");
    assert_eq!(cleaned("[BLANK_AUDIO] Hi [AUDIO OUT] you [BLANK_AUDIO]"), "Hi  you");
    assert_eq!(cleaned("[AUDIO[BLANK_AUDIO] OUT]x"), "x");
    assert_eq!(cleaned("[blank_audio]"), "[blank_audio]");
}

#[test]
fn sentence_end_marks() {
    let chars = |s: &str| s.chars().collect::<Vec<char>>();
    assert!(has_sentence_end(&chars("Done.")));
    assert!(has_sentence_end(&chars("Really?")));
    assert!(has_sentence_end(&chars("Stop!")));
    assert!(!has_sentence_end(&chars("and then,")));
    assert!(!has_sentence_end(&chars("end. ")));
    assert!(!has_sentence_end(&chars("")));
}

#[test]
fn new_accumulator_has_nothing_pending() {
    let acc = TranscriptAccumulator::new();
    assert!(!acc.has_pending());
    assert_eq!(acc.pending_text(), "");
}

#[test]
fn short_segment_is_ignored() {
    let mut acc = TranscriptAccumulator::new();
    assert_eq!(acc.add_segment_at(&seg("Hello", 0, 1500), Instant::now()), None);
    assert_eq!(acc.pending_text(), "Hello");
    assert_eq!(acc.add_segment_at(&seg("there.", 1500, 2499), Instant::now()), None);
    assert_eq!(acc.pending_text(), "Hello");
    assert_eq!(acc.add_segment_at(&seg("there.", 3000, 2000), Instant::now()), None);
    assert_eq!(acc.pending_text(), "Hello");
    assert_eq!(
        acc.add_segment_at(&seg("there.", 1500, 2500), Instant::now()),
        Some(update("Hello there.", "0.0 - 2.5"))
    );
}

#[test]
fn segment_without_speech_is_ignored() {
    let mut acc = TranscriptAccumulator::new();
    assert_eq!(acc.add_segment(&seg("[BLANK_AUDIO]", 0, 5000)), None);
    assert_eq!(acc.add_segment(&seg("  [AUDIO OUT]  ", 0, 5000)), None);
    assert_eq!(acc.add_segment(&seg("   ", 0, 5000)), None);
    assert_eq!(acc.add_segment(&seg("", 0, 5000)), None);
    assert!(!acc.has_pending());
}

#[test]
fn repeated_segment_is_ignored() {
    let mut acc = TranscriptAccumulator::new();
    assert_eq!(acc.add_segment(&seg("Hello", 0, 1500)), None);
    assert_eq!(acc.add_segment(&seg("Hello", 0, 1500)), None);
    assert_eq!(acc.pending_text(), "Hello");
    assert_eq!(acc.add_segment(&seg("Hello", 0, 1501)), None);
    assert_eq!(acc.pending_text(), "Hello Hello");
}

#[test]
fn repeated_final_segment_emits_once() {
    let mut acc = TranscriptAccumulator::new();
    assert_eq!(
        acc.add_segment(&seg("All done.", 0, 1500)),
        Some(update("All done.", "0.0 - 1.5"))
    );
    assert_eq!(acc.add_segment(&seg("All done.", 0, 1500)), None);
    assert!(!acc.has_pending());
}

#[test]
fn hello_world_yields_one_sentence() {
    let mut acc = TranscriptAccumulator::new();
    let first = acc.add_segment(&seg("Hello", 0, 1500));
    let second = acc.add_segment(&seg("world.", 1500, 3000));
    assert_eq!(first, None);
    assert_eq!(second, Some(update("Hello world.", "0.0 - 3.0")));
    assert!(!acc.has_pending());
}

#[test]
fn sentence_starts_at_its_first_segment() {
    let mut acc = TranscriptAccumulator::new();
    assert_eq!(
        acc.add_segment(&seg("One.", 1000, 2500)),
        Some(update("One.", "1.0 - 2.5"))
    );
    assert_eq!(acc.add_segment(&seg(" two", 4200, 6000)), None);
    assert_eq!(acc.add_segment(&seg("three", 6000, 7250)), None);
    assert_eq!(
        acc.add_segment(&seg("four?", 7250, 9340)),
        Some(update("two three four?", "4.2 - 9.3"))
    );
}

#[test]
fn markers_are_stripped_before_the_sentence_is_built() {
    let mut acc = TranscriptAccumulator::new();
    assert_eq!(acc.add_segment(&seg(" [BLANK_AUDIO] So", 0, 1000)), None);
    assert_eq!(
        acc.add_segment(&seg("it goes! [AUDIO OUT]", 1000, 2000)),
        Some(update("So it goes!", "0.0 - 2.0"))
    );
}

#[test]
fn timeout_needs_more_than_a_second() {
    let mut acc = TranscriptAccumulator::new();
    assert_eq!(acc.add_segment(&seg("Trailing off", 500, 2000)), None);
    assert_eq!(acc.check_timeout_after(0), None);
    assert_eq!(acc.check_timeout_after(1_000_000_000), None);
    assert_eq!(acc.pending_text(), "Trailing off");
    assert_eq!(
        acc.check_timeout_after(1_000_000_001),
        Some(update("Trailing off", "0.5 - 1.5"))
    );
    assert!(!acc.has_pending());
}

#[test]
fn timeout_does_not_emit_twice() {
    let mut acc = TranscriptAccumulator::new();
    assert_eq!(acc.add_segment(&seg("Trailing off", 0, 2000)), None);
    assert!(acc.check_timeout_after(5_000_000_000).is_some());
    assert_eq!(acc.check_timeout_after(5_000_000_000), None);
    assert_eq!(acc.check_timeout_after(u128::MAX), None);
}

#[test]
fn timeout_without_a_sentence_emits_nothing() {
    let mut acc = TranscriptAccumulator::new();
    assert_eq!(acc.check_timeout_after(u128::MAX), None);
    assert_eq!(acc.check_timeout(), None);
}

#[test]
fn timeout_by_the_clock_waits() {
    let mut acc = TranscriptAccumulator::new();
    assert_eq!(acc.add_segment(&seg("Just said", 0, 2000)), None);
    assert_eq!(acc.check_timeout(), None);
    assert_eq!(acc.pending_text(), "Just said");
}

#[test]
fn next_sentence_after_timeout_starts_anew() {
    let mut acc = TranscriptAccumulator::new();
    assert_eq!(acc.add_segment(&seg("Cut off", 0, 2000)), None);
    assert!(acc.check_timeout_after(2_000_000_000).is_some());
    assert_eq!(
        acc.add_segment(&seg("Next one.", 9000, 11_000)),
        Some(update("Next one.", "9.0 - 11.0"))
    );
}

#[test]
fn segments_of_a_response_are_taken_in_order() {
    let mut acc = TranscriptAccumulator::new();
    let segments = vec![
        seg("First", 0, 1000),
        seg("[BLANK_AUDIO]", 1000, 3000),
        seg("sentence.", 1000, 2000),
        seg("sentence.", 1000, 2000),
        seg("Second", 2000, 2500),
        seg("Second one!", 2000, 3100),
        seg("Third", 3100, 4400),
    ];
    let updates = acc.add_segments(&segments);
    assert_eq!(
        updates,
        vec![update("First sentence.", "0.0 - 2.0"), update("Second one!", "2.0 - 3.1")]
    );
    assert_eq!(acc.pending_text(), "Third");
    assert_eq!(acc.add_segments(&[]), vec![]);
}
