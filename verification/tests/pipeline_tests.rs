use meeting_minutes::pipeline::{prepare_chunk, Pipeline, TickClock, POLL_INTERVAL_MS};
use meeting_minutes::transcript::{TranscriptSegment, TranscriptUpdate, UPDATE_EVENT};
use std::time::Instant;

const THIRTY_SECONDS: u128 = 30_000_000_000;

fn clock(since_update_nanos: u128, since_flush_nanos: u128) -> TickClock {
    TickClock { since_update_nanos, since_flush_nanos, now: Instant::now() }
}

fn seg(text: &str, t0_ms: u64, t1_ms: u64) -> TranscriptSegment {
    TranscriptSegment { text: text.to_string(), t0_ms, t1_ms }
}

fn update(text: &str, timestamp: &str) -> TranscriptUpdate {
    TranscriptUpdate {
        text: text.to_string(),
        timestamp: timestamp.to_string(),
        source: "Mixed Audio".to_string(),
    }
}

fn blend(m: i32, s: i32) -> i32 {
    7 * m + 3 * s
}

#[test]
fn loop_constants() {
    assert_eq!(POLL_INTERVAL_MS, 10);
    assert_eq!(UPDATE_EVENT, "transcript-update");
}

#[test]
fn tick_mixes_and_buffers() {
    let mut p: Pipeline<i32> = Pipeline::new();
    let outcome = p.tick_at(&[1, 2], &[10], 0, &blend, clock(0, 0));
    assert_eq!(outcome.timeout_update, None);
    assert!(!outcome.resubscribe_mic);
    assert!(!outcome.resubscribe_system);
    assert_eq!(outcome.chunk, None);
    assert_eq!(p.buffered_len(), 2);
}

#[test]
fn tick_marks_silent_sources_for_resubscription() {
    let mut p: Pipeline<i32> = Pipeline::new();
    let outcome = p.tick_at(&[], &[5], 0, &blend, clock(0, 0));
    assert!(outcome.resubscribe_mic);
    assert!(!outcome.resubscribe_system);
    let outcome = p.tick_at(&[5], &[], 0, &blend, clock(0, 0));
    assert!(!outcome.resubscribe_mic);
    assert!(outcome.resubscribe_system);
    let outcome = p.tick_at(&[], &[], 0, &blend, clock(0, 0));
    assert!(outcome.resubscribe_mic);
    assert!(outcome.resubscribe_system);
    assert_eq!(p.buffered_len(), 2);
}

#[test]
fn tick_cuts_a_full_buffer_whatever_the_time() {
    let mut p: Pipeline<i32> = Pipeline::new();
    let batch = vec![1; 479_999];
    let outcome = p.tick_at(&batch, &[], 0, &blend, clock(0, 0));
    assert_eq!(outcome.chunk, None);
    let outcome = p.tick_at(&[2], &[1], 0, &blend, clock(0, 0));
    let chunk = outcome.chunk.expect("a full buffer is cut");
    assert_eq!(chunk.len(), 480_000);
    assert_eq!(chunk[0], 7);
    assert_eq!(chunk[479_999], 17);
    assert_eq!(p.buffered_len(), 0);
}

#[test]
fn tick_cuts_the_minimum_after_thirty_seconds() {
    let mut p: Pipeline<i32> = Pipeline::new();
    let batch = vec![1; 32_000];
    let outcome = p.tick_at(&batch, &[], 0, &blend, clock(0, THIRTY_SECONDS - 1));
    assert_eq!(outcome.chunk, None);
    let outcome = p.tick_at(&[], &[], 0, &blend, clock(0, THIRTY_SECONDS));
    assert_eq!(outcome.chunk, Some(vec![7; 32_000]));
    assert_eq!(p.buffered_len(), 0);
    let outcome = p.tick_at(&vec![1; 31_999], &[], 0, &blend, clock(0, u128::MAX));
    assert_eq!(outcome.chunk, None);
}

#[test]
fn tick_emits_a_sentence_that_timed_out() {
    let mut p: Pipeline<i32> = Pipeline::new();
    assert_eq!(p.deliver(&[seg("Trailing", 2000, 3500)]), vec![]);
    let outcome = p.tick_at(&[], &[], 0, &blend, clock(1_000_000_000, 0));
    assert_eq!(outcome.timeout_update, None);
    let outcome = p.tick_at(&[], &[], 0, &blend, clock(1_000_000_001, 0));
    assert_eq!(outcome.timeout_update, Some(update("Trailing", "2.0 - 3.0")));
    let outcome = p.tick_at(&[], &[], 0, &blend, clock(9_000_000_000, 0));
    assert_eq!(outcome.timeout_update, None);
}

#[test]
fn tick_by_the_clock() {
    let mut p: Pipeline<f32> = Pipeline::new();
    let mix = |m: f32, s: f32| m * 0.7 + s * 0.3;
    let outcome = p.tick(&[0.5, 0.5], &[1.0], 0.0, &mix);
    assert_eq!(outcome.timeout_update, None);
    assert_eq!(outcome.chunk, None);
    assert_eq!(p.buffered_len(), 2);
    let outcome = p.tick(&vec![0.0; 480_000], &[], 0.0, &mix);
    assert_eq!(outcome.chunk.map(|c| c.len()), Some(480_002));
    assert_eq!(p.finish(), None);
}

#[test]
fn deliver_returns_finished_sentences() {
    let mut p: Pipeline<i32> = Pipeline::new();
    let updates = p.deliver(&[seg("Hello", 0, 1500), seg("world.", 1500, 3000)]);
    assert_eq!(updates, vec![update("Hello world.", "0.0 - 3.0")]);
    assert_eq!(p.finish(), None);
}

#[test]
fn prepare_chunk_resamples_to_16_khz() {
    let chunk: Vec<i32> = (0..44_100).collect();
    let out = prepare_chunk(&chunk, 44_100).expect("fits");
    assert_eq!(out.len(), 16_000);
    assert_eq!(out[0], 0);
    assert_eq!(out[1], 2);
    assert_eq!(out[4], 11);
    assert_eq!(out[15_999], (15_999u64 * 44_100 / 16_000) as i32);
    assert_eq!(prepare_chunk(&chunk, 16_000), Some(chunk.clone()));
    assert_eq!(prepare_chunk(&chunk, 0), None);
}
