use meeting_minutes::mixer::{mix_samples, MIC_WEIGHT_PERCENT, SYSTEM_WEIGHT_PERCENT};

#[test]
fn weights_are_seventy_and_thirty_hundredths() {
    assert_eq!(MIC_WEIGHT_PERCENT, 70);
    assert_eq!(SYSTEM_WEIGHT_PERCENT, 30);
    assert_eq!(MIC_WEIGHT_PERCENT as f32 / 100.0, 0.7f32);
    assert_eq!(SYSTEM_WEIGHT_PERCENT as f32 / 100.0, 0.3f32);
}

#[test]
fn mix_weights_microphone_over_system() {
    let blend = |m: f32, s: f32| m * 0.7 + s * 0.3;
    let mic: Vec<f32> = vec![1.0, 0.5, -0.25];
    let system: Vec<f32> = vec![1.0, -1.0, 0.5];
    let mixed = mix_samples(&mic, &system, 0.0, &blend);
    let expected: Vec<f32> =
        vec![1.0 * 0.7 + 1.0 * 0.3, 0.5 * 0.7 + -1.0 * 0.3, -0.25 * 0.7 + 0.5 * 0.3];
    assert_eq!(mixed, expected);
}

#[test]
fn mix_pads_the_shorter_batch_with_silence() {
    let blend = |m: i32, s: i32| 7 * m + 3 * s;
    assert_eq!(mix_samples(&[1, 2, 3], &[10], 0, &blend), vec![37, 14, 21]);
    assert_eq!(mix_samples(&[1], &[10, 20, 30], 0, &blend), vec![37, 60, 90]);
    assert_eq!(mix_samples(&[], &[10, 20], 0, &blend), vec![30, 60]);
    assert_eq!(mix_samples(&[1, 2], &[], 0, &blend), vec![7, 14]);
    assert_eq!(mix_samples(&[], &[], 0, &blend), Vec::<i32>::new());
}

#[test]
fn mix_uses_the_given_silence() {
    let blend = |m: i32, s: i32| m - s;
    assert_eq!(mix_samples(&[5, 5], &[1], 100, &blend), vec![4, -95]);
}
