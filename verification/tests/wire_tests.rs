use meeting_minutes::wire::{
    clamp_sample, encode_samples, INFERENCE_FIELD, INFERENCE_FILE_NAME, INFERENCE_MIME,
    INFERENCE_URL, INFINITY_BITS, MINUS_ONE_BITS, ONE_BITS, SIGN_BIT, STREAM_FIELD,
    STREAM_FILE_NAME, STREAM_MIME, STREAM_URL,
};

#[test]
fn endpoints_of_the_service() {
    assert_eq!(STREAM_URL, "http://127.0.0.1:8178/stream");
    assert_eq!(STREAM_FIELD, "audio");
    assert_eq!(STREAM_FILE_NAME, "audio.raw");
    assert_eq!(STREAM_MIME, "audio/x-raw");
    assert_eq!(INFERENCE_URL, "http://127.0.0.1:8178/inference");
    assert_eq!(INFERENCE_FIELD, "file");
    assert_eq!(INFERENCE_FILE_NAME, "audio.mp3");
    assert_eq!(INFERENCE_MIME, "audio/mpeg");
}

fn clamp(x: f32) -> f32 {
    f32::from_bits(clamp_sample(x.to_bits()))
}

#[test]
fn constants_are_the_patterns_they_name() {
    assert_eq!(ONE_BITS, 1.0f32.to_bits());
    assert_eq!(MINUS_ONE_BITS, (-1.0f32).to_bits());
    assert_eq!(INFINITY_BITS, f32::INFINITY.to_bits());
    assert_eq!(SIGN_BIT, (-0.0f32).to_bits());
}

#[test]
fn clamp_keeps_the_unit_range() {
    for x in [0.0f32, -0.0, 0.5, -0.5, 1.0, -1.0, 1e-40, -1e-40, 0.999_999_94, f32::MIN_POSITIVE] {
        assert_eq!(clamp(x).to_bits(), x.to_bits());
    }
}

#[test]
fn clamp_limits_what_is_outside() {
    assert_eq!(clamp(1.000_000_1), 1.0);
    assert_eq!(clamp(2.0), 1.0);
    assert_eq!(clamp(f32::MAX), 1.0);
    assert_eq!(clamp(f32::INFINITY), 1.0);
    assert_eq!(clamp(-1.000_000_1), -1.0);
    assert_eq!(clamp(-300.0), -1.0);
    assert_eq!(clamp(f32::NEG_INFINITY), -1.0);
}

#[test]
fn clamp_agrees_with_max_then_min() {
    let mut bits: u32 = 0;
    loop {
        let x = f32::from_bits(bits);
        let expected = x.max(-1.0).min(1.0);
        assert_eq!(clamp_sample(bits), expected.to_bits(), "pattern {:#010x}", bits);
        match bits.checked_add(65_521) {
            Some(next) => bits = next,
            None => break,
        }
    }
    for x in [f32::NAN, -f32::NAN, f32::from_bits(0x7F80_0001), f32::from_bits(0xFFFF_FFFF)] {
        assert_eq!(clamp_sample(x.to_bits()), x.max(-1.0).min(1.0).to_bits());
        assert_eq!(clamp(x), -1.0);
    }
}

#[test]
fn encode_writes_little_endian_bytes() {
    assert_eq!(encode_samples(&[1.0f32.to_bits()]), vec![0x00, 0x00, 0x80, 0x3F]);
    assert_eq!(encode_samples(&[0x0403_0201]), vec![1, 2, 3, 4]);
    assert_eq!(encode_samples(&[]), Vec::<u8>::new());
}

#[test]
fn encode_clamps_each_sample() {
    let samples: Vec<f32> = vec![0.25, -3.0, 7.5, f32::NAN, -0.0];
    let bits: Vec<u32> = samples.iter().map(|s| s.to_bits()).collect();
    let expected: Vec<u8> = samples
        .iter()
        .flat_map(|s| s.max(-1.0).min(1.0).to_le_bytes().to_vec())
        .collect();
    let payload = encode_samples(&bits);
    assert_eq!(payload.len(), 20);
    assert_eq!(payload, expected);
}
