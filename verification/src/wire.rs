//! Wire encoding of samples: clamping to the unit range and little-endian
//! byte order.
//!
//! A sample is handled by its IEEE 754 binary32 bit pattern: one sign bit,
//! eight exponent bits and twenty-three fraction bits. Among patterns that
//! are not NaN, one value is larger in absolute value than another exactly
//! when its pattern without the sign bit is the larger integer.

use vstd::prelude::*;

verus! {

/// Where chunks of live audio are posted.
pub const STREAM_URL: &'static str = "http://127.0.0.1:8178/stream";

/// Name of the form field that carries a chunk.
pub const STREAM_FIELD: &'static str = "audio";

/// File name given to a chunk.
pub const STREAM_FILE_NAME: &'static str = "audio.raw";

/// Media type of a chunk: raw samples.
pub const STREAM_MIME: &'static str = "audio/x-raw";

/// Where recorded files are posted.
pub const INFERENCE_URL: &'static str = "http://127.0.0.1:8178/inference";

/// Name of the form field that carries a recorded file.
pub const INFERENCE_FIELD: &'static str = "file";

/// File name given to a recorded file.
pub const INFERENCE_FILE_NAME: &'static str = "audio.mp3";

/// Media type of a recorded file.
pub const INFERENCE_MIME: &'static str = "audio/mpeg";

/// The sign bit of a pattern.
pub const SIGN_BIT: u32 = 0x8000_0000;

/// Pattern of positive infinity; every larger magnitude is a NaN.
pub const INFINITY_BITS: u32 = 0x7F80_0000;

/// Pattern of `1.0`.
pub const ONE_BITS: u32 = 0x3F80_0000;

/// Pattern of `-1.0`.
pub const MINUS_ONE_BITS: u32 = 0xBF80_0000;

/// The pattern without its sign bit.
pub open spec fn magnitude(bits: u32) -> u32 {
    if bits >= SIGN_BIT {
        (bits - SIGN_BIT) as u32
    } else {
        bits
    }
}

/// Whether the pattern is a NaN.
pub open spec fn is_nan(bits: u32) -> bool {
    magnitude(bits) > INFINITY_BITS
}

/// Whether the pattern is a number between `-1.0` and `1.0`, ends included.
pub open spec fn in_unit_range(bits: u32) -> bool {
    magnitude(bits) <= ONE_BITS
}

/// The sample clamped to the unit range: a value above `1.0` becomes `1.0`,
/// a value below `-1.0` becomes `-1.0`, a NaN becomes `-1.0`, and any other
/// value stays as it is.
pub open spec fn clamped(bits: u32) -> u32 {
    if is_nan(bits) {
        MINUS_ONE_BITS
    } else if in_unit_range(bits) {
        bits
    } else if bits >= SIGN_BIT {
        MINUS_ONE_BITS
    } else {
        ONE_BITS
    }
}

/// Computes [`clamped`].
pub fn clamp_sample(bits: u32) -> (out: u32)
    ensures
        out == clamped(bits),
{
    let negative = bits >= SIGN_BIT;
    let mag: u32 = if negative {
        bits - SIGN_BIT
    } else {
        bits
    };
    if mag > INFINITY_BITS {
        MINUS_ONE_BITS
    } else if mag <= ONE_BITS {
        bits
    } else if negative {
        MINUS_ONE_BITS
    } else {
        ONE_BITS
    }
}

/// A clamped sample lies in the unit range, a sample in the unit range is
/// not changed, clamping keeps the sign of every number, and clamping twice
/// is clamping once.
pub proof fn law_clamp(bits: u32)
    ensures
        in_unit_range(clamped(bits)),
        !is_nan(clamped(bits)),
        in_unit_range(bits) ==> clamped(bits) == bits,
        !is_nan(bits) ==> (clamped(bits) >= SIGN_BIT <==> bits >= SIGN_BIT),
        clamped(clamped(bits)) == clamped(bits),
{
}

/// The four bytes of a pattern, least significant first.
pub open spec fn le_bytes(bits: u32) -> Seq<u8> {
    seq![
        (bits % 256) as u8,
        ((bits / 256) % 256) as u8,
        ((bits / 65536) % 256) as u8,
        (bits / 16777216) as u8,
    ]
}

/// The pattern that four little-endian bytes stand for.
pub open spec fn from_le_bytes(bytes: Seq<u8>) -> int
    recommends
        bytes.len() == 4,
{
    bytes[0] + 256 * bytes[1] + 65536 * bytes[2] + 16777216 * bytes[3]
}

/// The byte order loses nothing: the four bytes give the pattern back.
pub proof fn law_le_bytes_round_trip(bits: u32)
    ensures
        le_bytes(bits).len() == 4,
        from_le_bytes(le_bytes(bits)) == bits,
{
}

/// The payload for a sequence of samples: each sample clamped, then written
/// as four little-endian bytes, in order.
pub open spec fn encoded(samples: Seq<u32>) -> Seq<u8>
    decreases samples.len(),
{
    if samples.len() == 0 {
        Seq::empty()
    } else {
        encoded(samples.drop_last()) + le_bytes(clamped(samples.last()))
    }
}

/// The payload holds four bytes for each sample, and the bytes of sample
/// `i` stand at positions `4 * i` to `4 * i + 3`.
pub proof fn law_encoded_layout(samples: Seq<u32>, i: int)
    requires
        0 <= i < samples.len(),
    ensures
        encoded(samples).len() == 4 * samples.len(),
        encoded(samples).subrange(4 * i, 4 * i + 4) == le_bytes(clamped(samples[i])),
    decreases samples.len(),
{
    let front = samples.drop_last();
    lemma_encoded_len(samples);
    lemma_encoded_len(front);
    if i == samples.len() - 1 {
        assert(encoded(samples).subrange(4 * i, 4 * i + 4) =~= le_bytes(clamped(samples[i])));
    } else {
        law_encoded_layout(front, i);
        assert(encoded(samples).subrange(4 * i, 4 * i + 4) =~= encoded(front).subrange(
            4 * i,
            4 * i + 4,
        ));
    }
}

/// The payload holds four bytes for each sample.
pub proof fn lemma_encoded_len(samples: Seq<u32>)
    ensures
        encoded(samples).len() == 4 * samples.len(),
    decreases samples.len(),
{
    if samples.len() > 0 {
        lemma_encoded_len(samples.drop_last());
    }
}

/// Encodes samples for the transcription service.
pub fn encode_samples(samples: &[u32]) -> (payload: Vec<u8>)
    ensures
        payload@ == encoded(samples@),
        payload@.len() == 4 * samples@.len(),
{
    let mut payload: Vec<u8> = Vec::new();
    let mut i: usize = 0;
    while i < samples.len()
        invariant
            i <= samples.len(),
            payload@ == encoded(samples@.take(i as int)),
        decreases samples.len() - i,
    {
        let bits = clamp_sample(samples[i]);
        payload.push((bits % 256) as u8);
        payload.push(((bits / 256) % 256) as u8);
        payload.push(((bits / 65536) % 256) as u8);
        payload.push((bits / 16777216) as u8);
        proof {
            let next = samples@.take(i + 1);
            assert(next.drop_last() =~= samples@.take(i as int));
            assert(next.last() == samples@[i as int]);
            assert(payload@ =~= encoded(samples@.take(i as int)) + le_bytes(bits));
        }
        i += 1;
    }
    proof {
        assert(samples@.take(samples.len() as int) =~= samples@);
        lemma_encoded_len(samples@);
    }
    payload
}

} // verus!
