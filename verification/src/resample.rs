//! Sample-rate conversion and channel reduction on sample sequences.

use vstd::prelude::*;
use vstd::slice::slice_to_vec;

verus! {

/// The left channel of an interleaved stereo sequence: the samples at the
/// even positions, in order.
pub open spec fn left_channel(stereo: Seq<i16>) -> Seq<i16> {
    Seq::new(((stereo.len() + 1) / 2) as nat, |i: int| stereo[2 * i])
}

/// Reduces interleaved stereo to mono by keeping the first sample of every
/// frame. A trailing half frame keeps its only sample.
pub fn stereo_to_mono(stereo: &[i16]) -> (mono: Vec<i16>)
    ensures
        mono@ == left_channel(stereo@),
{
    let frames: usize = stereo.len() / 2 + stereo.len() % 2;
    let mut mono: Vec<i16> = Vec::new();
    let mut k: usize = 0;
    while k < frames
        invariant
            frames == (stereo.len() + 1) / 2,
            k <= frames,
            mono.len() == k,
            forall|j: int| 0 <= j < k ==> mono[j] == stereo[2 * j],
        decreases frames - k,
    {
        mono.push(stereo[2 * k]);
        k += 1;
    }
    mono
}

/// Number of samples after converting `len` samples from `from_rate` to
/// `to_rate`: `len * to_rate / from_rate`, rounded to the nearest integer,
/// halves upward.
pub open spec fn resampled_len(len: nat, from_rate: nat, to_rate: nat) -> nat
    recommends
        from_rate > 0,
{
    ((2 * len * to_rate + from_rate) / (2 * from_rate)) as nat
}

/// Position in the input of the sample that output position `i` takes:
/// `i * from_rate / to_rate` rounded down, and never past the last sample.
pub open spec fn source_index(i: int, len: nat, from_rate: nat, to_rate: nat) -> int
    recommends
        to_rate > 0,
        len > 0,
{
    let at = (i * from_rate) / (to_rate as int);
    if at < len {
        at
    } else {
        len - 1
    }
}

/// A sample sequence converted from `from_rate` to `to_rate` by taking the
/// nearest earlier sample, without interpolation. Equal rates leave the
/// sequence as it is.
pub open spec fn resampled<T>(samples: Seq<T>, from_rate: nat, to_rate: nat) -> Seq<T> {
    if from_rate == to_rate {
        samples
    } else {
        Seq::new(
            resampled_len(samples.len(), from_rate, to_rate),
            |i: int| samples[source_index(i, samples.len(), from_rate, to_rate)],
        )
    }
}

/// Converting to the rate that the samples are at already changes nothing.
pub proof fn law_same_rate_is_identity<T>(samples: Seq<T>, rate: nat)
    ensures
        resampled(samples, rate, rate) == samples,
{
}

/// The output length is the nearest integer to `len * to_rate / from_rate`.
pub proof fn law_resampled_len_is_nearest(len: nat, from_rate: nat, to_rate: nat)
    requires
        from_rate > 0,
    ensures
        2 * len * to_rate - from_rate < 2 * from_rate * resampled_len(len, from_rate, to_rate)
            <= 2 * len * to_rate + from_rate,
        len == 0 || to_rate == 0 ==> resampled_len(len, from_rate, to_rate) == 0,
{
    let num = (2 * len * to_rate + from_rate) as int;
    let den = (2 * from_rate) as int;
    assert(num == den * (num / den) + num % den && 0 <= num % den < den) by {
        vstd::arithmetic::div_mod::lemma_fundamental_div_mod(num, den);
        vstd::arithmetic::div_mod::lemma_mod_bound(num, den);
    }
    assert(2 * from_rate * resampled_len(len, from_rate, to_rate) == den * (num / den))
        by (nonlinear_arith)
        requires
            num / den >= 0,
            resampled_len(len, from_rate, to_rate) == num / den,
            den == 2 * from_rate,
    ;
    if len == 0 || to_rate == 0 {
        assert(2 * len * to_rate == 0) by (nonlinear_arith)
            requires
                len == 0 || to_rate == 0,
        ;
        assert(num / den == 0) by (nonlinear_arith)
            requires
                num == from_rate,
                den == 2 * from_rate,
                from_rate > 0,
        ;
    }
}

/// Every output position is taken from inside the input; the bound in
/// [`source_index`] is a safeguard that never changes the position.
pub proof fn law_source_index_in_range(i: int, len: nat, from_rate: nat, to_rate: nat)
    requires
        from_rate > 0,
        0 <= i < resampled_len(len, from_rate, to_rate),
    ensures
        to_rate > 0,
        len > 0,
        0 <= (i * from_rate) / (to_rate as int) < len,
        source_index(i, len, from_rate, to_rate) == (i * from_rate) / (to_rate as int),
{
    law_resampled_len_is_nearest(len, from_rate, to_rate);
    let n = resampled_len(len, from_rate, to_rate) as int;
    let f = from_rate as int;
    let t = to_rate as int;
    let l = len as int;
    assert(i * f < l * t) by (nonlinear_arith)
        requires
            0 <= i <= n - 1,
            2 * f * n <= 2 * l * t + f,
            f > 0,
            t > 0,
            l > 0,
    {
        assert(2 * f * i <= 2 * f * (n - 1));
        assert(2 * f * (n - 1) == 2 * f * n - 2 * f);
    }
    assert(0 <= (i * f) / t < l) by (nonlinear_arith)
        requires
            0 <= i * f < l * t,
            t > 0,
    ;
}

/// Converts `samples` from `from_rate` to `to_rate`.
///
/// Equal rates give the input back. Otherwise output position `i` holds the
/// input sample at `i * from_rate / to_rate`, rounded down, and the output
/// has `len * to_rate / from_rate` samples, rounded to the nearest integer.
pub fn resample_audio<T: Copy>(samples: &[T], from_rate: u32, to_rate: u32) -> (out: Vec<T>)
    requires
        from_rate != to_rate ==> from_rate > 0 && resampled_len(
            samples@.len(),
            from_rate as nat,
            to_rate as nat,
        ) <= usize::MAX,
    ensures
        out@ == resampled(samples@, from_rate as nat, to_rate as nat),
{
    if from_rate == to_rate {
        return slice_to_vec(samples);
    }
    let len = samples.len();
    let from: u128 = from_rate as u128;
    let to: u128 = to_rate as u128;
    assert(2 * (len as u128) * to + from <= u128::MAX) by (nonlinear_arith)
        requires
            len <= u64::MAX,
            to <= u32::MAX,
            from <= u32::MAX,
    ;
    let new_len: usize = ((2 * (len as u128) * to + from) / (2 * from)) as usize;
    let mut out: Vec<T> = Vec::new();
    let mut i: usize = 0;
    while i < new_len
        invariant
            i <= new_len,
            len == samples.len(),
            from == from_rate,
            to == to_rate,
            from_rate > 0,
            new_len == resampled_len(len as nat, from_rate as nat, to_rate as nat),
            out.len() == i,
            forall|k: int|
                0 <= k < i ==> out[k] == samples[source_index(
                    k,
                    len as nat,
                    from_rate as nat,
                    to_rate as nat,
                )],
        decreases new_len - i,
    {
        proof {
            law_source_index_in_range(i as int, len as nat, from_rate as nat, to_rate as nat);
        }
        assert((i as u128) * from <= u128::MAX) by (nonlinear_arith)
            requires
                i <= u64::MAX,
                from <= u32::MAX,
        ;
        let at: u128 = ((i as u128) * from) / to;
        let src: usize = if at < len as u128 {
            at as usize
        } else {
            len - 1
        };
        out.push(samples[src]);
        i += 1;
    }
    out
}

/// Whether `len` samples can be converted from `from_rate` to `to_rate`:
/// the rates are equal, or the input rate is not zero and the length of
/// the output can be held.
pub open spec fn can_resample(len: nat, from_rate: nat, to_rate: nat) -> bool {
    from_rate != to_rate ==> from_rate > 0 && resampled_len(len, from_rate, to_rate) <= usize::MAX
}

/// Converts `samples` from `from_rate` to `to_rate` where that can be done,
/// and says so where it cannot.
pub fn try_resample<T: Copy>(samples: &[T], from_rate: u32, to_rate: u32) -> (out: Option<Vec<T>>)
    ensures
        out is Some <==> can_resample(samples@.len(), from_rate as nat, to_rate as nat),
        out matches Some(v) ==> v@ == resampled(samples@, from_rate as nat, to_rate as nat),
{
    if from_rate != to_rate {
        if from_rate == 0 {
            return None;
        }
        let len = samples.len();
        let from: u128 = from_rate as u128;
        let to: u128 = to_rate as u128;
        assert(2 * (len as u128) * to + from <= u128::MAX) by (nonlinear_arith)
            requires
                len <= u64::MAX,
                to <= u32::MAX,
                from <= u32::MAX,
        ;
        let new_len: u128 = (2 * (len as u128) * to + from) / (2 * from);
        if new_len > usize::MAX as u128 {
            return None;
        }
    }
    Some(resample_audio(samples, from_rate, to_rate))
}

} // verus!
