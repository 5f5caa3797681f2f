//! Mixing of the microphone and system-audio batches of one poll tick.

use vstd::prelude::*;

verus! {

/// Share of the microphone in the mix, in hundredths. The microphone is
/// favoured so that speech stands out against the system audio.
pub const MIC_WEIGHT_PERCENT: u32 = 70;

/// Share of the system audio in the mix, in hundredths.
pub const SYSTEM_WEIGHT_PERCENT: u32 = 30;

/// The sample at position `i` of a batch, or silence past its end.
pub open spec fn sample_or<T>(batch: Seq<T>, i: int, silence: T) -> T {
    if 0 <= i < batch.len() {
        batch[i]
    } else {
        silence
    }
}

/// Length of the mix of two batches: that of the longer one.
pub open spec fn mixed_len(mic: nat, system: nat) -> nat {
    if mic >= system {
        mic
    } else {
        system
    }
}

/// Whether `mixed` is a mix of the two batches under `blend`: it is as long
/// as the longer batch, and each of its samples is what `blend` returns for
/// the two samples at that position, with silence in place of a sample that
/// a batch lacks.
pub open spec fn is_mix_of<T, F: Fn(T, T) -> T>(
    mixed: Seq<T>,
    mic: Seq<T>,
    system: Seq<T>,
    silence: T,
    blend: F,
) -> bool {
    &&& mixed.len() == mixed_len(mic.len(), system.len())
    &&& forall|i: int|
        0 <= i < mixed.len() ==> call_ensures(
            blend,
            (sample_or(mic, i, silence), sample_or(system, i, silence)),
            #[trigger] mixed[i],
        )
}

/// Whether `blend` may be called on every pair of samples that mixing the
/// two batches will hand it.
pub open spec fn can_mix<T, F: Fn(T, T) -> T>(
    mic: Seq<T>,
    system: Seq<T>,
    silence: T,
    blend: F,
) -> bool {
    forall|i: int|
        0 <= i < mixed_len(mic.len(), system.len()) ==> call_requires(
            blend,
            (#[trigger] sample_or(mic, i, silence), sample_or(system, i, silence)),
        )
}

/// Mixes a microphone batch and a system-audio batch sample by sample.
///
/// The batches are aligned at their first samples. Where one batch is
/// shorter, `silence` stands for its missing samples. `blend` combines a
/// microphone sample and a system sample into one mixed sample.
pub fn mix_samples<T: Copy, F: Fn(T, T) -> T>(
    mic: &[T],
    system: &[T],
    silence: T,
    blend: &F,
) -> (mixed: Vec<T>)
    requires
        can_mix(mic@, system@, silence, *blend),
    ensures
        is_mix_of(mixed@, mic@, system@, silence, *blend),
{
    let n = if mic.len() >= system.len() {
        mic.len()
    } else {
        system.len()
    };
    let mut mixed: Vec<T> = Vec::new();
    let mut i: usize = 0;
    while i < n
        invariant
            i <= n,
            n == mixed_len(mic@.len(), system@.len()),
            can_mix(mic@, system@, silence, *blend),
            mixed.len() == i,
            forall|k: int|
                0 <= k < i ==> call_ensures(
                    *blend,
                    (sample_or(mic@, k, silence), sample_or(system@, k, silence)),
                    #[trigger] mixed[k],
                ),
        decreases n - i,
    {
        let m = if i < mic.len() {
            mic[i]
        } else {
            silence
        };
        let s = if i < system.len() {
            system[i]
        } else {
            silence
        };
        assert(m == sample_or(mic@, i as int, silence));
        assert(s == sample_or(system@, i as int, silence));
        let v = blend(m, s);
        mixed.push(v);
        i += 1;
    }
    mixed
}

} // verus!
