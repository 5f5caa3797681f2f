//! Fingerprints of transcript segments, for detecting a repeated segment.

use std::collections::hash_map::DefaultHasher;
use std::hash::Hasher;
use vstd::bytes::{spec_u64_to_le_bytes, u64_to_le_bytes};
use vstd::prelude::*;
use vstd::std_specs::hash::DefaultHasherAdditionalSpecFns;
use vstd::string::StringSliceAdditionalSpecFns;

verus! {

/// The byte strings that are fed to the hasher for one segment: the text in
/// UTF-8, then each timestamp as eight little-endian bytes.
pub open spec fn fingerprint_input(text: Seq<char>, t0_ms: u64, t1_ms: u64) -> Seq<Seq<u8>> {
    seq![vstd::utf8::encode_utf8(text), spec_u64_to_le_bytes(t0_ms), spec_u64_to_le_bytes(t1_ms)]
}

/// The fingerprint of a segment: the digest of its raw text and both
/// timestamps under the standard library's default hasher.
pub open spec fn segment_fingerprint(text: Seq<char>, t0_ms: u64, t1_ms: u64) -> u64 {
    DefaultHasher::spec_finish(fingerprint_input(text, t0_ms, t1_ms))
}

/// Computes [`segment_fingerprint`].
pub fn fingerprint(text: &str, t0_ms: u64, t1_ms: u64) -> (h: u64)
    ensures
        h == segment_fingerprint(text@, t0_ms, t1_ms),
{
    let mut hasher = DefaultHasher::new();
    hasher.write(text.as_bytes());
    let b0 = u64_to_le_bytes(t0_ms);
    hasher.write(b0.as_slice());
    let b1 = u64_to_le_bytes(t1_ms);
    hasher.write(b1.as_slice());
    assert(hasher@ =~= fingerprint_input(text@, t0_ms, t1_ms));
    hasher.finish()
}

} // verus!
