//! The change fingerprint: a cheap, deliberately approximate digest over
//! image bytes, used to decide between successive captures whether the
//! monitored region changed at all. At most 1000 evenly-strided byte offsets
//! are sampled and accumulated with wraparound arithmetic; collisions are
//! acceptable, the detector trades recall for near-zero cost per cycle.

use vstd::prelude::*;

verus! {

/// The sampling stride: wide enough that at most 1000 offsets are visited.
pub open spec fn spec_stride(len: nat) -> nat {
    if len > 1000 {
        len / 1000
    } else {
        1
    }
}

/// The accumulator after folding the samples at offsets `i`, `i + stride`,
/// `i + 2 * stride`, ... into `acc`. Each sampled byte is weighted by its
/// offset plus one, with wraparound arithmetic throughout.
pub open spec fn spec_hash_from(data: Seq<u8>, stride: nat, i: nat, acc: u64) -> u64
    decreases data.len() + stride - i,
    when stride >= 1
{
    if i >= data.len() {
        acc
    } else {
        spec_hash_from(
            data,
            stride,
            i + stride,
            acc.wrapping_add((data[i as int] as u64).wrapping_mul((i + 1) as u64)),
        )
    }
}

/// The fingerprint of a byte buffer.
pub open spec fn spec_simple_hash(data: Seq<u8>) -> u64 {
    spec_hash_from(data, spec_stride(data.len()), 0, 0)
}

/// Computes the change fingerprint of an image buffer.
pub fn calculate_simple_hash(data: &[u8]) -> (r: u64)
    ensures
        r == spec_simple_hash(data@),
{
    let len = data.len();
    let stride: usize = if len > 1000 {
        len / 1000
    } else {
        1
    };
    let mut hash: u64 = 0;
    if len == 0 {
        return hash;
    }
    let mut i: usize = 0;
    loop
        invariant_except_break
            1 <= stride,
            stride == spec_stride(data@.len()),
            i < len,
            len == data@.len(),
            spec_hash_from(data@, stride as nat, i as nat, hash) == spec_simple_hash(data@),
        ensures
            hash == spec_simple_hash(data@),
        decreases len - i,
    {
        hash = hash.wrapping_add((data[i] as u64).wrapping_mul(i as u64 + 1));
        if len - i <= stride {
            // This was the last sampled offset: the next one falls past the
            // end of the buffer.
            proof {
                assert(spec_hash_from(data@, stride as nat, (i + stride) as nat, hash) == hash);
            }
            break ;
        }
        i = i + stride;
    }
    hash
}

/// Law: the fingerprint is deterministic — identical byte buffers always
/// yield identical fingerprints. (Whether two differing buffers collide is a
/// probabilistic matter outside this statement.)
pub proof fn lemma_fingerprint_deterministic(a: Seq<u8>, b: Seq<u8>)
    requires
        a == b,
    ensures
        spec_simple_hash(a) == spec_simple_hash(b),
{
}

} // verus!
