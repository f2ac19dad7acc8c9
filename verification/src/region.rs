use vstd::prelude::*;

use crate::hash::DhtOpHash;

verus! {

// Gossip reconciles regions by exchanging fingerprints: an op count, the
// XOR of the op hashes' digests, and the total byte length. Two peers that
// hold the same ops must compute the same fingerprint whatever order the
// ops arrived in, so combining fingerprints is commutative and associative;
// that is proved below.

/// One region's fingerprint.
#[derive(Clone, Copy, Debug)]
pub struct RegionData {
    pub count: u64,
    pub hash_xor: [u8; 32],
    pub size: u64,
}

/// The ghost image of a fingerprint, over unbounded numbers so that
/// combining is total.
pub struct RegionDataV {
    pub count: int,
    pub hash_xor: Seq<u8>,
    pub size: int,
}

impl View for RegionData {
    type V = RegionDataV;

    open spec fn view(&self) -> RegionDataV {
        RegionDataV { count: self.count as int, hash_xor: self.hash_xor@, size: self.size as int }
    }
}

/// Two byte strings folded together bitwise.
pub open spec fn xor_bytes(a: Seq<u8>, b: Seq<u8>) -> Seq<u8> {
    Seq::new(a.len(), |i: int| (a[i] ^ b[i]) as u8)
}

/// What combining two fingerprints means: counts and sizes add, the hash
/// folds bitwise.
pub open spec fn spec_combine(a: RegionDataV, b: RegionDataV) -> RegionDataV {
    RegionDataV {
        count: a.count + b.count,
        hash_xor: xor_bytes(a.hash_xor, b.hash_xor),
        size: a.size + b.size,
    }
}

/// The fingerprint of a region holding nothing.
pub open spec fn spec_empty_region() -> RegionDataV {
    RegionDataV { count: 0, hash_xor: Seq::new(32, |i: int| 0u8), size: 0 }
}

/// The fingerprint one op contributes: itself, alone.
pub open spec fn spec_single(hash: DhtOpHash, size: int) -> RegionDataV {
    RegionDataV { count: 1, hash_xor: hash.digest@, size }
}

/// Folding byte strings is commutative.
proof fn lemma_xor_bytes_comm(a: Seq<u8>, b: Seq<u8>)
    requires
        a.len() == b.len(),
    ensures
        xor_bytes(a, b) == xor_bytes(b, a),
{
    assert forall|i: int| 0 <= i < a.len() implies xor_bytes(a, b)[i] == xor_bytes(b, a)[i] by {
        let x = a[i];
        let y = b[i];
        assert(x ^ y == y ^ x) by (bit_vector);
    }
    assert(xor_bytes(a, b) =~= xor_bytes(b, a));
}

/// Folding byte strings is associative.
proof fn lemma_xor_bytes_assoc(a: Seq<u8>, b: Seq<u8>, c: Seq<u8>)
    requires
        a.len() == b.len(),
        b.len() == c.len(),
    ensures
        xor_bytes(xor_bytes(a, b), c) == xor_bytes(a, xor_bytes(b, c)),
{
    assert forall|i: int| 0 <= i < a.len() implies xor_bytes(xor_bytes(a, b), c)[i] == xor_bytes(
        a,
        xor_bytes(b, c),
    )[i] by {
        let x = a[i];
        let y = b[i];
        let z = c[i];
        assert((x ^ y) ^ z == x ^ (y ^ z)) by (bit_vector);
    }
    assert(xor_bytes(xor_bytes(a, b), c) =~= xor_bytes(a, xor_bytes(b, c)));
}

/// Combining fingerprints is commutative: two peers that fold the same ops
/// in different orders agree.
pub proof fn lemma_combine_commutative(a: RegionDataV, b: RegionDataV)
    requires
        a.hash_xor.len() == 32,
        b.hash_xor.len() == 32,
    ensures
        spec_combine(a, b) == spec_combine(b, a),
{
    lemma_xor_bytes_comm(a.hash_xor, b.hash_xor);
}

/// Combining fingerprints is associative: folding a batch in one pass or in
/// sub-batches gives the same fingerprint.
pub proof fn lemma_combine_associative(a: RegionDataV, b: RegionDataV, c: RegionDataV)
    requires
        a.hash_xor.len() == 32,
        b.hash_xor.len() == 32,
        c.hash_xor.len() == 32,
    ensures
        spec_combine(spec_combine(a, b), c) == spec_combine(a, spec_combine(b, c)),
{
    lemma_xor_bytes_assoc(a.hash_xor, b.hash_xor, c.hash_xor);
}

/// The empty region is the identity of combining.
pub proof fn lemma_combine_empty(a: RegionDataV)
    requires
        a.hash_xor.len() == 32,
    ensures
        spec_combine(a, spec_empty_region()) == a,
        spec_combine(spec_empty_region(), a) == a,
{
    assert forall|i: int| 0 <= i < 32 implies xor_bytes(a.hash_xor, spec_empty_region().hash_xor)[i]
        == a.hash_xor[i] by {
        let x = a.hash_xor[i];
        assert(x ^ 0 == x) by (bit_vector);
    }
    assert(xor_bytes(a.hash_xor, spec_empty_region().hash_xor) =~= a.hash_xor);
    assert forall|i: int| 0 <= i < 32 implies xor_bytes(spec_empty_region().hash_xor, a.hash_xor)[i]
        == a.hash_xor[i] by {
        let x = a.hash_xor[i];
        assert(0 ^ x == x) by (bit_vector);
    }
    assert(xor_bytes(spec_empty_region().hash_xor, a.hash_xor) =~= a.hash_xor);
    assert(spec_combine(a, spec_empty_region()) == a);
    assert(spec_combine(spec_empty_region(), a) == a);
}

impl RegionData {
    /// The fingerprint of a region holding nothing.
    pub fn empty() -> (r: RegionData)
        ensures
            r@ == spec_empty_region(),
    {
        let r = RegionData { count: 0, hash_xor: [0; 32], size: 0 };
        proof {
            assert(r@.hash_xor =~= spec_empty_region().hash_xor);
        }
        r
    }

    /// The fingerprint one op contributes.
    pub fn single(hash: &DhtOpHash, size: u64) -> (r: RegionData)
        ensures
            r@ == spec_single(*hash, size as int),
    {
        RegionData { count: 1, hash_xor: hash.digest, size }
    }

    /// Fold another fingerprint into this one.
    pub fn combine(&self, other: &RegionData) -> (r: RegionData)
        requires
            self.count + other.count <= u64::MAX,
            self.size + other.size <= u64::MAX,
        ensures
            r@ == spec_combine(self@, other@),
    {
        let mut hash_xor = [0u8; 32];
        let mut i: usize = 0;
        while i < 32
            invariant
                i <= 32,
                forall|k: int|
                    0 <= k < i ==> hash_xor@[k] == (self.hash_xor@[k] ^ other.hash_xor@[k]) as u8,
            decreases 32 - i,
        {
            hash_xor[i] = self.hash_xor[i] ^ other.hash_xor[i];
            i = i + 1;
        }
        let r = RegionData { count: self.count + other.count, hash_xor, size: self.size + other.size };
        proof {
            assert(r@.hash_xor =~= xor_bytes(self@.hash_xor, other@.hash_xor));
        }
        r
    }
}

} // verus!
