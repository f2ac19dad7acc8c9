use vstd::prelude::*;

verus! {

/// The eight primitive kinds of content hash. Two composite families,
/// `AnyDht = Entry|Header` and `AnyLinkable = Entry|Header|External`, are
/// carried by wrapper types in this module.
#[derive(Clone, Copy, Debug, PartialEq, Eq, Structural)]
pub enum HashKind {
    Agent,
    Dna,
    Entry,
    Header,
    DhtOp,
    Wasm,
    NetId,
    External,
}

/// The DHT location of a digest: its first four bytes read as a
/// little-endian u32. Every value is thereby mapped onto the circular
/// address space of size 2^32.
pub open spec fn loc_of(digest: Seq<u8>) -> u32
    recommends
        digest.len() >= 4,
{
    (digest[0] + digest[1] * 0x100 + digest[2] * 0x1_0000 + digest[3] * 0x100_0000) as u32
}

/// What the 32-byte content digest of a byte string is. The digest function
/// itself lives in an outside crate; contracts speak of it only through this
/// name.
pub uninterp spec fn digest_of(bytes: Seq<u8>) -> Seq<u8>;

/// Relies on blake2b_simd::Params::hash with hash_length(32): a 32-byte
/// digest that depends on the input bytes alone.
#[verifier::external_body]
fn blake2b_256(bytes: &Vec<u8>) -> (r: [u8; 32])
    ensures
        r@ == digest_of(bytes@),
        r@.len() == 32,
{
    let hash = blake2b_simd::Params::new().hash_length(32).hash(bytes.as_slice());
    let mut out = [0u8; 32];
    out.copy_from_slice(hash.as_bytes());
    out
}

/// A content address: a typed 32-byte digest together with its location on
/// the DHT's circular address space.
#[derive(Clone, Copy, Debug)]
pub struct HoloHash {
    pub kind: HashKind,
    pub digest: [u8; 32],
    pub loc: u32,
}

/// An agent's public signing key, treated as an identity hash.
pub type AgentPubKey = HoloHash;

/// The hash of a DNA definition.
pub type DnaHash = HoloHash;

/// The hash of an entry.
pub type EntryHash = HoloHash;

/// The hash of a header.
pub type HeaderHash = HoloHash;

/// Headers are addressed by their hash.
pub type HeaderAddress = HoloHash;

/// The hash of a DHT op's unique form.
pub type DhtOpHash = HoloHash;

/// The hash of some WASM byte code.
pub type WasmHash = HoloHash;

/// The hash of some external data that does not live on the DHT.
pub type ExternalHash = HoloHash;

/// A hash that can address DHT data: an entry or header hash (an agent key
/// counts as an entry hash).
pub type AnyDhtHash = HoloHash;

impl HoloHash {
    /// The stored location agrees with the digest.
    pub open spec fn wf(self) -> bool {
        self.loc == loc_of(self.digest@)
    }

    /// This hash is `hash_kind` of the content `bytes`.
    pub open spec fn is_hash_of(self, hash_kind: HashKind, bytes: Seq<u8>) -> bool {
        &&& self.kind == hash_kind
        &&& self.digest@ == digest_of(bytes)
        &&& self.wf()
    }

    /// Hash a byte string under the given kind.
    pub fn with_data(hash_kind: HashKind, bytes: &Vec<u8>) -> (r: HoloHash)
        ensures
            r.is_hash_of(hash_kind, bytes@),
    {
        let digest = blake2b_256(bytes);
        let loc = loc_from_digest(&digest);
        HoloHash { kind: hash_kind, digest, loc }
    }

    /// Build a hash directly from a digest already in hand.
    pub fn from_digest(hash_kind: HashKind, digest: [u8; 32]) -> (r: HoloHash)
        ensures
            r.kind == hash_kind,
            r.digest == digest,
            r.wf(),
    {
        let loc = loc_from_digest(&digest);
        HoloHash { kind: hash_kind, digest, loc }
    }

    /// The DHT location of this hash.
    pub fn get_loc(&self) -> (r: u32)
        ensures
            r == self.loc,
    {
        self.loc
    }

    /// Reinterpret this hash under another kind, keeping digest and location.
    pub fn retype(self, hash_kind: HashKind) -> (r: HoloHash)
        ensures
            r == (HoloHash { kind: hash_kind, ..self }),
    {
        HoloHash { kind: hash_kind, digest: self.digest, loc: self.loc }
    }
}

/// Read a digest's location: its first four bytes, little endian.
pub fn loc_from_digest(digest: &[u8; 32]) -> (r: u32)
    ensures
        r == loc_of(digest@),
{
    let b0 = digest[0] as u32;
    let b1 = digest[1] as u32;
    let b2 = digest[2] as u32;
    let b3 = digest[3] as u32;
    b0 + b1 * 0x100 + b2 * 0x1_0000 + b3 * 0x100_0000
}

impl PartialEq for HoloHash {
    fn eq(&self, other: &HoloHash) -> (r: bool)
        ensures
            r == (*self == *other),
    {
        if self.kind != other.kind || self.loc != other.loc {
            return false;
        }
        let mut i: usize = 0;
        while i < 32
            invariant
                i <= 32,
                self.kind == other.kind,
                self.loc == other.loc,
                forall|j: int| 0 <= j < i ==> self.digest@[j] == other.digest@[j],
            decreases 32 - i,
        {
            if self.digest[i] != other.digest[i] {
                return false;
            }
            i = i + 1;
        }
        proof {
            assert(self.digest@ =~= other.digest@);
            vstd::array::axiom_array_ext_equal(self.digest, other.digest);
        }
        true
    }
}

impl Eq for HoloHash {
}

impl vstd::std_specs::cmp::PartialEqSpecImpl for HoloHash {
    open spec fn obeys_eq_spec() -> bool {
        true
    }

    open spec fn eq_spec(&self, other: &HoloHash) -> bool {
        *self == *other
    }
}

/// Two hashes of the same kind over the same digest are the same hash,
/// location included: the location is a function of the digest.
pub proof fn lemma_hash_determined(a: HoloHash, b: HoloHash)
    requires
        a.wf(),
        b.wf(),
        a.kind == b.kind,
        a.digest@ == b.digest@,
    ensures
        a == b,
{
    assert(a.digest =~= b.digest);
}

/// A coarse location grid of 256 cells, each 2^24 wide: handy shorthand for
/// tests and examples that place agents and ops on the circle.
#[derive(Clone, Copy, Debug, PartialEq, Eq, Structural)]
pub struct Loc8(pub i8);

impl Loc8 {
    /// The signed byte behind this coarse location.
    pub fn as_i8(&self) -> (r: i8)
        ensures
            r == self.0,
    {
        self.0
    }

    /// The full-resolution location at the start of this cell.
    pub open spec fn spec_to_loc(self) -> u32 {
        (self.0 as u8 as u32 * 0x100_0000) as u32
    }

    /// Widen to a full-resolution DHT location.
    pub fn to_loc(self) -> (r: u32)
        ensures
            r == self.spec_to_loc(),
    {
        self.0 as u8 as u32 * 0x100_0000
    }

    /// The cell that a full-resolution location falls in.
    pub open spec fn spec_from_loc(loc: u32) -> Loc8 {
        Loc8((loc / 0x100_0000) as u8 as i8)
    }

    /// Narrow a full-resolution location to its cell.
    pub fn from_loc(loc: u32) -> (r: Loc8)
        ensures
            r == Loc8::spec_from_loc(loc),
    {
        Loc8(#[verifier::truncate] ((loc / 0x100_0000) as u8) as i8)
    }
}

/// A fake hash whose digest spells out the given location: the location
/// bytes, little endian, repeated over the whole digest. Used to place test
/// identities at chosen spots on the circle.
pub fn hash_from_loc(hash_kind: HashKind, loc: u32) -> (r: HoloHash)
    ensures
        r.loc == loc,
        r.kind == hash_kind,
        r.wf(),
{
    let b0 = (loc % 0x100) as u8;
    let b1 = ((loc / 0x100) % 0x100) as u8;
    let b2 = ((loc / 0x1_0000) % 0x100) as u8;
    let b3 = ((loc / 0x100_0000) % 0x100) as u8;
    let mut digest = [0u8; 32];
    let mut i: usize = 0;
    while i < 8
        invariant
            i <= 8,
            forall|j: int|
                0 <= j < i * 4 ==> digest@[j] == (if j % 4 == 0 {
                    b0
                } else if j % 4 == 1 {
                    b1
                } else if j % 4 == 2 {
                    b2
                } else {
                    b3
                }),
        decreases 8 - i,
    {
        digest[i * 4] = b0;
        digest[i * 4 + 1] = b1;
        digest[i * 4 + 2] = b2;
        digest[i * 4 + 3] = b3;
        i = i + 1;
    }
    let r = HoloHash::from_digest(hash_kind, digest);
    proof {
        assert(r.digest@[0] == b0);
        assert(r.digest@[1] == b1);
        assert(r.digest@[2] == b2);
        assert(r.digest@[3] == b3);
        assert(loc_of(r.digest@) == loc) by {
            assert(b0 + b1 * 0x100 + b2 * 0x1_0000 + b3 * 0x100_0000 == loc);
        }
    }
    r
}

} // verus!
