use vstd::prelude::*;

use crate::EntryVisibility;
use crate::hash::AgentPubKey;
use crate::hash::HashKind;
use crate::hash::HeaderAddress;
use crate::hash::HoloHash;
use crate::hash::digest_of;
use crate::hash::loc_of;
use crate::header::AgentValidationPkgV;
use crate::header::AppEntryType;
use crate::header::ChainClose;
use crate::header::ChainOpen;
use crate::header::Dna;
use crate::header::ElementDelete;
use crate::header::EntryCreate;
use crate::header::EntryDefId;
use crate::header::EntryType;
use crate::header::EntryUpdate;
use crate::header::HeaderV;
use crate::header::InitZomesComplete;
use crate::header::IntendedFor;
use crate::header::LinkAddV;
use crate::header::LinkRemove;
use crate::header::Timestamp;
use crate::header::ZomeId;

verus! {

// Every wire value has exactly one byte form: integers are little-endian and
// fixed-width, byte strings carry a four-byte length, a hash carries its
// location suffix which must agree with its digest. Decoding accepts exactly
// the byte strings that encoding produces, so decode and encode are inverse
// in both directions.

/// Little-endian four-byte form of a u32.
#[verifier::opaque]
pub open spec fn enc_u32(v: u32) -> Seq<u8> {
    seq![
        (v % 0x100) as u8,
        ((v / 0x100) % 0x100) as u8,
        ((v / 0x1_0000) % 0x100) as u8,
        ((v / 0x100_0000) % 0x100) as u8,
    ]
}

/// Read a u32 at position `i`; yields the value and the next position.
#[verifier::opaque]
pub open spec fn dec_u32(b: Seq<u8>, i: int) -> Option<(u32, int)> {
    if 0 <= i && i + 4 <= b.len() {
        Some(
            (
                (b[i] + b[i + 1] * 0x100 + b[i + 2] * 0x1_0000 + b[i + 3] * 0x100_0000) as u32,
                i + 4,
            ),
        )
    } else {
        None
    }
}

/// Little-endian eight-byte form of a u64.
#[verifier::opaque]
pub open spec fn enc_u64(v: u64) -> Seq<u8> {
    seq![
        (v % 0x100) as u8,
        ((v / 0x100) % 0x100) as u8,
        ((v / 0x1_0000) % 0x100) as u8,
        ((v / 0x100_0000) % 0x100) as u8,
        ((v / 0x1_0000_0000) % 0x100) as u8,
        ((v / 0x100_0000_0000) % 0x100) as u8,
        ((v / 0x1_0000_0000_0000) % 0x100) as u8,
        ((v / 0x100_0000_0000_0000) % 0x100) as u8,
    ]
}

/// Read a u64 at position `i`.
#[verifier::opaque]
pub open spec fn dec_u64(b: Seq<u8>, i: int) -> Option<(u64, int)> {
    if 0 <= i && i + 8 <= b.len() {
        Some(
            (
                (b[i] + b[i + 1] * 0x100 + b[i + 2] * 0x1_0000 + b[i + 3] * 0x100_0000 + b[i + 4]
                    * 0x1_0000_0000 + b[i + 5] * 0x100_0000_0000 + b[i + 6] * 0x1_0000_0000_0000 + b[i
                    + 7] * 0x100_0000_0000_0000) as u64,
                i + 8,
            ),
        )
    } else {
        None
    }
}

/// An i64 travels as its two's-complement u64.
#[verifier::opaque]
pub open spec fn enc_i64(v: i64) -> Seq<u8> {
    enc_u64(v as u64)
}

#[verifier::opaque]
pub open spec fn dec_i64(b: Seq<u8>, i: int) -> Option<(i64, int)> {
    match dec_u64(b, i) {
        Some((v, j)) => Some((v as i64, j)),
        None => None,
    }
}

/// A byte string travels with a four-byte length prefix.
#[verifier::opaque]
pub open spec fn enc_bytes(s: Seq<u8>) -> Seq<u8>
    recommends
        s.len() < 0x1_0000_0000,
{
    enc_u32(s.len() as u32) + s
}

#[verifier::opaque]
pub open spec fn dec_bytes(b: Seq<u8>, i: int) -> Option<(Seq<u8>, int)> {
    match dec_u32(b, i) {
        Some((n, j)) => if j + n <= b.len() {
            Some((b.subrange(j, j + n), j + n))
        } else {
            None
        },
        None => None,
    }
}

/// The three-byte type tag of each hash kind.
pub open spec fn kind_tag(k: HashKind) -> Seq<u8> {
    match k {
        HashKind::Agent => seq![0x84u8, 0x20u8, 0x24u8],
        HashKind::Dna => seq![0x84u8, 0x2du8, 0x24u8],
        HashKind::Entry => seq![0x84u8, 0x21u8, 0x24u8],
        HashKind::Header => seq![0x84u8, 0x29u8, 0x24u8],
        HashKind::DhtOp => seq![0x84u8, 0x24u8, 0x24u8],
        HashKind::Wasm => seq![0x84u8, 0x2au8, 0x24u8],
        HashKind::NetId => seq![0x84u8, 0x22u8, 0x24u8],
        HashKind::External => seq![0x84u8, 0x2fu8, 0x24u8],
    }
}

/// The kind named by a tag's middle byte, if any.
pub open spec fn kind_of_tag(t: u8) -> Option<HashKind> {
    if t == 0x20 {
        Some(HashKind::Agent)
    } else if t == 0x2d {
        Some(HashKind::Dna)
    } else if t == 0x21 {
        Some(HashKind::Entry)
    } else if t == 0x29 {
        Some(HashKind::Header)
    } else if t == 0x24 {
        Some(HashKind::DhtOp)
    } else if t == 0x2a {
        Some(HashKind::Wasm)
    } else if t == 0x22 {
        Some(HashKind::NetId)
    } else if t == 0x2f {
        Some(HashKind::External)
    } else {
        None
    }
}

/// A hash's 39-byte wire form: three tag bytes, the 32-byte digest, and the
/// four-byte location suffix.
#[verifier::opaque]
pub open spec fn enc_hash(h: HoloHash) -> Seq<u8> {
    kind_tag(h.kind) + h.digest@ + enc_u32(h.loc)
}

/// Decoding a hash re-checks the location suffix against the digest: a wire
/// hash whose suffix lies is rejected.
#[verifier::opaque]
pub open spec fn dec_hash(b: Seq<u8>, i: int) -> Option<(HoloHash, int)> {
    if 0 <= i && i + 39 <= b.len() && b[i] == 0x84 && b[i + 2] == 0x24 {
        match kind_of_tag(b[i + 1]) {
            Some(k) => {
                let digest = b.subrange(i + 3, i + 35);
                match dec_u32(b, i + 35) {
                    Some((loc, j)) => if loc == loc_of(digest) {
                        Some((HoloHash { kind: k, digest: digest_as_array(digest), loc }, j))
                    } else {
                        None
                    },
                    None => None,
                }
            },
            None => None,
        }
    } else {
        None
    }
}

/// The array holding the first `n` bytes of `s` over a zero background.
pub open spec fn array_from_prefix(s: Seq<u8>, n: int) -> [u8; 32]
    decreases n,
{
    if n <= 0 {
        vstd::array::spec_array_fill_for_copy_type::<u8, 32>(0u8)
    } else {
        vstd::array::spec_array_update(array_from_prefix(s, n - 1), n - 1, s[n - 1])
    }
}

/// The 32-byte array whose view is the given 32-byte sequence.
pub open spec fn digest_as_array(s: Seq<u8>) -> [u8; 32] {
    array_from_prefix(s, 32)
}

proof fn lemma_array_from_prefix(s: Seq<u8>, n: int)
    requires
        0 <= n <= 32,
        n <= s.len(),
    ensures
        forall|i: int| 0 <= i < n ==> array_from_prefix(s, n)@[i] == s[i],
        forall|i: int| n <= i < 32 ==> array_from_prefix(s, n)@[i] == 0u8,
    decreases n,
{
    vstd::array::axiom_spec_array_fill_for_copy_type::<u8, 32>(0u8);
    if n > 0 {
        lemma_array_from_prefix(s, n - 1);
        vstd::array::axiom_spec_array_update(array_from_prefix(s, n - 1), n - 1, s[n - 1]);
    }
}

/// On 32-byte sequences, `digest_as_array` inverts the array view.
pub proof fn lemma_digest_as_array(s: Seq<u8>)
    requires
        s.len() == 32,
    ensures
        digest_as_array(s)@ == s,
{
    lemma_array_from_prefix(s, 32);
    assert(digest_as_array(s)@ =~= s);
}

/// An array is recovered from its own view.
pub proof fn lemma_digest_as_array_id(a: [u8; 32])
    ensures
        digest_as_array(a@) == a,
{
    lemma_digest_as_array(a@);
    vstd::array::axiom_array_ext_equal(digest_as_array(a@), a);
    assert(digest_as_array(a@) =~= a);
}

/// A u32 is the little-endian sum of its four bytes.
proof fn lemma_u32_recompose(v: u32)
    ensures
        (v % 0x100) + ((v / 0x100) % 0x100) * 0x100 + ((v / 0x1_0000) % 0x100) * 0x1_0000 + ((v
            / 0x100_0000) % 0x100) * 0x100_0000 == v,
{
    let x = v as int;
    vstd::arithmetic::div_mod::lemma_fundamental_div_mod(x, 0x100);
    vstd::arithmetic::div_mod::lemma_fundamental_div_mod(x / 0x100, 0x100);
    vstd::arithmetic::div_mod::lemma_fundamental_div_mod(x / 0x1_0000, 0x100);
    vstd::arithmetic::div_mod::lemma_div_denominator(x, 0x100, 0x100);
    vstd::arithmetic::div_mod::lemma_div_denominator(x, 0x1_0000, 0x100);
    vstd::arithmetic::div_mod::lemma_fundamental_div_mod(x, 0x100_0000);
    vstd::arithmetic::div_mod::lemma_mod_division_less_than_divisor(x, 0x100_0000);
    assert(x / 0x100_0000 < 0x100);
    vstd::arithmetic::div_mod::lemma_small_mod((x / 0x100_0000) as nat, 0x100);
}

/// A u64 is the little-endian sum of its eight bytes.
proof fn lemma_u64_recompose(v: u64)
    ensures
        (v % 0x100) + ((v / 0x100) % 0x100) * 0x100 + ((v / 0x1_0000) % 0x100) * 0x1_0000 + ((v
            / 0x100_0000) % 0x100) * 0x100_0000 + ((v / 0x1_0000_0000) % 0x100) * 0x1_0000_0000 + ((v
            / 0x100_0000_0000) % 0x100) * 0x100_0000_0000 + ((v / 0x1_0000_0000_0000) % 0x100)
            * 0x1_0000_0000_0000 + ((v / 0x100_0000_0000_0000) % 0x100) * 0x100_0000_0000_0000 == v,
{
    let x = v as int;
    vstd::arithmetic::div_mod::lemma_fundamental_div_mod(x, 0x100);
    vstd::arithmetic::div_mod::lemma_fundamental_div_mod(x / 0x100, 0x100);
    vstd::arithmetic::div_mod::lemma_fundamental_div_mod(x / 0x1_0000, 0x100);
    vstd::arithmetic::div_mod::lemma_fundamental_div_mod(x / 0x100_0000, 0x100);
    vstd::arithmetic::div_mod::lemma_fundamental_div_mod(x / 0x1_0000_0000, 0x100);
    vstd::arithmetic::div_mod::lemma_fundamental_div_mod(x / 0x100_0000_0000, 0x100);
    vstd::arithmetic::div_mod::lemma_fundamental_div_mod(x / 0x1_0000_0000_0000, 0x100);
    vstd::arithmetic::div_mod::lemma_div_denominator(x, 0x100, 0x100);
    vstd::arithmetic::div_mod::lemma_div_denominator(x, 0x1_0000, 0x100);
    vstd::arithmetic::div_mod::lemma_div_denominator(x, 0x100_0000, 0x100);
    vstd::arithmetic::div_mod::lemma_div_denominator(x, 0x1_0000_0000, 0x100);
    vstd::arithmetic::div_mod::lemma_div_denominator(x, 0x100_0000_0000, 0x100);
    vstd::arithmetic::div_mod::lemma_div_denominator(x, 0x1_0000_0000_0000, 0x100);
    vstd::arithmetic::div_mod::lemma_fundamental_div_mod(x, 0x100_0000_0000_0000);
    vstd::arithmetic::div_mod::lemma_mod_division_less_than_divisor(x, 0x100_0000_0000_0000);
    assert(x / 0x100_0000_0000_0000 < 0x100);
    vstd::arithmetic::div_mod::lemma_small_mod((x / 0x100_0000_0000_0000) as nat, 0x100);
}

/// Reading a u32 where one was written yields it back.
pub proof fn lemma_dec_enc_u32(pre: Seq<u8>, v: u32, suf: Seq<u8>)
    ensures
        dec_u32(pre + enc_u32(v) + suf, pre.len() as int) == Some((v, pre.len() as int + 4)),
{
    reveal(enc_u32);
    reveal(dec_u32);
    let b = pre + enc_u32(v) + suf;
    let i = pre.len() as int;
    assert(b[i] == enc_u32(v)[0]);
    assert(b[i + 1] == enc_u32(v)[1]);
    assert(b[i + 2] == enc_u32(v)[2]);
    assert(b[i + 3] == enc_u32(v)[3]);
    lemma_u32_recompose(v);
}

/// The little-endian byte decomposition of a u32 is unique: summing four
/// bytes pins each one down again.
proof fn lemma_u32_bytes_unique(b0: u8, b1: u8, b2: u8, b3: u8)
    ensures
        ({
            let x = b0 + b1 * 0x100 + b2 * 0x1_0000 + b3 * 0x100_0000;
            &&& x % 0x100 == b0
            &&& (x / 0x100) % 0x100 == b1
            &&& (x / 0x1_0000) % 0x100 == b2
            &&& (x / 0x100_0000) % 0x100 == b3
        }),
{
    let x: int = b0 + b1 * 0x100 + b2 * 0x1_0000 + b3 * 0x100_0000;
    let q1: int = b1 + b2 * 0x100 + b3 * 0x1_0000;
    let q2: int = b2 + b3 * 0x100;
    let q3: int = b3 as int;
    vstd::arithmetic::div_mod::lemma_fundamental_div_mod_converse(x, 0x100, q1, b0 as int);
    vstd::arithmetic::div_mod::lemma_fundamental_div_mod_converse(q1, 0x100, q2, b1 as int);
    vstd::arithmetic::div_mod::lemma_fundamental_div_mod_converse(q2, 0x100, q3, b2 as int);
    vstd::arithmetic::div_mod::lemma_fundamental_div_mod_converse(q3, 0x100, 0, b3 as int);
    vstd::arithmetic::div_mod::lemma_div_denominator(x, 0x100, 0x100);
    vstd::arithmetic::div_mod::lemma_div_denominator(x, 0x1_0000, 0x100);
    assert(x / 0x100 == q1);
    assert(q1 / 0x100 == q2);
    assert(x / 0x1_0000 == q2);
    assert(q2 / 0x100 == q3);
    assert(x / 0x100_0000 == q3);
}

/// A u32 that was read came from exactly its own four bytes.
pub proof fn lemma_enc_dec_u32(b: Seq<u8>, i: int, v: u32, j: int)
    requires
        dec_u32(b, i) == Some((v, j)),
    ensures
        0 <= i,
        j == i + 4,
        j <= b.len(),
        b.subrange(i, j) == enc_u32(v),
{
    reveal(enc_u32);
    reveal(dec_u32);
    lemma_u32_bytes_unique(b[i], b[i + 1], b[i + 2], b[i + 3]);
    assert(b.subrange(i, i + 4) =~= enc_u32(v));
}

/// Reading a u64 where one was written yields it back.
pub proof fn lemma_dec_enc_u64(pre: Seq<u8>, v: u64, suf: Seq<u8>)
    ensures
        dec_u64(pre + enc_u64(v) + suf, pre.len() as int) == Some((v, pre.len() as int + 8)),
{
    reveal(enc_u64);
    reveal(dec_u64);
    let b = pre + enc_u64(v) + suf;
    let i = pre.len() as int;
    assert(b[i] == enc_u64(v)[0]);
    assert(b[i + 1] == enc_u64(v)[1]);
    assert(b[i + 2] == enc_u64(v)[2]);
    assert(b[i + 3] == enc_u64(v)[3]);
    assert(b[i + 4] == enc_u64(v)[4]);
    assert(b[i + 5] == enc_u64(v)[5]);
    assert(b[i + 6] == enc_u64(v)[6]);
    assert(b[i + 7] == enc_u64(v)[7]);
    lemma_u64_recompose(v);
}

/// The little-endian byte decomposition of a u64 is unique: summing eight
/// bytes pins each one down again.
proof fn lemma_u64_bytes_unique(b0: u8, b1: u8, b2: u8, b3: u8, b4: u8, b5: u8, b6: u8, b7: u8)
    ensures
        ({
            let x = b0 + b1 * 0x100 + b2 * 0x1_0000 + b3 * 0x100_0000 + b4 * 0x1_0000_0000 + b5
                * 0x100_0000_0000 + b6 * 0x1_0000_0000_0000 + b7 * 0x100_0000_0000_0000;
            &&& x % 0x100 == b0
            &&& (x / 0x100) % 0x100 == b1
            &&& (x / 0x1_0000) % 0x100 == b2
            &&& (x / 0x100_0000) % 0x100 == b3
            &&& (x / 0x1_0000_0000) % 0x100 == b4
            &&& (x / 0x100_0000_0000) % 0x100 == b5
            &&& (x / 0x1_0000_0000_0000) % 0x100 == b6
            &&& (x / 0x100_0000_0000_0000) % 0x100 == b7
        }),
{
    let x: int = b0 + b1 * 0x100 + b2 * 0x1_0000 + b3 * 0x100_0000 + b4 * 0x1_0000_0000 + b5
        * 0x100_0000_0000 + b6 * 0x1_0000_0000_0000 + b7 * 0x100_0000_0000_0000;
    let q1: int = b1 + b2 * 0x100 + b3 * 0x1_0000 + b4 * 0x100_0000 + b5 * 0x1_0000_0000 + b6
        * 0x100_0000_0000 + b7 * 0x1_0000_0000_0000;
    let q2: int = b2 + b3 * 0x100 + b4 * 0x1_0000 + b5 * 0x100_0000 + b6 * 0x1_0000_0000 + b7
        * 0x100_0000_0000;
    let q3: int = b3 + b4 * 0x100 + b5 * 0x1_0000 + b6 * 0x100_0000 + b7 * 0x1_0000_0000;
    let q4: int = b4 + b5 * 0x100 + b6 * 0x1_0000 + b7 * 0x100_0000;
    let q5: int = b5 + b6 * 0x100 + b7 * 0x1_0000;
    let q6: int = b6 + b7 * 0x100;
    let q7: int = b7 as int;
    vstd::arithmetic::div_mod::lemma_fundamental_div_mod_converse(x, 0x100, q1, b0 as int);
    vstd::arithmetic::div_mod::lemma_fundamental_div_mod_converse(q1, 0x100, q2, b1 as int);
    vstd::arithmetic::div_mod::lemma_fundamental_div_mod_converse(q2, 0x100, q3, b2 as int);
    vstd::arithmetic::div_mod::lemma_fundamental_div_mod_converse(q3, 0x100, q4, b3 as int);
    vstd::arithmetic::div_mod::lemma_fundamental_div_mod_converse(q4, 0x100, q5, b4 as int);
    vstd::arithmetic::div_mod::lemma_fundamental_div_mod_converse(q5, 0x100, q6, b5 as int);
    vstd::arithmetic::div_mod::lemma_fundamental_div_mod_converse(q6, 0x100, q7, b6 as int);
    vstd::arithmetic::div_mod::lemma_fundamental_div_mod_converse(q7, 0x100, 0, b7 as int);
    vstd::arithmetic::div_mod::lemma_div_denominator(x, 0x100, 0x100);
    vstd::arithmetic::div_mod::lemma_div_denominator(x, 0x1_0000, 0x100);
    vstd::arithmetic::div_mod::lemma_div_denominator(x, 0x100_0000, 0x100);
    vstd::arithmetic::div_mod::lemma_div_denominator(x, 0x1_0000_0000, 0x100);
    vstd::arithmetic::div_mod::lemma_div_denominator(x, 0x100_0000_0000, 0x100);
    vstd::arithmetic::div_mod::lemma_div_denominator(x, 0x1_0000_0000_0000, 0x100);
    assert(x / 0x100 == q1);
    assert(q1 / 0x100 == q2);
    assert(x / 0x1_0000 == q2);
    assert(q2 / 0x100 == q3);
    assert(x / 0x100_0000 == q3);
    assert(q3 / 0x100 == q4);
    assert(x / 0x1_0000_0000 == q4);
    assert(q4 / 0x100 == q5);
    assert(x / 0x100_0000_0000 == q5);
    assert(q5 / 0x100 == q6);
    assert(x / 0x1_0000_0000_0000 == q6);
    assert(q6 / 0x100 == q7);
    assert(x / 0x100_0000_0000_0000 == q7);
}

/// A u64 that was read came from exactly its own eight bytes.
pub proof fn lemma_enc_dec_u64(b: Seq<u8>, i: int, v: u64, j: int)
    requires
        dec_u64(b, i) == Some((v, j)),
    ensures
        0 <= i,
        j == i + 8,
        j <= b.len(),
        b.subrange(i, j) == enc_u64(v),
{
    reveal(enc_u64);
    reveal(dec_u64);
    lemma_u64_bytes_unique(b[i], b[i + 1], b[i + 2], b[i + 3], b[i + 4], b[i + 5], b[i + 6], b[i + 7]);
    assert(b.subrange(i, i + 8) =~= enc_u64(v));
}

/// Reading an i64 where one was written yields it back.
pub proof fn lemma_dec_enc_i64(pre: Seq<u8>, v: i64, suf: Seq<u8>)
    ensures
        dec_i64(pre + enc_i64(v) + suf, pre.len() as int) == Some((v, pre.len() as int + 8)),
{
    reveal(enc_i64);
    reveal(dec_i64);
    assert((v as u64) as i64 == v) by (bit_vector);
    lemma_dec_enc_u64(pre, #[verifier::truncate] (v as u64), suf);
}

/// An i64 that was read came from exactly its own eight bytes.
pub proof fn lemma_enc_dec_i64(b: Seq<u8>, i: int, v: i64, j: int)
    requires
        dec_i64(b, i) == Some((v, j)),
    ensures
        0 <= i,
        j == i + 8,
        j <= b.len(),
        b.subrange(i, j) == enc_i64(v),
{
    reveal(enc_i64);
    reveal(dec_i64);
    let u = dec_u64(b, i)->Some_0.0;
    lemma_enc_dec_u64(b, i, u, j);
    assert(v == u as i64);
    assert((u as i64) as u64 == u) by (bit_vector);
}

/// The four-byte form really has four bytes.
pub proof fn lemma_enc_u32_len(v: u32)
    ensures
        enc_u32(v).len() == 4,
{
    reveal(enc_u32);
}

/// The eight-byte form really has eight bytes.
pub proof fn lemma_enc_u64_len(v: u64)
    ensures
        enc_u64(v).len() == 8,
{
    reveal(enc_u64);
}

pub proof fn lemma_enc_i64_len(v: i64)
    ensures
        enc_i64(v).len() == 8,
{
    reveal(enc_i64);
    lemma_enc_u64_len(v as u64);
}

/// A wire byte string is its length prefix plus its payload.
pub proof fn lemma_enc_bytes_len(s: Seq<u8>)
    ensures
        enc_bytes(s).len() == 4 + s.len(),
{
    reveal(enc_bytes);
    lemma_enc_u32_len(s.len() as u32);
}

/// A wire hash is always 39 bytes.
pub proof fn lemma_enc_hash_len(h: HoloHash)
    ensures
        enc_hash(h).len() == 39,
{
    reveal(enc_hash);
    vstd::array::array_len_matches_n(&h.digest);
    lemma_enc_u32_len(h.loc);
}

/// The common fields always take 51 bytes.
pub proof fn lemma_enc_common_len(a: AgentPubKey, ts: Timestamp, s: u32)
    ensures
        enc_common(a, ts, s).len() == 51,
{
    reveal(enc_common);
    lemma_enc_hash_len(a);
    lemma_enc_i64_len(ts.0);
    lemma_enc_u32_len(s);
}

/// Reading a byte string where one was written yields it back.
pub proof fn lemma_dec_enc_bytes(pre: Seq<u8>, s: Seq<u8>, suf: Seq<u8>)
    requires
        s.len() < 0x1_0000_0000,
    ensures
        dec_bytes(pre + enc_bytes(s) + suf, pre.len() as int) == Some(
            (s, pre.len() as int + 4 + s.len()),
        ),
{
    lemma_enc_u32_len(s.len() as u32);
    reveal(enc_bytes);
    reveal(dec_bytes);
    let b = pre + enc_bytes(s) + suf;
    assert(pre + enc_bytes(s) + suf =~= pre + enc_u32(s.len() as u32) + (s + suf));
    lemma_dec_enc_u32(pre, s.len() as u32, s + suf);
    let i = pre.len() as int;
    assert(b.subrange(i + 4, i + 4 + s.len()) =~= s);
}

/// A byte string that was read came from exactly its own length-prefixed bytes.
pub proof fn lemma_enc_dec_bytes(b: Seq<u8>, i: int, s: Seq<u8>, j: int)
    requires
        dec_bytes(b, i) == Some((s, j)),
    ensures
        0 <= i,
        j == i + 4 + s.len(),
        j <= b.len(),
        s.len() < 0x1_0000_0000,
        b.subrange(i, j) == enc_bytes(s),
{
    reveal(enc_bytes);
    reveal(dec_bytes);
    let (n, i2) = dec_u32(b, i)->Some_0;
    lemma_enc_dec_u32(b, i, n, i2);
    assert(s.len() == n);
    assert(b.subrange(i, j) =~= b.subrange(i, i2) + b.subrange(i2, j));
    assert(enc_u32(s.len() as u32) == enc_u32(n));
}

/// Reading a hash where one was written yields it back.
pub proof fn lemma_dec_enc_hash(pre: Seq<u8>, h: HoloHash, suf: Seq<u8>)
    requires
        h.wf(),
    ensures
        dec_hash(pre + enc_hash(h) + suf, pre.len() as int) == Some((h, pre.len() as int + 39)),
{
    lemma_enc_u32_len(h.loc);
    vstd::array::array_len_matches_n(&h.digest);
    reveal(enc_hash);
    reveal(dec_hash);
    let b = pre + enc_hash(h) + suf;
    let i = pre.len() as int;
    assert(b[i] == enc_hash(h)[0]);
    assert(b[i + 1] == enc_hash(h)[1]);
    assert(b[i + 2] == enc_hash(h)[2]);
    assert(kind_of_tag(kind_tag(h.kind)[1]) == Some(h.kind));
    assert(b.subrange(i + 3, i + 35) =~= h.digest@);
    assert(pre + enc_hash(h) + suf =~= (pre + kind_tag(h.kind) + h.digest@) + enc_u32(h.loc) + suf);
    lemma_dec_enc_u32(pre + kind_tag(h.kind) + h.digest@, h.loc, suf);
    assert(dec_u32(b, i + 35) == Some((h.loc, i + 39)));
    lemma_digest_as_array_id(h.digest);
}

/// A hash that was read is well formed and came from exactly its own wire form.
pub proof fn lemma_enc_dec_hash(b: Seq<u8>, i: int, h: HoloHash, j: int)
    requires
        dec_hash(b, i) == Some((h, j)),
    ensures
        0 <= i,
        j == i + 39,
        j <= b.len(),
        h.wf(),
        b.subrange(i, j) == enc_hash(h),
{
    lemma_enc_u32_len(h.loc);
    vstd::array::array_len_matches_n(&h.digest);
    reveal(enc_hash);
    reveal(dec_hash);
    let digest = b.subrange(i + 3, i + 35);
    lemma_digest_as_array(digest);
    let (loc, j2) = dec_u32(b, i + 35)->Some_0;
    lemma_enc_dec_u32(b, i + 35, loc, j2);
    assert(kind_tag(h.kind)[1] == b[i + 1]);
    assert(b.subrange(i, j) =~= kind_tag(h.kind) + digest + b.subrange(i + 35, i + 39));
}

/// Append the little-endian four-byte form of `v`.
pub fn push_u32(out: &mut Vec<u8>, v: u32)
    ensures
        final(out)@ == old(out)@ + enc_u32(v),
{
    proof {
        reveal(enc_u32);
    }
    out.push((v % 0x100) as u8);
    out.push(((v / 0x100) % 0x100) as u8);
    out.push(((v / 0x1_0000) % 0x100) as u8);
    out.push(((v / 0x100_0000) % 0x100) as u8);
    proof {
        assert(out@ =~= old(out)@ + enc_u32(v));
    }
}

/// Append the little-endian eight-byte form of `v`.
pub fn push_u64(out: &mut Vec<u8>, v: u64)
    ensures
        final(out)@ == old(out)@ + enc_u64(v),
{
    proof {
        reveal(enc_u64);
    }
    out.push((v % 0x100) as u8);
    out.push(((v / 0x100) % 0x100) as u8);
    out.push(((v / 0x1_0000) % 0x100) as u8);
    out.push(((v / 0x100_0000) % 0x100) as u8);
    out.push(((v / 0x1_0000_0000) % 0x100) as u8);
    out.push(((v / 0x100_0000_0000) % 0x100) as u8);
    out.push(((v / 0x1_0000_0000_0000) % 0x100) as u8);
    out.push(((v / 0x100_0000_0000_0000) % 0x100) as u8);
    proof {
        assert(out@ =~= old(out)@ + enc_u64(v));
    }
}

/// Append the two's-complement eight-byte form of `v`.
pub fn push_i64(out: &mut Vec<u8>, v: i64)
    ensures
        final(out)@ == old(out)@ + enc_i64(v),
{
    proof {
        reveal(enc_i64);
    }
    push_u64(out, #[verifier::truncate] (v as u64));
}

/// Append a length-prefixed byte string.
pub fn push_bytes(out: &mut Vec<u8>, s: &Vec<u8>)
    requires
        s@.len() < 0x1_0000_0000,
    ensures
        final(out)@ == old(out)@ + enc_bytes(s@),
{
    proof {
        reveal(enc_bytes);
    }
    push_u32(out, s.len() as u32);
    let mut i: usize = 0;
    while i < s.len()
        invariant
            i <= s.len(),
            out@ == old(out)@ + enc_u32(s@.len() as u32) + s@.subrange(0, i as int),
        decreases s.len() - i,
    {
        out.push(s[i]);
        proof {
            assert(out@ =~= old(out)@ + enc_u32(s@.len() as u32) + s@.subrange(0, i + 1));
        }
        i = i + 1;
    }
    proof {
        assert(out@ =~= old(out)@ + enc_bytes(s@));
    }
}

/// Append a hash's 39-byte wire form.
pub fn push_hash(out: &mut Vec<u8>, h: &HoloHash)
    ensures
        final(out)@ == old(out)@ + enc_hash(*h),
{
    proof {
        reveal(enc_hash);
    }
    out.push(0x84);
    let middle: u8 = match h.kind {
        HashKind::Agent => 0x20,
        HashKind::Dna => 0x2d,
        HashKind::Entry => 0x21,
        HashKind::Header => 0x29,
        HashKind::DhtOp => 0x24,
        HashKind::Wasm => 0x2a,
        HashKind::NetId => 0x22,
        HashKind::External => 0x2f,
    };
    out.push(middle);
    out.push(0x24);
    let mut i: usize = 0;
    while i < 32
        invariant
            i <= 32,
            out@ == old(out)@ + kind_tag(h.kind) + h.digest@.subrange(0, i as int),
        decreases 32 - i,
    {
        out.push(h.digest[i]);
        proof {
            assert(out@ =~= old(out)@ + kind_tag(h.kind) + h.digest@.subrange(0, i + 1));
        }
        i = i + 1;
    }
    proof {
        assert(h.digest@.subrange(0, 32) =~= h.digest@);
    }
    push_u32(out, h.loc);
    proof {
        assert(out@ =~= old(out)@ + enc_hash(*h));
    }
}

/// Read a u32 at `i`, little endian.
pub fn read_u32(b: &Vec<u8>, i: usize) -> (r: Option<(u32, usize)>)
    ensures
        match r {
            Some((v, j)) => dec_u32(b@, i as int) == Some((v, j as int)),
            None => dec_u32(b@, i as int) is None,
        },
{
    proof {
        reveal(dec_u32);
    }
    if b.len() >= 4 && i <= b.len() - 4 {
        let v = b[i] as u32 + b[i + 1] as u32 * 0x100 + b[i + 2] as u32 * 0x1_0000 + b[i + 3] as u32
            * 0x100_0000;
        Some((v, i + 4))
    } else {
        None
    }
}

/// Read a u64 at `i`, little endian.
pub fn read_u64(b: &Vec<u8>, i: usize) -> (r: Option<(u64, usize)>)
    ensures
        match r {
            Some((v, j)) => dec_u64(b@, i as int) == Some((v, j as int)),
            None => dec_u64(b@, i as int) is None,
        },
{
    proof {
        reveal(dec_u64);
    }
    if b.len() >= 8 && i <= b.len() - 8 {
        let v = b[i] as u64 + b[i + 1] as u64 * 0x100 + b[i + 2] as u64 * 0x1_0000 + b[i + 3] as u64
            * 0x100_0000 + b[i + 4] as u64 * 0x1_0000_0000 + b[i + 5] as u64 * 0x100_0000_0000 + b[i
            + 6] as u64 * 0x1_0000_0000_0000 + b[i + 7] as u64 * 0x100_0000_0000_0000;
        Some((v, i + 8))
    } else {
        None
    }
}

/// Read an i64 at `i`.
pub fn read_i64(b: &Vec<u8>, i: usize) -> (r: Option<(i64, usize)>)
    ensures
        match r {
            Some((v, j)) => dec_i64(b@, i as int) == Some((v, j as int)),
            None => dec_i64(b@, i as int) is None,
        },
{
    proof {
        reveal(dec_i64);
    }
    match read_u64(b, i) {
        Some((v, j)) => Some((#[verifier::truncate] (v as i64), j)),
        None => None,
    }
}

/// Read a length-prefixed byte string at `i`.
pub fn read_bytes(b: &Vec<u8>, i: usize) -> (r: Option<(Vec<u8>, usize)>)
    ensures
        match r {
            Some((s, j)) => dec_bytes(b@, i as int) == Some((s@, j as int)),
            None => dec_bytes(b@, i as int) is None,
        },
{
    proof {
        reveal(dec_bytes);
    }
    match read_u32(b, i) {
        Some((n, j)) => {
            let n = n as usize;
            if n <= b.len() && j <= b.len() - n {
                let mut s: Vec<u8> = Vec::new();
                let mut k: usize = 0;
                while k < n
                    invariant
                        k <= n,
                        j + n <= b.len(),
                        s@ == b@.subrange(j as int, j + k),
                    decreases n - k,
                {
                    s.push(b[j + k]);
                    proof {
                        assert(s@ =~= b@.subrange(j as int, j + k + 1));
                    }
                    k = k + 1;
                }
                Some((s, j + n))
            } else {
                None
            }
        },
        None => None,
    }
}

/// Read a hash at `i`, checking its location suffix.
pub fn read_hash(b: &Vec<u8>, i: usize) -> (r: Option<(HoloHash, usize)>)
    ensures
        match r {
            Some((h, j)) => dec_hash(b@, i as int) == Some((h, j as int)),
            None => dec_hash(b@, i as int) is None,
        },
{
    proof {
        reveal(dec_hash);
    }
    if !(b.len() >= 39 && i <= b.len() - 39) {
        return None;
    }
    if b[i] != 0x84 || b[i + 2] != 0x24 {
        return None;
    }
    let t = b[i + 1];
    let k = if t == 0x20 {
        HashKind::Agent
    } else if t == 0x2d {
        HashKind::Dna
    } else if t == 0x21 {
        HashKind::Entry
    } else if t == 0x29 {
        HashKind::Header
    } else if t == 0x24 {
        HashKind::DhtOp
    } else if t == 0x2a {
        HashKind::Wasm
    } else if t == 0x22 {
        HashKind::NetId
    } else if t == 0x2f {
        HashKind::External
    } else {
        return None;
    };
    let mut digest = [0u8; 32];
    let mut n: usize = 0;
    let end: usize = i + 39;
    while n < 32
        invariant
            n <= 32,
            end == i + 39,
            end <= b.len(),
            forall|m: int| 0 <= m < n ==> digest@[m] == b@[i + 3 + m],
        decreases 32 - n,
    {
        digest[n] = b[i + 3 + n];
        n = n + 1;
    }
    match read_u32(b, i + 35) {
        Some((loc, j)) => {
            let expect = crate::hash::loc_from_digest(&digest);
            if loc == expect {
                proof {
                    assert(digest@ =~= b@.subrange(i + 3, i as int + 35));
                    lemma_digest_as_array(b@.subrange(i + 3, i as int + 35));
                    vstd::array::axiom_array_ext_equal(
                        digest_as_array(b@.subrange(i + 3, i as int + 35)),
                        digest,
                    );
                }
                Some((HoloHash { kind: k, digest, loc }, j))
            } else {
                None
            }
        },
        None => None,
    }
}

} // verus!

verus! {

/// The one-byte form of an entry's visibility.
#[verifier::opaque]
pub open spec fn enc_visibility(v: EntryVisibility) -> Seq<u8> {
    match v {
        EntryVisibility::Public => seq![0u8],
        EntryVisibility::Private => seq![1u8],
    }
}

#[verifier::opaque]
pub open spec fn dec_visibility(b: Seq<u8>, i: int) -> Option<(EntryVisibility, int)> {
    if 0 <= i && i < b.len() {
        if b[i] == 0 {
            Some((EntryVisibility::Public, i + 1))
        } else if b[i] == 1 {
            Some((EntryVisibility::Private, i + 1))
        } else {
            None
        }
    } else {
        None
    }
}

/// The wire form of an entry type: a variant byte, and for app entries the
/// definition id, zome id and visibility.
#[verifier::opaque]
pub open spec fn enc_entry_type(t: EntryType) -> Seq<u8> {
    match t {
        EntryType::AgentPubKey => seq![0u8],
        EntryType::App(a) => seq![1u8, a.id.0, a.zome_id.0] + enc_visibility(a.visibility),
        EntryType::CapClaim => seq![2u8],
        EntryType::CapGrant => seq![3u8],
    }
}

#[verifier::opaque]
pub open spec fn dec_entry_type(b: Seq<u8>, i: int) -> Option<(EntryType, int)> {
    if 0 <= i && i < b.len() {
        if b[i] == 0 {
            Some((EntryType::AgentPubKey, i + 1))
        } else if b[i] == 1 {
            if i + 3 <= b.len() {
                match dec_visibility(b, i + 3) {
                    Some((v, j)) => Some(
                        (
                            EntryType::App(
                                AppEntryType {
                                    id: EntryDefId(b[i + 1]),
                                    zome_id: ZomeId(b[i + 2]),
                                    visibility: v,
                                },
                            ),
                            j,
                        ),
                    ),
                    None => None,
                }
            } else {
                None
            }
        } else if b[i] == 2 {
            Some((EntryType::CapClaim, i + 1))
        } else if b[i] == 3 {
            Some((EntryType::CapGrant, i + 1))
        } else {
            None
        }
    } else {
        None
    }
}

/// The wire form of an optional byte string.
#[verifier::opaque]
pub open spec fn enc_opt_bytes(o: Option<Seq<u8>>) -> Seq<u8> {
    match o {
        None => seq![0u8],
        Some(s) => seq![1u8] + enc_bytes(s),
    }
}

#[verifier::opaque]
pub open spec fn dec_opt_bytes(b: Seq<u8>, i: int) -> Option<(Option<Seq<u8>>, int)> {
    if 0 <= i && i < b.len() {
        if b[i] == 0 {
            Some((None, i + 1))
        } else if b[i] == 1 {
            match dec_bytes(b, i + 1) {
                Some((s, j)) => Some((Some(s), j)),
                None => None,
            }
        } else {
            None
        }
    } else {
        None
    }
}

/// The fields common to every header: author, timestamp, sequence ordinal.
#[verifier::opaque]
pub open spec fn enc_common(author: AgentPubKey, ts: Timestamp, seq: u32) -> Seq<u8> {
    enc_hash(author) + enc_i64(ts.0) + enc_u32(seq)
}

#[verifier::opaque]
pub open spec fn dec_common(b: Seq<u8>, i: int) -> Option<((AgentPubKey, Timestamp, u32), int)> {
    match dec_hash(b, i) {
        Some((author, i2)) => match dec_i64(b, i2) {
            Some((ts, i3)) => match dec_u32(b, i3) {
                Some((seq, i4)) => Some(((author, Timestamp(ts), seq), i4)),
                None => None,
            },
            None => None,
        },
        None => None,
    }
}

/// The variant byte of each header kind.
pub open spec fn header_variant_byte(h: HeaderV) -> u8 {
    match h {
        HeaderV::Dna(_) => 1,
        HeaderV::AgentValidationPkg(_) => 2,
        HeaderV::InitZomesComplete(_) => 3,
        HeaderV::LinkAdd(_) => 4,
        HeaderV::LinkRemove(_) => 5,
        HeaderV::ChainOpen(_) => 6,
        HeaderV::ChainClose(_) => 7,
        HeaderV::EntryCreate(_) => 8,
        HeaderV::EntryUpdate(_) => 9,
        HeaderV::ElementDelete(_) => 10,
    }
}

/// A header whose hashes carry honest locations and whose byte strings fit
/// their length prefixes.
pub open spec fn header_wf(h: HeaderV) -> bool {
    match h {
        HeaderV::Dna(d) => d.author.wf() && d.hash.wf(),
        HeaderV::AgentValidationPkg(a) => a.author.wf() && a.prev_header.wf() && match a
            .membrane_proof {
            Some(p) => p.len() < 0x1_0000_0000,
            None => true,
        },
        HeaderV::InitZomesComplete(h) => h.author.wf() && h.prev_header.wf(),
        HeaderV::LinkAdd(l) => l.author.wf() && l.prev_header.wf() && l.base_address.wf()
            && l.target_address.wf() && l.tag.len() < 0x1_0000_0000,
        HeaderV::LinkRemove(l) => l.author.wf() && l.prev_header.wf() && l.base_address.wf()
            && l.link_add_address.wf(),
        HeaderV::ChainOpen(c) => c.author.wf() && c.prev_header.wf() && c.prev_dna_hash.wf(),
        HeaderV::ChainClose(c) => c.author.wf() && c.prev_header.wf() && c.new_dna_hash.wf(),
        HeaderV::EntryCreate(e) => e.author.wf() && e.prev_header.wf() && e.entry_hash.wf(),
        HeaderV::EntryUpdate(e) => e.author.wf() && e.prev_header.wf() && e.entry_hash.wf()
            && e.original_header_address.wf() && e.original_entry_address.wf(),
        HeaderV::ElementDelete(d) => d.author.wf() && d.prev_header.wf() && d.deletes_address.wf()
            && d.deletes_entry_address.wf(),
    }
}

/// The one byte form of an update's intention.
#[verifier::opaque]
pub open spec fn enc_intended_for(f: IntendedFor) -> Seq<u8> {
    match f {
        IntendedFor::Header => seq![0u8],
        IntendedFor::Entry => seq![1u8],
    }
}

#[verifier::opaque]
pub open spec fn dec_intended_for(b: Seq<u8>, i: int) -> Option<(IntendedFor, int)> {
    if 0 <= i && i < b.len() {
        if b[i] == 0 {
            Some((IntendedFor::Header, i + 1))
        } else if b[i] == 1 {
            Some((IntendedFor::Entry, i + 1))
        } else {
            None
        }
    } else {
        None
    }
}

/// The variant-specific tail of a header's wire form: what follows the
/// variant byte, the common fields and (for non-Dna variants) the previous
/// header's hash.
#[verifier::opaque]
pub open spec fn header_tail(h: HeaderV) -> Seq<u8> {
    match h {
        HeaderV::Dna(d) => Seq::empty(),
        HeaderV::AgentValidationPkg(a) => enc_opt_bytes(a.membrane_proof),
        HeaderV::InitZomesComplete(h) => Seq::empty(),
        HeaderV::LinkAdd(l) => enc_hash(l.base_address) + enc_hash(l.target_address) + seq![
            l.zome_id.0,
        ] + enc_bytes(l.tag),
        HeaderV::LinkRemove(l) => enc_hash(l.base_address) + enc_hash(l.link_add_address),
        HeaderV::ChainOpen(c) => enc_hash(c.prev_dna_hash),
        HeaderV::ChainClose(c) => enc_hash(c.new_dna_hash),
        HeaderV::EntryCreate(e) => enc_entry_type(e.entry_type) + enc_hash(e.entry_hash),
        HeaderV::EntryUpdate(e) => enc_intended_for(e.intended_for) + enc_hash(
            e.original_header_address,
        ) + enc_hash(e.original_entry_address) + enc_entry_type(e.entry_type) + enc_hash(
            e.entry_hash,
        ),
        HeaderV::ElementDelete(d) => enc_hash(d.deletes_address) + enc_hash(
            d.deletes_entry_address,
        ),
    }
}

/// A header's canonical wire form: the variant byte, the common fields, the
/// previous header where the variant has one (the DNA hash for `Dna`), then
/// the variant's own fields.
#[verifier::opaque]
pub open spec fn enc_header(h: HeaderV) -> Seq<u8> {
    match h {
        HeaderV::Dna(d) => seq![1u8] + enc_common(d.author, d.timestamp, d.header_seq) + enc_hash(
            d.hash,
        ),
        _ => seq![header_variant_byte(h)] + enc_common(h.author(), h.timestamp(), h.header_seq())
            + enc_hash(h.prev_header()->Some_0) + header_tail(h),
    }
}

/// Decode one header starting at `i`.
#[verifier::opaque]
pub open spec fn dec_header(b: Seq<u8>, i: int) -> Option<(HeaderV, int)> {
    if !(0 <= i && i < b.len()) {
        None
    } else {
        let t = b[i];
        match dec_common(b, i + 1) {
            Some(((author, timestamp, header_seq), i2)) => {
                if t == 1 {
                    match dec_hash(b, i2) {
                        Some((hash, j)) => Some(
                            (HeaderV::Dna(Dna { author, timestamp, header_seq, hash }), j),
                        ),
                        None => None,
                    }
                } else {
                    match dec_hash(b, i2) {
                        Some((prev_header, i3)) => dec_header_rest(
                            b,
                            i3,
                            t,
                            author,
                            timestamp,
                            header_seq,
                            prev_header,
                        ),
                        None => None,
                    }
                }
            },
            None => None,
        }
    }
}

/// Decode the tail of an agent validation package.
#[verifier::opaque]
pub open spec fn dec_tail_avp(
    b: Seq<u8>,
    i: int,
    author: AgentPubKey,
    timestamp: Timestamp,
    header_seq: u32,
    prev_header: HeaderAddress,
) -> Option<(HeaderV, int)> {
    match dec_opt_bytes(b, i) {
        Some((membrane_proof, j)) => Some(
            (
                HeaderV::AgentValidationPkg(
                    AgentValidationPkgV { author, timestamp, header_seq, prev_header, membrane_proof },
                ),
                j,
            ),
        ),
        None => None,
    }
}

/// Decode the tail of a link addition.
#[verifier::opaque]
pub open spec fn dec_tail_link_add(
    b: Seq<u8>,
    i: int,
    author: AgentPubKey,
    timestamp: Timestamp,
    header_seq: u32,
    prev_header: HeaderAddress,
) -> Option<(HeaderV, int)> {
    match dec_hash(b, i) {
        Some((base_address, i2)) => match dec_hash(b, i2) {
            Some((target_address, i3)) => if 0 <= i3 && i3 < b.len() {
                match dec_bytes(b, i3 + 1) {
                    Some((tag, j)) => Some(
                        (
                            HeaderV::LinkAdd(
                                LinkAddV {
                                    author,
                                    timestamp,
                                    header_seq,
                                    prev_header,
                                    base_address,
                                    target_address,
                                    zome_id: ZomeId(b[i3]),
                                    tag,
                                },
                            ),
                            j,
                        ),
                    ),
                    None => None,
                }
            } else {
                None
            },
            None => None,
        },
        None => None,
    }
}

/// Decode the tail of a link removal.
#[verifier::opaque]
pub open spec fn dec_tail_link_remove(
    b: Seq<u8>,
    i: int,
    author: AgentPubKey,
    timestamp: Timestamp,
    header_seq: u32,
    prev_header: HeaderAddress,
) -> Option<(HeaderV, int)> {
    match dec_hash(b, i) {
        Some((base_address, i2)) => match dec_hash(b, i2) {
            Some((link_add_address, j)) => Some(
                (
                    HeaderV::LinkRemove(
                        LinkRemove {
                            author,
                            timestamp,
                            header_seq,
                            prev_header,
                            base_address,
                            link_add_address,
                        },
                    ),
                    j,
                ),
            ),
            None => None,
        },
        None => None,
    }
}

/// Decode the tail of a chain opening.
#[verifier::opaque]
pub open spec fn dec_tail_chain_open(
    b: Seq<u8>,
    i: int,
    author: AgentPubKey,
    timestamp: Timestamp,
    header_seq: u32,
    prev_header: HeaderAddress,
) -> Option<(HeaderV, int)> {
    match dec_hash(b, i) {
        Some((prev_dna_hash, j)) => Some(
            (
                HeaderV::ChainOpen(
                    ChainOpen { author, timestamp, header_seq, prev_header, prev_dna_hash },
                ),
                j,
            ),
        ),
        None => None,
    }
}

/// Decode the tail of a chain closing.
#[verifier::opaque]
pub open spec fn dec_tail_chain_close(
    b: Seq<u8>,
    i: int,
    author: AgentPubKey,
    timestamp: Timestamp,
    header_seq: u32,
    prev_header: HeaderAddress,
) -> Option<(HeaderV, int)> {
    match dec_hash(b, i) {
        Some((new_dna_hash, j)) => Some(
            (
                HeaderV::ChainClose(
                    ChainClose { author, timestamp, header_seq, prev_header, new_dna_hash },
                ),
                j,
            ),
        ),
        None => None,
    }
}

/// Decode the tail of an entry creation.
#[verifier::opaque]
pub open spec fn dec_tail_entry_create(
    b: Seq<u8>,
    i: int,
    author: AgentPubKey,
    timestamp: Timestamp,
    header_seq: u32,
    prev_header: HeaderAddress,
) -> Option<(HeaderV, int)> {
    match dec_entry_type(b, i) {
        Some((entry_type, i2)) => match dec_hash(b, i2) {
            Some((entry_hash, j)) => Some(
                (
                    HeaderV::EntryCreate(
                        EntryCreate {
                            author,
                            timestamp,
                            header_seq,
                            prev_header,
                            entry_type,
                            entry_hash,
                        },
                    ),
                    j,
                ),
            ),
            None => None,
        },
        None => None,
    }
}

/// Decode the tail of an entry update.
#[verifier::opaque]
pub open spec fn dec_tail_entry_update(
    b: Seq<u8>,
    i: int,
    author: AgentPubKey,
    timestamp: Timestamp,
    header_seq: u32,
    prev_header: HeaderAddress,
) -> Option<(HeaderV, int)> {
    match dec_intended_for(b, i) {
        Some((intended_for, i2)) => match dec_hash(b, i2) {
            Some((original_header_address, i3)) => match dec_hash(b, i3) {
                Some((original_entry_address, i4)) => match dec_entry_type(b, i4) {
                    Some((entry_type, i5)) => match dec_hash(b, i5) {
                        Some((entry_hash, j)) => Some(
                            (
                                HeaderV::EntryUpdate(
                                    EntryUpdate {
                                        author,
                                        timestamp,
                                        header_seq,
                                        prev_header,
                                        intended_for,
                                        original_header_address,
                                        original_entry_address,
                                        entry_type,
                                        entry_hash,
                                    },
                                ),
                                j,
                            ),
                        ),
                        None => None,
                    },
                    None => None,
                },
                None => None,
            },
            None => None,
        },
        None => None,
    }
}

/// Decode the tail of an element deletion.
#[verifier::opaque]
pub open spec fn dec_tail_element_delete(
    b: Seq<u8>,
    i: int,
    author: AgentPubKey,
    timestamp: Timestamp,
    header_seq: u32,
    prev_header: HeaderAddress,
) -> Option<(HeaderV, int)> {
    match dec_hash(b, i) {
        Some((deletes_address, i2)) => match dec_hash(b, i2) {
            Some((deletes_entry_address, j)) => Some(
                (
                    HeaderV::ElementDelete(
                        ElementDelete {
                            author,
                            timestamp,
                            header_seq,
                            prev_header,
                            deletes_address,
                            deletes_entry_address,
                        },
                    ),
                    j,
                ),
            ),
            None => None,
        },
        None => None,
    }
}

/// Decode the variant-specific tail of a non-Dna header.
#[verifier::opaque]
pub open spec fn dec_header_rest(
    b: Seq<u8>,
    i: int,
    t: u8,
    author: AgentPubKey,
    timestamp: Timestamp,
    header_seq: u32,
    prev_header: HeaderAddress,
) -> Option<(HeaderV, int)> {
    if t == 2 {
        dec_tail_avp(b, i, author, timestamp, header_seq, prev_header)
    } else if t == 3 {
        Some(
            (
                HeaderV::InitZomesComplete(
                    InitZomesComplete { author, timestamp, header_seq, prev_header },
                ),
                i,
            ),
        )
    } else if t == 4 {
        dec_tail_link_add(b, i, author, timestamp, header_seq, prev_header)
    } else if t == 5 {
        dec_tail_link_remove(b, i, author, timestamp, header_seq, prev_header)
    } else if t == 6 {
        dec_tail_chain_open(b, i, author, timestamp, header_seq, prev_header)
    } else if t == 7 {
        dec_tail_chain_close(b, i, author, timestamp, header_seq, prev_header)
    } else if t == 8 {
        dec_tail_entry_create(b, i, author, timestamp, header_seq, prev_header)
    } else if t == 9 {
        dec_tail_entry_update(b, i, author, timestamp, header_seq, prev_header)
    } else if t == 10 {
        dec_tail_element_delete(b, i, author, timestamp, header_seq, prev_header)
    } else {
        None
    }
}

/// Reading a visibility byte where one was written yields it back.
proof fn lemma_dec_enc_visibility(pre: Seq<u8>, v: EntryVisibility, suf: Seq<u8>)
    ensures
        dec_visibility(pre + enc_visibility(v) + suf, pre.len() as int) == Some(
            (v, pre.len() as int + 1),
        ),
{
    reveal(enc_visibility);
    reveal(dec_visibility);
    let b = pre + enc_visibility(v) + suf;
    assert(b[pre.len() as int] == enc_visibility(v)[0]);
}

/// Reading an entry type where one was written yields it back.
proof fn lemma_dec_enc_entry_type(pre: Seq<u8>, t: EntryType, suf: Seq<u8>)
    ensures
        dec_entry_type(pre + enc_entry_type(t) + suf, pre.len() as int) == Some(
            (t, pre.len() as int + enc_entry_type(t).len()),
        ),
{
    reveal(enc_visibility);
    reveal(dec_visibility);
    reveal(enc_entry_type);
    reveal(dec_entry_type);
    let b = pre + enc_entry_type(t) + suf;
    let i = pre.len() as int;
    assert(b[i] == enc_entry_type(t)[0]);
    match t {
        EntryType::App(a) => {
            assert(b[i + 1] == enc_entry_type(t)[1]);
            assert(b[i + 2] == enc_entry_type(t)[2]);
            assert(pre + enc_entry_type(t) + suf =~= (pre + seq![1u8, a.id.0, a.zome_id.0])
                + enc_visibility(a.visibility) + suf);
            lemma_dec_enc_visibility(pre + seq![1u8, a.id.0, a.zome_id.0], a.visibility, suf);
        },
        _ => {},
    }
}

/// An entry type that was read came from exactly its own wire form.
proof fn lemma_enc_dec_entry_type(b: Seq<u8>, i: int, t: EntryType, j: int)
    requires
        dec_entry_type(b, i) == Some((t, j)),
    ensures
        0 <= i,
        i + 1 <= j <= i + 4,
        j <= b.len(),
        b.subrange(i, j) == enc_entry_type(t),
{
    reveal(enc_entry_type);
    reveal(dec_entry_type);
    reveal(enc_visibility);
    reveal(dec_visibility);
    match t {
        EntryType::App(a) => {
            assert(b.subrange(i, j) =~= enc_entry_type(t));
        },
        _ => {
            assert(b.subrange(i, j) =~= enc_entry_type(t));
        },
    }
}

/// Reading an optional byte string where one was written yields it back.
#[verifier::rlimit(100)]
proof fn lemma_dec_enc_opt_bytes(pre: Seq<u8>, o: Option<Seq<u8>>, suf: Seq<u8>)
    requires
        match o {
            Some(s) => s.len() < 0x1_0000_0000,
            None => true,
        },
    ensures
        dec_opt_bytes(pre + enc_opt_bytes(o) + suf, pre.len() as int) == Some(
            (o, pre.len() as int + enc_opt_bytes(o).len()),
        ),
{
    reveal(enc_bytes);
    reveal(enc_opt_bytes);
    reveal(dec_opt_bytes);
    let b = pre + enc_opt_bytes(o) + suf;
    let i = pre.len() as int;
    match o {
        Some(s) => {
            lemma_enc_bytes_len(s);
            assert(b[i] == 1u8);
            assert(b =~= (pre + seq![1u8]) + enc_bytes(s) + suf);
            lemma_dec_enc_bytes(pre + seq![1u8], s, suf);
            assert(dec_bytes(b, i + 1) == Some((s, i + 5 + s.len())));
            assert(enc_opt_bytes(o).len() == 5 + s.len());
        },
        None => {
            assert(b[i] == 0u8);
        },
    }
}

/// An optional byte string that was read came from exactly its own wire form.
proof fn lemma_enc_dec_opt_bytes(b: Seq<u8>, i: int, o: Option<Seq<u8>>, j: int)
    requires
        dec_opt_bytes(b, i) == Some((o, j)),
    ensures
        0 <= i,
        i + 1 <= j,
        j <= b.len(),
        b.subrange(i, j) == enc_opt_bytes(o),
        match o {
            Some(s) => s.len() < 0x1_0000_0000,
            None => true,
        },
{
    reveal(enc_opt_bytes);
    reveal(dec_opt_bytes);
    match o {
        Some(s) => {
            let (s2, j2) = dec_bytes(b, i + 1)->Some_0;
            lemma_enc_dec_bytes(b, i + 1, s2, j2);
            assert(b.subrange(i, j) =~= seq![1u8] + b.subrange(i + 1, j));
        },
        None => {
            assert(b.subrange(i, j) =~= enc_opt_bytes(o));
        },
    }
}

/// Reading an update intention where one was written yields it back.
proof fn lemma_dec_enc_intended_for(pre: Seq<u8>, f: IntendedFor, suf: Seq<u8>)
    ensures
        dec_intended_for(pre + enc_intended_for(f) + suf, pre.len() as int) == Some(
            (f, pre.len() as int + 1),
        ),
{
    reveal(enc_intended_for);
    reveal(dec_intended_for);
    let b = pre + enc_intended_for(f) + suf;
    assert(b[pre.len() as int] == enc_intended_for(f)[0]);
}

/// An update intention that was read came from exactly its own byte.
proof fn lemma_enc_dec_intended_for(b: Seq<u8>, i: int, f: IntendedFor, j: int)
    requires
        dec_intended_for(b, i) == Some((f, j)),
    ensures
        0 <= i,
        j == i + 1,
        j <= b.len(),
        b.subrange(i, j) == enc_intended_for(f),
{
    reveal(enc_intended_for);
    reveal(dec_intended_for);
    assert(b.subrange(i, j) =~= enc_intended_for(f));
}

/// Reading the common fields where they were written yields them back.
#[verifier::rlimit(100)]
proof fn lemma_dec_enc_common(pre: Seq<u8>, a: AgentPubKey, ts: Timestamp, s: u32, suf: Seq<u8>)
    requires
        a.wf(),
    ensures
        enc_common(a, ts, s).len() == 51,
        dec_common(pre + enc_common(a, ts, s) + suf, pre.len() as int) == Some(
            ((a, ts, s), pre.len() as int + 51),
        ),
{
    lemma_enc_hash_len(a);
    lemma_enc_i64_len(ts.0);
    lemma_enc_u32_len(s);
    reveal(enc_common);
    reveal(dec_common);
    let b = pre + enc_common(a, ts, s) + suf;
    assert(b =~= pre + enc_hash(a) + (enc_i64(ts.0) + enc_u32(s) + suf));
    lemma_dec_enc_hash(pre, a, enc_i64(ts.0) + enc_u32(s) + suf);
    assert(b =~= (pre + enc_hash(a)) + enc_i64(ts.0) + (enc_u32(s) + suf));
    lemma_dec_enc_i64(pre + enc_hash(a), ts.0, enc_u32(s) + suf);
    assert(b =~= (pre + enc_hash(a) + enc_i64(ts.0)) + enc_u32(s) + suf);
    lemma_dec_enc_u32(pre + enc_hash(a) + enc_i64(ts.0), s, suf);
}

/// Common fields that were read came from exactly their own wire form.
#[verifier::rlimit(100)]
proof fn lemma_enc_dec_common(b: Seq<u8>, i: int, a: AgentPubKey, ts: Timestamp, s: u32, j: int)
    requires
        dec_common(b, i) == Some(((a, ts, s), j)),
    ensures
        0 <= i,
        j == i + 51,
        j <= b.len(),
        a.wf(),
        b.subrange(i, j) == enc_common(a, ts, s),
{
    reveal(enc_common);
    reveal(dec_common);
    let (a2, i2) = dec_hash(b, i)->Some_0;
    lemma_enc_dec_hash(b, i, a2, i2);
    let (t2, i3) = dec_i64(b, i2)->Some_0;
    lemma_enc_dec_i64(b, i2, t2, i3);
    let (s2, i4) = dec_u32(b, i3)->Some_0;
    lemma_enc_dec_u32(b, i3, s2, i4);
    assert(b.subrange(i, j) =~= b.subrange(i, i2) + b.subrange(i2, i3) + b.subrange(i3, j));
}

/// Reading an agent validation package tail where one was written.
proof fn lemma_dec_enc_tail_avp(pre: Seq<u8>, h: HeaderV, suf: Seq<u8>)
    requires
        header_wf(h),
        h is AgentValidationPkg,
    ensures
        dec_tail_avp(
            pre + header_tail(h) + suf,
            pre.len() as int,
            h.author(),
            h.timestamp(),
            h.header_seq(),
            h.prev_header()->Some_0,
        ) == Some((h, pre.len() as int + header_tail(h).len())),
{
    reveal(dec_tail_avp);
    reveal(header_tail);
    let a = h->AgentValidationPkg_0;
    lemma_dec_enc_opt_bytes(pre, a.membrane_proof, suf);
}

/// Reading a link addition tail where one was written.
#[verifier::rlimit(100)]
proof fn lemma_dec_enc_tail_link_add(pre: Seq<u8>, h: HeaderV, suf: Seq<u8>)
    requires
        header_wf(h),
        h is LinkAdd,
    ensures
        dec_tail_link_add(
            pre + header_tail(h) + suf,
            pre.len() as int,
            h.author(),
            h.timestamp(),
            h.header_seq(),
            h.prev_header()->Some_0,
        ) == Some((h, pre.len() as int + header_tail(h).len())),
{
    reveal(dec_tail_link_add);
    reveal(header_tail);
    lemma_enc_hash_len(h->LinkAdd_0.base_address);
    lemma_enc_hash_len(h->LinkAdd_0.target_address);
    lemma_enc_bytes_len(h->LinkAdd_0.tag);
    let l = h->LinkAdd_0;
    let b = pre + header_tail(h) + suf;
    let i = pre.len() as int;
    assert(b =~= pre + enc_hash(l.base_address) + (enc_hash(l.target_address) + seq![l.zome_id.0]
        + enc_bytes(l.tag) + suf));
    lemma_dec_enc_hash(
        pre,
        l.base_address,
        enc_hash(l.target_address) + seq![l.zome_id.0] + enc_bytes(l.tag) + suf,
    );
    assert(b =~= (pre + enc_hash(l.base_address)) + enc_hash(l.target_address) + (seq![l.zome_id.0]
        + enc_bytes(l.tag) + suf));
    lemma_dec_enc_hash(
        pre + enc_hash(l.base_address),
        l.target_address,
        seq![l.zome_id.0] + enc_bytes(l.tag) + suf,
    );
    assert(b[i + 78] == l.zome_id.0);
    assert(b =~= (pre + enc_hash(l.base_address) + enc_hash(l.target_address) + seq![l.zome_id.0])
        + enc_bytes(l.tag) + suf);
    lemma_dec_enc_bytes(
        pre + enc_hash(l.base_address) + enc_hash(l.target_address) + seq![l.zome_id.0],
        l.tag,
        suf,
    );
}

/// Reading a link removal tail where one was written.
proof fn lemma_dec_enc_tail_link_remove(pre: Seq<u8>, h: HeaderV, suf: Seq<u8>)
    requires
        header_wf(h),
        h is LinkRemove,
    ensures
        dec_tail_link_remove(
            pre + header_tail(h) + suf,
            pre.len() as int,
            h.author(),
            h.timestamp(),
            h.header_seq(),
            h.prev_header()->Some_0,
        ) == Some((h, pre.len() as int + header_tail(h).len())),
{
    reveal(dec_tail_link_remove);
    reveal(header_tail);
    lemma_enc_hash_len(h->LinkRemove_0.base_address);
    lemma_enc_hash_len(h->LinkRemove_0.link_add_address);
    let l = h->LinkRemove_0;
    let b = pre + header_tail(h) + suf;
    assert(b =~= pre + enc_hash(l.base_address) + (enc_hash(l.link_add_address) + suf));
    lemma_dec_enc_hash(pre, l.base_address, enc_hash(l.link_add_address) + suf);
    assert(b =~= (pre + enc_hash(l.base_address)) + enc_hash(l.link_add_address) + suf);
    lemma_dec_enc_hash(pre + enc_hash(l.base_address), l.link_add_address, suf);
}

/// Reading a chain opening tail where one was written.
proof fn lemma_dec_enc_tail_chain_open(pre: Seq<u8>, h: HeaderV, suf: Seq<u8>)
    requires
        header_wf(h),
        h is ChainOpen,
    ensures
        dec_tail_chain_open(
            pre + header_tail(h) + suf,
            pre.len() as int,
            h.author(),
            h.timestamp(),
            h.header_seq(),
            h.prev_header()->Some_0,
        ) == Some((h, pre.len() as int + header_tail(h).len())),
{
    reveal(dec_tail_chain_open);
    reveal(header_tail);
    lemma_enc_hash_len(h->ChainOpen_0.prev_dna_hash);
    let c = h->ChainOpen_0;
    lemma_dec_enc_hash(pre, c.prev_dna_hash, suf);
}

/// Reading a chain closing tail where one was written.
proof fn lemma_dec_enc_tail_chain_close(pre: Seq<u8>, h: HeaderV, suf: Seq<u8>)
    requires
        header_wf(h),
        h is ChainClose,
    ensures
        dec_tail_chain_close(
            pre + header_tail(h) + suf,
            pre.len() as int,
            h.author(),
            h.timestamp(),
            h.header_seq(),
            h.prev_header()->Some_0,
        ) == Some((h, pre.len() as int + header_tail(h).len())),
{
    reveal(dec_tail_chain_close);
    reveal(header_tail);
    lemma_enc_hash_len(h->ChainClose_0.new_dna_hash);
    let c = h->ChainClose_0;
    lemma_dec_enc_hash(pre, c.new_dna_hash, suf);
}

/// Reading an entry creation tail where one was written.
proof fn lemma_dec_enc_tail_entry_create(pre: Seq<u8>, h: HeaderV, suf: Seq<u8>)
    requires
        header_wf(h),
        h is EntryCreate,
    ensures
        dec_tail_entry_create(
            pre + header_tail(h) + suf,
            pre.len() as int,
            h.author(),
            h.timestamp(),
            h.header_seq(),
            h.prev_header()->Some_0,
        ) == Some((h, pre.len() as int + header_tail(h).len())),
{
    reveal(dec_tail_entry_create);
    reveal(header_tail);
    lemma_enc_hash_len(h->EntryCreate_0.entry_hash);
    let e = h->EntryCreate_0;
    let b = pre + header_tail(h) + suf;
    assert(b =~= pre + enc_entry_type(e.entry_type) + (enc_hash(e.entry_hash) + suf));
    lemma_dec_enc_entry_type(pre, e.entry_type, enc_hash(e.entry_hash) + suf);
    assert(b =~= (pre + enc_entry_type(e.entry_type)) + enc_hash(e.entry_hash) + suf);
    lemma_dec_enc_hash(pre + enc_entry_type(e.entry_type), e.entry_hash, suf);
}

/// Reading an entry update tail where one was written.
#[verifier::rlimit(100)]
proof fn lemma_dec_enc_tail_entry_update(pre: Seq<u8>, h: HeaderV, suf: Seq<u8>)
    requires
        header_wf(h),
        h is EntryUpdate,
    ensures
        dec_tail_entry_update(
            pre + header_tail(h) + suf,
            pre.len() as int,
            h.author(),
            h.timestamp(),
            h.header_seq(),
            h.prev_header()->Some_0,
        ) == Some((h, pre.len() as int + header_tail(h).len())),
{
    reveal(dec_tail_entry_update);
    reveal(header_tail);
    reveal(enc_intended_for);
    lemma_enc_hash_len(h->EntryUpdate_0.original_header_address);
    lemma_enc_hash_len(h->EntryUpdate_0.original_entry_address);
    lemma_enc_hash_len(h->EntryUpdate_0.entry_hash);
    let e = h->EntryUpdate_0;
    let b = pre + header_tail(h) + suf;
    let p1 = pre + enc_intended_for(e.intended_for);
    let p2 = p1 + enc_hash(e.original_header_address);
    let p3 = p2 + enc_hash(e.original_entry_address);
    let p4 = p3 + enc_entry_type(e.entry_type);
    assert(b =~= pre + enc_intended_for(e.intended_for) + (enc_hash(e.original_header_address)
        + enc_hash(e.original_entry_address) + enc_entry_type(e.entry_type) + enc_hash(e.entry_hash)
        + suf));
    lemma_dec_enc_intended_for(
        pre,
        e.intended_for,
        enc_hash(e.original_header_address) + enc_hash(e.original_entry_address) + enc_entry_type(
            e.entry_type,
        ) + enc_hash(e.entry_hash) + suf,
    );
    assert(b =~= p1 + enc_hash(e.original_header_address) + (enc_hash(e.original_entry_address)
        + enc_entry_type(e.entry_type) + enc_hash(e.entry_hash) + suf));
    lemma_dec_enc_hash(
        p1,
        e.original_header_address,
        enc_hash(e.original_entry_address) + enc_entry_type(e.entry_type) + enc_hash(e.entry_hash)
            + suf,
    );
    assert(b =~= p2 + enc_hash(e.original_entry_address) + (enc_entry_type(e.entry_type) + enc_hash(
        e.entry_hash,
    ) + suf));
    lemma_dec_enc_hash(
        p2,
        e.original_entry_address,
        enc_entry_type(e.entry_type) + enc_hash(e.entry_hash) + suf,
    );
    assert(b =~= p3 + enc_entry_type(e.entry_type) + (enc_hash(e.entry_hash) + suf));
    lemma_dec_enc_entry_type(p3, e.entry_type, enc_hash(e.entry_hash) + suf);
    assert(b =~= p4 + enc_hash(e.entry_hash) + suf);
    lemma_dec_enc_hash(p4, e.entry_hash, suf);
}

/// Reading an element deletion tail where one was written.
proof fn lemma_dec_enc_tail_element_delete(pre: Seq<u8>, h: HeaderV, suf: Seq<u8>)
    requires
        header_wf(h),
        h is ElementDelete,
    ensures
        dec_tail_element_delete(
            pre + header_tail(h) + suf,
            pre.len() as int,
            h.author(),
            h.timestamp(),
            h.header_seq(),
            h.prev_header()->Some_0,
        ) == Some((h, pre.len() as int + header_tail(h).len())),
{
    reveal(dec_tail_element_delete);
    reveal(header_tail);
    lemma_enc_hash_len(h->ElementDelete_0.deletes_address);
    lemma_enc_hash_len(h->ElementDelete_0.deletes_entry_address);
    let d = h->ElementDelete_0;
    let b = pre + header_tail(h) + suf;
    assert(b =~= pre + enc_hash(d.deletes_address) + (enc_hash(d.deletes_entry_address) + suf));
    lemma_dec_enc_hash(pre, d.deletes_address, enc_hash(d.deletes_entry_address) + suf);
    assert(b =~= (pre + enc_hash(d.deletes_address)) + enc_hash(d.deletes_entry_address) + suf);
    lemma_dec_enc_hash(pre + enc_hash(d.deletes_address), d.deletes_entry_address, suf);
}

/// Reading the variant tail where one was written yields the header back.
proof fn lemma_dec_enc_tail(pre: Seq<u8>, h: HeaderV, suf: Seq<u8>)
    requires
        header_wf(h),
        !(h is Dna),
    ensures
        dec_header_rest(
            pre + header_tail(h) + suf,
            pre.len() as int,
            header_variant_byte(h),
            h.author(),
            h.timestamp(),
            h.header_seq(),
            h.prev_header()->Some_0,
        ) == Some((h, pre.len() as int + header_tail(h).len())),
{
    reveal(dec_header_rest);
    reveal(header_tail);
    match h {
        HeaderV::Dna(_) => {},
        HeaderV::AgentValidationPkg(_) => lemma_dec_enc_tail_avp(pre, h, suf),
        HeaderV::InitZomesComplete(_) => {
            assert(pre + header_tail(h) + suf =~= pre + Seq::<u8>::empty() + suf);
        },
        HeaderV::LinkAdd(_) => lemma_dec_enc_tail_link_add(pre, h, suf),
        HeaderV::LinkRemove(_) => lemma_dec_enc_tail_link_remove(pre, h, suf),
        HeaderV::ChainOpen(_) => lemma_dec_enc_tail_chain_open(pre, h, suf),
        HeaderV::ChainClose(_) => lemma_dec_enc_tail_chain_close(pre, h, suf),
        HeaderV::EntryCreate(_) => lemma_dec_enc_tail_entry_create(pre, h, suf),
        HeaderV::EntryUpdate(_) => lemma_dec_enc_tail_entry_update(pre, h, suf),
        HeaderV::ElementDelete(_) => lemma_dec_enc_tail_element_delete(pre, h, suf),
    }
}

/// Decoding a header where one was written yields it back.
#[verifier::rlimit(100)]
pub proof fn lemma_dec_enc_header(pre: Seq<u8>, h: HeaderV, suf: Seq<u8>)
    requires
        header_wf(h),
    ensures
        dec_header(pre + enc_header(h) + suf, pre.len() as int) == Some(
            (h, pre.len() as int + enc_header(h).len()),
        ),
{
    reveal(dec_header);
    reveal(enc_header);
    match h { HeaderV::Dna(d) => { lemma_enc_common_len(d.author, d.timestamp, d.header_seq); lemma_enc_hash_len(d.hash); }, _ => { lemma_enc_common_len(h.author(), h.timestamp(), h.header_seq()); lemma_enc_hash_len(h.prev_header()->Some_0); } }
    let b = pre + enc_header(h) + suf;
    let i = pre.len() as int;
    let t = header_variant_byte(h);
    assert(b[i] == t);
    match h {
        HeaderV::Dna(d) => {
            assert(b =~= (pre + seq![t]) + enc_common(d.author, d.timestamp, d.header_seq)
                + (enc_hash(d.hash) + suf));
            lemma_dec_enc_common(
                pre + seq![t],
                d.author,
                d.timestamp,
                d.header_seq,
                enc_hash(d.hash) + suf,
            );
            assert(b =~= (pre + seq![t] + enc_common(d.author, d.timestamp, d.header_seq))
                + enc_hash(d.hash) + suf);
            lemma_dec_enc_hash(
                pre + seq![t] + enc_common(d.author, d.timestamp, d.header_seq),
                d.hash,
                suf,
            );
        },
        _ => {
            let a = h.author();
            let ts = h.timestamp();
            let s = h.header_seq();
            let p = h.prev_header()->Some_0;
            assert(b =~= (pre + seq![t]) + enc_common(a, ts, s) + (enc_hash(p) + header_tail(h)
                + suf));
            lemma_dec_enc_common(pre + seq![t], a, ts, s, enc_hash(p) + header_tail(h) + suf);
            assert(b =~= (pre + seq![t] + enc_common(a, ts, s)) + enc_hash(p) + (header_tail(h)
                + suf));
            lemma_dec_enc_hash(pre + seq![t] + enc_common(a, ts, s), p, header_tail(h) + suf);
            assert(b =~= (pre + seq![t] + enc_common(a, ts, s) + enc_hash(p)) + header_tail(h)
                + suf);
            lemma_dec_enc_tail(pre + seq![t] + enc_common(a, ts, s) + enc_hash(p), h, suf);
        },
    }
}

/// A variant tail that was read came from exactly its own wire form, and
/// rebuilt the header from the fields handed to it.
proof fn lemma_enc_dec_tail(
    b: Seq<u8>,
    i: int,
    t: u8,
    author: AgentPubKey,
    timestamp: Timestamp,
    header_seq: u32,
    prev_header: HeaderAddress,
    h: HeaderV,
    j: int,
)
    requires
        0 <= i <= b.len(),
        dec_header_rest(b, i, t, author, timestamp, header_seq, prev_header) == Some((h, j)),
    ensures
        i <= j <= b.len(),
        b.subrange(i, j) == header_tail(h),
        !(h is Dna),
        header_variant_byte(h) == t,
        h.author() == author,
        h.timestamp() == timestamp,
        h.header_seq() == header_seq,
        h.prev_header() == Some(prev_header),
        author.wf() && prev_header.wf() ==> header_wf(h),
{
    reveal(dec_header_rest);
    reveal(header_tail);
    if t == 2 {
        reveal(dec_tail_avp);
        let (mp, j2) = dec_opt_bytes(b, i)->Some_0;
        lemma_enc_dec_opt_bytes(b, i, mp, j2);
    } else if t == 3 {
        assert(b.subrange(i, j) =~= header_tail(h));
    } else if t == 4 {
        reveal(dec_tail_link_add);
        let (base, i2) = dec_hash(b, i)->Some_0;
        lemma_enc_dec_hash(b, i, base, i2);
        let (target, i3) = dec_hash(b, i2)->Some_0;
        lemma_enc_dec_hash(b, i2, target, i3);
        let (tag, j2) = dec_bytes(b, i3 + 1)->Some_0;
        lemma_enc_dec_bytes(b, i3 + 1, tag, j2);
        assert(b.subrange(i, j) =~= b.subrange(i, i2) + b.subrange(i2, i3) + seq![b[i3]]
            + b.subrange(i3 + 1, j));
    } else if t == 5 {
        reveal(dec_tail_link_remove);
        let (base, i2) = dec_hash(b, i)->Some_0;
        lemma_enc_dec_hash(b, i, base, i2);
        let (la, j2) = dec_hash(b, i2)->Some_0;
        lemma_enc_dec_hash(b, i2, la, j2);
        assert(b.subrange(i, j) =~= b.subrange(i, i2) + b.subrange(i2, j));
    } else if t == 6 {
        reveal(dec_tail_chain_open);
        let (pd, j2) = dec_hash(b, i)->Some_0;
        lemma_enc_dec_hash(b, i, pd, j2);
        assert(b.subrange(i, j) =~= header_tail(h));
    } else if t == 7 {
        reveal(dec_tail_chain_close);
        let (nd, j2) = dec_hash(b, i)->Some_0;
        lemma_enc_dec_hash(b, i, nd, j2);
        assert(b.subrange(i, j) =~= header_tail(h));
    } else if t == 8 {
        reveal(dec_tail_entry_create);
        let (et, i2) = dec_entry_type(b, i)->Some_0;
        lemma_enc_dec_entry_type(b, i, et, i2);
        let (eh, j2) = dec_hash(b, i2)->Some_0;
        lemma_enc_dec_hash(b, i2, eh, j2);
        assert(b.subrange(i, j) =~= b.subrange(i, i2) + b.subrange(i2, j));
    } else if t == 9 {
        reveal(dec_tail_entry_update);
        let (f, i2) = dec_intended_for(b, i)->Some_0;
        lemma_enc_dec_intended_for(b, i, f, i2);
        let (oh, i3) = dec_hash(b, i2)->Some_0;
        lemma_enc_dec_hash(b, i2, oh, i3);
        let (oe, i4) = dec_hash(b, i3)->Some_0;
        lemma_enc_dec_hash(b, i3, oe, i4);
        let (et, i5) = dec_entry_type(b, i4)->Some_0;
        lemma_enc_dec_entry_type(b, i4, et, i5);
        let (eh, j2) = dec_hash(b, i5)->Some_0;
        lemma_enc_dec_hash(b, i5, eh, j2);
        assert(b.subrange(i, j) =~= b.subrange(i, i2) + b.subrange(i2, i3) + b.subrange(i3, i4)
            + b.subrange(i4, i5) + b.subrange(i5, j));
    } else if t == 10 {
        reveal(dec_tail_element_delete);
        let (da, i2) = dec_hash(b, i)->Some_0;
        lemma_enc_dec_hash(b, i, da, i2);
        let (de, j2) = dec_hash(b, i2)->Some_0;
        lemma_enc_dec_hash(b, i2, de, j2);
        assert(b.subrange(i, j) =~= b.subrange(i, i2) + b.subrange(i2, j));
    }
}

/// A header that was read is well formed and came from exactly its own wire
/// form: the codec accepts no byte string it would not itself produce.
#[verifier::rlimit(100)]
pub proof fn lemma_enc_dec_header(b: Seq<u8>, i: int, h: HeaderV, j: int)
    requires
        dec_header(b, i) == Some((h, j)),
    ensures
        i < j <= b.len(),
        b.subrange(i, j) == enc_header(h),
        header_wf(h),
{
    reveal(dec_header);
    reveal(enc_header);
    let t = b[i];
    let ((a, ts, s), i2) = dec_common(b, i + 1)->Some_0;
    lemma_enc_dec_common(b, i + 1, a, ts, s, i2);
    if t == 1 {
        let (dh, j2) = dec_hash(b, i2)->Some_0;
        lemma_enc_dec_hash(b, i2, dh, j2);
        assert(b.subrange(i, j) =~= seq![t] + b.subrange(i + 1, i2) + b.subrange(i2, j));
    } else {
        let (p, i3) = dec_hash(b, i2)->Some_0;
        lemma_enc_dec_hash(b, i2, p, i3);
        lemma_enc_dec_tail(b, i3, t, a, ts, s, p, h, j);
        assert(b.subrange(i, j) =~= seq![t] + b.subrange(i + 1, i2) + b.subrange(i2, i3)
            + b.subrange(i3, j));
    }
}

/// A header's complete wire form: decoding demands the whole buffer be used.
pub open spec fn header_from_bytes(b: Seq<u8>) -> Option<HeaderV> {
    match dec_header(b, 0) {
        Some((h, j)) => if j == b.len() {
            Some(h)
        } else {
            None
        },
        None => None,
    }
}

/// Round trip, one way: a well-formed header is read back intact from its
/// own wire form.
pub proof fn lemma_header_roundtrip(h: HeaderV)
    requires
        header_wf(h),
    ensures
        header_from_bytes(enc_header(h)) == Some(h),
{
    lemma_dec_enc_header(Seq::empty(), h, Seq::empty());
    assert(Seq::empty() + enc_header(h) + Seq::empty() =~= enc_header(h));
}

/// Round trip, the other way: any byte string the decoder accepts is exactly
/// the encoding of what it decoded to. The codec knows no second spelling.
pub proof fn lemma_header_bytes_canonical(b: Seq<u8>, h: HeaderV)
    requires
        header_from_bytes(b) == Some(h),
    ensures
        enc_header(h) == b,
        header_wf(h),
{
    let (h2, j) = dec_header(b, 0)->Some_0;
    lemma_enc_dec_header(b, 0, h2, j);
    assert(b.subrange(0, b.len() as int) =~= b);
}

/// Serialize a header into its canonical wire form.
pub fn encode_header(h: &crate::header::Header) -> (r: Vec<u8>)
    requires
        header_wf(h@),
    ensures
        r@ == enc_header(h@),
{
    proof {
        reveal(enc_header);
        reveal(header_tail);
    }
    let mut out: Vec<u8> = Vec::new();
    match h {
        crate::header::Header::Dna(d) => {
            out.push(1);
            push_common(&mut out, &d.author, d.timestamp, d.header_seq);
            push_hash(&mut out, &d.hash);
        },
        crate::header::Header::AgentValidationPkg(a) => {
            out.push(2);
            push_common(&mut out, &a.author, a.timestamp, a.header_seq);
            push_hash(&mut out, &a.prev_header);
            proof {
                reveal(enc_opt_bytes);
            }
            match &a.membrane_proof {
                Some(p) => {
                    out.push(1);
                    push_bytes(&mut out, p);
                },
                None => {
                    out.push(0);
                },
            }
        },
        crate::header::Header::InitZomesComplete(z) => {
            out.push(3);
            push_common(&mut out, &z.author, z.timestamp, z.header_seq);
            push_hash(&mut out, &z.prev_header);
        },
        crate::header::Header::LinkAdd(l) => {
            out.push(4);
            push_common(&mut out, &l.author, l.timestamp, l.header_seq);
            push_hash(&mut out, &l.prev_header);
            push_hash(&mut out, &l.base_address);
            push_hash(&mut out, &l.target_address);
            out.push(l.zome_id.0);
            push_bytes(&mut out, &l.tag.0);
        },
        crate::header::Header::LinkRemove(l) => {
            out.push(5);
            push_common(&mut out, &l.author, l.timestamp, l.header_seq);
            push_hash(&mut out, &l.prev_header);
            push_hash(&mut out, &l.base_address);
            push_hash(&mut out, &l.link_add_address);
        },
        crate::header::Header::ChainOpen(c) => {
            out.push(6);
            push_common(&mut out, &c.author, c.timestamp, c.header_seq);
            push_hash(&mut out, &c.prev_header);
            push_hash(&mut out, &c.prev_dna_hash);
        },
        crate::header::Header::ChainClose(c) => {
            out.push(7);
            push_common(&mut out, &c.author, c.timestamp, c.header_seq);
            push_hash(&mut out, &c.prev_header);
            push_hash(&mut out, &c.new_dna_hash);
        },
        crate::header::Header::EntryCreate(e) => {
            out.push(8);
            push_common(&mut out, &e.author, e.timestamp, e.header_seq);
            push_hash(&mut out, &e.prev_header);
            push_entry_type(&mut out, e.entry_type);
            push_hash(&mut out, &e.entry_hash);
        },
        crate::header::Header::EntryUpdate(e) => {
            out.push(9);
            push_common(&mut out, &e.author, e.timestamp, e.header_seq);
            push_hash(&mut out, &e.prev_header);
            proof {
                reveal(enc_intended_for);
            }
            match e.intended_for {
                IntendedFor::Header => out.push(0),
                IntendedFor::Entry => out.push(1),
            }
            push_hash(&mut out, &e.original_header_address);
            push_hash(&mut out, &e.original_entry_address);
            push_entry_type(&mut out, e.entry_type);
            push_hash(&mut out, &e.entry_hash);
        },
        crate::header::Header::ElementDelete(d) => {
            out.push(10);
            push_common(&mut out, &d.author, d.timestamp, d.header_seq);
            push_hash(&mut out, &d.prev_header);
            push_hash(&mut out, &d.deletes_address);
            push_hash(&mut out, &d.deletes_entry_address);
        },
    }
    proof {
        assert(out@ =~= enc_header(h@));
    }
    out
}

/// Append the fields common to every header.
pub fn push_common(out: &mut Vec<u8>, author: &AgentPubKey, ts: Timestamp, seq: u32)
    ensures
        final(out)@ == old(out)@ + enc_common(*author, ts, seq),
{
    proof {
        reveal(enc_common);
    }
    push_hash(out, author);
    push_i64(out, ts.0);
    push_u32(out, seq);
    proof {
        assert(out@ =~= old(out)@ + enc_common(*author, ts, seq));
    }
}

/// Append an entry type's wire form.
pub fn push_entry_type(out: &mut Vec<u8>, t: EntryType)
    ensures
        final(out)@ == old(out)@ + enc_entry_type(t),
{
    proof {
        reveal(enc_entry_type);
        reveal(enc_visibility);
    }
    match t {
        EntryType::AgentPubKey => out.push(0),
        EntryType::App(a) => {
            out.push(1);
            out.push(a.id.0);
            out.push(a.zome_id.0);
            match a.visibility {
                EntryVisibility::Public => out.push(0),
                EntryVisibility::Private => out.push(1),
            }
        },
        EntryType::CapClaim => out.push(2),
        EntryType::CapGrant => out.push(3),
    }
    proof {
        assert(out@ =~= old(out)@ + enc_entry_type(t));
    }
}

/// Read an entry type at `i`.
pub fn read_entry_type(b: &Vec<u8>, i: usize) -> (r: Option<(EntryType, usize)>)
    ensures
        match r {
            Some((t, j)) => dec_entry_type(b@, i as int) == Some((t, j as int)),
            None => dec_entry_type(b@, i as int) is None,
        },
{
    proof {
        reveal(dec_entry_type);
        reveal(dec_visibility);
    }
    if !(i < b.len()) {
        return None;
    }
    let tag = b[i];
    if tag == 0 {
        Some((EntryType::AgentPubKey, i + 1))
    } else if tag == 1 {
        if b.len() - i < 4 {
            return None;
        }
        let id = b[i + 1];
        let zome = b[i + 2];
        let vis = b[i + 3];
        if vis == 0 {
            Some(
                (
                    EntryType::App(
                        AppEntryType {
                            id: EntryDefId(id),
                            zome_id: ZomeId(zome),
                            visibility: EntryVisibility::Public,
                        },
                    ),
                    i + 4,
                ),
            )
        } else if vis == 1 {
            Some(
                (
                    EntryType::App(
                        AppEntryType {
                            id: EntryDefId(id),
                            zome_id: ZomeId(zome),
                            visibility: EntryVisibility::Private,
                        },
                    ),
                    i + 4,
                ),
            )
        } else {
            None
        }
    } else if tag == 2 {
        Some((EntryType::CapClaim, i + 1))
    } else if tag == 3 {
        Some((EntryType::CapGrant, i + 1))
    } else {
        None
    }
}

/// Parse a header from its complete wire form; rejects anything that is not
/// the canonical encoding of some header.
pub fn decode_header(b: &Vec<u8>) -> (r: Option<crate::header::Header>)
    ensures
        match r {
            Some(h) => header_from_bytes(b@) == Some(h@) && header_wf(h@),
            None => header_from_bytes(b@) is None,
        },
{
    proof {
        reveal(dec_header);
        reveal(dec_common);
    }
    if b.len() == 0 {
        return None;
    }
    let t = b[0];
    let (author, i2) = match read_hash(b, 1) {
        Some(x) => x,
        None => {
            return None;
        },
    };
    let (ts, i3) = match read_i64(b, i2) {
        Some(x) => x,
        None => {
            return None;
        },
    };
    let (seq, i4) = match read_u32(b, i3) {
        Some(x) => x,
        None => {
            return None;
        },
    };
    let timestamp = Timestamp(ts);
    if t == 1 {
        let (hash, j) = match read_hash(b, i4) {
            Some(x) => x,
            None => {
                return None;
            },
        };
        if j != b.len() {
            return None;
        }
        let h = crate::header::Header::Dna(
            crate::header::Dna { author, timestamp, header_seq: seq, hash },
        );
        proof {
            lemma_dec_enc_header_wf(b@, h@);
        }
        return Some(h);
    }
    let (prev_header, i5) = match read_hash(b, i4) {
        Some(x) => x,
        None => {
            return None;
        },
    };
    let rest: Option<(crate::header::Header, usize)> = if t == 2 {
        proof {
            reveal(dec_header_rest);
            reveal(dec_tail_avp);
            reveal(dec_opt_bytes);
        }
        if !(i5 < b.len()) {
            None
        } else if b[i5] == 0 {
            Some(
                (
                    crate::header::Header::AgentValidationPkg(
                        crate::header::AgentValidationPkg {
                            author,
                            timestamp,
                            header_seq: seq,
                            prev_header,
                            membrane_proof: None,
                        },
                    ),
                    i5 + 1,
                ),
            )
        } else if b[i5] == 1 {
            match read_bytes(b, i5 + 1) {
                Some((p, j)) => Some(
                    (
                        crate::header::Header::AgentValidationPkg(
                            crate::header::AgentValidationPkg {
                                author,
                                timestamp,
                                header_seq: seq,
                                prev_header,
                                membrane_proof: Some(p),
                            },
                        ),
                        j,
                    ),
                ),
                None => None,
            }
        } else {
            None
        }
    } else if t == 3 {
        proof {
            reveal(dec_header_rest);
        }
        Some(
            (
                crate::header::Header::InitZomesComplete(
                    crate::header::InitZomesComplete {
                        author,
                        timestamp,
                        header_seq: seq,
                        prev_header,
                    },
                ),
                i5,
            ),
        )
    } else if t == 4 {
        proof {
            reveal(dec_header_rest);
            reveal(dec_tail_link_add);
        }
        match read_hash(b, i5) {
            Some((base_address, i6)) => match read_hash(b, i6) {
                Some((target_address, i7)) => {
                    if i7 < b.len() {
                        let zome = b[i7];
                        match read_bytes(b, i7 + 1) {
                            Some((tag, j)) => Some(
                                (
                                    crate::header::Header::LinkAdd(
                                        crate::header::LinkAdd {
                                            author,
                                            timestamp,
                                            header_seq: seq,
                                            prev_header,
                                            base_address,
                                            target_address,
                                            zome_id: ZomeId(zome),
                                            tag: crate::header::LinkTag(tag),
                                        },
                                    ),
                                    j,
                                ),
                            ),
                            None => None,
                        }
                    } else {
                        None
                    }
                },
                None => None,
            },
            None => None,
        }
    } else if t == 5 {
        proof {
            reveal(dec_header_rest);
            reveal(dec_tail_link_remove);
        }
        match read_hash(b, i5) {
            Some((base_address, i6)) => match read_hash(b, i6) {
                Some((link_add_address, j)) => Some(
                    (
                        crate::header::Header::LinkRemove(
                            crate::header::LinkRemove {
                                author,
                                timestamp,
                                header_seq: seq,
                                prev_header,
                                base_address,
                                link_add_address,
                            },
                        ),
                        j,
                    ),
                ),
                None => None,
            },
            None => None,
        }
    } else if t == 6 {
        proof {
            reveal(dec_header_rest);
            reveal(dec_tail_chain_open);
        }
        match read_hash(b, i5) {
            Some((prev_dna_hash, j)) => Some(
                (
                    crate::header::Header::ChainOpen(
                        crate::header::ChainOpen {
                            author,
                            timestamp,
                            header_seq: seq,
                            prev_header,
                            prev_dna_hash,
                        },
                    ),
                    j,
                ),
            ),
            None => None,
        }
    } else if t == 7 {
        proof {
            reveal(dec_header_rest);
            reveal(dec_tail_chain_close);
        }
        match read_hash(b, i5) {
            Some((new_dna_hash, j)) => Some(
                (
                    crate::header::Header::ChainClose(
                        crate::header::ChainClose {
                            author,
                            timestamp,
                            header_seq: seq,
                            prev_header,
                            new_dna_hash,
                        },
                    ),
                    j,
                ),
            ),
            None => None,
        }
    } else if t == 8 {
        proof {
            reveal(dec_header_rest);
            reveal(dec_tail_entry_create);
        }
        match read_entry_type(b, i5) {
            Some((entry_type, i6)) => match read_hash(b, i6) {
                Some((entry_hash, j)) => Some(
                    (
                        crate::header::Header::EntryCreate(
                            crate::header::EntryCreate {
                                author,
                                timestamp,
                                header_seq: seq,
                                prev_header,
                                entry_type,
                                entry_hash,
                            },
                        ),
                        j,
                    ),
                ),
                None => None,
            },
            None => None,
        }
    } else if t == 9 {
        proof {
            reveal(dec_header_rest);
            reveal(dec_tail_entry_update);
            reveal(dec_intended_for);
        }
        if !(i5 < b.len()) {
            None
        } else {
            let f = b[i5];
            let intended_for = if f == 0 {
                IntendedFor::Header
            } else if f == 1 {
                IntendedFor::Entry
            } else {
                return None;
            };
            match read_hash(b, i5 + 1) {
                Some((original_header_address, i6)) => match read_hash(b, i6) {
                    Some((original_entry_address, i7)) => match read_entry_type(b, i7) {
                        Some((entry_type, i8)) => match read_hash(b, i8) {
                            Some((entry_hash, j)) => Some(
                                (
                                    crate::header::Header::EntryUpdate(
                                        crate::header::EntryUpdate {
                                            author,
                                            timestamp,
                                            header_seq: seq,
                                            prev_header,
                                            intended_for,
                                            original_header_address,
                                            original_entry_address,
                                            entry_type,
                                            entry_hash,
                                        },
                                    ),
                                    j,
                                ),
                            ),
                            None => None,
                        },
                        None => None,
                    },
                    None => None,
                },
                None => None,
            }
        }
    } else if t == 10 {
        proof {
            reveal(dec_header_rest);
            reveal(dec_tail_element_delete);
        }
        match read_hash(b, i5) {
            Some((deletes_address, i6)) => match read_hash(b, i6) {
                Some((deletes_entry_address, j)) => Some(
                    (
                        crate::header::Header::ElementDelete(
                            crate::header::ElementDelete {
                                author,
                                timestamp,
                                header_seq: seq,
                                prev_header,
                                deletes_address,
                                deletes_entry_address,
                            },
                        ),
                        j,
                    ),
                ),
                None => None,
            },
            None => None,
        }
    } else {
        proof {
            reveal(dec_header_rest);
        }
        None
    };
    match rest {
        Some((h, j)) => if j == b.len() {
            proof {
                lemma_dec_enc_header_wf(b@, h@);
            }
            Some(h)
        } else {
            None
        },
        None => None,
    }
}

/// What the full-buffer parser accepts is well formed.
proof fn lemma_dec_enc_header_wf(b: Seq<u8>, h: HeaderV)
    requires
        header_from_bytes(b) == Some(h),
    ensures
        header_wf(h),
{
    let (h2, j) = dec_header(b, 0)->Some_0;
    lemma_enc_dec_header(b, 0, h2, j);
}

/// The hash of a byte string under a kind, as a value.
pub open spec fn spec_hash_of(hash_kind: HashKind, bytes: Seq<u8>) -> HoloHash {
    let d = digest_of(bytes);
    HoloHash { kind: hash_kind, digest: digest_as_array(d), loc: loc_of(d) }
}

/// The content address of a header: the digest of its canonical wire form.
pub open spec fn header_hash_of(h: HeaderV) -> HoloHash {
    spec_hash_of(HashKind::Header, enc_header(h))
}

/// Hash a header by serializing it and digesting the bytes.
pub fn hash_header(h: &crate::header::Header) -> (r: crate::hash::HeaderHash)
    requires
        header_wf(h@),
    ensures
        r == header_hash_of(h@),
        r.wf(),
        r.kind == HashKind::Header,
{
    let bytes = encode_header(h);
    let r = HoloHash::with_data(HashKind::Header, &bytes);
    proof {
        lemma_digest_as_array_id(r.digest);
    }
    r
}

} // verus!
