use cell_core::hash::HashKind;
use cell_core::hash::HoloHash;
use cell_core::region::RegionData;

#[test]
fn the_empty_region_is_the_identity() {
    let h = HoloHash::from_digest(HashKind::DhtOp, [5; 32]);
    let a = RegionData::single(&h, 100);
    let r = a.combine(&RegionData::empty());
    assert_eq!(r.count, 1);
    assert_eq!(r.size, 100);
    assert_eq!(r.hash_xor, h.digest);
}

#[test]
fn combining_folds_counts_sizes_and_hashes() {
    let h1 = HoloHash::from_digest(HashKind::DhtOp, [0b1100; 32]);
    let h2 = HoloHash::from_digest(HashKind::DhtOp, [0b1010; 32]);
    let r = RegionData::single(&h1, 10).combine(&RegionData::single(&h2, 32));
    assert_eq!(r.count, 2);
    assert_eq!(r.size, 42);
    assert_eq!(r.hash_xor, [0b0110; 32]);
}

#[test]
fn peers_agree_whatever_the_arrival_order() {
    let h1 = HoloHash::from_digest(HashKind::DhtOp, [1; 32]);
    let h2 = HoloHash::from_digest(HashKind::DhtOp, [2; 32]);
    let h3 = HoloHash::from_digest(HashKind::DhtOp, [255; 32]);
    let a = RegionData::single(&h1, 5);
    let b = RegionData::single(&h2, 7);
    let c = RegionData::single(&h3, 11);
    let one_way = a.combine(&b).combine(&c);
    let other_way = c.combine(&a).combine(&b);
    assert_eq!(one_way.count, other_way.count);
    assert_eq!(one_way.size, other_way.size);
    assert_eq!(one_way.hash_xor, other_way.hash_xor);
    // folding an op in twice cancels it out of the hash, which is why each
    // op enters a region exactly once
    let twice = a.combine(&a);
    assert_eq!(twice.hash_xor, [0; 32]);
}
