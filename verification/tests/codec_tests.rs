use cell_core::codec::decode_header;
use cell_core::codec::encode_header;
use cell_core::hash::HashKind;
use cell_core::hash::HoloHash;
use cell_core::header::AppEntryType;
use cell_core::header::Dna;
use cell_core::header::EntryCreate;
use cell_core::header::EntryDefId;
use cell_core::header::EntryType;
use cell_core::header::Header;
use cell_core::header::HeaderBuilderCommon;
use cell_core::header::Timestamp;
use cell_core::header::ZomeId;
use cell_core::EntryVisibility;

fn fake_hash(kind: HashKind, seed: u8) -> HoloHash {
    HoloHash::from_digest(kind, [seed; 32])
}

fn common(seed: u8) -> HeaderBuilderCommon {
    HeaderBuilderCommon {
        author: fake_hash(HashKind::Agent, seed),
        timestamp: Timestamp(1_600_000_000_000_000 + seed as i64),
        header_seq: 7,
        prev_header: fake_hash(HashKind::Header, seed.wrapping_add(1)),
    }
}

#[test]
fn test_header_msgpack_roundtrip() {
    let c = common(3);
    let orig = Header::Dna(Dna {
        author: c.author,
        timestamp: c.timestamp,
        header_seq: 0,
        hash: fake_hash(HashKind::Dna, 9),
    });
    let bytes = encode_header(&orig);
    let res = decode_header(&bytes).expect("a canonical encoding decodes");
    assert_eq!(encode_header(&res), bytes);
    assert_eq!(res.header_seq(), orig.header_seq());
    assert_eq!(res.author(), orig.author());
    assert_eq!(res.timestamp(), orig.timestamp());
}

#[test]
fn test_entrycreate_msgpack_roundtrip() {
    let c = common(5);
    let orig = Header::EntryCreate(EntryCreate {
        author: c.author,
        timestamp: c.timestamp,
        header_seq: c.header_seq,
        prev_header: c.prev_header,
        entry_type: EntryType::App(AppEntryType::new(
            EntryDefId(0),
            ZomeId(0),
            EntryVisibility::Public,
        )),
        entry_hash: fake_hash(HashKind::Entry, 1),
    });
    let bytes = encode_header(&orig);
    let res = decode_header(&bytes).expect("a canonical encoding decodes");
    assert_eq!(encode_header(&res), bytes);
    assert_eq!(res.entry_data(), orig.entry_data());
    assert_eq!(res.prev_header(), orig.prev_header());
}

#[test]
fn test_entrycreate_serializedbytes_roundtrip() {
    let c = common(8);
    let orig = Header::EntryCreate(EntryCreate {
        author: c.author,
        timestamp: c.timestamp,
        header_seq: c.header_seq,
        prev_header: c.prev_header,
        entry_type: EntryType::App(AppEntryType::new(
            EntryDefId(0),
            ZomeId(0),
            EntryVisibility::Public,
        )),
        entry_hash: fake_hash(HashKind::Entry, 2),
    });
    let bytes = encode_header(&orig);
    let res = decode_header(&bytes).expect("a canonical encoding decodes");
    let bytes2 = encode_header(&res);
    assert_eq!(bytes, bytes2);
    // a corrupted location suffix is no longer canonical and is rejected
    let mut bad = bytes.clone();
    let n = bad.len();
    bad[n - 1] = bad[n - 1].wrapping_add(1);
    assert!(decode_header(&bad).is_none());
}

#[test]
fn hash_from_loc8_roundtrip() {
    for i in [0i8, 1, -1, i8::MIN, i8::MAX] {
        let loc8 = cell_core::hash::Loc8(i);
        let agent = cell_core::hash::hash_from_loc(HashKind::Agent, loc8.to_loc());
        assert_eq!(cell_core::hash::Loc8::from_loc(agent.get_loc()), loc8);
        let op = cell_core::hash::hash_from_loc(HashKind::DhtOp, loc8.to_loc());
        assert_eq!(cell_core::hash::Loc8::from_loc(op.get_loc()), loc8);
    }
}
