use cell_core::chain::genesis;
use cell_core::chain::genesis_workflow;
use cell_core::chain::GenesisWorkflowError;
use cell_core::chain::ChainVault;
use cell_core::chain::QueryFilter;
use cell_core::chain::SourceChain;
use cell_core::element::ElementEntry;
use cell_core::header::HeaderType;
use cell_core::dht_db::handle_app_validation_outcome;
use cell_core::dht_db::AppValidationOutcome;
use cell_core::dht_db::DhtDb;
use cell_core::host::cascade_pick;
use cell_core::dht_db::OpRecord;
use cell_core::dht_db::ValidationStage;
use cell_core::dht_db::ValidationStatus;
use cell_core::dht_op::ops_from_element;
use cell_core::dht_op::DhtOp;
use cell_core::dht_op::DhtOpType;
use cell_core::dht_op::OpOrder;
use cell_core::entry::Entry;
use cell_core::entry::hash_entry;
use cell_core::hash::HashKind;
use cell_core::hash::HoloHash;
use cell_core::header::EntryDefId;
use cell_core::header::EntryType;
use cell_core::header::AppEntryType;
use cell_core::header::Header;
use cell_core::header::HeaderBuilder;
use cell_core::header::Timestamp;
use cell_core::header::ZomeId;
use cell_core::keystore::AgentPubKeyExt;
use cell_core::keystore::Keystore;
use cell_core::EntryVisibility;

fn setup() -> (Keystore, ChainVault, SourceChain) {
    let mut ks = Keystore::new();
    let agent = ks.generate_sign_keypair_from_pure_entropy();
    let mut vault = ChainVault::new(agent);
    let dna = HoloHash::from_digest(HashKind::Dna, [7; 32]);
    genesis(&mut vault, &ks, dna, agent, None, Timestamp(1000)).expect("genesis commits");
    let chain = SourceChain::new(&vault, agent).expect("chain opens");
    (ks, vault, chain)
}

#[test]
fn genesis_writes_the_fixed_prefix() {
    let (_ks, vault, _chain) = setup();
    assert_eq!(vault.len(), 3);
    assert!(matches!(vault.get(0).header(), Header::Dna(_)));
    assert!(matches!(vault.get(1).header(), Header::AgentValidationPkg(_)));
    match vault.get(2).header() {
        Header::EntryCreate(c) => assert_eq!(c.entry_type, EntryType::AgentPubKey),
        _ => panic!("third record must create the agent key"),
    }
}

#[test]
fn commit_links_and_flushes() {
    let (ks, mut vault, mut chain) = setup();
    let entry = Entry::App(vec![1, 2, 3]);
    let entry_hash = hash_entry(&entry);
    let builder = HeaderBuilder::EntryCreate {
        entry_type: EntryType::App(AppEntryType::new(
            EntryDefId(0),
            ZomeId(0),
            EntryVisibility::Public,
        )),
        entry_hash,
    };
    let h = chain
        .put(&ks, builder, Some(entry), Timestamp(2000))
        .expect("put stages a record");
    let mut authored = cell_core::dht_db::DhtDb::new();
    chain.flush(&mut vault, &mut authored).expect("flush commits");
    assert_eq!(vault.len(), 4);
    let last = vault.get(3);
    assert_eq!(last.header_address(), h);
    assert_eq!(last.header().header_seq(), 3);
    assert_eq!(
        last.header().prev_header().unwrap(),
        vault.get(2).header_address()
    );
}

#[test]
fn head_moved_on_stale_writer() {
    let (ks, mut vault, mut chain_a) = setup();
    let agent = vault.author();
    let mut chain_b = SourceChain::new(&vault, agent).expect("second writer opens");

    let e1 = Entry::App(vec![1]);
    let b1 = HeaderBuilder::EntryCreate {
        entry_type: EntryType::App(AppEntryType::new(
            EntryDefId(0),
            ZomeId(0),
            EntryVisibility::Public,
        )),
        entry_hash: hash_entry(&e1),
    };
    chain_a.put(&ks, b1, Some(e1), Timestamp(2000)).unwrap();
    let mut authored = cell_core::dht_db::DhtDb::new();
    chain_a.flush(&mut vault, &mut authored).expect("first flush commits");

    let e2 = Entry::App(vec![2]);
    let b2 = HeaderBuilder::EntryCreate {
        entry_type: EntryType::App(AppEntryType::new(
            EntryDefId(0),
            ZomeId(0),
            EntryVisibility::Public,
        )),
        entry_hash: hash_entry(&e2),
    };
    chain_b.put(&ks, b2, Some(e2), Timestamp(2001)).unwrap();
    let r = chain_b.flush(&mut vault, &mut authored);
    assert!(matches!(
        r,
        Err(cell_core::chain::SourceChainError::HeadMoved(_, _))
    ));
    assert_eq!(vault.len(), 4);
}

#[test]
fn fanout_of_a_public_create() {
    let (ks, mut vault, mut chain) = setup();
    let entry = Entry::App(vec![1, 2, 3]);
    let builder = HeaderBuilder::EntryCreate {
        entry_type: EntryType::App(AppEntryType::new(
            EntryDefId(0),
            ZomeId(0),
            EntryVisibility::Public,
        )),
        entry_hash: hash_entry(&entry),
    };
    chain.put(&ks, builder, Some(entry), Timestamp(2000)).unwrap();
    let mut authored = cell_core::dht_db::DhtDb::new();
    chain.flush(&mut vault, &mut authored).unwrap();
    let ops = ops_from_element(vault.get(3)).expect("fanout succeeds");
    let types: Vec<DhtOpType> = ops.iter().map(|o| o.get_type()).collect();
    assert_eq!(
        types,
        vec![
            DhtOpType::StoreElement,
            DhtOpType::RegisterAgentActivity,
            DhtOpType::StoreEntry,
        ]
    );
    match &ops[2] {
        DhtOp::StoreEntry(_, h, e) => assert_eq!(h.entry(), hash_entry(e)),
        _ => unreachable!(),
    }
}

#[test]
fn fanout_strips_private_entries() {
    let (ks, mut vault, mut chain) = setup();
    let entry = Entry::App(vec![9, 9]);
    let builder = HeaderBuilder::EntryCreate {
        entry_type: EntryType::App(AppEntryType::new(
            EntryDefId(0),
            ZomeId(0),
            EntryVisibility::Private,
        )),
        entry_hash: hash_entry(&entry),
    };
    chain.put(&ks, builder, Some(entry), Timestamp(2000)).unwrap();
    let mut authored = cell_core::dht_db::DhtDb::new();
    chain.flush(&mut vault, &mut authored).unwrap();
    let ops = ops_from_element(vault.get(3)).expect("fanout succeeds");
    assert_eq!(ops.len(), 2);
    match &ops[0] {
        DhtOp::StoreElement(_, _, e) => assert!(e.is_none()),
        _ => unreachable!(),
    }
}

#[test]
fn integration_is_idempotent_and_receipts_keep_status() {
    let mut db = DhtDb::new();
    let rec = OpRecord {
        hash: HoloHash::from_digest(HashKind::DhtOp, [4; 32]),
        basis_loc: 77,
        timestamp: Timestamp(5),
        op_order: OpOrder::new(DhtOpType::StoreElement, Timestamp(5)),
        is_authored: false,
        stage: ValidationStage::Pending,
        validation_status: None,
        when_integrated: None,
        receipts_count: 0,
    };
    db.insert_op(rec);
    assert_eq!(db.len(), 1);
    db.insert_op(rec);
    assert_eq!(db.len(), 1);
    let hash = rec.hash;
    db.set_validation_status(&hash, ValidationStatus::Valid);
    db.set_when_integrated(&hash, Timestamp(9));
    db.add_receipt(&hash);
    db.add_receipt(&hash);
    let got = db.get(0);
    assert_eq!(got.receipts_count, 2);
    assert_eq!(got.validation_status, Some(ValidationStatus::Valid));
    assert_eq!(got.stage, ValidationStage::Integrated);
}

#[test]
fn rejected_ops_stay_stored_with_status() {
    let mut db = DhtDb::new();
    let (ks, mut vault, mut chain) = setup();
    let entry = Entry::App(vec![1]);
    let builder = HeaderBuilder::EntryCreate {
        entry_type: EntryType::App(AppEntryType::new(
            EntryDefId(0),
            ZomeId(0),
            EntryVisibility::Public,
        )),
        entry_hash: hash_entry(&entry),
    };
    chain.put(&ks, builder, Some(entry), Timestamp(2000)).unwrap();
    let mut authored = cell_core::dht_db::DhtDb::new();
    chain.flush(&mut vault, &mut authored).unwrap();
    let ops = ops_from_element(vault.get(3)).unwrap();
    let hashed = cell_core::dht_op::DhtOpHashed::from_content_sync(
        ops.into_iter().next().unwrap(),
    );
    cell_core::dht_db::fill_db_rejected(&mut db, &hashed, 1, Timestamp(2000), Timestamp(2001));
    assert_eq!(db.len(), 1);
    assert_eq!(db.get(0).validation_status, Some(ValidationStatus::Rejected));
}

#[test]
fn signatures_on_committed_records_verify() {
    let (_ks, vault, _chain) = setup();
    for i in 0..vault.len() {
        let e = vault.get(i);
        let bytes = cell_core::codec::encode_header(e.header());
        let author = e.header().author();
        assert!(author.verify_signature_raw(&e.signature(), &bytes));
    }
}

#[test]
fn flush_writes_one_authored_row_per_op() {
    let (ks, mut vault, mut chain) = setup();
    let entry = Entry::App(vec![1, 2, 3]);
    let builder = HeaderBuilder::EntryCreate {
        entry_type: EntryType::App(AppEntryType::new(
            EntryDefId(0),
            ZomeId(0),
            EntryVisibility::Public,
        )),
        entry_hash: hash_entry(&entry),
    };
    chain.put(&ks, builder, Some(entry), Timestamp(2000)).unwrap();
    let mut authored = DhtDb::new();
    chain.flush(&mut vault, &mut authored).unwrap();
    // a public create fans out to StoreElement, RegisterAgentActivity, StoreEntry
    assert_eq!(authored.len(), 3);
    for i in 0..authored.len() {
        let rec = authored.get(i);
        assert!(rec.is_authored);
        assert_eq!(rec.timestamp, Timestamp(2000));
        assert_eq!(rec.op_order.timestamp, Timestamp(2000));
        assert_eq!(rec.validation_status, None);
        assert_eq!(rec.when_integrated, None);
    }
    // flushing again with an empty scratch writes nothing
    chain.flush(&mut vault, &mut authored).unwrap();
    assert_eq!(authored.len(), 3);
    assert_eq!(vault.len(), 4);
}

#[test]
fn put_clamps_an_earlier_clock_to_the_chain_top() {
    let (ks, _vault, mut chain) = setup();
    // genesis was written at Timestamp(1000); an earlier clock may not
    // let the chain run backwards
    let builder = HeaderBuilder::InitZomesComplete;
    chain.put(&ks, builder, None, Timestamp(500)).unwrap();
    let pending = chain.elements();
    assert_eq!(pending[0].header().timestamp(), Timestamp(1000));
}

#[test]
fn query_filters_by_range_type_and_entries() {
    let (ks, mut vault, mut chain) = setup();
    let entry = Entry::App(vec![1, 2, 3]);
    let builder = HeaderBuilder::EntryCreate {
        entry_type: EntryType::App(AppEntryType::new(
            EntryDefId(0),
            ZomeId(0),
            EntryVisibility::Public,
        )),
        entry_hash: hash_entry(&entry),
    };
    chain.put(&ks, builder, Some(entry), Timestamp(2000)).unwrap();
    let mut authored = DhtDb::new();
    chain.flush(&mut vault, &mut authored).unwrap();
    let chain = SourceChain::new(&vault, vault.author()).unwrap();

    // everything, entries included: the four committed records in order
    let all = QueryFilter {
        sequence_range: None,
        header_type: None,
        entry_type: None,
        include_entries: true,
    };
    let r = chain.query(&vault, &all);
    assert_eq!(r.len(), 4);
    for (i, e) in r.iter().enumerate() {
        assert_eq!(e.header().header_seq(), i as u32);
    }
    assert!(matches!(r[3].entry(), ElementEntry::Present(Entry::App(_))));

    // only the creates
    let creates = QueryFilter {
        sequence_range: None,
        header_type: Some(HeaderType::EntryCreate),
        entry_type: None,
        include_entries: false,
    };
    let r = chain.query(&vault, &creates);
    assert_eq!(r.len(), 2);

    // a half-open ordinal range
    let range = QueryFilter {
        sequence_range: Some((1, 3)),
        header_type: None,
        entry_type: None,
        include_entries: false,
    };
    let r = chain.query(&vault, &range);
    assert_eq!(r.len(), 2);
    assert_eq!(r[0].header().header_seq(), 1);
    assert_eq!(r[1].header().header_seq(), 2);

    // entries withheld when not asked for
    let no_entries = QueryFilter {
        sequence_range: Some((3, 4)),
        header_type: None,
        entry_type: None,
        include_entries: false,
    };
    let r = chain.query(&vault, &no_entries);
    assert_eq!(r.len(), 1);
    assert!(matches!(r[0].entry(), ElementEntry::NotStored));
}

#[test]
fn query_withholds_private_entries_once_public_only() {
    let (ks, mut vault, mut chain) = setup();
    let entry = Entry::App(vec![9]);
    let builder = HeaderBuilder::EntryCreate {
        entry_type: EntryType::App(AppEntryType::new(
            EntryDefId(0),
            ZomeId(0),
            EntryVisibility::Private,
        )),
        entry_hash: hash_entry(&entry),
    };
    chain.put(&ks, builder, Some(entry), Timestamp(2000)).unwrap();
    let mut authored = DhtDb::new();
    chain.flush(&mut vault, &mut authored).unwrap();
    let mut chain = SourceChain::new(&vault, vault.author()).unwrap();
    let f = QueryFilter {
        sequence_range: Some((3, 4)),
        header_type: None,
        entry_type: None,
        include_entries: true,
    };
    let r = chain.query(&vault, &f);
    assert!(matches!(r[0].entry(), ElementEntry::Present(_)));
    chain.public_only();
    let r = chain.query(&vault, &f);
    assert!(matches!(r[0].entry(), ElementEntry::Hidden));
}

#[test]
fn integrating_a_valid_op_twice_is_a_no_op() {
    let mut db = DhtDb::new();
    let (ks, mut vault, mut chain) = setup();
    let entry = Entry::App(vec![8]);
    let builder = HeaderBuilder::EntryCreate {
        entry_type: EntryType::App(AppEntryType::new(
            EntryDefId(0),
            ZomeId(0),
            EntryVisibility::Public,
        )),
        entry_hash: hash_entry(&entry),
    };
    chain.put(&ks, builder, Some(entry), Timestamp(2000)).unwrap();
    let mut authored = DhtDb::new();
    chain.flush(&mut vault, &mut authored).unwrap();
    let ops = ops_from_element(vault.get(3)).unwrap();
    let hashed = cell_core::dht_op::DhtOpHashed::from_content_sync(
        ops.into_iter().next().unwrap(),
    );
    cell_core::dht_db::fill_db(&mut db, &hashed, 1, Timestamp(2000), Timestamp(2001));
    assert_eq!(db.len(), 1);
    let first = db.get(0);
    assert_eq!(first.validation_status, Some(ValidationStatus::Valid));
    assert_eq!(first.when_integrated, Some(Timestamp(2001)));
    assert_eq!(first.stage, ValidationStage::Integrated);
    assert!(!first.is_authored);
    cell_core::dht_db::fill_db(&mut db, &hashed, 1, Timestamp(2000), Timestamp(2001));
    assert_eq!(db.len(), 1);
    assert_eq!(db.get(0).validation_status, Some(ValidationStatus::Valid));
}

#[test]
fn app_validation_verdicts_settle_or_park_an_op() {
    let mut db = DhtDb::new();
    let (ks, mut vault, mut chain) = setup();
    let entry = Entry::App(vec![6]);
    let builder = HeaderBuilder::EntryCreate {
        entry_type: EntryType::App(AppEntryType::new(
            EntryDefId(0),
            ZomeId(0),
            EntryVisibility::Public,
        )),
        entry_hash: hash_entry(&entry),
    };
    chain.put(&ks, builder, Some(entry), Timestamp(2000)).unwrap();
    let mut authored = DhtDb::new();
    chain.flush(&mut vault, &mut authored).unwrap();
    let ops = ops_from_element(vault.get(3)).unwrap();
    let hashed = cell_core::dht_op::DhtOpHashed::from_content_sync(
        ops.into_iter().next().unwrap(),
    );
    cell_core::dht_db::fill_db_as_author(&mut db, &hashed, 1, Timestamp(2000));
    let h = hashed.as_hash();
    // unresolved dependencies park the op untouched
    handle_app_validation_outcome(
        &mut db,
        &h,
        &AppValidationOutcome::UnresolvedDependencies(vec![h]),
    );
    assert_eq!(db.get(0).validation_status, None);
    // an invalid verdict is terminal but the op stays stored
    handle_app_validation_outcome(&mut db, &h, &AppValidationOutcome::Invalid(b"bad".to_vec()));
    assert_eq!(db.len(), 1);
    assert_eq!(db.get(0).validation_status, Some(ValidationStatus::Rejected));
    // a later valid verdict for another pass overwrites
    handle_app_validation_outcome(&mut db, &h, &AppValidationOutcome::Valid);
    assert_eq!(db.get(0).validation_status, Some(ValidationStatus::Valid));
}

#[test]
fn the_cascade_asks_its_tiers_in_order() {
    let (_ks, vault, _chain) = setup();
    let a = || Some(vault.get(0).dup());
    let b = || Some(vault.get(1).dup());
    // scratch answers first, unless the context is deterministic
    let r = cascade_pick(a(), b(), None, None, false).unwrap();
    assert_eq!(r.header_address(), vault.get(0).header_address());
    let r = cascade_pick(a(), b(), None, None, true).unwrap();
    assert_eq!(r.header_address(), vault.get(1).header_address());
    // later tiers answer only when earlier ones are silent
    let r = cascade_pick(None, None, None, a(), false).unwrap();
    assert_eq!(r.header_address(), vault.get(0).header_address());
    assert!(cascade_pick(None, None, None, None, false).is_none());
}

#[test]
fn genesis_workflow_heeds_the_key_service() {
    let mut ks = Keystore::new();
    let agent = ks.generate_sign_keypair_from_pure_entropy();
    let dna = HoloHash::from_digest(HashKind::Dna, [7; 32]);
    // the key service refuses the agent key: nothing is written
    let mut vault = ChainVault::new(agent);
    match genesis_workflow(&mut vault, &ks, dna, agent, None, Timestamp(1000), false) {
        Err(GenesisWorkflowError::AgentInvalid(a)) => assert_eq!(a, agent),
        _ => panic!("an invalid agent key refuses genesis"),
    }
    assert_eq!(vault.len(), 0);
    // the key service accepts: the three genesis records are written
    genesis_workflow(&mut vault, &ks, dna, agent, None, Timestamp(1000), true)
        .expect("genesis proceeds");
    assert_eq!(vault.len(), 3);
    let chain = SourceChain::new(&vault, agent).expect("chain opens");
    assert_eq!(chain.agent_pubkey(), agent);
    assert!(matches!(vault.get(0).header(), Header::Dna(_)));
    assert!(matches!(vault.get(2).header(), Header::EntryCreate(_)));
}
