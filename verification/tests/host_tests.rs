use cell_core::chain::genesis;
use cell_core::chain::ChainVault;
use cell_core::chain::SourceChain;
use cell_core::entry::hash_entry;
use cell_core::entry::Entry;
use cell_core::hash::HashKind;
use cell_core::hash::HoloHash;
use cell_core::header::AppEntryType;
use cell_core::header::EntryDefId;
use cell_core::header::EntryType;
use cell_core::header::Header;
use cell_core::header::HeaderBuilder;
use cell_core::header::LinkTag;
use cell_core::header::Timestamp;
use cell_core::header::ZomeId;
use cell_core::host::create_link;
use cell_core::host::delete;
use cell_core::host::must_get_entry;
use cell_core::host::HostContext;
use cell_core::host::HostFnError;
use cell_core::keystore::Keystore;
use cell_core::EntryVisibility;

fn setup() -> (Keystore, ChainVault, SourceChain) {
    let mut ks = Keystore::new();
    let agent = ks.generate_sign_keypair_from_pure_entropy();
    let mut vault = ChainVault::new(agent);
    let dna = HoloHash::from_digest(HashKind::Dna, [7; 32]);
    genesis(&mut vault, &ks, dna, agent, None, Timestamp(1000)).expect("genesis commits");
    let chain = SourceChain::new(&vault, agent).expect("chain opens");
    (ks, vault, chain)
}

#[test]
fn access_table_matches_the_contexts() {
    assert!(HostContext::ZomeCall.access().write_workspace);
    assert!(HostContext::Init.access().keystore);
    let v = HostContext::Validate.access();
    assert!(!v.write_workspace && !v.read_workspace && v.read_workspace_deterministic);
    assert!(!v.network && !v.keystore);
    let vp = HostContext::ValidationPackage.access();
    assert!(vp.network && vp.read_workspace_deterministic && !vp.write_workspace);
    let pc = HostContext::PostCommit.access();
    assert!(!pc.write_workspace && pc.read_workspace && pc.keystore && pc.network);
    let ed = HostContext::EntryDefs.access();
    assert!(!ed.read_workspace_deterministic && !ed.network);
}

#[test]
fn must_get_entry_finds_the_agent_key_entry() {
    let (_ks, vault, _chain) = setup();
    let agent = vault.author();
    let agent_entry = Entry::Agent(agent);
    let hash = hash_entry(&agent_entry);
    let got = must_get_entry(HostContext::Validate, &vault, hash).expect("the entry is held");
    match got {
        Entry::Agent(a) => assert_eq!(a, agent),
        _ => panic!("the agent key entry holds the agent's key"),
    }
}

#[test]
fn must_get_entry_parks_on_a_missing_dependency() {
    let (_ks, vault, _chain) = setup();
    let missing = HoloHash::from_digest(HashKind::Entry, [9; 32]);
    match must_get_entry(HostContext::Validate, &vault, missing) {
        Err(HostFnError::UnresolvedDependencies(h)) => assert_eq!(h, missing),
        _ => panic!("a missing entry parks the caller"),
    }
}

#[test]
fn must_get_entry_refuses_a_bare_context() {
    let (_ks, vault, _chain) = setup();
    let agent_entry = Entry::Agent(vault.author());
    let hash = hash_entry(&agent_entry);
    match must_get_entry(HostContext::EntryDefs, &vault, hash) {
        Err(HostFnError::Permissions) => {},
        _ => panic!("entry-defs callbacks may not read the workspace"),
    }
}

#[test]
fn create_link_stages_a_link_add() {
    let (ks, _vault, mut chain) = setup();
    let base = HoloHash::from_digest(HashKind::Entry, [1; 32]);
    let target = HoloHash::from_digest(HashKind::Entry, [2; 32]);
    let h = create_link(
        HostContext::ZomeCall,
        &mut chain,
        &ks,
        base,
        target,
        ZomeId(0),
        LinkTag(vec![1, 2]),
        Timestamp(2000),
    )
    .expect("the link is staged");
    let pending = chain.elements();
    assert_eq!(pending.len(), 1);
    assert_eq!(pending[0].header_address(), h);
    match pending[0].header() {
        Header::LinkAdd(l) => {
            assert_eq!(l.base_address, base);
            assert_eq!(l.target_address, target);
            assert_eq!(l.timestamp, Timestamp(2000));
        },
        _ => panic!("a link add header is staged"),
    }
}

#[test]
fn create_link_refuses_a_validate_context() {
    let (ks, _vault, mut chain) = setup();
    let base = HoloHash::from_digest(HashKind::Entry, [1; 32]);
    let target = HoloHash::from_digest(HashKind::Entry, [2; 32]);
    match create_link(
        HostContext::Validate,
        &mut chain,
        &ks,
        base,
        target,
        ZomeId(0),
        LinkTag(vec![]),
        Timestamp(2000),
    ) {
        Err(HostFnError::Permissions) => {},
        _ => panic!("validation may not write the chain"),
    }
    assert_eq!(chain.elements().len(), 0);
}

#[test]
fn delete_resolves_the_deleted_entry_address() {
    let (ks, mut vault, mut chain) = setup();
    let entry = Entry::App(vec![4, 5]);
    let entry_hash = hash_entry(&entry);
    let builder = HeaderBuilder::EntryCreate {
        entry_type: EntryType::App(AppEntryType::new(
            EntryDefId(0),
            ZomeId(0),
            EntryVisibility::Public,
        )),
        entry_hash,
    };
    let created = chain
        .put(&ks, builder, Some(entry), Timestamp(2000))
        .expect("the record stages");
    let mut authored = cell_core::dht_db::DhtDb::new();
    chain
        .flush(&mut vault, &mut authored)
        .expect("the record commits");
    let h = delete(
        HostContext::ZomeCall,
        &mut chain,
        &vault,
        &ks,
        created,
        Timestamp(3000),
    )
    .expect("the delete stages");
    let pending = chain.elements();
    assert_eq!(pending.len(), 1);
    assert_eq!(pending[0].header_address(), h);
    match pending[0].header() {
        Header::ElementDelete(d) => {
            assert_eq!(d.deletes_address, created);
            assert_eq!(d.deletes_entry_address, entry_hash);
        },
        _ => panic!("a delete header is staged"),
    }
}

#[test]
fn delete_of_an_unknown_record_is_not_found() {
    let (ks, vault, mut chain) = setup();
    let unknown = HoloHash::from_digest(HashKind::Header, [3; 32]);
    match delete(
        HostContext::ZomeCall,
        &mut chain,
        &vault,
        &ks,
        unknown,
        Timestamp(3000),
    ) {
        Err(HostFnError::NotFound) => {},
        _ => panic!("deleting an unknown record fails"),
    }
}
