use cell_core::cap::valid_cap_grant;
use cell_core::cap::CapGrant;
use cell_core::chain::genesis;
use cell_core::chain::ChainVault;
use cell_core::chain::SourceChain;
use cell_core::dht_db::DhtDb;
use cell_core::entry::hash_entry;
use cell_core::entry::CapAccess;
use cell_core::entry::CapSecret;
use cell_core::entry::Entry;
use cell_core::entry::GrantedFunction;
use cell_core::entry::ZomeCallCapGrant;
use cell_core::hash::AgentPubKey;
use cell_core::hash::HashKind;
use cell_core::hash::HoloHash;
use cell_core::header::EntryType;
use cell_core::header::HeaderBuilder;
use cell_core::header::Timestamp;
use cell_core::keystore::Keystore;

fn setup() -> (Keystore, ChainVault, AgentPubKey) {
    let mut ks = Keystore::new();
    let agent = ks.generate_sign_keypair_from_pure_entropy();
    let mut vault = ChainVault::new(agent);
    let dna = HoloHash::from_digest(HashKind::Dna, [7; 32]);
    genesis(&mut vault, &ks, dna, agent, None, Timestamp(1000)).expect("genesis commits");
    (ks, vault, agent)
}

fn the_function() -> GrantedFunction {
    GrantedFunction {
        zome: b"blog".to_vec(),
        function: b"post".to_vec(),
    }
}

fn commit_grant(ks: &Keystore, vault: &mut ChainVault, access: CapAccess) -> HoloHash {
    let grant = Entry::CapGrant(ZomeCallCapGrant {
        tag: b"guests".to_vec(),
        access,
        functions: vec![the_function()],
    });
    let mut chain = SourceChain::new(vault, vault.author()).unwrap();
    let builder = HeaderBuilder::EntryCreate {
        entry_type: EntryType::CapGrant,
        entry_hash: hash_entry(&grant),
    };
    let h = chain
        .put(ks, builder, Some(grant), Timestamp(2000))
        .expect("grant stages");
    let mut authored = DhtDb::new();
    chain.flush(vault, &mut authored).expect("grant commits");
    h
}

#[test]
fn the_author_needs_no_grant() {
    let (_ks, vault, agent) = setup();
    match valid_cap_grant(&vault, &the_function(), &agent, None) {
        Some(CapGrant::ChainAuthor(a)) => assert_eq!(a, agent),
        _ => panic!("authorship implies full authority"),
    }
}

#[test]
fn a_stranger_without_a_grant_is_refused() {
    let (_ks, vault, _agent) = setup();
    let mut other_ks = Keystore::new();
    let stranger = other_ks.generate_sign_keypair_from_pure_entropy();
    assert!(valid_cap_grant(&vault, &the_function(), &stranger, None).is_none());
}

#[test]
fn an_assigned_grant_asks_the_secret_and_the_list() {
    let (ks, mut vault, _agent) = setup();
    let mut other_ks = Keystore::new();
    let bob = other_ks.generate_sign_keypair_from_pure_entropy();
    let mallory = other_ks.generate_sign_keypair_from_pure_entropy();
    let secret = CapSecret([42; 64]);
    commit_grant(
        &ks,
        &mut vault,
        CapAccess::Assigned {
            secret,
            assignees: vec![bob],
        },
    );
    // no secret: refused
    assert!(valid_cap_grant(&vault, &the_function(), &bob, None).is_none());
    // wrong secret: refused
    let wrong = CapSecret([1; 64]);
    assert!(valid_cap_grant(&vault, &the_function(), &bob, Some(&wrong)).is_none());
    // right secret, but not assigned: refused
    assert!(valid_cap_grant(&vault, &the_function(), &mallory, Some(&secret)).is_none());
    // right secret, assigned caller: admitted
    match valid_cap_grant(&vault, &the_function(), &bob, Some(&secret)) {
        Some(CapGrant::RemoteAgent(g)) => assert_eq!(g.tag, b"guests".to_vec()),
        _ => panic!("the assigned caller with the secret is admitted"),
    }
    // a different function is not covered
    let other_fn = GrantedFunction {
        zome: b"blog".to_vec(),
        function: b"erase_everything".to_vec(),
    };
    assert!(valid_cap_grant(&vault, &other_fn, &bob, Some(&secret)).is_none());
}

#[test]
fn an_unrestricted_grant_admits_anyone() {
    let (ks, mut vault, _agent) = setup();
    let mut other_ks = Keystore::new();
    let anyone = other_ks.generate_sign_keypair_from_pure_entropy();
    commit_grant(&ks, &mut vault, CapAccess::Unrestricted);
    assert!(valid_cap_grant(&vault, &the_function(), &anyone, None).is_some());
}

#[test]
fn a_deleted_grant_no_longer_admits() {
    let (ks, mut vault, _agent) = setup();
    let mut other_ks = Keystore::new();
    let bob = other_ks.generate_sign_keypair_from_pure_entropy();
    let secret = CapSecret([42; 64]);
    let grant_header = commit_grant(
        &ks,
        &mut vault,
        CapAccess::Transferable { secret },
    );
    assert!(valid_cap_grant(&vault, &the_function(), &bob, Some(&secret)).is_some());
    let mut chain = SourceChain::new(&vault, vault.author()).unwrap();
    cell_core::host::delete(
        cell_core::host::HostContext::ZomeCall,
        &mut chain,
        &vault,
        &ks,
        grant_header,
        Timestamp(3000),
    )
    .expect("the delete stages");
    let mut authored = DhtDb::new();
    chain.flush(&mut vault, &mut authored).expect("the delete commits");
    assert!(valid_cap_grant(&vault, &the_function(), &bob, Some(&secret)).is_none());
}
