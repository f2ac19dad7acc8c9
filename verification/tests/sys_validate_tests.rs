use cell_core::chain::genesis;
use cell_core::chain::ChainVault;
use cell_core::element::Element;
use cell_core::element::SignedHeader;
use cell_core::element::SignedHeaderHashed;
use cell_core::entry::hash_entry;
use cell_core::entry::Entry;
use cell_core::hash::HashKind;
use cell_core::hash::HoloHash;
use cell_core::header::AppEntryType;
use cell_core::header::EntryCreate;
use cell_core::header::EntryDefId;
use cell_core::header::EntryType;
use cell_core::header::Header;
use cell_core::header::InitZomesComplete;
use cell_core::header::Timestamp;
use cell_core::header::ZomeId;
use cell_core::keystore::Keystore;
use cell_core::keystore::Signature;
use cell_core::sys_validate::sys_validate_record;
use cell_core::sys_validate::SysValidationError;
use cell_core::EntryVisibility;

fn setup() -> (Keystore, ChainVault) {
    let mut ks = Keystore::new();
    let agent = ks.generate_sign_keypair_from_pure_entropy();
    let mut vault = ChainVault::new(agent);
    let dna = HoloHash::from_digest(HashKind::Dna, [7; 32]);
    genesis(&mut vault, &ks, dna, agent, None, Timestamp(1000)).expect("genesis commits");
    (ks, vault)
}

fn init_header(vault: &ChainVault, seq: u32, ts: i64) -> Header {
    Header::InitZomesComplete(InitZomesComplete {
        author: vault.author(),
        timestamp: Timestamp(ts),
        header_seq: seq,
        prev_header: vault.get(2).header_address(),
    })
}

#[test]
fn a_sound_successor_passes_all_checks() {
    let (ks, vault) = setup();
    let header = init_header(&vault, 3, 2000);
    let shh = SignedHeaderHashed::new(&ks, header).unwrap();
    let e = Element::new(shh, None);
    assert_eq!(sys_validate_record(vault.get(2), &e), Ok(()));
}

#[test]
fn a_broken_signature_is_the_first_refusal() {
    let (_ks, vault) = setup();
    let header = init_header(&vault, 3, 2000);
    let shh = SignedHeaderHashed::with_data(SignedHeader(header, Signature([0; 64])));
    let e = Element::new(shh, None);
    assert_eq!(
        sys_validate_record(vault.get(2), &e),
        Err(SysValidationError::InvalidSignature)
    );
}

#[test]
fn a_dna_header_may_not_follow_a_record() {
    let (_ks, vault) = setup();
    let dna_record = vault.get(0);
    assert_eq!(
        sys_validate_record(vault.get(2), dna_record),
        Err(SysValidationError::DnaAtNonZero)
    );
}

#[test]
fn a_wrong_link_is_a_prev_header_mismatch() {
    let (_ks, vault) = setup();
    // the third genesis record links the second, not the first
    assert_eq!(
        sys_validate_record(vault.get(0), vault.get(2)),
        Err(SysValidationError::PrevHeaderMismatch)
    );
}

#[test]
fn a_skipped_ordinal_is_refused() {
    let (ks, vault) = setup();
    let header = init_header(&vault, 5, 2000);
    let shh = SignedHeaderHashed::new(&ks, header).unwrap();
    let e = Element::new(shh, None);
    assert_eq!(
        sys_validate_record(vault.get(2), &e),
        Err(SysValidationError::InvalidSeq)
    );
}

#[test]
fn a_clock_running_backwards_is_refused() {
    let (ks, vault) = setup();
    let header = init_header(&vault, 3, 500);
    let shh = SignedHeaderHashed::new(&ks, header).unwrap();
    let e = Element::new(shh, None);
    assert_eq!(
        sys_validate_record(vault.get(2), &e),
        Err(SysValidationError::TimestampDecreasing)
    );
}

#[test]
fn an_entry_must_hash_to_the_named_address() {
    let (ks, vault) = setup();
    let named = Entry::App(vec![1, 2, 3]);
    let carried = Entry::App(vec![9, 9, 9]);
    let header = Header::EntryCreate(EntryCreate {
        author: vault.author(),
        timestamp: Timestamp(2000),
        header_seq: 3,
        prev_header: vault.get(2).header_address(),
        entry_type: EntryType::App(AppEntryType::new(
            EntryDefId(0),
            ZomeId(0),
            EntryVisibility::Public,
        )),
        entry_hash: hash_entry(&named),
    });
    let shh = SignedHeaderHashed::new(&ks, header).unwrap();
    let e = Element::new(shh, Some(carried));
    assert_eq!(
        sys_validate_record(vault.get(2), &e),
        Err(SysValidationError::EntryHashMismatch)
    );
}
