use vstd::prelude::*;

use crate::clone_bytes;
use crate::EntryVisibility;
use crate::hash::AgentPubKey;
use crate::hash::DnaHash;
use crate::hash::EntryHash;
use crate::hash::HeaderAddress;
use crate::hash::HeaderHash;

verus! {

/// A moment in time, in microseconds since the epoch.
#[derive(Clone, Copy, Debug, PartialEq, Eq, Structural)]
pub struct Timestamp(pub i64);

/// Index of a zome within its DNA; doubles as the canonical zome order.
#[derive(Clone, Copy, Debug, PartialEq, Eq, Structural)]
pub struct ZomeId(pub u8);

/// Index of an entry definition within its zome.
#[derive(Clone, Copy, Debug, PartialEq, Eq, Structural)]
pub struct EntryDefId(pub u8);

/// Whether an update refers to the original entry or to the original header.
#[derive(Clone, Copy, Debug, PartialEq, Eq, Structural)]
pub enum IntendedFor {
    Header,
    Entry,
}

/// The class of entry that a new-entry header points at.
#[derive(Clone, Copy, Debug, PartialEq, Eq, Structural)]
pub enum EntryType {
    /// An agent's public key.
    AgentPubKey,
    /// An app-defined entry, with its app-level type.
    App(AppEntryType),
    /// A capability claim.
    CapClaim,
    /// A capability grant.
    CapGrant,
}

/// An app-defined entry class: its definition id, owning zome and visibility.
#[derive(Clone, Copy, Debug, PartialEq, Eq, Structural)]
pub struct AppEntryType {
    pub id: EntryDefId,
    pub zome_id: ZomeId,
    pub visibility: EntryVisibility,
}

impl AppEntryType {
    pub fn new(id: EntryDefId, zome_id: ZomeId, visibility: EntryVisibility) -> (r: Self)
        ensures
            r == (AppEntryType { id, zome_id, visibility }),
    {
        Self { id, zome_id, visibility }
    }

    pub fn id(&self) -> (r: EntryDefId)
        ensures
            r == self.id,
    {
        self.id
    }

    pub fn zome_id(&self) -> (r: ZomeId)
        ensures
            r == self.zome_id,
    {
        self.zome_id
    }

    pub fn visibility(&self) -> (r: EntryVisibility)
        ensures
            r == self.visibility,
    {
        self.visibility
    }
}

impl EntryType {
    /// Who may see entries of this type. Agent keys are public; capability
    /// claims and grants never leave the author's chain.
    pub open spec fn spec_visibility(self) -> EntryVisibility {
        match self {
            EntryType::AgentPubKey => EntryVisibility::Public,
            EntryType::App(t) => t.visibility,
            EntryType::CapClaim => EntryVisibility::Private,
            EntryType::CapGrant => EntryVisibility::Private,
        }
    }

    pub fn visibility(&self) -> (r: EntryVisibility)
        ensures
            r == self.spec_visibility(),
    {
        match self {
            EntryType::AgentPubKey => EntryVisibility::Public,
            EntryType::App(t) => t.visibility,
            EntryType::CapClaim => EntryVisibility::Private,
            EntryType::CapGrant => EntryVisibility::Private,
        }
    }
}

/// An opaque tag attached to a link.
#[derive(Debug)]
pub struct LinkTag(pub Vec<u8>);

impl View for LinkTag {
    type V = Seq<u8>;

    open spec fn view(&self) -> Seq<u8> {
        self.0@
    }
}

impl LinkTag {
    pub fn dup(&self) -> (r: LinkTag)
        ensures
            r@ == self@,
    {
        LinkTag(clone_bytes(&self.0))
    }
}

/// The first header of every chain: names the DNA, has no previous header.
#[derive(Clone, Copy, Debug, PartialEq, Eq)]
pub struct Dna {
    pub author: AgentPubKey,
    pub timestamp: Timestamp,
    pub header_seq: u32,
    pub hash: DnaHash,
}

/// Carries the proof that lets this agent through the DNA's membrane.
#[derive(Debug)]
pub struct AgentValidationPkg {
    pub author: AgentPubKey,
    pub timestamp: Timestamp,
    pub header_seq: u32,
    pub prev_header: HeaderAddress,
    pub membrane_proof: Option<Vec<u8>>,
}

/// The ghost image of an `AgentValidationPkg`.
pub struct AgentValidationPkgV {
    pub author: AgentPubKey,
    pub timestamp: Timestamp,
    pub header_seq: u32,
    pub prev_header: HeaderAddress,
    pub membrane_proof: Option<Seq<u8>>,
}

impl View for AgentValidationPkg {
    type V = AgentValidationPkgV;

    open spec fn view(&self) -> AgentValidationPkgV {
        AgentValidationPkgV {
            author: self.author,
            timestamp: self.timestamp,
            header_seq: self.header_seq,
            prev_header: self.prev_header,
            membrane_proof: match self.membrane_proof {
                Some(ref p) => Some(p@),
                None => None,
            },
        }
    }
}

/// Declares that every zome's init callback has completed.
#[derive(Clone, Copy, Debug, PartialEq, Eq)]
pub struct InitZomesComplete {
    pub author: AgentPubKey,
    pub timestamp: Timestamp,
    pub header_seq: u32,
    pub prev_header: HeaderAddress,
}

/// Declares a link from a base address to a target address.
#[derive(Debug)]
pub struct LinkAdd {
    pub author: AgentPubKey,
    pub timestamp: Timestamp,
    pub header_seq: u32,
    pub prev_header: HeaderAddress,
    pub base_address: EntryHash,
    pub target_address: EntryHash,
    pub zome_id: ZomeId,
    pub tag: LinkTag,
}

/// The ghost image of a `LinkAdd`.
pub struct LinkAddV {
    pub author: AgentPubKey,
    pub timestamp: Timestamp,
    pub header_seq: u32,
    pub prev_header: HeaderAddress,
    pub base_address: EntryHash,
    pub target_address: EntryHash,
    pub zome_id: ZomeId,
    pub tag: Seq<u8>,
}

impl View for LinkAdd {
    type V = LinkAddV;

    open spec fn view(&self) -> LinkAddV {
        LinkAddV {
            author: self.author,
            timestamp: self.timestamp,
            header_seq: self.header_seq,
            prev_header: self.prev_header,
            base_address: self.base_address,
            target_address: self.target_address,
            zome_id: self.zome_id,
            tag: self.tag@,
        }
    }
}

/// Nullifies a previously declared link.
#[derive(Clone, Copy, Debug, PartialEq, Eq)]
pub struct LinkRemove {
    pub author: AgentPubKey,
    pub timestamp: Timestamp,
    pub header_seq: u32,
    pub prev_header: HeaderAddress,
    pub base_address: EntryHash,
    /// The `LinkAdd` being reversed.
    pub link_add_address: HeaderAddress,
}

/// Opens a chain migrated from an older DNA.
#[derive(Clone, Copy, Debug, PartialEq, Eq)]
pub struct ChainOpen {
    pub author: AgentPubKey,
    pub timestamp: Timestamp,
    pub header_seq: u32,
    pub prev_header: HeaderAddress,
    pub prev_dna_hash: DnaHash,
}

/// Closes a chain migrating to a newer DNA.
#[derive(Clone, Copy, Debug, PartialEq, Eq)]
pub struct ChainClose {
    pub author: AgentPubKey,
    pub timestamp: Timestamp,
    pub header_seq: u32,
    pub prev_header: HeaderAddress,
    pub new_dna_hash: DnaHash,
}

/// Speaks a new entry into being.
#[derive(Clone, Copy, Debug, PartialEq, Eq)]
pub struct EntryCreate {
    pub author: AgentPubKey,
    pub timestamp: Timestamp,
    pub header_seq: u32,
    pub prev_header: HeaderAddress,
    pub entry_type: EntryType,
    pub entry_hash: EntryHash,
}

/// Declares a new entry to be an update of an older entry or header.
#[derive(Clone, Copy, Debug, PartialEq, Eq)]
pub struct EntryUpdate {
    pub author: AgentPubKey,
    pub timestamp: Timestamp,
    pub header_seq: u32,
    pub prev_header: HeaderAddress,
    pub intended_for: IntendedFor,
    pub original_header_address: HeaderHash,
    pub original_entry_address: EntryHash,
    pub entry_type: EntryType,
    pub entry_hash: EntryHash,
}

/// Declares a previously published element deleted.
#[derive(Clone, Copy, Debug, PartialEq, Eq)]
pub struct ElementDelete {
    pub author: AgentPubKey,
    pub timestamp: Timestamp,
    pub header_seq: u32,
    pub prev_header: HeaderAddress,
    /// The header being deleted.
    pub deletes_address: HeaderAddress,
    /// The entry that header created, for entry-side indexing.
    pub deletes_entry_address: EntryHash,
}

/// The variant tag of a header, the shape a query filter selects by.
#[derive(Clone, Copy, Debug, PartialEq, Eq, Structural)]
pub enum HeaderType {
    Dna,
    AgentValidationPkg,
    InitZomesComplete,
    LinkAdd,
    LinkRemove,
    ChainOpen,
    ChainClose,
    EntryCreate,
    EntryUpdate,
    ElementDelete,
}

/// One record in a source chain. All variants but `Dna` carry the hash of
/// the previous header, which makes the chain an append-only hash chain.
#[derive(Debug)]
pub enum Header {
    Dna(Dna),
    AgentValidationPkg(AgentValidationPkg),
    InitZomesComplete(InitZomesComplete),
    LinkAdd(LinkAdd),
    LinkRemove(LinkRemove),
    ChainOpen(ChainOpen),
    ChainClose(ChainClose),
    EntryCreate(EntryCreate),
    EntryUpdate(EntryUpdate),
    ElementDelete(ElementDelete),
}

/// The ghost image of a `Header`: byte vectors become sequences.
pub enum HeaderV {
    Dna(Dna),
    AgentValidationPkg(AgentValidationPkgV),
    InitZomesComplete(InitZomesComplete),
    LinkAdd(LinkAddV),
    LinkRemove(LinkRemove),
    ChainOpen(ChainOpen),
    ChainClose(ChainClose),
    EntryCreate(EntryCreate),
    EntryUpdate(EntryUpdate),
    ElementDelete(ElementDelete),
}

impl View for Header {
    type V = HeaderV;

    open spec fn view(&self) -> HeaderV {
        match self {
            Header::Dna(h) => HeaderV::Dna(*h),
            Header::AgentValidationPkg(h) => HeaderV::AgentValidationPkg(h@),
            Header::InitZomesComplete(h) => HeaderV::InitZomesComplete(*h),
            Header::LinkAdd(h) => HeaderV::LinkAdd(h@),
            Header::LinkRemove(h) => HeaderV::LinkRemove(*h),
            Header::ChainOpen(h) => HeaderV::ChainOpen(*h),
            Header::ChainClose(h) => HeaderV::ChainClose(*h),
            Header::EntryCreate(h) => HeaderV::EntryCreate(*h),
            Header::EntryUpdate(h) => HeaderV::EntryUpdate(*h),
            Header::ElementDelete(h) => HeaderV::ElementDelete(*h),
        }
    }
}

impl HeaderV {
    /// The variant tag of this header.
    pub open spec fn header_type(self) -> HeaderType {
        match self {
            HeaderV::Dna(_) => HeaderType::Dna,
            HeaderV::AgentValidationPkg(_) => HeaderType::AgentValidationPkg,
            HeaderV::InitZomesComplete(_) => HeaderType::InitZomesComplete,
            HeaderV::LinkAdd(_) => HeaderType::LinkAdd,
            HeaderV::LinkRemove(_) => HeaderType::LinkRemove,
            HeaderV::ChainOpen(_) => HeaderType::ChainOpen,
            HeaderV::ChainClose(_) => HeaderType::ChainClose,
            HeaderV::EntryCreate(_) => HeaderType::EntryCreate,
            HeaderV::EntryUpdate(_) => HeaderType::EntryUpdate,
            HeaderV::ElementDelete(_) => HeaderType::ElementDelete,
        }
    }

    /// The author field of any variant.
    pub open spec fn author(self) -> AgentPubKey {
        match self {
            HeaderV::Dna(h) => h.author,
            HeaderV::AgentValidationPkg(h) => h.author,
            HeaderV::InitZomesComplete(h) => h.author,
            HeaderV::LinkAdd(h) => h.author,
            HeaderV::LinkRemove(h) => h.author,
            HeaderV::ChainOpen(h) => h.author,
            HeaderV::ChainClose(h) => h.author,
            HeaderV::EntryCreate(h) => h.author,
            HeaderV::EntryUpdate(h) => h.author,
            HeaderV::ElementDelete(h) => h.author,
        }
    }

    /// The timestamp field of any variant.
    pub open spec fn timestamp(self) -> Timestamp {
        match self {
            HeaderV::Dna(h) => h.timestamp,
            HeaderV::AgentValidationPkg(h) => h.timestamp,
            HeaderV::InitZomesComplete(h) => h.timestamp,
            HeaderV::LinkAdd(h) => h.timestamp,
            HeaderV::LinkRemove(h) => h.timestamp,
            HeaderV::ChainOpen(h) => h.timestamp,
            HeaderV::ChainClose(h) => h.timestamp,
            HeaderV::EntryCreate(h) => h.timestamp,
            HeaderV::EntryUpdate(h) => h.timestamp,
            HeaderV::ElementDelete(h) => h.timestamp,
        }
    }

    /// The sequence ordinal of any variant.
    pub open spec fn header_seq(self) -> u32 {
        match self {
            HeaderV::Dna(h) => h.header_seq,
            HeaderV::AgentValidationPkg(h) => h.header_seq,
            HeaderV::InitZomesComplete(h) => h.header_seq,
            HeaderV::LinkAdd(h) => h.header_seq,
            HeaderV::LinkRemove(h) => h.header_seq,
            HeaderV::ChainOpen(h) => h.header_seq,
            HeaderV::ChainClose(h) => h.header_seq,
            HeaderV::EntryCreate(h) => h.header_seq,
            HeaderV::EntryUpdate(h) => h.header_seq,
            HeaderV::ElementDelete(h) => h.header_seq,
        }
    }

    /// The previous header, absent only on `Dna`.
    pub open spec fn prev_header(self) -> Option<HeaderAddress> {
        match self {
            HeaderV::Dna(_) => None,
            HeaderV::AgentValidationPkg(h) => Some(h.prev_header),
            HeaderV::InitZomesComplete(h) => Some(h.prev_header),
            HeaderV::LinkAdd(h) => Some(h.prev_header),
            HeaderV::LinkRemove(h) => Some(h.prev_header),
            HeaderV::ChainOpen(h) => Some(h.prev_header),
            HeaderV::ChainClose(h) => Some(h.prev_header),
            HeaderV::EntryCreate(h) => Some(h.prev_header),
            HeaderV::EntryUpdate(h) => Some(h.prev_header),
            HeaderV::ElementDelete(h) => Some(h.prev_header),
        }
    }

    /// The entry address and type, for the two variants that create entries.
    pub open spec fn entry_data(self) -> Option<(EntryHash, EntryType)> {
        match self {
            HeaderV::EntryCreate(h) => Some((h.entry_hash, h.entry_type)),
            HeaderV::EntryUpdate(h) => Some((h.entry_hash, h.entry_type)),
            _ => None,
        }
    }
}

impl Header {
    /// The variant tag of this header.
    pub fn header_type(&self) -> (r: HeaderType)
        ensures
            r == self@.header_type(),
    {
        match self {
            Header::Dna(_) => HeaderType::Dna,
            Header::AgentValidationPkg(_) => HeaderType::AgentValidationPkg,
            Header::InitZomesComplete(_) => HeaderType::InitZomesComplete,
            Header::LinkAdd(_) => HeaderType::LinkAdd,
            Header::LinkRemove(_) => HeaderType::LinkRemove,
            Header::ChainOpen(_) => HeaderType::ChainOpen,
            Header::ChainClose(_) => HeaderType::ChainClose,
            Header::EntryCreate(_) => HeaderType::EntryCreate,
            Header::EntryUpdate(_) => HeaderType::EntryUpdate,
            Header::ElementDelete(_) => HeaderType::ElementDelete,
        }
    }

    /// The address and entry type of the entry, if this header has one.
    pub fn entry_data(&self) -> (r: Option<(EntryHash, EntryType)>)
        ensures
            r == self@.entry_data(),
    {
        match self {
            Header::EntryCreate(h) => Some((h.entry_hash, h.entry_type)),
            Header::EntryUpdate(h) => Some((h.entry_hash, h.entry_type)),
            _ => None,
        }
    }

    /// The public key of the agent who authored this header.
    pub fn author(&self) -> (r: AgentPubKey)
        ensures
            r == self@.author(),
    {
        match self {
            Header::Dna(h) => h.author,
            Header::AgentValidationPkg(h) => h.author,
            Header::InitZomesComplete(h) => h.author,
            Header::LinkAdd(h) => h.author,
            Header::LinkRemove(h) => h.author,
            Header::ChainOpen(h) => h.author,
            Header::ChainClose(h) => h.author,
            Header::EntryCreate(h) => h.author,
            Header::EntryUpdate(h) => h.author,
            Header::ElementDelete(h) => h.author,
        }
    }

    /// When this header was created.
    pub fn timestamp(&self) -> (r: Timestamp)
        ensures
            r == self@.timestamp(),
    {
        match self {
            Header::Dna(h) => h.timestamp,
            Header::AgentValidationPkg(h) => h.timestamp,
            Header::InitZomesComplete(h) => h.timestamp,
            Header::LinkAdd(h) => h.timestamp,
            Header::LinkRemove(h) => h.timestamp,
            Header::ChainOpen(h) => h.timestamp,
            Header::ChainClose(h) => h.timestamp,
            Header::EntryCreate(h) => h.timestamp,
            Header::EntryUpdate(h) => h.timestamp,
            Header::ElementDelete(h) => h.timestamp,
        }
    }

    /// The sequence ordinal of this header within its chain.
    pub fn header_seq(&self) -> (r: u32)
        ensures
            r == self@.header_seq(),
    {
        match self {
            Header::Dna(h) => h.header_seq,
            Header::AgentValidationPkg(h) => h.header_seq,
            Header::InitZomesComplete(h) => h.header_seq,
            Header::LinkAdd(h) => h.header_seq,
            Header::LinkRemove(h) => h.header_seq,
            Header::ChainOpen(h) => h.header_seq,
            Header::ChainClose(h) => h.header_seq,
            Header::EntryCreate(h) => h.header_seq,
            Header::EntryUpdate(h) => h.header_seq,
            Header::ElementDelete(h) => h.header_seq,
        }
    }

    /// The previous header's hash; only the `Dna` header has none.
    pub fn prev_header(&self) -> (r: Option<HeaderAddress>)
        ensures
            r == self@.prev_header(),
    {
        match self {
            Header::Dna(_) => None,
            Header::AgentValidationPkg(h) => Some(h.prev_header),
            Header::InitZomesComplete(h) => Some(h.prev_header),
            Header::LinkAdd(h) => Some(h.prev_header),
            Header::LinkRemove(h) => Some(h.prev_header),
            Header::ChainOpen(h) => Some(h.prev_header),
            Header::ChainClose(h) => Some(h.prev_header),
            Header::EntryCreate(h) => Some(h.prev_header),
            Header::EntryUpdate(h) => Some(h.prev_header),
            Header::ElementDelete(h) => Some(h.prev_header),
        }
    }

    /// A structurally identical copy of this header.
    pub fn dup(&self) -> (r: Header)
        ensures
            r@ == self@,
    {
        match self {
            Header::Dna(h) => Header::Dna(*h),
            Header::AgentValidationPkg(h) => Header::AgentValidationPkg(
                AgentValidationPkg {
                    author: h.author,
                    timestamp: h.timestamp,
                    header_seq: h.header_seq,
                    prev_header: h.prev_header,
                    membrane_proof: match &h.membrane_proof {
                        Some(p) => Some(clone_bytes(p)),
                        None => None,
                    },
                },
            ),
            Header::InitZomesComplete(h) => Header::InitZomesComplete(*h),
            Header::LinkAdd(h) => Header::LinkAdd(
                LinkAdd {
                    author: h.author,
                    timestamp: h.timestamp,
                    header_seq: h.header_seq,
                    prev_header: h.prev_header,
                    base_address: h.base_address,
                    target_address: h.target_address,
                    zome_id: h.zome_id,
                    tag: h.tag.dup(),
                },
            ),
            Header::LinkRemove(h) => Header::LinkRemove(*h),
            Header::ChainOpen(h) => Header::ChainOpen(*h),
            Header::ChainClose(h) => Header::ChainClose(*h),
            Header::EntryCreate(h) => Header::EntryCreate(*h),
            Header::EntryUpdate(h) => Header::EntryUpdate(*h),
            Header::ElementDelete(h) => Header::ElementDelete(*h),
        }
    }
}

/// A header of one of the two kinds that create a new entry.
#[derive(Clone, Copy, Debug, PartialEq, Eq)]
pub enum NewEntryHeader {
    Create(EntryCreate),
    Update(EntryUpdate),
}

impl NewEntryHeader {
    /// The entry this header creates.
    pub open spec fn spec_entry(self) -> EntryHash {
        match self {
            NewEntryHeader::Create(h) => h.entry_hash,
            NewEntryHeader::Update(h) => h.entry_hash,
        }
    }

    pub fn entry(&self) -> (r: EntryHash)
        ensures
            r == self.spec_entry(),
    {
        match self {
            NewEntryHeader::Create(h) => h.entry_hash,
            NewEntryHeader::Update(h) => h.entry_hash,
        }
    }

    /// The visibility of the entry this header creates.
    pub open spec fn spec_visibility(self) -> EntryVisibility {
        match self {
            NewEntryHeader::Create(h) => h.entry_type.spec_visibility(),
            NewEntryHeader::Update(h) => h.entry_type.spec_visibility(),
        }
    }

    pub fn visibility(&self) -> (r: EntryVisibility)
        ensures
            r == self.spec_visibility(),
    {
        match self {
            NewEntryHeader::Create(h) => h.entry_type.visibility(),
            NewEntryHeader::Update(h) => h.entry_type.visibility(),
        }
    }

    /// The plain header behind this new-entry header.
    pub open spec fn spec_to_header(self) -> HeaderV {
        match self {
            NewEntryHeader::Create(h) => HeaderV::EntryCreate(h),
            NewEntryHeader::Update(h) => HeaderV::EntryUpdate(h),
        }
    }

    pub fn to_header(&self) -> (r: Header)
        ensures
            r@ == self.spec_to_header(),
    {
        match self {
            NewEntryHeader::Create(h) => Header::EntryCreate(*h),
            NewEntryHeader::Update(h) => Header::EntryUpdate(*h),
        }
    }
}

/// The fields shared by every header, filled in by the source chain when a
/// builder is resolved against the current chain head.
#[derive(Clone, Copy, Debug, PartialEq, Eq)]
pub struct HeaderBuilderCommon {
    pub author: AgentPubKey,
    pub timestamp: Timestamp,
    pub header_seq: u32,
    pub prev_header: HeaderAddress,
}

impl Dna {
    /// The `Dna` header lacks a `prev_header`, so it cannot go through the
    /// ordinary builders; this constructor covers the special case.
    pub fn from_builder(hash: DnaHash, builder: HeaderBuilderCommon) -> (r: Self)
        ensures
            r == (Dna {
                author: builder.author,
                timestamp: builder.timestamp,
                header_seq: builder.header_seq,
                hash,
            }),
    {
        Self {
            author: builder.author,
            timestamp: builder.timestamp,
            header_seq: builder.header_seq,
            hash,
        }
    }
}

/// The variant-specific fields of a header, to be completed with a
/// `HeaderBuilderCommon` by the source chain.
#[derive(Debug)]
pub enum HeaderBuilder {
    AgentValidationPkg { membrane_proof: Option<Vec<u8>> },
    InitZomesComplete,
    LinkAdd { base_address: EntryHash, target_address: EntryHash, zome_id: ZomeId, tag: LinkTag },
    LinkRemove { base_address: EntryHash, link_add_address: HeaderAddress },
    ChainOpen { prev_dna_hash: DnaHash },
    ChainClose { new_dna_hash: DnaHash },
    EntryCreate { entry_type: EntryType, entry_hash: EntryHash },
    EntryUpdate {
        intended_for: IntendedFor,
        original_header_address: HeaderHash,
        original_entry_address: EntryHash,
        entry_type: EntryType,
        entry_hash: EntryHash,
    },
    ElementDelete { deletes_address: HeaderAddress, deletes_entry_address: EntryHash },
}

impl HeaderBuilder {
    /// The header that this builder yields under the given common fields.
    pub open spec fn spec_build(self, common: HeaderBuilderCommon) -> HeaderV {
        let author = common.author;
        let timestamp = common.timestamp;
        let header_seq = common.header_seq;
        let prev_header = common.prev_header;
        match self {
            HeaderBuilder::AgentValidationPkg { membrane_proof } => HeaderV::AgentValidationPkg(
                AgentValidationPkgV {
                    author,
                    timestamp,
                    header_seq,
                    prev_header,
                    membrane_proof: match membrane_proof {
                        Some(p) => Some(p@),
                        None => None,
                    },
                },
            ),
            HeaderBuilder::InitZomesComplete => HeaderV::InitZomesComplete(
                InitZomesComplete { author, timestamp, header_seq, prev_header },
            ),
            HeaderBuilder::LinkAdd { base_address, target_address, zome_id, tag } => HeaderV::LinkAdd(
                LinkAddV {
                    author,
                    timestamp,
                    header_seq,
                    prev_header,
                    base_address,
                    target_address,
                    zome_id,
                    tag: tag@,
                },
            ),
            HeaderBuilder::LinkRemove { base_address, link_add_address } => HeaderV::LinkRemove(
                LinkRemove {
                    author,
                    timestamp,
                    header_seq,
                    prev_header,
                    base_address,
                    link_add_address,
                },
            ),
            HeaderBuilder::ChainOpen { prev_dna_hash } => HeaderV::ChainOpen(
                ChainOpen { author, timestamp, header_seq, prev_header, prev_dna_hash },
            ),
            HeaderBuilder::ChainClose { new_dna_hash } => HeaderV::ChainClose(
                ChainClose { author, timestamp, header_seq, prev_header, new_dna_hash },
            ),
            HeaderBuilder::EntryCreate { entry_type, entry_hash } => HeaderV::EntryCreate(
                EntryCreate { author, timestamp, header_seq, prev_header, entry_type, entry_hash },
            ),
            HeaderBuilder::EntryUpdate {
                intended_for,
                original_header_address,
                original_entry_address,
                entry_type,
                entry_hash,
            } => HeaderV::EntryUpdate(
                EntryUpdate {
                    author,
                    timestamp,
                    header_seq,
                    prev_header,
                    intended_for,
                    original_header_address,
                    original_entry_address,
                    entry_type,
                    entry_hash,
                },
            ),
            HeaderBuilder::ElementDelete { deletes_address, deletes_entry_address } => HeaderV::ElementDelete(
                ElementDelete {
                    author,
                    timestamp,
                    header_seq,
                    prev_header,
                    deletes_address,
                    deletes_entry_address,
                },
            ),
        }
    }

    /// Complete this builder into a full header.
    pub fn build(self, common: HeaderBuilderCommon) -> (r: Header)
        ensures
            r@ == self.spec_build(common),
    {
        let author = common.author;
        let timestamp = common.timestamp;
        let header_seq = common.header_seq;
        let prev_header = common.prev_header;
        match self {
            HeaderBuilder::AgentValidationPkg { membrane_proof } => Header::AgentValidationPkg(
                AgentValidationPkg { author, timestamp, header_seq, prev_header, membrane_proof },
            ),
            HeaderBuilder::InitZomesComplete => Header::InitZomesComplete(
                InitZomesComplete { author, timestamp, header_seq, prev_header },
            ),
            HeaderBuilder::LinkAdd { base_address, target_address, zome_id, tag } => Header::LinkAdd(
                LinkAdd {
                    author,
                    timestamp,
                    header_seq,
                    prev_header,
                    base_address,
                    target_address,
                    zome_id,
                    tag,
                },
            ),
            HeaderBuilder::LinkRemove { base_address, link_add_address } => Header::LinkRemove(
                LinkRemove {
                    author,
                    timestamp,
                    header_seq,
                    prev_header,
                    base_address,
                    link_add_address,
                },
            ),
            HeaderBuilder::ChainOpen { prev_dna_hash } => Header::ChainOpen(
                ChainOpen { author, timestamp, header_seq, prev_header, prev_dna_hash },
            ),
            HeaderBuilder::ChainClose { new_dna_hash } => Header::ChainClose(
                ChainClose { author, timestamp, header_seq, prev_header, new_dna_hash },
            ),
            HeaderBuilder::EntryCreate { entry_type, entry_hash } => Header::EntryCreate(
                EntryCreate { author, timestamp, header_seq, prev_header, entry_type, entry_hash },
            ),
            HeaderBuilder::EntryUpdate {
                intended_for,
                original_header_address,
                original_entry_address,
                entry_type,
                entry_hash,
            } => Header::EntryUpdate(
                EntryUpdate {
                    author,
                    timestamp,
                    header_seq,
                    prev_header,
                    intended_for,
                    original_header_address,
                    original_entry_address,
                    entry_type,
                    entry_hash,
                },
            ),
            HeaderBuilder::ElementDelete { deletes_address, deletes_entry_address } => Header::ElementDelete(
                ElementDelete {
                    author,
                    timestamp,
                    header_seq,
                    prev_header,
                    deletes_address,
                    deletes_entry_address,
                },
            ),
        }
    }
}

} // verus!
