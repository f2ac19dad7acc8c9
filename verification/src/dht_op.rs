use vstd::prelude::*;

use crate::EntryVisibility;
use crate::codec::enc_header;
use crate::codec::encode_header;
use crate::codec::header_wf;
use crate::codec::lemma_digest_as_array_id;
use crate::codec::spec_hash_of;
use crate::entry::Entry;
use crate::entry::EntryV;
use crate::entry::entry_hash_of;
use crate::entry::entry_wf;
use crate::entry::hash_entry;
use crate::element::Element;
use crate::element::ElementV;
use crate::hash::AnyDhtHash;
use crate::hash::DhtOpHash;
use crate::hash::HashKind;
use crate::hash::HoloHash;
use crate::header::ElementDelete;
use crate::header::EntryCreate;
use crate::header::EntryUpdate;
use crate::header::Header;
use crate::header::HeaderV;
use crate::header::LinkAddV;
use crate::header::LinkRemove;
use crate::header::NewEntryHeader;
use crate::header::Timestamp;
use crate::keystore::Signature;
use crate::keystore::agent_verifies;

verus! {

/// The nine kinds of DHT op, in their integration priority order.
#[derive(Clone, Copy, Debug, PartialEq, Eq, Structural)]
pub enum DhtOpType {
    StoreElement,
    StoreEntry,
    RegisterAgentActivity,
    RegisterUpdatedContent,
    RegisterUpdatedElement,
    RegisterDeletedBy,
    RegisterDeletedEntryHeader,
    RegisterAddLink,
    RegisterRemoveLink,
}

impl DhtOpType {
    /// Integration priority: ops that store data come before ops that
    /// register metadata about it.
    pub open spec fn spec_priority(self) -> u8 {
        match self {
            DhtOpType::StoreElement => 0,
            DhtOpType::StoreEntry => 1,
            DhtOpType::RegisterAgentActivity => 2,
            DhtOpType::RegisterUpdatedContent => 3,
            DhtOpType::RegisterUpdatedElement => 4,
            DhtOpType::RegisterDeletedBy => 5,
            DhtOpType::RegisterDeletedEntryHeader => 6,
            DhtOpType::RegisterAddLink => 7,
            DhtOpType::RegisterRemoveLink => 8,
        }
    }

    pub fn priority(self) -> (r: u8)
        ensures
            r == self.spec_priority(),
    {
        match self {
            DhtOpType::StoreElement => 0,
            DhtOpType::StoreEntry => 1,
            DhtOpType::RegisterAgentActivity => 2,
            DhtOpType::RegisterUpdatedContent => 3,
            DhtOpType::RegisterUpdatedElement => 4,
            DhtOpType::RegisterDeletedBy => 5,
            DhtOpType::RegisterDeletedEntryHeader => 6,
            DhtOpType::RegisterAddLink => 7,
            DhtOpType::RegisterRemoveLink => 8,
        }
    }
}

/// The total order ops are integrated in: first by type priority, then by
/// authoring time. Two ops compare by these two fields alone.
#[derive(Clone, Copy, Debug, PartialEq, Eq, Structural)]
pub struct OpOrder {
    pub type_priority: u8,
    pub timestamp: Timestamp,
}

impl OpOrder {
    pub fn new(op_type: DhtOpType, timestamp: Timestamp) -> (r: OpOrder)
        ensures
            r.type_priority == op_type.spec_priority(),
            r.timestamp == timestamp,
    {
        OpOrder { type_priority: op_type.priority(), timestamp }
    }

    /// The lexicographic order on (type priority, timestamp).
    pub open spec fn spec_le(self, other: OpOrder) -> bool {
        self.type_priority < other.type_priority || (self.type_priority == other.type_priority
            && self.timestamp.0 <= other.timestamp.0)
    }

    pub fn le(&self, other: &OpOrder) -> (r: bool)
        ensures
            r == self.spec_le(*other),
    {
        self.type_priority < other.type_priority || (self.type_priority == other.type_priority
            && self.timestamp.0 <= other.timestamp.0)
    }
}

/// A unit of DHT gossip: one aspect of a committed record, addressed to the
/// authority that indexes that aspect.
#[derive(Debug)]
pub enum DhtOp {
    /// The full record, for the header authority.
    StoreElement(Signature, Header, Option<Entry>),
    /// The public entry with its header, for the entry authority.
    StoreEntry(Signature, NewEntryHeader, Entry),
    /// The bare header, for the author's activity authority.
    RegisterAgentActivity(Signature, Header),
    /// An update, indexed at the original entry.
    RegisterUpdatedContent(Signature, EntryUpdate, Option<Entry>),
    /// An update, indexed at the original header.
    RegisterUpdatedElement(Signature, EntryUpdate, Option<Entry>),
    /// A delete, indexed at the deleted header.
    RegisterDeletedBy(Signature, ElementDelete),
    /// A delete, indexed at the deleted entry.
    RegisterDeletedEntryHeader(Signature, ElementDelete),
    /// A link creation, indexed at the base.
    RegisterAddLink(Signature, crate::header::LinkAdd),
    /// A link removal, indexed at the base.
    RegisterRemoveLink(Signature, LinkRemove),
}

/// The ghost image of a `DhtOp`.
pub enum DhtOpV {
    StoreElement(Signature, HeaderV, Option<EntryV>),
    StoreEntry(Signature, NewEntryHeader, EntryV),
    RegisterAgentActivity(Signature, HeaderV),
    RegisterUpdatedContent(Signature, EntryUpdate, Option<EntryV>),
    RegisterUpdatedElement(Signature, EntryUpdate, Option<EntryV>),
    RegisterDeletedBy(Signature, ElementDelete),
    RegisterDeletedEntryHeader(Signature, ElementDelete),
    RegisterAddLink(Signature, LinkAddV),
    RegisterRemoveLink(Signature, LinkRemove),
}

impl View for DhtOp {
    type V = DhtOpV;

    open spec fn view(&self) -> DhtOpV {
        match self {
            DhtOp::StoreElement(s, h, e) => DhtOpV::StoreElement(
                *s,
                h@,
                match e {
                    Some(e) => Some(e@),
                    None => None,
                },
            ),
            DhtOp::StoreEntry(s, h, e) => DhtOpV::StoreEntry(*s, *h, e@),
            DhtOp::RegisterAgentActivity(s, h) => DhtOpV::RegisterAgentActivity(*s, h@),
            DhtOp::RegisterUpdatedContent(s, h, e) => DhtOpV::RegisterUpdatedContent(
                *s,
                *h,
                match e {
                    Some(e) => Some(e@),
                    None => None,
                },
            ),
            DhtOp::RegisterUpdatedElement(s, h, e) => DhtOpV::RegisterUpdatedElement(
                *s,
                *h,
                match e {
                    Some(e) => Some(e@),
                    None => None,
                },
            ),
            DhtOp::RegisterDeletedBy(s, h) => DhtOpV::RegisterDeletedBy(*s, *h),
            DhtOp::RegisterDeletedEntryHeader(s, h) => DhtOpV::RegisterDeletedEntryHeader(*s, *h),
            DhtOp::RegisterAddLink(s, h) => DhtOpV::RegisterAddLink(*s, h@),
            DhtOp::RegisterRemoveLink(s, h) => DhtOpV::RegisterRemoveLink(*s, *h),
        }
    }
}

impl DhtOpV {
    /// The header carried by this op.
    pub open spec fn header(self) -> HeaderV {
        match self {
            DhtOpV::StoreElement(_, h, _) => h,
            DhtOpV::StoreEntry(_, h, _) => h.spec_to_header(),
            DhtOpV::RegisterAgentActivity(_, h) => h,
            DhtOpV::RegisterUpdatedContent(_, h, _) => HeaderV::EntryUpdate(h),
            DhtOpV::RegisterUpdatedElement(_, h, _) => HeaderV::EntryUpdate(h),
            DhtOpV::RegisterDeletedBy(_, h) => HeaderV::ElementDelete(h),
            DhtOpV::RegisterDeletedEntryHeader(_, h) => HeaderV::ElementDelete(h),
            DhtOpV::RegisterAddLink(_, h) => HeaderV::LinkAdd(h),
            DhtOpV::RegisterRemoveLink(_, h) => HeaderV::LinkRemove(h),
        }
    }

    /// The signature carried by this op.
    pub open spec fn signature(self) -> Signature {
        match self {
            DhtOpV::StoreElement(s, _, _) => s,
            DhtOpV::StoreEntry(s, _, _) => s,
            DhtOpV::RegisterAgentActivity(s, _) => s,
            DhtOpV::RegisterUpdatedContent(s, _, _) => s,
            DhtOpV::RegisterUpdatedElement(s, _, _) => s,
            DhtOpV::RegisterDeletedBy(s, _) => s,
            DhtOpV::RegisterDeletedEntryHeader(s, _) => s,
            DhtOpV::RegisterAddLink(s, _) => s,
            DhtOpV::RegisterRemoveLink(s, _) => s,
        }
    }

    /// The entry carried by this op, if any.
    pub open spec fn entry(self) -> Option<EntryV> {
        match self {
            DhtOpV::StoreElement(_, _, e) => e,
            DhtOpV::StoreEntry(_, _, e) => Some(e),
            DhtOpV::RegisterUpdatedContent(_, _, e) => e,
            DhtOpV::RegisterUpdatedElement(_, _, e) => e,
            _ => None,
        }
    }

    /// This op's kind.
    pub open spec fn get_type(self) -> DhtOpType {
        match self {
            DhtOpV::StoreElement(..) => DhtOpType::StoreElement,
            DhtOpV::StoreEntry(..) => DhtOpType::StoreEntry,
            DhtOpV::RegisterAgentActivity(..) => DhtOpType::RegisterAgentActivity,
            DhtOpV::RegisterUpdatedContent(..) => DhtOpType::RegisterUpdatedContent,
            DhtOpV::RegisterUpdatedElement(..) => DhtOpType::RegisterUpdatedElement,
            DhtOpV::RegisterDeletedBy(..) => DhtOpType::RegisterDeletedBy,
            DhtOpV::RegisterDeletedEntryHeader(..) => DhtOpType::RegisterDeletedEntryHeader,
            DhtOpV::RegisterAddLink(..) => DhtOpType::RegisterAddLink,
            DhtOpV::RegisterRemoveLink(..) => DhtOpType::RegisterRemoveLink,
        }
    }

    /// The basis: which DHT location stores this op.
    pub open spec fn spec_basis(self) -> AnyDhtHash {
        match self {
            DhtOpV::StoreElement(_, h, _) => crate::codec::header_hash_of(h),
            DhtOpV::StoreEntry(_, h, _) => h.spec_entry(),
            DhtOpV::RegisterAgentActivity(_, h) => h.author(),
            DhtOpV::RegisterUpdatedContent(_, h, _) => h.original_entry_address,
            DhtOpV::RegisterUpdatedElement(_, h, _) => h.original_header_address,
            DhtOpV::RegisterDeletedBy(_, h) => h.deletes_address,
            DhtOpV::RegisterDeletedEntryHeader(_, h) => h.deletes_entry_address,
            DhtOpV::RegisterAddLink(_, h) => h.base_address,
            DhtOpV::RegisterRemoveLink(_, h) => h.base_address,
        }
    }

    /// An op is well formed when its header is.
    pub open spec fn wf(self) -> bool {
        &&& header_wf(self.header())
        &&& match self.entry() {
            Some(e) => entry_wf(e),
            None => true,
        }
    }
}

impl DhtOp {
    pub fn get_type(&self) -> (r: DhtOpType)
        ensures
            r == self@.get_type(),
    {
        match self {
            DhtOp::StoreElement(..) => DhtOpType::StoreElement,
            DhtOp::StoreEntry(..) => DhtOpType::StoreEntry,
            DhtOp::RegisterAgentActivity(..) => DhtOpType::RegisterAgentActivity,
            DhtOp::RegisterUpdatedContent(..) => DhtOpType::RegisterUpdatedContent,
            DhtOp::RegisterUpdatedElement(..) => DhtOpType::RegisterUpdatedElement,
            DhtOp::RegisterDeletedBy(..) => DhtOpType::RegisterDeletedBy,
            DhtOp::RegisterDeletedEntryHeader(..) => DhtOpType::RegisterDeletedEntryHeader,
            DhtOp::RegisterAddLink(..) => DhtOpType::RegisterAddLink,
            DhtOp::RegisterRemoveLink(..) => DhtOpType::RegisterRemoveLink,
        }
    }

    /// The header carried by this op, rebuilt as a plain header.
    pub fn header(&self) -> (r: Header)
        ensures
            r@ == self@.header(),
    {
        match self {
            DhtOp::StoreElement(_, h, _) => h.dup(),
            DhtOp::StoreEntry(_, h, _) => h.to_header(),
            DhtOp::RegisterAgentActivity(_, h) => h.dup(),
            DhtOp::RegisterUpdatedContent(_, h, _) => Header::EntryUpdate(*h),
            DhtOp::RegisterUpdatedElement(_, h, _) => Header::EntryUpdate(*h),
            DhtOp::RegisterDeletedBy(_, h) => Header::ElementDelete(*h),
            DhtOp::RegisterDeletedEntryHeader(_, h) => Header::ElementDelete(*h),
            DhtOp::RegisterAddLink(_, h) => Header::LinkAdd(
                crate::header::LinkAdd {
                    author: h.author,
                    timestamp: h.timestamp,
                    header_seq: h.header_seq,
                    prev_header: h.prev_header,
                    base_address: h.base_address,
                    target_address: h.target_address,
                    zome_id: h.zome_id,
                    tag: h.tag.dup(),
                },
            ),
            DhtOp::RegisterRemoveLink(_, h) => Header::LinkRemove(*h),
        }
    }

    pub fn signature(&self) -> (r: Signature)
        ensures
            r == self@.signature(),
    {
        match self {
            DhtOp::StoreElement(s, _, _) => *s,
            DhtOp::StoreEntry(s, _, _) => *s,
            DhtOp::RegisterAgentActivity(s, _) => *s,
            DhtOp::RegisterUpdatedContent(s, _, _) => *s,
            DhtOp::RegisterUpdatedElement(s, _, _) => *s,
            DhtOp::RegisterDeletedBy(s, _) => *s,
            DhtOp::RegisterDeletedEntryHeader(s, _) => *s,
            DhtOp::RegisterAddLink(s, _) => *s,
            DhtOp::RegisterRemoveLink(s, _) => *s,
        }
    }

    /// When the op's record was authored.
    pub fn timestamp(&self) -> (r: Timestamp)
        ensures
            r == self@.header().timestamp(),
    {
        let h = self.header();
        h.timestamp()
    }

    /// The basis hash: which authorities receive this op.
    pub fn dht_basis(&self) -> (r: AnyDhtHash)
        requires
            self@.wf(),
        ensures
            r == self@.spec_basis(),
    {
        match self {
            DhtOp::StoreElement(_, h, _) => crate::codec::hash_header(h),
            DhtOp::StoreEntry(_, h, _) => h.entry(),
            DhtOp::RegisterAgentActivity(_, h) => h.author(),
            DhtOp::RegisterUpdatedContent(_, h, _) => h.original_entry_address,
            DhtOp::RegisterUpdatedElement(_, h, _) => h.original_header_address,
            DhtOp::RegisterDeletedBy(_, h) => h.deletes_address,
            DhtOp::RegisterDeletedEntryHeader(_, h) => h.deletes_entry_address,
            DhtOp::RegisterAddLink(_, h) => h.base_address,
            DhtOp::RegisterRemoveLink(_, h) => h.base_address,
        }
    }
}

/// The unique form an op is hashed through: its type byte and its header's
/// wire form. Signatures are left out: they would only repeat the header.
pub open spec fn op_unique_form(op: DhtOpV) -> Seq<u8> {
    seq![op.get_type().spec_priority()] + enc_header(op.header())
}

/// The content address of an op.
pub open spec fn op_hash_of(op: DhtOpV) -> DhtOpHash {
    spec_hash_of(HashKind::DhtOp, op_unique_form(op))
}

/// Hash an op over its unique form.
pub fn dht_op_hash(op: &DhtOp) -> (r: DhtOpHash)
    requires
        self_wf_for_hash(op@),
    ensures
        r == op_hash_of(op@),
        r.wf(),
{
    let mut bytes: Vec<u8> = Vec::new();
    let t = op.get_type();
    bytes.push(t.priority());
    let header = op.header();
    let hb = encode_header(&header);
    let mut i: usize = 0;
    while i < hb.len()
        invariant
            i <= hb.len(),
            bytes@ == seq![op@.get_type().spec_priority()] + hb@.subrange(0, i as int),
        decreases hb.len() - i,
    {
        bytes.push(hb[i]);
        proof {
            assert(bytes@ =~= seq![op@.get_type().spec_priority()] + hb@.subrange(0, i + 1));
        }
        i = i + 1;
    }
    proof {
        assert(bytes@ =~= op_unique_form(op@));
    }
    let r = HoloHash::with_data(HashKind::DhtOp, &bytes);
    proof {
        lemma_digest_as_array_id(r.digest);
    }
    r
}

/// Headers are hashable whenever well formed.
pub open spec fn self_wf_for_hash(op: DhtOpV) -> bool {
    header_wf(op.header())
}

/// A hashed op, paired with its content address.
#[derive(Debug)]
pub struct DhtOpHashed {
    pub op: DhtOp,
    pub hash: DhtOpHash,
}

impl DhtOpHashed {
    /// Pair an op with its computed hash.
    pub fn from_content_sync(op: DhtOp) -> (r: DhtOpHashed)
        requires
            op@.wf(),
        ensures
            r.op@ == op@,
            r.hash == op_hash_of(op@),
    {
        let hash = dht_op_hash(&op);
        DhtOpHashed { op, hash }
    }

    pub fn as_hash(&self) -> (r: DhtOpHash)
        ensures
            r == self.hash,
    {
        self.hash
    }
}

/// Errors of op production.
#[derive(Debug)]
pub enum DhtOpError {
    /// A public new-entry header arrived without its entry.
    HeaderWithoutEntry(Header),
}

/// Whether a record must carry an entry for fanout: its header creates a
/// public entry.
pub open spec fn requires_entry(h: HeaderV) -> bool {
    match h.entry_data() {
        Some((_, t)) => t.spec_visibility() == EntryVisibility::Public,
        None => false,
    }
}

/// The entry a `StoreElement` op carries: private entries are stripped, the
/// header still fans out.
pub open spec fn element_op_entry(h: HeaderV, me: Option<EntryV>) -> Option<EntryV> {
    match h.entry_data() {
        Some((_, t)) => if t.spec_visibility() == EntryVisibility::Public {
            me
        } else {
            None
        },
        None => None,
    }
}

/// Exactly the ops that a committed record fans out to, in order: the full
/// record for the header authority and the activity op for the author's
/// authority always; a `StoreEntry` for public new entries; both update
/// registrations for updates; both delete registrations for deletes; the
/// link registrations for links.
pub open spec fn expected_ops(sig: Signature, h: HeaderV, me: Option<EntryV>) -> Seq<DhtOpV> {
    let base = seq![
        DhtOpV::StoreElement(sig, h, element_op_entry(h, me)),
        DhtOpV::RegisterAgentActivity(sig, h),
    ];
    match h {
        HeaderV::EntryCreate(c) => if c.entry_type.spec_visibility() == EntryVisibility::Public {
            base.push(DhtOpV::StoreEntry(sig, NewEntryHeader::Create(c), me->Some_0))
        } else {
            base
        },
        HeaderV::EntryUpdate(u) => {
            let with_store = if u.entry_type.spec_visibility() == EntryVisibility::Public {
                base.push(DhtOpV::StoreEntry(sig, NewEntryHeader::Update(u), me->Some_0))
            } else {
                base
            };
            let strip = element_op_entry(HeaderV::EntryUpdate(u), me);
            with_store.push(DhtOpV::RegisterUpdatedContent(sig, u, strip)).push(
                DhtOpV::RegisterUpdatedElement(sig, u, strip),
            )
        },
        HeaderV::ElementDelete(d) => base.push(DhtOpV::RegisterDeletedBy(sig, d)).push(
            DhtOpV::RegisterDeletedEntryHeader(sig, d),
        ),
        HeaderV::LinkAdd(l) => base.push(DhtOpV::RegisterAddLink(sig, l)),
        HeaderV::LinkRemove(l) => base.push(DhtOpV::RegisterRemoveLink(sig, l)),
        _ => base,
    }
}

/// Fan a committed record out into its DHT ops.
///
/// Succeeds exactly when the record carries the entry its header requires;
/// the result is then exactly the op set of the fanout table.
pub fn ops_from_element(element: &Element) -> (r: Result<Vec<DhtOp>, DhtOpError>)
    ensures
        match r {
            Ok(ops) => {
                &&& Seq::new(ops@.len(), |i: int| ops@[i]@) == expected_ops(
                    element@.signed_header.signature,
                    element@.signed_header.header,
                    element@.maybe_entry,
                )
                &&& !(requires_entry(element@.signed_header.header)
                    && element@.maybe_entry is None)
            },
            Err(e) => {
                &&& requires_entry(element@.signed_header.header) && element@.maybe_entry is None
                &&& e matches DhtOpError::HeaderWithoutEntry(h) && h@ == element@.signed_header.header
            },
        },
{
    let sig = element.signature();
    let header = element.signed_header().header();
    let ghost hv = element@.signed_header.header;
    let ghost me = element@.maybe_entry;

    let needs_entry = match header.entry_data() {
        Some((_, t)) => t.visibility().is_public(),
        None => false,
    };
    let have_entry = match element.entry().as_option() {
        Some(_) => true,
        None => false,
    };
    if needs_entry && !have_entry {
        return Err(DhtOpError::HeaderWithoutEntry(element.signed_header().header().dup()));
    }

    let mut ops: Vec<DhtOp> = Vec::new();

    // The element's entry, stripped for private types.
    let element_entry: Option<Entry> = if needs_entry {
        match element.entry().as_option() {
            Some(e) => Some(e.dup()),
            None => None,
        }
    } else {
        None
    };
    proof {
        match element_entry {
            Some(ref e) => {
                assert(element_op_entry(hv, me) == Some(e@));
            },
            None => {
                assert(element_op_entry(hv, me) is None);
            },
        }
    }
    ops.push(DhtOp::StoreElement(sig, header.dup(), element_entry));
    ops.push(DhtOp::RegisterAgentActivity(sig, header.dup()));

    match header {
        Header::EntryCreate(c) => {
            if c.entry_type.visibility().is_public() {
                let e = match element.entry().as_option() {
                    Some(e) => e.dup(),
                    None => {
                        return Err(
                            DhtOpError::HeaderWithoutEntry(element.signed_header().header().dup()),
                        );
                    },
                };
                ops.push(DhtOp::StoreEntry(sig, NewEntryHeader::Create(*c), e));
            }
        },
        Header::EntryUpdate(u) => {
            if u.entry_type.visibility().is_public() {
                let e = match element.entry().as_option() {
                    Some(e) => e.dup(),
                    None => {
                        return Err(
                            DhtOpError::HeaderWithoutEntry(element.signed_header().header().dup()),
                        );
                    },
                };
                ops.push(DhtOp::StoreEntry(sig, NewEntryHeader::Update(*u), e));
            }
            let strip1: Option<Entry> = if needs_entry {
                match element.entry().as_option() {
                    Some(e) => Some(e.dup()),
                    None => None,
                }
            } else {
                None
            };
            let strip2: Option<Entry> = if needs_entry {
                match element.entry().as_option() {
                    Some(e) => Some(e.dup()),
                    None => None,
                }
            } else {
                None
            };
            proof {
                match strip1 {
                    Some(ref e) => {
                        assert(element_op_entry(hv, me) == Some(e@));
                    },
                    None => {
                        assert(element_op_entry(hv, me) is None);
                    },
                }
                match strip2 {
                    Some(ref e) => {
                        assert(element_op_entry(hv, me) == Some(e@));
                    },
                    None => {
                        assert(element_op_entry(hv, me) is None);
                    },
                }
            }
            ops.push(DhtOp::RegisterUpdatedContent(sig, *u, strip1));
            ops.push(DhtOp::RegisterUpdatedElement(sig, *u, strip2));
        },
        Header::ElementDelete(d) => {
            ops.push(DhtOp::RegisterDeletedBy(sig, *d));
            ops.push(DhtOp::RegisterDeletedEntryHeader(sig, *d));
        },
        Header::LinkAdd(l) => {
            ops.push(
                DhtOp::RegisterAddLink(
                    sig,
                    crate::header::LinkAdd {
                        author: l.author,
                        timestamp: l.timestamp,
                        header_seq: l.header_seq,
                        prev_header: l.prev_header,
                        base_address: l.base_address,
                        target_address: l.target_address,
                        zome_id: l.zome_id,
                        tag: l.tag.dup(),
                    },
                ),
            );
        },
        Header::LinkRemove(l) => {
            ops.push(DhtOp::RegisterRemoveLink(sig, *l));
        },
        _ => {},
    }
    proof {
        assert(Seq::new(ops@.len(), |i: int| ops@[i]@) =~= expected_ops(
            element@.signed_header.signature,
            hv,
            me,
        ));
    }
    Ok(ops)
}

/// Every op a record fans out to covers exactly the variants of the fanout
/// table: the record and activity ops always, the entry-store op exactly for
/// public new entries, both update registrations for an update, both delete
/// registrations for a delete, one link registration per link header. No op
/// of any other kind is produced.
pub proof fn lemma_fanout_completeness(sig: Signature, h: HeaderV, me: Option<EntryV>)
    ensures
        ({
            let ops = expected_ops(sig, h, me);
            let types = Seq::new(ops.len(), |i: int| ops[i].get_type());
            &&& ops[0] == DhtOpV::StoreElement(sig, h, element_op_entry(h, me))
            &&& ops[1] == DhtOpV::RegisterAgentActivity(sig, h)
            &&& forall|i: int| 0 <= i < ops.len() ==> (#[trigger] ops[i]).header() == h
            &&& forall|i: int| 0 <= i < ops.len() ==> (#[trigger] ops[i]).signature() == sig
            &&& types =~= expected_types(h)
        }),
{
    let ops = expected_ops(sig, h, me);
    let types = Seq::new(ops.len(), |i: int| ops[i].get_type());
    assert(types =~= expected_types(h));
}

/// The op kinds each header variant fans out to.
pub open spec fn expected_types(h: HeaderV) -> Seq<DhtOpType> {
    let base = seq![DhtOpType::StoreElement, DhtOpType::RegisterAgentActivity];
    match h {
        HeaderV::EntryCreate(c) => if c.entry_type.spec_visibility() == EntryVisibility::Public {
            base.push(DhtOpType::StoreEntry)
        } else {
            base
        },
        HeaderV::EntryUpdate(u) => (if u.entry_type.spec_visibility() == EntryVisibility::Public {
            base.push(DhtOpType::StoreEntry)
        } else {
            base
        }).push(DhtOpType::RegisterUpdatedContent).push(DhtOpType::RegisterUpdatedElement),
        HeaderV::ElementDelete(_) => base.push(DhtOpType::RegisterDeletedBy).push(
            DhtOpType::RegisterDeletedEntryHeader,
        ),
        HeaderV::LinkAdd(_) => base.push(DhtOpType::RegisterAddLink),
        HeaderV::LinkRemove(_) => base.push(DhtOpType::RegisterRemoveLink),
        _ => base,
    }
}

/// Every `StoreEntry` op of a well-formed record's fanout stores a public
/// entry whose hash is the one its header names.
pub proof fn lemma_store_entry_public(e: ElementV)
    requires
        e.wf(),
        !(requires_entry(e.signed_header.header) && e.maybe_entry is None),
    ensures
        forall|i: int|
            0 <= i < expected_ops(e.signed_header.signature, e.signed_header.header, e.maybe_entry).len()
                ==> {
                let op = #[trigger] expected_ops(
                    e.signed_header.signature,
                    e.signed_header.header,
                    e.maybe_entry,
                )[i];
                op matches DhtOpV::StoreEntry(_, h, en) ==> h.spec_entry() == entry_hash_of(en)
                    && h.spec_visibility() == EntryVisibility::Public
            },
{
    reveal(crate::element::element_wf_def);
}

/// A store-friendly digest of an op: hashes only, no payloads.
#[derive(Clone, Copy, Debug)]
pub enum DhtOpLight {
    StoreElement(HeaderHash, Option<crate::hash::EntryHash>),
    StoreEntry(HeaderHash, crate::hash::EntryHash),
    RegisterAgentActivity(HeaderHash),
    RegisterUpdatedContent(HeaderHash, crate::hash::EntryHash),
    RegisterUpdatedElement(HeaderHash, HeaderHash),
    RegisterDeletedBy(HeaderHash),
    RegisterDeletedEntryHeader(HeaderHash),
    RegisterAddLink(HeaderHash),
    RegisterRemoveLink(HeaderHash),
}

use crate::hash::HeaderHash;

impl DhtOpLight {
    pub fn get_type(&self) -> (r: DhtOpType)
        ensures
            r == match self {
                DhtOpLight::StoreElement(..) => DhtOpType::StoreElement,
                DhtOpLight::StoreEntry(..) => DhtOpType::StoreEntry,
                DhtOpLight::RegisterAgentActivity(..) => DhtOpType::RegisterAgentActivity,
                DhtOpLight::RegisterUpdatedContent(..) => DhtOpType::RegisterUpdatedContent,
                DhtOpLight::RegisterUpdatedElement(..) => DhtOpType::RegisterUpdatedElement,
                DhtOpLight::RegisterDeletedBy(..) => DhtOpType::RegisterDeletedBy,
                DhtOpLight::RegisterDeletedEntryHeader(..) => DhtOpType::RegisterDeletedEntryHeader,
                DhtOpLight::RegisterAddLink(..) => DhtOpType::RegisterAddLink,
                DhtOpLight::RegisterRemoveLink(..) => DhtOpType::RegisterRemoveLink,
            },
    {
        match self {
            DhtOpLight::StoreElement(..) => DhtOpType::StoreElement,
            DhtOpLight::StoreEntry(..) => DhtOpType::StoreEntry,
            DhtOpLight::RegisterAgentActivity(..) => DhtOpType::RegisterAgentActivity,
            DhtOpLight::RegisterUpdatedContent(..) => DhtOpType::RegisterUpdatedContent,
            DhtOpLight::RegisterUpdatedElement(..) => DhtOpType::RegisterUpdatedElement,
            DhtOpLight::RegisterDeletedBy(..) => DhtOpType::RegisterDeletedBy,
            DhtOpLight::RegisterDeletedEntryHeader(..) => DhtOpType::RegisterDeletedEntryHeader,
            DhtOpLight::RegisterAddLink(..) => DhtOpType::RegisterAddLink,
            DhtOpLight::RegisterRemoveLink(..) => DhtOpType::RegisterRemoveLink,
        }
    }

    /// What an op shrinks to: the header hash it is about, plus the entry or
    /// header hash it indexes.
    pub open spec fn spec_from_op(op: DhtOpV) -> DhtOpLight {
        let hh = crate::codec::header_hash_of(op.header());
        match op {
            DhtOpV::StoreElement(_, h, _) => DhtOpLight::StoreElement(
                hh,
                match h.entry_data() {
                    Some((eh, _)) => Some(eh),
                    None => None,
                },
            ),
            DhtOpV::StoreEntry(_, h, _) => DhtOpLight::StoreEntry(hh, h.spec_entry()),
            DhtOpV::RegisterAgentActivity(_, _) => DhtOpLight::RegisterAgentActivity(hh),
            DhtOpV::RegisterUpdatedContent(_, h, _) => DhtOpLight::RegisterUpdatedContent(
                hh,
                h.original_entry_address,
            ),
            DhtOpV::RegisterUpdatedElement(_, h, _) => DhtOpLight::RegisterUpdatedElement(
                hh,
                h.original_header_address,
            ),
            DhtOpV::RegisterDeletedBy(_, h) => DhtOpLight::RegisterDeletedBy(hh),
            DhtOpV::RegisterDeletedEntryHeader(_, h) => DhtOpLight::RegisterDeletedEntryHeader(hh),
            DhtOpV::RegisterAddLink(_, _) => DhtOpLight::RegisterAddLink(hh),
            DhtOpV::RegisterRemoveLink(_, _) => DhtOpLight::RegisterRemoveLink(hh),
        }
    }

    /// Shrink an op to its light form.
    pub fn from_op(op: &DhtOp) -> (r: DhtOpLight)
        requires
            op@.wf(),
        ensures
            r == DhtOpLight::spec_from_op(op@),
    {
        let header = op.header();
        let hh = crate::codec::hash_header(&header);
        match op {
            DhtOp::StoreElement(_, h, _) => {
                let eh = match h.entry_data() {
                    Some((eh, _)) => Some(eh),
                    None => None,
                };
                DhtOpLight::StoreElement(hh, eh)
            },
            DhtOp::StoreEntry(_, h, _) => DhtOpLight::StoreEntry(hh, h.entry()),
            DhtOp::RegisterAgentActivity(_, _) => DhtOpLight::RegisterAgentActivity(hh),
            DhtOp::RegisterUpdatedContent(_, h, _) => DhtOpLight::RegisterUpdatedContent(
                hh,
                h.original_entry_address,
            ),
            DhtOp::RegisterUpdatedElement(_, h, _) => DhtOpLight::RegisterUpdatedElement(
                hh,
                h.original_header_address,
            ),
            DhtOp::RegisterDeletedBy(_, _) => DhtOpLight::RegisterDeletedBy(hh),
            DhtOp::RegisterDeletedEntryHeader(_, _) => DhtOpLight::RegisterDeletedEntryHeader(hh),
            DhtOp::RegisterAddLink(_, _) => DhtOpLight::RegisterAddLink(hh),
            DhtOp::RegisterRemoveLink(_, _) => DhtOpLight::RegisterRemoveLink(hh),
        }
    }
}

/// Check an op's internal consistency, as system validation sees it:
/// the entry is present exactly when the header names one (public, when
/// demanded), the entry hashes to the header's entry address, the author is
/// the expected one, and the signature verifies over the header.
pub fn valid_dht_op(op: &DhtOp, author: &crate::hash::AgentPubKey, must_be_public: bool) -> (r:
    bool)
    requires
        op@.wf(),
    ensures
        r == (valid_op_shape(op@, must_be_public) && op@.header().author() == *author
            && agent_verifies(op@.header().author(), op@.signature(), enc_header(op@.header()))),
{
    let header = op.header();
    let shape_ok: bool = match (header.entry_data(), op_entry_ref(op)) {
        (Some((eh, et)), Some(e)) => {
            if must_be_public && !et.visibility().is_public() {
                false
            } else {
                let actual = hash_entry(e);
                actual.eq(&eh)
            }
        },
        (None, None) => true,
        _ => false,
    };
    if !shape_ok {
        return false;
    }
    let a = header.author();
    if !a.eq(author) {
        return false;
    }
    let sig = op.signature();
    crate::keystore::verify_header_signature(&a, &sig, &header)
}

/// The entry carried by an op, by reference.
fn op_entry_ref(op: &DhtOp) -> (r: Option<&Entry>)
    ensures
        match r {
            Some(e) => op@.entry() == Some(e@),
            None => op@.entry() is None,
        },
{
    match op {
        DhtOp::StoreElement(_, _, Some(e)) => Some(e),
        DhtOp::StoreEntry(_, _, e) => Some(e),
        DhtOp::RegisterUpdatedContent(_, _, Some(e)) => Some(e),
        DhtOp::RegisterUpdatedElement(_, _, Some(e)) => Some(e),
        _ => None,
    }
}

/// The shape side of op validity: entry presence, visibility and hash.
pub open spec fn valid_op_shape(op: DhtOpV, must_be_public: bool) -> bool {
    match (op.header().entry_data(), op.entry()) {
        (Some((eh, et)), Some(e)) => (!must_be_public || et.spec_visibility()
            == EntryVisibility::Public) && entry_hash_of(e) == eh,
        (None, None) => true,
        _ => false,
    }
}

} // verus!
