use vstd::prelude::*;

use crate::dht_op::DhtOpHashed;
use crate::dht_op::DhtOpType;
use crate::dht_op::DhtOpV;
use crate::dht_op::OpOrder;
use crate::dht_op::expected_ops;
use crate::dht_op::op_hash_of;
use crate::dht_op::ops_from_element;
use crate::dht_op::requires_entry;
use crate::element::Element;
use crate::element::ElementV;
use crate::element::SignedHeaderHashed;
use crate::hash::DhtOpHash;
use crate::header::Header;
use crate::header::Timestamp;
use crate::keystore::Signature;
use crate::codec::header_wf;

verus! {

/// The verdict an authority reaches on an op.
#[derive(Clone, Copy, Debug, PartialEq, Eq, Structural)]
pub enum ValidationStatus {
    Valid,
    Rejected,
}

/// Where an op stands in the validation pipeline; it only ever moves
/// forward.
#[derive(Clone, Copy, Debug, PartialEq, Eq, Structural)]
pub enum ValidationStage {
    Pending,
    SysValidated,
    AppValidated,
    Integrated,
}

/// One op as an authority's store keeps it: hashes and flags, no payloads.
#[derive(Clone, Copy, Debug)]
pub struct OpRecord {
    pub hash: DhtOpHash,
    pub basis_loc: u32,
    pub timestamp: Timestamp,
    pub op_order: OpOrder,
    pub is_authored: bool,
    pub stage: ValidationStage,
    pub validation_status: Option<ValidationStatus>,
    pub when_integrated: Option<Timestamp>,
    pub receipts_count: u32,
}

/// What inserting does: a record already held leaves the store unchanged.
pub open spec fn spec_insert(db: Seq<OpRecord>, rec: OpRecord) -> Seq<OpRecord> {
    if exists|i: int| 0 <= i < db.len() && (#[trigger] db[i]).hash == rec.hash {
        db
    } else {
        db.push(rec)
    }
}

/// What recording a verdict does: every record for the op takes the status,
/// everything else is untouched.
pub open spec fn spec_set_status(
    db: Seq<OpRecord>,
    hash: DhtOpHash,
    status: ValidationStatus,
) -> Seq<OpRecord> {
    Seq::new(
        db.len(),
        |k: int|
            if db[k].hash == hash {
                OpRecord { validation_status: Some(status), ..db[k] }
            } else {
                db[k]
            },
    )
}

/// What integration does: every record for the op is stamped with the moment
/// and moves to the terminal stage, everything else is untouched.
pub open spec fn spec_set_integrated(
    db: Seq<OpRecord>,
    hash: DhtOpHash,
    when: Timestamp,
) -> Seq<OpRecord> {
    Seq::new(
        db.len(),
        |k: int|
            if db[k].hash == hash {
                OpRecord {
                    when_integrated: Some(when),
                    stage: ValidationStage::Integrated,
                    ..db[k]
                }
            } else {
                db[k]
            },
    )
}

/// The record an authority first writes for an op arriving from the network.
pub open spec fn spec_network_record(
    hash: DhtOpHash,
    basis_loc: u32,
    timestamp: Timestamp,
    op_type: DhtOpType,
) -> OpRecord {
    OpRecord {
        hash,
        basis_loc,
        timestamp,
        op_order: OpOrder { type_priority: op_type.spec_priority(), timestamp },
        is_authored: false,
        stage: ValidationStage::Pending,
        validation_status: None,
        when_integrated: None,
        receipts_count: 0,
    }
}

/// The whole effect of taking one op through validation and integration:
/// store it (a no-op when it is already held), record the verdict, and stamp
/// the moment of integration.
pub open spec fn spec_integrate(
    db: Seq<OpRecord>,
    rec: OpRecord,
    status: ValidationStatus,
    now: Timestamp,
) -> Seq<OpRecord> {
    spec_set_integrated(spec_set_status(spec_insert(db, rec), rec.hash, status), rec.hash, now)
}

/// An authority's op store.
#[derive(Debug)]
pub struct DhtDb {
    records: Vec<OpRecord>,
}

impl View for DhtDb {
    type V = Seq<OpRecord>;

    closed spec fn view(&self) -> Seq<OpRecord> {
        self.records@
    }
}

impl DhtDb {
    pub fn new() -> (r: DhtDb)
        ensures
            r@ == Seq::<OpRecord>::empty(),
    {
        let r = DhtDb { records: Vec::new() };
        proof {
            assert(r@ =~= Seq::<OpRecord>::empty());
        }
        r
    }

    pub fn len(&self) -> (r: usize)
        ensures
            r == self@.len(),
    {
        self.records.len()
    }

    pub fn get(&self, i: usize) -> (r: OpRecord)
        requires
            i < self@.len(),
        ensures
            r == self@[i as int],
    {
        self.records[i]
    }

    /// The index of the record for this op, if it is held.
    pub fn find(&self, hash: &DhtOpHash) -> (r: Option<usize>)
        ensures
            match r {
                Some(i) => i < self@.len() && self@[i as int].hash == *hash,
                None => forall|k: int| 0 <= k < self@.len() ==> (#[trigger] self@[k]).hash != *hash,
            },
    {
        let mut i: usize = 0;
        while i < self.records.len()
            invariant
                i <= self@.len(),
                forall|k: int| 0 <= k < i ==> (#[trigger] self@[k]).hash != *hash,
            decreases self@.len() - i,
        {
            if self.records[i].hash.eq(hash) {
                return Some(i);
            }
            i = i + 1;
        }
        None
    }

    /// Take an op into the store. Integrating an op already held is a
    /// no-op: nothing is duplicated, nothing changes.
    pub fn insert_op(&mut self, rec: OpRecord)
        ensures
            final(self)@ == spec_insert(old(self)@, rec),
    {
        match self.find(&rec.hash) {
            Some(_) => {},
            None => {
                self.records.push(rec);
            },
        }
    }

    /// Record an authority's verdict on a held op.
    pub fn set_validation_status(&mut self, hash: &DhtOpHash, status: ValidationStatus)
        ensures
            final(self)@ == spec_set_status(old(self)@, *hash, status),
    {
        let n = self.records.len();
        let mut i: usize = 0;
        while i < n
            invariant
                i <= n,
                n == self@.len(),
                self@.len() == old(self)@.len(),
                forall|k: int|
                    0 <= k < i ==> if (#[trigger] old(self)@[k]).hash == *hash {
                        self@[k] == (OpRecord { validation_status: Some(status), ..old(self)@[k] })
                    } else {
                        self@[k] == old(self)@[k]
                    },
                forall|k: int| i <= k < n ==> self@[k] == old(self)@[k],
            decreases n - i,
        {
            if self.records[i].hash.eq(hash) {
                let updated = OpRecord { validation_status: Some(status), ..self.records[i] };
                self.records.set(i, updated);
            }
            i = i + 1;
        }
        proof {
            assert(self@ =~= spec_set_status(old(self)@, *hash, status));
        }
    }

    /// Mark a held op integrated at the given moment.
    pub fn set_when_integrated(&mut self, hash: &DhtOpHash, when: Timestamp)
        ensures
            final(self)@ == spec_set_integrated(old(self)@, *hash, when),
    {
        let n = self.records.len();
        let mut i: usize = 0;
        while i < n
            invariant
                i <= n,
                n == self@.len(),
                self@.len() == old(self)@.len(),
                forall|k: int|
                    0 <= k < i ==> if (#[trigger] old(self)@[k]).hash == *hash {
                        self@[k] == (OpRecord {
                            when_integrated: Some(when),
                            stage: ValidationStage::Integrated,
                            ..old(self)@[k]
                        })
                    } else {
                        self@[k] == old(self)@[k]
                    },
                forall|k: int| i <= k < n ==> self@[k] == old(self)@[k],
            decreases n - i,
        {
            if self.records[i].hash.eq(hash) {
                let updated = OpRecord {
                    when_integrated: Some(when),
                    stage: ValidationStage::Integrated,
                    ..self.records[i]
                };
                self.records.set(i, updated);
            }
            i = i + 1;
        }
        proof {
            assert(self@ =~= spec_set_integrated(old(self)@, *hash, when));
        }
    }

    /// Count one more validation receipt for a published op. The op's
    /// status and integration are untouched: publication only bumps the
    /// receipt counter.
    pub fn add_receipt(&mut self, hash: &DhtOpHash)
        ensures
            final(self)@.len() == old(self)@.len(),
            forall|k: int|
                0 <= k < old(self)@.len() ==> if (#[trigger] old(self)@[k]).hash == *hash && old(
                    self,
                )@[k].receipts_count < u32::MAX {
                    final(self)@[k] == (OpRecord {
                        receipts_count: (old(self)@[k].receipts_count + 1) as u32,
                        ..old(self)@[k]
                    })
                } else {
                    final(self)@[k] == old(self)@[k]
                },
            // publication never changes a verdict
            forall|k: int|
                0 <= k < old(self)@.len() ==> (#[trigger] final(self)@[k]).validation_status == old(
                    self,
                )@[k].validation_status && final(self)@[k].stage == old(self)@[k].stage,
    {
        let n = self.records.len();
        let mut i: usize = 0;
        while i < n
            invariant
                i <= n,
                n == self@.len(),
                self@.len() == old(self)@.len(),
                forall|k: int|
                    0 <= k < i ==> if (#[trigger] old(self)@[k]).hash == *hash && old(
                        self,
                    )@[k].receipts_count < u32::MAX {
                        self@[k] == (OpRecord {
                            receipts_count: (old(self)@[k].receipts_count + 1) as u32,
                            ..old(self)@[k]
                        })
                    } else {
                        self@[k] == old(self)@[k]
                    },
                forall|k: int| i <= k < n ==> self@[k] == old(self)@[k],
            decreases n - i,
        {
            if self.records[i].hash.eq(hash) && self.records[i].receipts_count < u32::MAX {
                let updated = OpRecord {
                    receipts_count: self.records[i].receipts_count + 1,
                    ..self.records[i]
                };
                self.records.set(i, updated);
            }
            i = i + 1;
        }
    }
}

/// Integrating the same op twice is a no-op: the second insert finds the
/// record already present and leaves the store exactly as it was.
pub proof fn lemma_integrate_idempotent(db: Seq<OpRecord>, rec: OpRecord)
    ensures
        spec_insert(spec_insert(db, rec), rec) == spec_insert(db, rec),
{
    let once = spec_insert(db, rec);
    if exists|i: int| 0 <= i < db.len() && (#[trigger] db[i]).hash == rec.hash {
    } else {
        assert(once[db.len() as int].hash == rec.hash);
    }
}

/// Taking the same op through storage, verdict and integration twice leaves
/// the store exactly as one pass left it.
pub proof fn lemma_fill_idempotent(
    db: Seq<OpRecord>,
    rec: OpRecord,
    status: ValidationStatus,
    now: Timestamp,
)
    ensures
        spec_integrate(spec_integrate(db, rec, status, now), rec, status, now) == spec_integrate(
            db,
            rec,
            status,
            now,
        ),
{
    let d1 = spec_integrate(db, rec, status, now);
    let ins = spec_insert(db, rec);
    // one pass leaves a record for the op in the store, with the verdict and
    // the integration stamp already in place
    if exists|i: int| 0 <= i < db.len() && (#[trigger] db[i]).hash == rec.hash {
        let i = choose|i: int| 0 <= i < db.len() && (#[trigger] db[i]).hash == rec.hash;
        assert(d1[i].hash == rec.hash);
    } else {
        assert(ins[db.len() as int].hash == rec.hash);
        assert(d1[db.len() as int].hash == rec.hash);
    }
    assert(spec_insert(d1, rec) == d1);
    assert(spec_set_integrated(spec_set_status(d1, rec.hash, status), rec.hash, now) =~= d1);
}

/// Store an op as integrated and valid: what an authority does with an op
/// that has passed validation.
pub fn fill_db(db: &mut DhtDb, op: &DhtOpHashed, basis_loc: u32, timestamp: Timestamp, now: Timestamp)
    ensures
        final(db)@ == spec_integrate(
            old(db)@,
            spec_network_record(op.hash, basis_loc, timestamp, op.op@.get_type()),
            ValidationStatus::Valid,
            now,
        ),
{
    let rec = OpRecord {
        hash: op.as_hash(),
        basis_loc,
        timestamp,
        op_order: OpOrder::new(op.op.get_type(), timestamp),
        is_authored: false,
        stage: ValidationStage::Pending,
        validation_status: None,
        when_integrated: None,
        receipts_count: 0,
    };
    let hash = op.as_hash();
    db.insert_op(rec);
    db.set_validation_status(&hash, ValidationStatus::Valid);
    db.set_when_integrated(&hash, now);
}

/// Store an op as integrated but rejected: it stays held and served, and
/// readers filter it by status.
pub fn fill_db_rejected(
    db: &mut DhtDb,
    op: &DhtOpHashed,
    basis_loc: u32,
    timestamp: Timestamp,
    now: Timestamp,
)
    ensures
        final(db)@ == spec_integrate(
            old(db)@,
            spec_network_record(op.hash, basis_loc, timestamp, op.op@.get_type()),
            ValidationStatus::Rejected,
            now,
        ),
{
    let rec = OpRecord {
        hash: op.as_hash(),
        basis_loc,
        timestamp,
        op_order: OpOrder::new(op.op.get_type(), timestamp),
        is_authored: false,
        stage: ValidationStage::Pending,
        validation_status: None,
        when_integrated: None,
        receipts_count: 0,
    };
    let hash = op.as_hash();
    db.insert_op(rec);
    db.set_validation_status(&hash, ValidationStatus::Rejected);
    db.set_when_integrated(&hash, now);
}

/// Store an op as authored locally, not yet validated or integrated.
pub fn fill_db_as_author(db: &mut DhtDb, op: &DhtOpHashed, basis_loc: u32, timestamp: Timestamp)
    ensures
        final(db)@ == spec_insert(
            old(db)@,
            OpRecord {
                hash: op.hash,
                basis_loc,
                timestamp,
                op_order: OpOrder {
                    type_priority: op.op@.get_type().spec_priority(),
                    timestamp,
                },
                is_authored: true,
                stage: ValidationStage::Pending,
                validation_status: None,
                when_integrated: None,
                receipts_count: 0,
            },
        ),
{
    let rec = OpRecord {
        hash: op.as_hash(),
        basis_loc,
        timestamp,
        op_order: OpOrder::new(op.op.get_type(), timestamp),
        is_authored: true,
        stage: ValidationStage::Pending,
        validation_status: None,
        when_integrated: None,
        receipts_count: 0,
    };
    db.insert_op(rec);
}

/// The authored row one op of a committed record's fanout adds: marked
/// authored, pending, ordered by its kind's priority and the header's moment.
pub open spec fn authored_record_of(op: DhtOpV) -> OpRecord {
    OpRecord {
        hash: op_hash_of(op),
        basis_loc: op.spec_basis().loc,
        timestamp: op.header().timestamp(),
        op_order: OpOrder {
            type_priority: op.get_type().spec_priority(),
            timestamp: op.header().timestamp(),
        },
        is_authored: true,
        stage: ValidationStage::Pending,
        validation_status: None,
        when_integrated: None,
        receipts_count: 0,
    }
}

/// Insert the authored row of every op in the list, in order.
pub open spec fn spec_insert_ops(db: Seq<OpRecord>, ops: Seq<DhtOpV>) -> Seq<OpRecord>
    decreases ops.len(),
{
    if ops.len() == 0 {
        db
    } else {
        spec_insert_ops(spec_insert(db, authored_record_of(ops[0])), ops.drop_first())
    }
}

/// Insert the authored rows of every record's fanout, in chain order.
pub open spec fn spec_insert_element_ops(db: Seq<OpRecord>, es: Seq<ElementV>) -> Seq<OpRecord>
    decreases es.len(),
{
    if es.len() == 0 {
        db
    } else {
        spec_insert_element_ops(
            spec_insert_ops(
                db,
                expected_ops(es[0].signed_header.signature, es[0].header(), es[0].maybe_entry),
            ),
            es.drop_first(),
        )
    }
}

/// Inserting the rows of a list of ops and then one more is inserting the
/// rows of the extended list.
proof fn lemma_insert_ops_push(db: Seq<OpRecord>, ops: Seq<DhtOpV>, op: DhtOpV)
    ensures
        spec_insert_ops(db, ops.push(op)) == spec_insert(
            spec_insert_ops(db, ops),
            authored_record_of(op),
        ),
    decreases ops.len(),
{
    reveal_with_fuel(spec_insert_ops, 3);
    if ops.len() == 0 {
        assert(ops.push(op)[0] == op);
        assert(ops.push(op).drop_first() =~= Seq::<DhtOpV>::empty());
    } else {
        assert(ops.push(op)[0] == ops[0]);
        assert(ops.push(op).drop_first() =~= ops.drop_first().push(op));
        lemma_insert_ops_push(spec_insert(db, authored_record_of(ops[0])), ops.drop_first(), op);
    }
}

/// Inserting the fanout rows of a list of records and then one record more
/// is inserting the rows of the extended list.
proof fn lemma_insert_element_ops_push(db: Seq<OpRecord>, es: Seq<ElementV>, e: ElementV)
    ensures
        spec_insert_element_ops(db, es.push(e)) == spec_insert_ops(
            spec_insert_element_ops(db, es),
            expected_ops(e.signed_header.signature, e.header(), e.maybe_entry),
        ),
    decreases es.len(),
{
    reveal_with_fuel(spec_insert_element_ops, 3);
    if es.len() == 0 {
        assert(es.push(e)[0] == e);
        assert(es.push(e).drop_first() =~= Seq::<ElementV>::empty());
    } else {
        assert(es.push(e)[0] == es[0]);
        assert(es.push(e).drop_first() =~= es.drop_first().push(e));
        lemma_insert_element_ops_push(
            spec_insert_ops(
                db,
                expected_ops(es[0].signed_header.signature, es[0].header(), es[0].maybe_entry),
            ),
            es.drop_first(),
            e,
        );
    }
}

/// Every op of a well-formed record's fanout is itself well formed: it
/// carries the record's header, and its entry, when present, is one the
/// record held.
proof fn lemma_expected_ops_wf(e: ElementV)
    requires
        e.wf(),
        !(requires_entry(e.header()) && e.maybe_entry is None),
    ensures
        forall|i: int|
            0 <= i < expected_ops(
                e.signed_header.signature,
                e.header(),
                e.maybe_entry,
            ).len() ==> (#[trigger] expected_ops(
                e.signed_header.signature,
                e.header(),
                e.maybe_entry,
            )[i]).wf(),
{
    reveal(crate::element::element_wf_def);
    reveal(crate::element::shh_wf_def);
    crate::dht_op::lemma_fanout_completeness(
        e.signed_header.signature,
        e.header(),
        e.maybe_entry,
    );
    let ops = expected_ops(e.signed_header.signature, e.header(), e.maybe_entry);
    assert forall|i: int| 0 <= i < ops.len() implies (#[trigger] ops[i]).wf() by {
        assert(ops[i].header() == e.header());
        assert(match ops[i].entry() {
            Some(en) => e.maybe_entry == Some(en),
            None => true,
        });
    }
}

/// Write the authored op rows of a batch of committed records, in order:
/// one pending, authored row per op of each record's fanout.
pub fn produce_authored_ops(db: &mut DhtDb, elements: &Vec<Element>)
    requires
        forall|i: int| 0 <= i < elements@.len() ==> (#[trigger] elements@[i])@.wf(),
        forall|i: int|
            0 <= i < elements@.len() ==> !(requires_entry((#[trigger] elements@[i])@.header())
                && elements@[i]@.maybe_entry is None),
    ensures
        final(db)@ == spec_insert_element_ops(
            old(db)@,
            Seq::new(elements@.len(), |i: int| elements@[i]@),
        ),
{
    let ghost es = Seq::new(elements@.len(), |i: int| elements@[i]@);
    let mut i: usize = 0;
    while i < elements.len()
        invariant
            i <= elements@.len(),
            es == Seq::new(elements@.len(), |k: int| elements@[k]@),
            forall|k: int| 0 <= k < elements@.len() ==> (#[trigger] elements@[k])@.wf(),
            forall|k: int|
                0 <= k < elements@.len() ==> !(requires_entry((#[trigger] elements@[k])@.header())
                    && elements@[k]@.maybe_entry is None),
            db@ == spec_insert_element_ops(old(db)@, es.subrange(0, i as int)),
        decreases elements@.len() - i,
    {
        let element = &elements[i];
        let ghost ev = element@;
        let ghost ops_v = expected_ops(ev.signed_header.signature, ev.header(), ev.maybe_entry);
        let ops = match ops_from_element(element) {
            Ok(o) => o,
            Err(_) => {
                proof {
                    assert(false);
                }
                Vec::new()
            },
        };
        proof {
            lemma_expected_ops_wf(ev);
            assert(Seq::new(ops@.len(), |k: int| ops@[k]@) == ops_v);
        }
        let ghost db_i = db@;
        let mut k: usize = 0;
        while k < ops.len()
            invariant
                k <= ops@.len(),
                ops_v == Seq::new(ops@.len(), |m: int| ops@[m]@),
                forall|m: int| 0 <= m < ops_v.len() ==> (#[trigger] ops_v[m]).wf(),
                db@ == spec_insert_ops(db_i, ops_v.subrange(0, k as int)),
            decreases ops@.len() - k,
        {
            let op = &ops[k];
            proof {
                assert(op@ == ops_v[k as int]);
                assert(op@.wf());
            }
            let hash = crate::dht_op::dht_op_hash(op);
            let basis = op.dht_basis();
            let ts = op.timestamp();
            let rec = OpRecord {
                hash,
                basis_loc: basis.loc,
                timestamp: ts,
                op_order: OpOrder::new(op.get_type(), ts),
                is_authored: true,
                stage: ValidationStage::Pending,
                validation_status: None,
                when_integrated: None,
                receipts_count: 0,
            };
            proof {
                assert(rec == authored_record_of(ops_v[k as int]));
            }
            db.insert_op(rec);
            proof {
                lemma_insert_ops_push(db_i, ops_v.subrange(0, k as int), ops_v[k as int]);
                assert(ops_v.subrange(0, k + 1) =~= ops_v.subrange(0, k as int).push(
                    ops_v[k as int],
                ));
            }
            k = k + 1;
        }
        proof {
            assert(ops_v.subrange(0, ops_v.len() as int) =~= ops_v);
            lemma_insert_element_ops_push(old(db)@, es.subrange(0, i as int), es[i as int]);
            assert(es.subrange(0, i + 1) =~= es.subrange(0, i as int).push(es[i as int]));
        }
        i = i + 1;
    }
    proof {
        assert(es.subrange(0, es.len() as int) =~= es);
    }
}

/// What the guest's validation callback answered for one op.
#[derive(Debug)]
pub enum AppValidationOutcome {
    /// The op is sound by the app's rules.
    Valid,
    /// The op breaks the app's rules, for the stated reason. Terminal: the
    /// op stays stored with the rejected verdict and is served with it.
    Invalid(Vec<u8>),
    /// The callback could not see everything it needed: the op is parked
    /// and retried when the named dependencies arrive.
    UnresolvedDependencies(Vec<DhtOpHash>),
}

/// Apply the app-validation verdict for one op: a valid op takes the valid
/// status, an invalid one is rejected but stays stored, and one with
/// unresolved dependencies is left exactly as it is, parked for a retry.
pub fn handle_app_validation_outcome(
    db: &mut DhtDb,
    hash: &DhtOpHash,
    outcome: &AppValidationOutcome,
)
    ensures
        outcome is Valid ==> final(db)@ == spec_set_status(
            old(db)@,
            *hash,
            ValidationStatus::Valid,
        ),
        outcome is Invalid ==> final(db)@ == spec_set_status(
            old(db)@,
            *hash,
            ValidationStatus::Rejected,
        ),
        outcome is UnresolvedDependencies ==> final(db)@ == old(db)@,
{
    match outcome {
        AppValidationOutcome::Valid => {
            db.set_validation_status(hash, ValidationStatus::Valid);
        },
        AppValidationOutcome::Invalid(_) => {
            db.set_validation_status(hash, ValidationStatus::Rejected);
        },
        AppValidationOutcome::UnresolvedDependencies(_) => {},
    }
}

/// A store handed out for exactly one write session: taking the store out
/// consumes the writer, so it cannot be used twice.
#[derive(Debug)]
pub struct OneshotWriter(pub DhtDb);

impl OneshotWriter {
    /// Yield the store for its single write session.
    pub fn with_writer(self) -> (r: DhtDb)
        ensures
            r@ == self.0@,
    {
        self.0
    }
}

/// Whether a workflow emptied its queue, or left work for a re-trigger.
#[derive(Clone, Copy, Debug, PartialEq, Eq, Structural)]
pub enum WorkComplete {
    /// The queue is exhausted.
    Complete,
    /// Items remain on the queue.
    Incomplete,
}

/// The only failure a trigger can report: the channel closed at shutdown.
#[derive(Clone, Copy, Debug, PartialEq, Eq, Structural)]
pub struct QueueTriggerClosedError;

/// An op as it travels to a cascade reader: its kind, the full header, the
/// signature, and the serving authority's verdict.
#[derive(Debug)]
pub struct WireDhtOp {
    pub op_type: DhtOpType,
    pub header: Header,
    pub signature: Signature,
    pub validation_status: Option<ValidationStatus>,
}

/// Rebuild the signed, hashed header behind a wire op: the hash is
/// recomputed here and cannot be forged by the sender.
pub fn wire_op_to_shh(op: &WireDhtOp) -> (r: SignedHeaderHashed)
    requires
        header_wf(op.header@),
    ensures
        r@.header == op.header@,
        r@.signature == op.signature,
        r@.wf(),
{
    SignedHeaderHashed::with_data(crate::element::SignedHeader(op.header.dup(), op.signature))
}

/// A stand-in network of authorities for cascade reads: every peer store it
/// holds answers, and it either claims authority for everything or for
/// nothing.
#[derive(Debug)]
pub struct PassThroughNetwork {
    pub envs: Vec<DhtDb>,
    pub authority: bool,
}

impl PassThroughNetwork {
    /// A network that claims authority for every hash.
    pub fn authority_for_all(envs: Vec<DhtDb>) -> (r: PassThroughNetwork)
        ensures
            r.authority == true,
            r.envs@ == envs@,
    {
        PassThroughNetwork { envs, authority: true }
    }

    /// A network that claims authority for nothing, forcing readers to go
    /// to the network tier.
    pub fn authority_for_nothing(envs: Vec<DhtDb>) -> (r: PassThroughNetwork)
        ensures
            r.authority == false,
            r.envs@ == envs@,
    {
        PassThroughNetwork { envs, authority: false }
    }

    /// Whether this network claims authority for a hash.
    pub fn authority_for_hash(&self) -> (r: bool)
        ensures
            r == self.authority,
    {
        self.authority
    }
}

} // verus!
