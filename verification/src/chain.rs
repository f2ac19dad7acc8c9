use vstd::prelude::*;

use crate::entry::Entry;
use crate::entry::EntryV;
use crate::entry::entry_hash_of;
use crate::entry::entry_wf;
use crate::element::Element;
use crate::element::ElementV;
use crate::element::SignedHeaderHashed;
use crate::hash::AgentPubKey;
use crate::hash::DnaHash;
use crate::hash::HashKind;
use crate::hash::HeaderHash;
use crate::hash::HoloHash;
use crate::header::EntryType;
use crate::header::Header;
use crate::header::HeaderBuilder;
use crate::header::HeaderBuilderCommon;
use crate::header::HeaderV;
use crate::header::Timestamp;
use crate::keystore::Keystore;
use crate::keystore::KeystoreError;
use crate::codec::header_wf;
use crate::dht_db::DhtDb;

verus! {

/// Chain-integrity failures.
#[derive(Clone, Copy, Debug)]
pub enum SourceChainError {
    /// The vault holds no records yet.
    ChainEmpty,
    /// The head compare-and-swap failed: expected and observed heads.
    HeadMoved(Option<HeaderHash>, Option<HeaderHash>),
    /// Writes before the three genesis records are complete are refused.
    GenesisNotComplete,
    /// The signing service failed.
    Keystore(KeystoreError),
}

/// One element of a chain is sound at its place: its hashes check out, its
/// signature verifies, its author and ordinal are right, it links to its
/// predecessor, its moment does not precede its predecessor's, and the
/// genesis prefix has its fixed shape.
pub open spec fn element_in_chain_ok(c: Seq<ElementV>, i: int, author: AgentPubKey) -> bool {
    let e = c[i];
    &&& e.wf()
    &&& e.signed_header.sig_ok()
    &&& e.header().author() == author
    &&& e.header().header_seq() == i
    &&& if i == 0 {
        e.header() is Dna && e.header().prev_header() is None
    } else {
        e.header().prev_header() == Some(c[i - 1].header_address())
    }
    &&& i > 0 ==> e.header().timestamp().0 >= c[i - 1].header().timestamp().0
    &&& i == 1 ==> e.header() is AgentValidationPkg
    &&& i == 2 ==> (e.header() matches HeaderV::EntryCreate(ec) && ec.entry_type
        == EntryType::AgentPubKey && ec.entry_hash == entry_hash_of(EntryV::Agent(author)))
}

/// A whole chain is sound: every element at its place.
pub open spec fn chain_wf(c: Seq<ElementV>, author: AgentPubKey) -> bool {
    forall|i: int| 0 <= i < c.len() ==> element_in_chain_ok(c, i, author)
}

/// The persisted store of one agent's chain, ordered by sequence.
#[derive(Debug)]
pub struct ChainVault {
    elements: Vec<Element>,
    author: AgentPubKey,
}

impl View for ChainVault {
    type V = Seq<ElementV>;

    closed spec fn view(&self) -> Seq<ElementV> {
        Seq::new(self.elements@.len(), |i: int| self.elements@[i]@)
    }
}

impl ChainVault {
    pub closed spec fn spec_author(self) -> AgentPubKey {
        self.author
    }

    pub open spec fn wf(self) -> bool {
        chain_wf(self@, self.spec_author())
    }

    /// The head of the chain: the last header's address and the chain length.
    pub open spec fn spec_head(self) -> Option<(HeaderHash, u32)> {
        if self@.len() == 0 {
            None
        } else {
            Some((self@.last().header_address(), self@.len() as u32))
        }
    }

    /// An empty vault for one agent.
    pub fn new(author: AgentPubKey) -> (r: ChainVault)
        ensures
            r@ == Seq::<ElementV>::empty(),
            r.spec_author() == author,
    {
        let r = ChainVault { elements: Vec::new(), author };
        proof {
            assert(r@ =~= Seq::<ElementV>::empty());
        }
        r
    }

    pub fn author(&self) -> (r: AgentPubKey)
        ensures
            r == self.spec_author(),
    {
        self.author
    }

    pub fn len(&self) -> (r: usize)
        ensures
            r == self@.len(),
    {
        self.elements.len()
    }

    pub fn get(&self, i: usize) -> (r: &Element)
        requires
            i < self@.len(),
        ensures
            r@ == self@[i as int],
    {
        &self.elements[i]
    }

    /// Read the chain head inside the current snapshot.
    pub fn head(&self) -> (r: Option<(HeaderHash, u32)>)
        requires
            self@.len() < 0x1_0000_0000,
        ensures
            r == self.spec_head(),
    {
        let n = self.elements.len();
        if n == 0 {
            None
        } else {
            Some((self.elements[n - 1].header_address(), n as u32))
        }
    }

    /// The moment of the chain's newest record.
    pub fn head_timestamp(&self) -> (r: Timestamp)
        requires
            self@.len() > 0,
        ensures
            r == self@.last().header().timestamp(),
    {
        let n = self.elements.len();
        self.elements[n - 1].header().timestamp()
    }

    /// Append one element; the callers below keep the chain sound.
    fn push(&mut self, e: Element)
        ensures
            final(self)@ == old(self)@.push(e@),
            final(self).spec_author() == old(self).spec_author(),
    {
        self.elements.push(e);
        proof {
            assert(final(self)@ =~= old(self)@.push(e@));
        }
    }
}

/// What a vault looks like right after genesis: exactly the three fixed
/// records, sound as a chain, opened by the DNA record and closed by the
/// creation of the agent's own key entry.
pub open spec fn genesis_result_ok(
    v: ChainVault,
    dna_hash: DnaHash,
    agent: AgentPubKey,
    now: Timestamp,
) -> bool {
    &&& v@.len() == 3
    &&& v.wf()
    &&& (v@[0].header() matches HeaderV::Dna(d) && d.hash == dna_hash && d.author == agent
        && d.timestamp == now)
    &&& v@[1].header() is AgentValidationPkg
    &&& (v@[2].header() matches HeaderV::EntryCreate(ec) && ec.entry_type
        == EntryType::AgentPubKey)
    &&& v@[2].maybe_entry == Some(EntryV::Agent(agent))
}

/// The fixed genesis records: the DNA header, the membrane proof, and the
/// agent's own key entry. Performed once, before any other write.
pub fn genesis(
    vault: &mut ChainVault,
    keystore: &Keystore,
    dna_hash: DnaHash,
    agent: AgentPubKey,
    membrane_proof: Option<Vec<u8>>,
    now: Timestamp,
) -> (r: Result<(), SourceChainError>)
    requires
        old(vault)@.len() == 0,
        old(vault).spec_author() == agent,
        agent.wf(),
        dna_hash.wf(),
        match membrane_proof {
            Some(p) => p@.len() < 0x1_0000_0000,
            None => true,
        },
    ensures
        final(vault).spec_author() == old(vault).spec_author(),
        match r {
            Ok(()) => genesis_result_ok(*final(vault), dna_hash, agent, now),
            Err(e) => final(vault)@ == old(vault)@ && (e matches SourceChainError::Keystore(
                KeystoreError::KeyNotFound,
            )) && !keystore.holds(agent),
        },
{
    let dna_header = Header::Dna(
        crate::header::Dna { author: agent, timestamp: now, header_seq: 0, hash: dna_hash },
    );
    let shh0 = match SignedHeaderHashed::new(keystore, dna_header) {
        Ok(s) => s,
        Err(e) => {
            return Err(SourceChainError::Keystore(e));
        },
    };
    let h0 = shh0.header_address();
    let e0 = Element::new(shh0, None);

    let avp_header = Header::AgentValidationPkg(
        crate::header::AgentValidationPkg {
            author: agent,
            timestamp: now,
            header_seq: 1,
            prev_header: h0,
            membrane_proof,
        },
    );
    let shh1 = match SignedHeaderHashed::new(keystore, avp_header) {
        Ok(s) => s,
        Err(e) => {
            return Err(SourceChainError::Keystore(e));
        },
    };
    let h1 = shh1.header_address();
    let e1 = Element::new(shh1, None);

    let agent_entry = Entry::Agent(agent);
    let agent_entry_hash = crate::entry::hash_entry(&agent_entry);
    let create_header = Header::EntryCreate(
        crate::header::EntryCreate {
            author: agent,
            timestamp: now,
            header_seq: 2,
            prev_header: h1,
            entry_type: EntryType::AgentPubKey,
            entry_hash: agent_entry_hash,
        },
    );
    let shh2 = match SignedHeaderHashed::new(keystore, create_header) {
        Ok(s) => s,
        Err(e) => {
            return Err(SourceChainError::Keystore(e));
        },
    };
    let e2 = Element::new(shh2, Some(agent_entry));

    vault.push(e0);
    vault.push(e1);
    vault.push(e2);
    proof {
        reveal(crate::element::element_wf_def);
        let c = final(vault)@;
        assert(element_in_chain_ok(c, 0, agent));
        assert(element_in_chain_ok(c, 1, agent));
        assert(element_in_chain_ok(c, 2, agent));
    }
    Ok(())
}

/// One pending record at its place among the records that link on from a
/// snapshot of the persisted head: sound, linked, in order, no earlier than
/// what it follows, and never a public new-entry record without its entry.
pub open spec fn scratch_entry_ok(
    s: Seq<ElementV>,
    i: int,
    head: HeaderHash,
    base: u32,
    base_ts: Timestamp,
    author: AgentPubKey,
) -> bool {
    let e = s[i];
    &&& e.wf()
    &&& e.signed_header.sig_ok()
    &&& e.header().author() == author
    &&& e.header().header_seq() == base + i
    &&& e.header().prev_header() == Some(
        if i == 0 {
            head
        } else {
            s[i - 1].header_address()
        },
    )
    &&& e.header().timestamp().0 >= (if i == 0 {
        base_ts
    } else {
        s[i - 1].header().timestamp()
    }).0
    &&& (crate::dht_op::requires_entry(e.header()) ==> e.maybe_entry is Some)
}

/// Every pending record at its place.
pub open spec fn scratch_link_ok(
    s: Seq<ElementV>,
    head: HeaderHash,
    base: u32,
    base_ts: Timestamp,
    author: AgentPubKey,
) -> bool {
    forall|i: int| 0 <= i < s.len() ==> #[trigger] scratch_entry_ok(s, i, head, base, base_ts, author)
}

/// How the genesis workflow fails.
#[derive(Debug)]
pub enum GenesisWorkflowError {
    /// The key service answered that the agent key is not valid.
    AgentInvalid(AgentPubKey),
    /// Writing the genesis records failed.
    Chain(SourceChainError),
}

/// The genesis workflow: an outside key service is first asked whether the
/// agent's key is valid, and its answer arrives here; a negative answer
/// refuses genesis before anything is written, and a positive one writes
/// the three genesis records.
pub fn genesis_workflow(
    vault: &mut ChainVault,
    keystore: &Keystore,
    dna_hash: DnaHash,
    agent: AgentPubKey,
    membrane_proof: Option<Vec<u8>>,
    now: Timestamp,
    agent_key_valid: bool,
) -> (r: Result<(), GenesisWorkflowError>)
    requires
        old(vault)@.len() == 0,
        old(vault).spec_author() == agent,
        agent.wf(),
        dna_hash.wf(),
        match membrane_proof {
            Some(p) => p@.len() < 0x1_0000_0000,
            None => true,
        },
    ensures
        final(vault).spec_author() == old(vault).spec_author(),
        !agent_key_valid ==> final(vault)@ == old(vault)@ && (r matches Err(
            GenesisWorkflowError::AgentInvalid(a),
        ) && a == agent),
        agent_key_valid ==> match r {
            Ok(()) => genesis_result_ok(*final(vault), dna_hash, agent, now),
            Err(e) => final(vault)@ == old(vault)@ && (e matches GenesisWorkflowError::Chain(
                SourceChainError::Keystore(KeystoreError::KeyNotFound),
            )) && !keystore.holds(agent),
        },
{
    if !agent_key_valid {
        return Err(GenesisWorkflowError::AgentInvalid(agent));
    }
    match genesis(vault, keystore, dna_hash, agent, membrane_proof, now) {
        Ok(()) => Ok(()),
        Err(e) => Err(GenesisWorkflowError::Chain(e)),
    }
}

/// What a query selects: an optional half-open ordinal range, an optional
/// header shape, an optional entry type, and whether entries travel with
/// the headers.
#[derive(Clone, Copy, Debug)]
pub struct QueryFilter {
    pub sequence_range: Option<(u32, u32)>,
    pub header_type: Option<crate::header::HeaderType>,
    pub entry_type: Option<EntryType>,
    pub include_entries: bool,
}

/// Whether a record passes the filter.
pub open spec fn query_matches(e: ElementV, f: QueryFilter) -> bool {
    &&& match f.sequence_range {
        Some((lo, hi)) => lo <= e.header().header_seq() < hi,
        None => true,
    }
    &&& match f.header_type {
        Some(t) => e.header().header_type() == t,
        None => true,
    }
    &&& match f.entry_type {
        Some(t) => e.header().entry_data() matches Some((_, et)) && et == t,
        None => true,
    }
}

/// Whether a record's header names a private entry.
pub open spec fn element_entry_private(e: ElementV) -> bool {
    e.header().entry_data() matches Some((_, t)) && t.spec_visibility()
        == crate::EntryVisibility::Private
}

/// A record as a query serves it: the entry rides along only when asked for,
/// and never for a private entry once the writer serves public entries only.
pub open spec fn served_element(e: ElementV, f: QueryFilter, public_only: bool) -> ElementV {
    ElementV {
        signed_header: e.signed_header,
        maybe_entry: if f.include_entries && !(public_only && element_entry_private(e)) {
            e.maybe_entry
        } else {
            None
        },
    }
}

/// The filter, as a predicate a sequence can be filtered by.
pub open spec fn query_pred(f: QueryFilter) -> spec_fn(ElementV) -> bool {
    |e: ElementV| query_matches(e, f)
}

/// The serving transform, as a map over a sequence.
pub open spec fn query_serve(f: QueryFilter, public_only: bool) -> spec_fn(ElementV) -> ElementV {
    |e: ElementV| served_element(e, f, public_only)
}

/// What a query returns over a chain: exactly the records that pass the
/// filter, in chain order, each served per the filter's entry setting.
pub open spec fn spec_query(c: Seq<ElementV>, f: QueryFilter, public_only: bool) -> Seq<ElementV> {
    c.filter(query_pred(f)).map_values(query_serve(f, public_only))
}

/// Querying one more record appends its served form exactly when it passes
/// the filter.
proof fn lemma_query_push(s: Seq<ElementV>, e: ElementV, f: QueryFilter, p: bool)
    ensures
        spec_query(s.push(e), f, p) == if query_matches(e, f) {
            spec_query(s, f, p).push(served_element(e, f, p))
        } else {
            spec_query(s, f, p)
        },
{
    s.lemma_filter_push(e, query_pred(f));
    if query_matches(e, f) {
        assert(spec_query(s.push(e), f, p) =~= spec_query(s, f, p).push(
            served_element(e, f, p),
        ));
    }
}

/// Test one record against the filter and serve it onto the results.
fn query_step(out: &mut Vec<Element>, e: &Element, filter: &QueryFilter, public_only: bool)
    ensures
        Seq::new(final(out)@.len(), |k: int| final(out)@[k]@) == if query_matches(e@, *filter) {
            Seq::new(old(out)@.len(), |k: int| old(out)@[k]@).push(
                served_element(e@, *filter, public_only),
            )
        } else {
            Seq::new(old(out)@.len(), |k: int| old(out)@[k]@)
        },
{
    let seq_ok = match filter.sequence_range {
        Some((lo, hi)) => {
            let s = e.header().header_seq();
            lo <= s && s < hi
        },
        None => true,
    };
    let type_ok = match filter.header_type {
        Some(t) => e.header().header_type() == t,
        None => true,
    };
    let etype_ok = match filter.entry_type {
        Some(t) => match e.header().entry_data() {
            Some((_, et)) => et == t,
            None => false,
        },
        None => true,
    };
    if seq_ok && type_ok && etype_ok {
        let private_entry = match e.header().entry_data() {
            Some((_, t)) => !t.visibility().is_public(),
            None => false,
        };
        let entry_opt: Option<Entry> = if filter.include_entries && !(public_only
            && private_entry) {
            match e.entry().as_option() {
                Some(en) => Some(en.dup()),
                None => None,
            }
        } else {
            None
        };
        let served = Element::new(e.signed_header().dup(), entry_opt);
        proof {
            assert(served@ == served_element(e@, *filter, public_only));
        }
        let ghost before = Seq::new(out@.len(), |k: int| out@[k]@);
        out.push(served);
        proof {
            assert(Seq::new(out@.len(), |k: int| out@[k]@) =~= before.push(served@));
        }
    }
}

/// A writer over one agent's chain: an immutable snapshot of the persisted
/// head, and the pending records not yet committed.
#[derive(Debug)]
pub struct SourceChain {
    scratch: Vec<Element>,
    author: AgentPubKey,
    persisted_len: u32,
    persisted_head: HeaderHash,
    persisted_ts: Timestamp,
    public_only: bool,
}

impl SourceChain {
    pub closed spec fn spec_scratch(self) -> Seq<ElementV> {
        Seq::new(self.scratch@.len(), |i: int| self.scratch@[i]@)
    }

    pub closed spec fn spec_author(self) -> AgentPubKey {
        self.author
    }

    pub closed spec fn spec_persisted_head(self) -> HeaderHash {
        self.persisted_head
    }

    pub closed spec fn spec_persisted_len(self) -> u32 {
        self.persisted_len
    }

    /// The moment of the snapshot's head record.
    pub closed spec fn spec_persisted_ts(self) -> Timestamp {
        self.persisted_ts
    }

    /// Whether only public entries are served from reads.
    pub closed spec fn spec_public_only(self) -> bool {
        self.public_only
    }

    /// The moment of the newest record this writer sees: the last pending
    /// one, or the snapshot's head when nothing is pending.
    pub open spec fn spec_top_ts(self) -> Timestamp {
        if self.spec_scratch().len() == 0 {
            self.spec_persisted_ts()
        } else {
            self.spec_scratch().last().header().timestamp()
        }
    }

    /// The moment a record staged now will carry: the given moment, clamped
    /// so that chain timestamps never decrease.
    pub open spec fn spec_put_ts(self, now: Timestamp) -> Timestamp {
        if now.0 >= self.spec_top_ts().0 {
            now
        } else {
            self.spec_top_ts()
        }
    }

    /// Whether the snapshot this writer was opened on still names the
    /// persisted chain's head record.
    pub open spec fn cas_matches(self, v: Seq<ElementV>) -> bool {
        &&& v.len() == self.spec_persisted_len()
        &&& v.len() > 0
        &&& v.last().header_address() == self.spec_persisted_head()
        &&& v.last().header().timestamp() == self.spec_persisted_ts()
    }

    /// The scratch links on from the snapshot, and writes only start after
    /// genesis.
    pub open spec fn wf(self) -> bool {
        &&& scratch_link_ok(
            self.spec_scratch(),
            self.spec_persisted_head(),
            self.spec_persisted_len(),
            self.spec_persisted_ts(),
            self.spec_author(),
        )
        &&& self.spec_scratch().len() > 0 ==> self.spec_persisted_len() >= 3
        &&& self.spec_persisted_len() >= 1
        &&& self.spec_persisted_len() + self.spec_scratch().len() < 0x1_0000_0000
        &&& self.spec_persisted_head().wf()
    }

    /// Open a writer over the vault's current head.
    pub fn new(vault: &ChainVault, author: AgentPubKey) -> (r: Result<
        SourceChain,
        SourceChainError,
    >)
        requires
            vault@.len() < 0x1_0000_0000,
            vault.wf(),
            vault.spec_author() == author,
        ensures
            match r {
                Ok(c) => {
                    &&& vault@.len() > 0
                    &&& c.wf()
                    &&& c.spec_scratch().len() == 0
                    &&& c.spec_author() == author
                    &&& vault.spec_head() == Some(
                        (c.spec_persisted_head(), c.spec_persisted_len()),
                    )
                    &&& c.spec_persisted_ts() == vault@.last().header().timestamp()
                    &&& c.cas_matches(vault@)
                },
                Err(e) => e is ChainEmpty && vault@.len() == 0,
            },
{
        match vault.head() {
            Some((persisted_head, persisted_len)) => {
                proof {
                    reveal(crate::element::element_wf_def);
                    reveal(crate::element::shh_wf_def);
                    assert(element_in_chain_ok(
                        vault@,
                        vault@.len() - 1,
                        vault.spec_author(),
                    ));
                }
                let persisted_ts = vault.head_timestamp();
                Ok(
                    SourceChain {
                        scratch: Vec::new(),
                        author,
                        persisted_len,
                        persisted_head,
                        persisted_ts,
                        public_only: false,
                    },
                )
            },
            None => Err(SourceChainError::ChainEmpty),
        }
    }

    /// Serve only public entries from reads from now on.
    pub fn public_only(&mut self)
        ensures
            final(self).spec_scratch() == old(self).spec_scratch(),
            final(self).spec_author() == old(self).spec_author(),
            final(self).spec_persisted_head() == old(self).spec_persisted_head(),
            final(self).spec_persisted_len() == old(self).spec_persisted_len(),
            final(self).spec_persisted_ts() == old(self).spec_persisted_ts(),
            final(self).spec_public_only(),
    {
        self.public_only = true;
    }

    pub fn agent_pubkey(&self) -> (r: AgentPubKey)
        ensures
            r == self.spec_author(),
    {
        self.author
    }

    /// The chain length as this writer sees it: persisted plus pending.
    pub fn len(&self) -> (r: u32)
        requires
            self.wf(),
        ensures
            r == self.spec_persisted_len() + self.spec_scratch().len(),
    {
        self.persisted_len + self.scratch.len() as u32
    }

    /// Whether genesis and the zome-init record are all in.
    pub fn has_initialized(&self) -> (r: bool)
        requires
            self.wf(),
        ensures
            r == (self.spec_persisted_len() + self.spec_scratch().len() > 3),
    {
        self.len() > 3
    }

    /// The pending records, cloned out.
    pub fn elements(&self) -> (r: Vec<Element>)
        ensures
            Seq::new(r@.len(), |i: int| r@[i]@) == self.spec_scratch(),
    {
        let mut out: Vec<Element> = Vec::new();
        let mut i: usize = 0;
        while i < self.scratch.len()
            invariant
                i <= self.scratch.len(),
                out@.len() == i,
                forall|k: int| 0 <= k < i ==> (#[trigger] out@[k])@ == self.spec_scratch()[k],
            decreases self.scratch.len() - i,
        {
            out.push(self.scratch[i].dup());
            i = i + 1;
        }
        proof {
            assert(Seq::new(out@.len(), |i: int| out@[i]@) =~= self.spec_scratch());
        }
        out
    }

    /// What the next record will link to: the newest pending record, or the
    /// persisted head snapshot when nothing is pending.
    #[verifier::rlimit(100)]
    #[verifier::spinoff_prover]
    fn chain_top(&self) -> (r: (HeaderHash, u32, Timestamp))
        requires
            self.wf(),
        ensures
            r.0 == if self.spec_scratch().len() == 0 {
                self.spec_persisted_head()
            } else {
                self.spec_scratch().last().header_address()
            },
            r.1 == self.spec_persisted_len() + self.spec_scratch().len(),
            r.2 == self.spec_top_ts(),
    {
        let n = self.scratch.len();
        if n == 0 {
            (self.persisted_head, self.persisted_len, self.persisted_ts)
        } else {
            (
                self.scratch[n - 1].header_address(),
                self.persisted_len + n as u32,
                self.scratch[n - 1].header().timestamp(),
            )
        }
    }


    /// Build and sign one header against the keystore.
    fn build_signed(
        keystore: &Keystore,
        header_builder: HeaderBuilder,
        common: HeaderBuilderCommon,
    ) -> (r: Result<crate::element::SignedHeaderHashed, SourceChainError>)
        requires
            builder_ok(header_builder),
            common.author.wf(),
            common.prev_header.wf(),
        ensures
            match r {
                Ok(shh) => shh@.header == header_builder.spec_build(common) && shh@.wf()
                    && shh@.sig_ok() && shh@.hash.wf(),
                Err(e) => e matches SourceChainError::Keystore(ke) && ke
                    == KeystoreError::KeyNotFound && !keystore.holds(common.author),
            },
    {
        proof {
            lemma_builder_header_wf(header_builder, common);
        }
        let header = header_builder.build(common);
        match SignedHeaderHashed::new(keystore, header) {
            Ok(s) => Ok(s),
            Err(e) => Err(SourceChainError::Keystore(e)),
        }
    }

    /// Resolve a builder against the chain top, sign it, and stage it.
    ///
    /// Refused before genesis is complete; fails when the keystore cannot
    /// sign for the author. On success exactly one record is staged, carrying
    /// the built header at the next ordinal, linked to the previous top.
    #[verifier::rlimit(100)]
    #[verifier::spinoff_prover]
    pub fn put(
        &mut self,
        keystore: &Keystore,
        header_builder: HeaderBuilder,
        maybe_entry: Option<Entry>,
        now: Timestamp,
    ) -> (r: Result<HeaderHash, SourceChainError>)
        requires
            old(self).wf(),
            old(self).spec_author().wf(),
            old(self).spec_persisted_len() + old(self).spec_scratch().len() + 1 < 0x1_0000_0000,
            builder_ok(header_builder),
            builder_entry_consistent(header_builder, maybe_entry),
        ensures
            final(self).spec_author() == old(self).spec_author(),
            final(self).spec_persisted_head() == old(self).spec_persisted_head(),
            final(self).spec_persisted_len() == old(self).spec_persisted_len(),
            final(self).spec_persisted_ts() == old(self).spec_persisted_ts(),
            match r {
                Ok(hash) => {
                    &&& final(self).wf()
                    &&& final(self).spec_scratch().len() == old(self).spec_scratch().len() + 1
                    &&& final(self).spec_scratch().subrange(
                        0,
                        old(self).spec_scratch().len() as int,
                    ) == old(self).spec_scratch()
                    &&& ({
                        let e = final(self).spec_scratch().last();
                        &&& e.header() == header_builder.spec_build(
                            HeaderBuilderCommon {
                                author: old(self).spec_author(),
                                timestamp: old(self).spec_put_ts(now),
                                header_seq: (old(self).spec_persisted_len() + old(
                                    self,
                                ).spec_scratch().len()) as u32,
                                prev_header: if old(self).spec_scratch().len() == 0 {
                                    old(self).spec_persisted_head()
                                } else {
                                    old(self).spec_scratch().last().header_address()
                                },
                            },
                        )
                        &&& e.header_address() == hash
                        &&& e.maybe_entry == match maybe_entry {
                            Some(en) => Some(en@),
                            None => None::<EntryV>,
                        }
                    })
                },
                Err(e) => {
                    &&& final(self).spec_scratch() == old(self).spec_scratch()
                    &&& match e {
                        SourceChainError::GenesisNotComplete => old(self).spec_persisted_len() + old(
                            self,
                        ).spec_scratch().len() < 3,
                        SourceChainError::Keystore(ke) => ke == KeystoreError::KeyNotFound
                            && !keystore.holds(old(self).spec_author()),
                        _ => false,
                    }
                },
            },
    {
        let total = self.persisted_len + self.scratch.len() as u32;
        if total < 3 {
            return Err(SourceChainError::GenesisNotComplete);
        }
        let (prev_header, chain_len, top_ts) = self.chain_top();
        let timestamp = if now.0 >= top_ts.0 {
            now
        } else {
            top_ts
        };
        let common = HeaderBuilderCommon {
            author: self.author,
            timestamp,
            header_seq: chain_len,
            prev_header,
        };
        proof {
            reveal(crate::element::element_wf_def);
            reveal(crate::element::shh_wf_def);
            if old(self).spec_scratch().len() > 0 {
                assert(scratch_entry_ok(
                    old(self).spec_scratch(),
                    old(self).spec_scratch().len() - 1,
                    old(self).spec_persisted_head(),
                    old(self).spec_persisted_len(),
                    old(self).spec_persisted_ts(),
                    old(self).spec_author(),
                ));
                assert(old(self).spec_scratch().last().wf());
            }
        }
        let shh = match Self::build_signed(keystore, header_builder, common) {
            Ok(s) => s,
            Err(e) => {
                return Err(e);
            },
        };
        let hash = shh.header_address();
        let element = Element::new(shh, maybe_entry);
        self.scratch.push(element);
        proof {
            reveal(crate::element::element_wf_def);
            assert(final(self).spec_scratch() =~= old(self).spec_scratch().push(element@));
            assert(final(self).spec_scratch().subrange(0, old(self).spec_scratch().len() as int)
                =~= old(self).spec_scratch());
            assert(crate::dht_op::requires_entry(element@.header()) ==> element@.maybe_entry
                is Some);
            lemma_scratch_push(
                old(self).spec_scratch(),
                old(self).spec_persisted_head(),
                old(self).spec_persisted_len(),
                old(self).spec_persisted_ts(),
                old(self).spec_author(),
                element@,
            );
        }
        Ok(hash)
    }

    /// Commit the pending records and their authored op rows in one
    /// transaction, guarded by the head compare-and-swap: if the persisted
    /// head record is no longer the snapshot this writer was opened on,
    /// nothing is written and `HeadMoved` names the expected and the
    /// observed head. Flushing an empty scratch writes nothing and cannot
    /// fail. On success every pending record is appended to the vault, one
    /// authored op row is stored per op of each record's fanout, and the
    /// scratch is drained.
    #[verifier::rlimit(100)]
    #[verifier::spinoff_prover]
    pub fn flush(&mut self, vault: &mut ChainVault, authored: &mut DhtDb) -> (r: Result<
        (),
        SourceChainError,
    >)
        requires
            old(self).wf(),
            old(vault).wf(),
            old(vault)@.len() < 0x1_0000_0000,
            old(vault).spec_author() == old(self).spec_author(),
        ensures
            final(vault).spec_author() == old(vault).spec_author(),
            final(self).spec_author() == old(self).spec_author(),
            match r {
                Ok(()) => {
                    &&& (old(self).spec_scratch().len() > 0 ==> old(self).cas_matches(
                        old(vault)@,
                    ))
                    &&& final(vault)@ == old(vault)@ + old(self).spec_scratch()
                    &&& final(authored)@ == crate::dht_db::spec_insert_element_ops(
                        old(authored)@,
                        old(self).spec_scratch(),
                    )
                    &&& final(vault).wf()
                    &&& final(self).wf()
                    &&& final(self).spec_scratch().len() == 0
                },
                Err(e) => {
                    &&& e matches SourceChainError::HeadMoved(expected, observed)
                    &&& expected == Some(old(self).spec_persisted_head())
                    &&& observed == match old(vault).spec_head() {
                        Some((h, _)) => Some(h),
                        None => None::<HeaderHash>,
                    }
                    &&& old(self).spec_scratch().len() > 0
                    &&& !old(self).cas_matches(old(vault)@)
                    &&& final(vault)@ == old(vault)@
                    &&& final(authored)@ == old(authored)@
                    &&& final(self).spec_scratch() == old(self).spec_scratch()
                    &&& final(self).spec_persisted_head() == old(self).spec_persisted_head()
                    &&& final(self).spec_persisted_len() == old(self).spec_persisted_len()
                    &&& final(self).spec_persisted_ts() == old(self).spec_persisted_ts()
                },
            },
    {
        if self.scratch.len() == 0 {
            proof {
                assert(final(vault)@ =~= old(vault)@ + old(self).spec_scratch());
                assert(old(self).spec_scratch() =~= Seq::<ElementV>::empty());
                assert(crate::dht_db::spec_insert_element_ops(
                    old(authored)@,
                    old(self).spec_scratch(),
                ) == old(authored)@);
            }
            return Ok(());
        }
        // Re-read the head record inside the transaction: the compare half
        // of the head CAS.
        let cas_ok: bool = match vault.head() {
            Some((h, n)) => h.eq(&self.persisted_head) && n == self.persisted_len
                && vault.head_timestamp().0 == self.persisted_ts.0,
            None => false,
        };
        if !cas_ok {
            let observed = match vault.head() {
                Some((h, _)) => Some(h),
                None => None,
            };
            return Err(SourceChainError::HeadMoved(Some(self.persisted_head), observed));
        }
        let ghost old_vault = old(vault)@;
        let ghost scratch = old(self).spec_scratch();
        // The write half: the pending records, then their authored op rows.
        let mut i: usize = 0;
        while i < self.scratch.len()
            invariant
                i <= self.scratch.len(),
                self.wf(),
                self == old(self),
                vault@ == old_vault + scratch.subrange(0, i as int),
                vault.spec_author() == old(vault).spec_author(),
                scratch == self.spec_scratch(),
                old_vault == old(vault)@,
            decreases self.scratch.len() - i,
        {
            vault.push(self.scratch[i].dup());
            proof {
                assert(vault@ =~= old_vault + scratch.subrange(0, i + 1));
            }
            i = i + 1;
        }
        proof {
            assert(vault@ =~= old_vault + scratch);
            assert forall|k: int| 0 <= k < self.scratch@.len() implies (#[trigger] self.scratch@[k])@.wf()
                && !(crate::dht_op::requires_entry(self.scratch@[k]@.header())
                && self.scratch@[k]@.maybe_entry is None) by {
                assert(scratch_entry_ok(
                    scratch,
                    k,
                    old(self).spec_persisted_head(),
                    old(self).spec_persisted_len(),
                    old(self).spec_persisted_ts(),
                    old(self).spec_author(),
                ));
                assert(scratch[k] == self.scratch@[k]@);
            }
            assert(Seq::new(self.scratch@.len(), |k: int| self.scratch@[k]@) =~= scratch);
        }
        crate::dht_db::produce_authored_ops(authored, &self.scratch);
        let n = vault.len();
        let new_head = vault.get(n - 1).header_address();
        let new_ts = vault.head_timestamp();
        self.persisted_head = new_head;
        self.persisted_len = n as u32;
        self.persisted_ts = new_ts;
        self.scratch = Vec::new();
        proof {
            lemma_chain_append(
                old_vault,
                scratch,
                old(vault).spec_author(),
                old(self).spec_persisted_head(),
                old(self).spec_persisted_len(),
                old(self).spec_persisted_ts(),
            );
            reveal(crate::element::element_wf_def);
            reveal(crate::element::shh_wf_def);
            assert(final(self).spec_scratch() =~= Seq::<ElementV>::empty());
        }
        Ok(())
    }

    /// Filter the chain as this writer sees it: the persisted records and
    /// then the pending ones, in ordinal order, each passing the filter and
    /// served per the filter's entry setting.
    pub fn query(&self, vault: &ChainVault, filter: &QueryFilter) -> (r: Vec<Element>)
        ensures
            Seq::new(r@.len(), |i: int| r@[i]@) == spec_query(
                vault@ + self.spec_scratch(),
                *filter,
                self.spec_public_only(),
            ),
    {
        let ghost c = vault@ + self.spec_scratch();
        let ghost f = *filter;
        let ghost p = self.spec_public_only();
        let mut out: Vec<Element> = Vec::new();
        proof {
            assert(c.subrange(0, 0) =~= Seq::<ElementV>::empty());
            assert(spec_query(Seq::<ElementV>::empty(), f, p) =~= Seq::<ElementV>::empty());
            assert(Seq::new(out@.len(), |k: int| out@[k]@) =~= Seq::<ElementV>::empty());
        }
        let mut i: usize = 0;
        while i < vault.len()
            invariant
                i <= vault@.len(),
                c == vault@ + self.spec_scratch(),
                f == *filter,
                p == self.spec_public_only(),
                Seq::new(out@.len(), |k: int| out@[k]@) == spec_query(
                    c.subrange(0, i as int),
                    f,
                    p,
                ),
            decreases vault@.len() - i,
        {
            proof {
                assert(c.subrange(0, i + 1) =~= c.subrange(0, i as int).push(c[i as int]));
                assert(c[i as int] == vault@[i as int]);
                lemma_query_push(c.subrange(0, i as int), c[i as int], f, p);
            }
            query_step(&mut out, vault.get(i), filter, self.public_only);
            i = i + 1;
        }
        let mut j: usize = 0;
        while j < self.scratch.len()
            invariant
                j <= self.scratch@.len(),
                i == vault@.len(),
                c == vault@ + self.spec_scratch(),
                f == *filter,
                p == self.spec_public_only(),
                Seq::new(out@.len(), |k: int| out@[k]@) == spec_query(
                    c.subrange(0, vault@.len() + j),
                    f,
                    p,
                ),
            decreases self.scratch@.len() - j,
        {
            let ghost g = vault@.len() + j;
            proof {
                assert(c.subrange(0, g + 1) =~= c.subrange(0, g).push(c[g]));
                assert(c[g] == self.spec_scratch()[j as int]);
                assert(self.spec_scratch()[j as int] == self.scratch@[j as int]@);
                lemma_query_push(c.subrange(0, g), c[g], f, p);
            }
            query_step(&mut out, &self.scratch[j], filter, self.public_only);
            j = j + 1;
        }
        proof {
            assert(c.subrange(0, c.len() as int) =~= c);
        }
        out
    }
}


/// Appending records that link on from a chain's head keeps the chain sound.
#[verifier::rlimit(100)]
#[verifier::spinoff_prover]
proof fn lemma_chain_append(
    old_c: Seq<ElementV>,
    s: Seq<ElementV>,
    author: AgentPubKey,
    head: HeaderHash,
    base: u32,
    base_ts: Timestamp,
)
    requires
        chain_wf(old_c, author),
        scratch_link_ok(s, head, base, base_ts, author),
        old_c.len() == base,
        base >= 3,
        old_c.len() > 0 ==> head == old_c.last().header_address() && base_ts == old_c.last().header().timestamp(),
    ensures
        chain_wf(old_c + s, author),
{
    let c = old_c + s;
    assert forall|k: int| 0 <= k < c.len() implies element_in_chain_ok(c, k, author) by {
        if k < old_c.len() {
            assert(element_in_chain_ok(old_c, k, author));
            assert(c[k] == old_c[k]);
            if k > 0 {
                assert(c[k - 1] == old_c[k - 1]);
            }
        } else {
            let j = k - old_c.len();
            assert(scratch_entry_ok(s, j, head, base, base_ts, author));
            assert(s[j] == c[k]);
            if j == 0 {
                assert(old_c.last() == c[k - 1]);
            } else {
                assert(s[j - 1] == c[k - 1]);
            }
        }
    }
}

/// A sound builder under sound common fields yields a well-formed header.
proof fn lemma_builder_header_wf(b: HeaderBuilder, common: HeaderBuilderCommon)
    requires
        builder_ok(b),
        common.author.wf(),
        common.prev_header.wf(),
    ensures
        header_wf(b.spec_build(common)),
{
}

/// Pushing a correctly linked record onto a linked scratch keeps it linked.
#[verifier::rlimit(100)]
#[verifier::spinoff_prover]
proof fn lemma_scratch_push(
    s: Seq<ElementV>,
    head: HeaderHash,
    base: u32,
    base_ts: Timestamp,
    author: AgentPubKey,
    e: ElementV,
)
    requires
        scratch_link_ok(s, head, base, base_ts, author),
        e.wf(),
        e.signed_header.sig_ok(),
        e.header().author() == author,
        e.header().header_seq() == base + s.len(),
        e.header().prev_header() == Some(
            if s.len() == 0 {
                head
            } else {
                s.last().header_address()
            },
        ),
        e.header().timestamp().0 >= (if s.len() == 0 {
            base_ts
        } else {
            s.last().header().timestamp()
        }).0,
        crate::dht_op::requires_entry(e.header()) ==> e.maybe_entry is Some,
    ensures
        scratch_link_ok(s.push(e), head, base, base_ts, author),
{
    let t = s.push(e);
    assert forall|i: int| 0 <= i < t.len() implies scratch_entry_ok(
        t,
        i,
        head,
        base,
        base_ts,
        author,
    ) by {
        if i < s.len() {
            assert(scratch_entry_ok(s, i, head, base, base_ts, author));
            assert(t[i] == s[i]);
            if i > 0 {
                assert(t[i - 1] == s[i - 1]);
            }
        } else {
            assert(t[i] == e);
            if i > 0 {
                assert(t[i - 1] == s[i - 1]);
            }
        }
    }
}

/// A builder's hashes are honest and its byte strings fit the wire.
pub open spec fn builder_ok(b: HeaderBuilder) -> bool {
    match b {
        HeaderBuilder::AgentValidationPkg { membrane_proof } => match membrane_proof {
            Some(p) => p@.len() < 0x1_0000_0000,
            None => true,
        },
        HeaderBuilder::InitZomesComplete => true,
        HeaderBuilder::LinkAdd { base_address, target_address, tag, .. } => base_address.wf()
            && target_address.wf() && tag@.len() < 0x1_0000_0000,
        HeaderBuilder::LinkRemove { base_address, link_add_address } => base_address.wf()
            && link_add_address.wf(),
        HeaderBuilder::ChainOpen { prev_dna_hash } => prev_dna_hash.wf(),
        HeaderBuilder::ChainClose { new_dna_hash } => new_dna_hash.wf(),
        HeaderBuilder::EntryCreate { entry_type, entry_hash } => entry_hash.wf(),
        HeaderBuilder::EntryUpdate {
            original_header_address,
            original_entry_address,
            entry_hash,
            ..
        } => original_header_address.wf() && original_entry_address.wf() && entry_hash.wf(),
        HeaderBuilder::ElementDelete { deletes_address, deletes_entry_address } => deletes_address
            .wf() && deletes_entry_address.wf(),
    }
}

/// The staged entry is exactly the one the builder's header names: present
/// with the right hash for new-entry headers, absent otherwise.
pub open spec fn builder_entry_consistent(b: HeaderBuilder, maybe_entry: Option<Entry>) -> bool {
    match b {
        HeaderBuilder::EntryCreate { entry_hash, .. } => maybe_entry matches Some(e) && entry_wf(e@)
            && entry_hash_of(e@) == entry_hash,
        HeaderBuilder::EntryUpdate { entry_hash, .. } => maybe_entry matches Some(e) && entry_wf(e@)
            && entry_hash_of(e@) == entry_hash,
        _ => maybe_entry is None,
    }
}

/// Chain linkage: in every sound chain, each record's `prev_header` is the
/// hash of its predecessor and its ordinal is its position.
pub proof fn lemma_chain_linkage(c: Seq<ElementV>, author: AgentPubKey)
    requires
        chain_wf(c, author),
    ensures
        forall|i: int|
            0 < i < c.len() ==> (#[trigger] c[i]).header().prev_header() == Some(
                c[i - 1].header_address(),
            ) && c[i].header().header_seq() == i,
{
    assert forall|i: int|
        0 < i < c.len() implies (#[trigger] c[i]).header().prev_header() == Some(
        c[i - 1].header_address(),
    ) && c[i].header().header_seq() == i by {
        assert(element_in_chain_ok(c, i, author));
    }
}

/// Genesis prefix: every sound chain opens with the DNA record, the agent
/// validation package, and the creation of the agent's own key entry, whose
/// entry hash is the agent's public key.
pub proof fn lemma_genesis_prefix(c: Seq<ElementV>, author: AgentPubKey)
    requires
        chain_wf(c, author),
        c.len() >= 3,
    ensures
        c[0].header() is Dna,
        c[1].header() is AgentValidationPkg,
        c[2].header() matches HeaderV::EntryCreate(ec) && ec.entry_type == EntryType::AgentPubKey
            && ec.entry_hash == entry_hash_of(EntryV::Agent(author)),
{
    assert(element_in_chain_ok(c, 0, author));
    assert(element_in_chain_ok(c, 1, author));
    assert(element_in_chain_ok(c, 2, author));
}

/// Committed ops are authentic: every op fanned out from a record of a
/// sound chain carries that record's header, whose signature verifies
/// against its author, and whose hash is the record's address.
pub proof fn lemma_committed_ops_signed(c: Seq<ElementV>, author: AgentPubKey, i: int)
    requires
        chain_wf(c, author),
        0 <= i < c.len(),
    ensures
        forall|k: int|
            0 <= k < crate::dht_op::expected_ops(
                c[i].signed_header.signature,
                c[i].header(),
                c[i].maybe_entry,
            ).len() ==> {
                let op = #[trigger] crate::dht_op::expected_ops(
                    c[i].signed_header.signature,
                    c[i].header(),
                    c[i].maybe_entry,
                )[k];
                &&& crate::keystore::agent_verifies(
                    op.header().author(),
                    op.signature(),
                    crate::codec::enc_header(op.header()),
                )
                &&& crate::codec::header_hash_of(op.header()) == c[i].header_address()
            },
{
    reveal(crate::element::element_wf_def);
    reveal(crate::element::shh_wf_def);
    assert(element_in_chain_ok(c, i, author));
    crate::dht_op::lemma_fanout_completeness(
        c[i].signed_header.signature,
        c[i].header(),
        c[i].maybe_entry,
    );
}

/// Head-CAS atomicity: of two writers opened on the same head, the second
/// commit can only succeed after observing the first writer's committed
/// head. Once the first writer's records are in, the second writer's compare
/// step no longer matches, so its flush fails rather than writing over them.
pub proof fn lemma_head_cas_atomic(
    a: SourceChain,
    b: SourceChain,
    v0: Seq<ElementV>,
    v1: Seq<ElementV>,
)
    requires
        // both writers were opened on the same snapshot
        a.spec_persisted_head() == b.spec_persisted_head(),
        a.spec_persisted_len() == b.spec_persisted_len(),
        a.spec_persisted_ts() == b.spec_persisted_ts(),
        // the first writer committed at least one record, moving the head
        a.spec_scratch().len() > 0,
        v1 == v0 + a.spec_scratch(),
        v0.len() == a.spec_persisted_len(),
    ensures
        // the chain has grown past the shared snapshot, so the second
        // flush's compare step cannot pass: its commit is refused
        v1.len() != b.spec_persisted_len(),
        !b.cas_matches(v1),
{
}

} // verus!
