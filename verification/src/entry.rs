use vstd::prelude::*;

use crate::EntryVisibility;
use crate::clone_bytes;
use crate::codec::enc_bytes;
use crate::codec::enc_u32;
use crate::codec::push_bytes;
use crate::codec::push_hash;
use crate::codec::push_u32;
use crate::codec::spec_hash_of;
use crate::codec::enc_hash;
use crate::codec::lemma_digest_as_array_id;
use crate::hash::AgentPubKey;
use crate::hash::EntryHash;
use crate::hash::HashKind;
use crate::hash::HoloHash;

verus! {

/// A secret that unlocks a transferable or assigned capability grant.
#[derive(Clone, Copy, Debug)]
pub struct CapSecret(pub [u8; 64]);

impl CapSecret {
    /// Compare two secrets byte for byte.
    pub fn matches(&self, other: &CapSecret) -> (r: bool)
        ensures
            r == (self.0@ == other.0@),
    {
        let mut i: usize = 0;
        while i < 64
            invariant
                i <= 64,
                forall|j: int| 0 <= j < i ==> self.0@[j] == other.0@[j],
            decreases 64 - i,
        {
            if self.0[i] != other.0[i] {
                return false;
            }
            i = i + 1;
        }
        proof {
            assert(self.0@ =~= other.0@);
        }
        true
    }
}

/// A zome function that a grant may cover, named by zome and function.
#[derive(Debug)]
pub struct GrantedFunction {
    pub zome: Vec<u8>,
    pub function: Vec<u8>,
}

/// The ghost image of a `GrantedFunction`.
pub struct GrantedFunctionV {
    pub zome: Seq<u8>,
    pub function: Seq<u8>,
}

impl View for GrantedFunction {
    type V = GrantedFunctionV;

    open spec fn view(&self) -> GrantedFunctionV {
        GrantedFunctionV { zome: self.zome@, function: self.function@ }
    }
}

impl GrantedFunction {
    pub fn dup(&self) -> (r: GrantedFunction)
        ensures
            r@ == self@,
    {
        GrantedFunction { zome: clone_bytes(&self.zome), function: clone_bytes(&self.function) }
    }

    /// Whether two granted functions name the same zome and function.
    pub fn matches(&self, other: &GrantedFunction) -> (r: bool)
        ensures
            r == (self@.zome == other@.zome && self@.function == other@.function),
    {
        crate::bytes_eq(&self.zome, &other.zome) && crate::bytes_eq(&self.function, &other.function)
    }
}

/// Who may exercise a capability grant, and under what secret.
#[derive(Debug)]
pub enum CapAccess {
    /// Anyone, no secret asked.
    Unrestricted,
    /// Anyone who presents the secret.
    Transferable { secret: CapSecret },
    /// Only the assigned agents, and only with the secret.
    Assigned { secret: CapSecret, assignees: Vec<AgentPubKey> },
}

/// The ghost image of a `CapAccess`.
pub enum CapAccessV {
    Unrestricted,
    Transferable { secret: CapSecret },
    Assigned { secret: CapSecret, assignees: Seq<AgentPubKey> },
}

impl View for CapAccess {
    type V = CapAccessV;

    open spec fn view(&self) -> CapAccessV {
        match self {
            CapAccess::Unrestricted => CapAccessV::Unrestricted,
            CapAccess::Transferable { secret } => CapAccessV::Transferable { secret: *secret },
            CapAccess::Assigned { secret, assignees } => CapAccessV::Assigned {
                secret: *secret,
                assignees: assignees@,
            },
        }
    }
}

impl CapAccess {
    pub fn dup(&self) -> (r: CapAccess)
        ensures
            r@ == self@,
    {
        match self {
            CapAccess::Unrestricted => CapAccess::Unrestricted,
            CapAccess::Transferable { secret } => CapAccess::Transferable { secret: *secret },
            CapAccess::Assigned { secret, assignees } => {
                let mut out: Vec<AgentPubKey> = Vec::new();
                let mut i: usize = 0;
                while i < assignees.len()
                    invariant
                        i <= assignees.len(),
                        out@ == assignees@.subrange(0, i as int),
                    decreases assignees.len() - i,
                {
                    out.push(assignees[i]);
                    i = i + 1;
                }
                proof {
                    assert(out@ =~= assignees@);
                }
                CapAccess::Assigned { secret: *secret, assignees: out }
            },
        }
    }
}

/// A capability grant committed to the chain, naming the functions it covers.
#[derive(Debug)]
pub struct ZomeCallCapGrant {
    pub tag: Vec<u8>,
    pub access: CapAccess,
    pub functions: Vec<GrantedFunction>,
}

/// The ghost image of a `ZomeCallCapGrant`.
pub struct ZomeCallCapGrantV {
    pub tag: Seq<u8>,
    pub access: CapAccessV,
    pub functions: Seq<GrantedFunctionV>,
}

impl View for ZomeCallCapGrant {
    type V = ZomeCallCapGrantV;

    open spec fn view(&self) -> ZomeCallCapGrantV {
        ZomeCallCapGrantV {
            tag: self.tag@,
            access: self.access@,
            functions: Seq::new(self.functions@.len(), |i: int| self.functions@[i]@),
        }
    }
}

impl ZomeCallCapGrant {
    pub fn dup(&self) -> (r: ZomeCallCapGrant)
        ensures
            r@ == self@,
    {
        let mut fs: Vec<GrantedFunction> = Vec::new();
        let mut i: usize = 0;
        while i < self.functions.len()
            invariant
                i <= self.functions.len(),
                fs@.len() == i,
                forall|j: int| 0 <= j < i ==> fs@[j]@ == self.functions@[j]@,
            decreases self.functions.len() - i,
        {
            fs.push(self.functions[i].dup());
            i = i + 1;
        }
        let r = ZomeCallCapGrant {
            tag: clone_bytes(&self.tag),
            access: self.access.dup(),
            functions: fs,
        };
        proof {
            assert(r@.functions =~= self@.functions);
        }
        r
    }
}

/// A capability claim held by a caller: the grantor and the secret to present.
#[derive(Debug)]
pub struct CapClaim {
    pub tag: Vec<u8>,
    pub grantor: AgentPubKey,
    pub secret: CapSecret,
}

/// The ghost image of a `CapClaim`.
pub struct CapClaimV {
    pub tag: Seq<u8>,
    pub grantor: AgentPubKey,
    pub secret: CapSecret,
}

impl View for CapClaim {
    type V = CapClaimV;

    open spec fn view(&self) -> CapClaimV {
        CapClaimV { tag: self.tag@, grantor: self.grantor, secret: self.secret }
    }
}

/// The body of a chain record: an agent key, app bytes, or a capability.
#[derive(Debug)]
pub enum Entry {
    Agent(AgentPubKey),
    App(Vec<u8>),
    CapClaim(CapClaim),
    CapGrant(ZomeCallCapGrant),
}

/// The ghost image of an `Entry`.
pub enum EntryV {
    Agent(AgentPubKey),
    App(Seq<u8>),
    CapClaim(CapClaimV),
    CapGrant(ZomeCallCapGrantV),
}

impl View for Entry {
    type V = EntryV;

    open spec fn view(&self) -> EntryV {
        match self {
            Entry::Agent(a) => EntryV::Agent(*a),
            Entry::App(b) => EntryV::App(b@),
            Entry::CapClaim(c) => EntryV::CapClaim(c@),
            Entry::CapGrant(g) => EntryV::CapGrant(g@),
        }
    }
}

impl Entry {
    pub fn dup(&self) -> (r: Entry)
        ensures
            r@ == self@,
    {
        match self {
            Entry::Agent(a) => Entry::Agent(*a),
            Entry::App(b) => Entry::App(clone_bytes(b)),
            Entry::CapClaim(c) => Entry::CapClaim(
                CapClaim { tag: clone_bytes(&c.tag), grantor: c.grantor, secret: c.secret },
            ),
            Entry::CapGrant(g) => Entry::CapGrant(g.dup()),
        }
    }
}

/// An entry's byte strings fit their length prefixes.
pub open spec fn entry_wf(e: EntryV) -> bool {
    match e {
        EntryV::Agent(a) => a.wf(),
        EntryV::App(b) => b.len() < 0x1_0000_0000,
        EntryV::CapClaim(c) => c.tag.len() < 0x1_0000_0000 && c.grantor.wf(),
        EntryV::CapGrant(g) => {
            &&& g.tag.len() < 0x1_0000_0000
            &&& g.functions.len() < 0x1_0000_0000
            &&& (forall|i: int|
                0 <= i < g.functions.len() ==> (#[trigger] g.functions[i]).zome.len()
                    < 0x1_0000_0000 && g.functions[i].function.len() < 0x1_0000_0000)
            &&& match g.access {
                CapAccessV::Assigned { assignees, .. } => assignees.len() < 0x1_0000_0000
                    && forall|i: int| 0 <= i < assignees.len() ==> (#[trigger] assignees[i]).wf(),
                _ => true,
            }
        },
    }
}

/// The wire form of a secret: its 64 bytes, plain.
pub open spec fn enc_secret(s: CapSecret) -> Seq<u8> {
    s.0@
}

/// The wire form of a granted function: two length-prefixed names.
pub open spec fn enc_granted_function(f: GrantedFunctionV) -> Seq<u8> {
    enc_bytes(f.zome) + enc_bytes(f.function)
}

/// The wire form of a list of granted functions.
pub open spec fn enc_function_list(fs: Seq<GrantedFunctionV>) -> Seq<u8>
    decreases fs.len(),
{
    if fs.len() == 0 {
        Seq::empty()
    } else {
        enc_function_list(fs.drop_last()) + enc_granted_function(fs.last())
    }
}

/// The wire form of a list of agents.
pub open spec fn enc_agent_list(a: Seq<AgentPubKey>) -> Seq<u8>
    decreases a.len(),
{
    if a.len() == 0 {
        Seq::empty()
    } else {
        enc_agent_list(a.drop_last()) + enc_hash(a.last())
    }
}

/// The wire form of a grant's access clause.
pub open spec fn enc_access(a: CapAccessV) -> Seq<u8> {
    match a {
        CapAccessV::Unrestricted => seq![0u8],
        CapAccessV::Transferable { secret } => seq![1u8] + enc_secret(secret),
        CapAccessV::Assigned { secret, assignees } => seq![2u8] + enc_secret(secret) + enc_u32(
            assignees.len() as u32,
        ) + enc_agent_list(assignees),
    }
}

/// An entry's canonical wire form, used for content addressing.
pub open spec fn enc_entry(e: EntryV) -> Seq<u8> {
    match e {
        EntryV::Agent(a) => seq![0u8] + enc_hash(a),
        EntryV::App(b) => seq![1u8] + enc_bytes(b),
        EntryV::CapClaim(c) => seq![2u8] + enc_bytes(c.tag) + enc_hash(c.grantor) + enc_secret(
            c.secret,
        ),
        EntryV::CapGrant(g) => seq![3u8] + enc_bytes(g.tag) + enc_access(g.access) + enc_u32(
            g.functions.len() as u32,
        ) + enc_function_list(g.functions),
    }
}

/// The content address of an entry. An agent-key entry is addressed by the
/// key itself, so that an agent's activity and its key entry share one
/// location; every other entry is addressed by the digest of its wire form.
pub open spec fn entry_hash_of(e: EntryV) -> EntryHash {
    match e {
        EntryV::Agent(a) => HoloHash { kind: HashKind::Entry, digest: a.digest, loc: a.loc },
        _ => spec_hash_of(HashKind::Entry, enc_entry(e)),
    }
}

/// Append a secret's 64 bytes.
fn push_secret(out: &mut Vec<u8>, s: &CapSecret)
    ensures
        final(out)@ == old(out)@ + enc_secret(*s),
{
    let mut i: usize = 0;
    while i < 64
        invariant
            i <= 64,
            out@ == old(out)@ + s.0@.subrange(0, i as int),
        decreases 64 - i,
    {
        out.push(s.0[i]);
        proof {
            assert(out@ =~= old(out)@ + s.0@.subrange(0, i + 1));
        }
        i = i + 1;
    }
    proof {
        assert(out@ =~= old(out)@ + enc_secret(*s));
    }
}

/// Serialize an entry into its canonical wire form.
pub fn encode_entry(e: &Entry) -> (r: Vec<u8>)
    requires
        entry_wf(e@),
    ensures
        r@ == enc_entry(e@),
{
    let mut out: Vec<u8> = Vec::new();
    match e {
        Entry::Agent(a) => {
            out.push(0);
            push_hash(&mut out, a);
        },
        Entry::App(b) => {
            out.push(1);
            push_bytes(&mut out, b);
        },
        Entry::CapClaim(c) => {
            out.push(2);
            push_bytes(&mut out, &c.tag);
            push_hash(&mut out, &c.grantor);
            push_secret(&mut out, &c.secret);
        },
        Entry::CapGrant(g) => {
            out.push(3);
            push_bytes(&mut out, &g.tag);
            match &g.access {
                CapAccess::Unrestricted => {
                    out.push(0);
                },
                CapAccess::Transferable { secret } => {
                    out.push(1);
                    push_secret(&mut out, secret);
                },
                CapAccess::Assigned { secret, assignees } => {
                    out.push(2);
                    push_secret(&mut out, secret);
                    push_u32(&mut out, assignees.len() as u32);
                    let ghost base = out@;
                    let mut i: usize = 0;
                    while i < assignees.len()
                        invariant
                            i <= assignees.len(),
                            out@ == base + enc_agent_list(assignees@.subrange(0, i as int)),
                        decreases assignees.len() - i,
                    {
                        push_hash(&mut out, &assignees[i]);
                        proof {
                            assert(assignees@.subrange(0, i + 1).drop_last() =~= assignees@
                                .subrange(0, i as int));
                            assert(out@ =~= base + enc_agent_list(assignees@.subrange(0, i + 1)));
                        }
                        i = i + 1;
                    }
                    proof {
                        assert(assignees@.subrange(0, assignees@.len() as int) =~= assignees@);
                    }
                },
            }
            push_u32(&mut out, g.functions.len() as u32);
            proof {
                assert forall|j: int| 0 <= j < g.functions@.len() implies (#[trigger] g
                    .functions@[j]@).zome.len() < 0x1_0000_0000 && g.functions@[j]@.function.len()
                    < 0x1_0000_0000 by {
                    assert(e@->CapGrant_0.functions[j] == g.functions@[j]@);
                }
            }
            let ghost base = out@;
            let mut i: usize = 0;
            while i < g.functions.len()
                invariant
                    i <= g.functions.len(),
                    out@ == base + enc_function_list(
                        Seq::new(i as nat, |k: int| g.functions@[k]@),
                    ),
                    forall|j: int|
                        0 <= j < g.functions@.len() ==> (#[trigger] g.functions@[j]@).zome.len()
                            < 0x1_0000_0000 && g.functions@[j]@.function.len() < 0x1_0000_0000,
                decreases g.functions.len() - i,
            {
                proof {
                    assert(g.functions@[i as int]@.zome.len() < 0x1_0000_0000);
                    assert(g.functions@[i as int]@.function.len() < 0x1_0000_0000);
                }
                push_bytes(&mut out, &g.functions[i].zome);
                push_bytes(&mut out, &g.functions[i].function);
                proof {
                    let pfx = Seq::new((i + 1) as nat, |k: int| g.functions@[k]@);
                    assert(pfx.drop_last() =~= Seq::new(i as nat, |k: int| g.functions@[k]@));
                    assert(out@ =~= base + enc_function_list(pfx));
                }
                i = i + 1;
            }
            proof {
                assert(Seq::new(g.functions@.len(), |k: int| g.functions@[k]@) =~= e@
                    ->CapGrant_0.functions);
            }
        },
    }
    proof {
        assert(out@ =~= enc_entry(e@));
    }
    out
}

/// Hash an entry by serializing it and digesting the bytes.
pub fn hash_entry(e: &Entry) -> (r: EntryHash)
    requires
        entry_wf(e@),
    ensures
        r == entry_hash_of(e@),
        r.wf(),
        r.kind == HashKind::Entry,
{
    match e {
        Entry::Agent(a) => a.retype(HashKind::Entry),
        _ => {
            let bytes = encode_entry(e);
            let r = HoloHash::with_data(HashKind::Entry, &bytes);
            proof {
                lemma_digest_as_array_id(r.digest);
            }
            r
        },
    }
}

} // verus!
