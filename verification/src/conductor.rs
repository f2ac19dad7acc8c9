use vstd::prelude::*;

use crate::hash::AgentPubKey;
use crate::hash::DnaHash;

verus! {

/// Relies on str's equality: two string slices are equal exactly when their
/// characters are.
#[verifier::external_body]
fn str_eq(a: &str, b: &str) -> (r: bool)
    ensures
        r == (a@ == b@),
{
    a == b
}

/// An agent the conductor runs: an identity with its key material source.
#[derive(Debug)]
pub struct AgentConfig {
    pub id: String,
    pub name: String,
    pub hash: AgentPubKey,
    pub keystore_file: String,
    pub test_agent: Option<bool>,
}

/// A DNA the conductor can instantiate, identified by file and hash.
#[derive(Debug)]
pub struct DnaConfig {
    pub id: String,
    pub file: String,
    pub hash: String,
    pub uuid: Option<String>,
}

/// A cell: one DNA instantiated for one agent.
#[derive(Debug)]
pub struct CellConfig {
    pub id: String,
    pub dna: String,
    pub agent: String,
}

/// How an interface reaches the outside world.
#[derive(Clone, Copy, Debug, PartialEq, Eq, Structural)]
pub enum InterfaceDriver {
    Websocket { port: u16 },
    Http { port: u16 },
    DomainSocket,
}

/// A user-facing interface and the cells it exposes.
#[derive(Debug)]
pub struct InterfaceConfig {
    pub id: String,
    pub driver: InterfaceDriver,
    pub admin: bool,
    pub cells: Vec<CellReferenceConfig>,
    pub choose_free_port: Option<bool>,
}

/// A cell mounted in an interface, optionally under an alias.
#[derive(Debug)]
pub struct CellReferenceConfig {
    pub id: String,
    pub alias: Option<String>,
}

/// A bridge that lets one cell call another.
#[derive(Debug)]
pub struct Bridge {
    pub caller_id: String,
    pub callee_id: String,
    pub handle: String,
}

impl Bridge {
    pub fn dup(&self) -> (r: Bridge)
        ensures
            r.caller_id@ == self.caller_id@,
            r.callee_id@ == self.callee_id@,
            r.handle@ == self.handle@,
    {
        Bridge {
            caller_id: clone_string(&self.caller_id),
            callee_id: clone_string(&self.callee_id),
            handle: clone_string(&self.handle),
        }
    }
}

/// Relies on String::clone: the copy holds the same characters.
#[verifier::external_body]
fn clone_string(s: &String) -> (r: String)
    ensures
        r@ == s@,
{
    s.clone()
}

/// The ghost image of a bridge: its three ids as character strings.
pub open spec fn bridge_view(b: Bridge) -> (Seq<char>, Seq<char>, Seq<char>) {
    (b.caller_id@, b.callee_id@, b.handle@)
}

/// The ghost image of a list of bridges.
pub open spec fn bridges_view(s: Seq<Bridge>) -> Seq<(Seq<char>, Seq<char>, Seq<char>)> {
    s.map_values(|b: Bridge| bridge_view(b))
}

/// The ghost image of a cell: its id and the ids of its DNA and agent.
pub open spec fn cell_view(c: CellConfig) -> (Seq<char>, Seq<char>, Seq<char>) {
    (c.id@, c.dna@, c.agent@)
}

/// The ghost image of a list of cells.
pub open spec fn cells_view(s: Seq<CellConfig>) -> Seq<(Seq<char>, Seq<char>, Seq<char>)> {
    s.map_values(|c: CellConfig| cell_view(c))
}

/// The ghost image of a cell mounted in an interface.
pub open spec fn cellref_view(c: CellReferenceConfig) -> (Seq<char>, Option<Seq<char>>) {
    (
        c.id@,
        match c.alias {
            Some(a) => Some(a@),
            None => None,
        },
    )
}

/// The ghost image of an interface's mounted cells.
pub open spec fn cellrefs_view(s: Seq<CellReferenceConfig>) -> Seq<(Seq<char>, Option<Seq<char>>)> {
    s.map_values(|c: CellReferenceConfig| cellref_view(c))
}

/// The predicate that keeps a cell: its id is not the one being removed.
pub open spec fn cell_kept(id: Seq<char>) -> spec_fn((Seq<char>, Seq<char>, Seq<char>)) -> bool {
    |t: (Seq<char>, Seq<char>, Seq<char>)| t.0 != id
}

/// The predicate that keeps a mounted cell: its id is not the one being
/// removed.
pub open spec fn cellref_kept(id: Seq<char>) -> spec_fn((Seq<char>, Option<Seq<char>>)) -> bool {
    |t: (Seq<char>, Option<Seq<char>>)| t.0 != id
}

/// The predicate that picks a bridge by its caller.
pub open spec fn bridge_called_by(caller: Seq<char>) -> spec_fn(
    (Seq<char>, Seq<char>, Seq<char>),
) -> bool {
    |t: (Seq<char>, Seq<char>, Seq<char>)| t.0 == caller
}

/// The ghost image of a DNA configuration.
pub open spec fn dna_view(d: DnaConfig) -> (Seq<char>, Seq<char>, Seq<char>, Option<Seq<char>>) {
    (
        d.id@,
        d.file@,
        d.hash@,
        match d.uuid {
            Some(u) => Some(u@),
            None => None,
        },
    )
}

/// The conductor's mutable state: who runs, what runs, and how the pieces
/// reach each other. References between parts go by string ids.
#[derive(Debug)]
pub struct ConductorState {
    pub agents: Vec<AgentConfig>,
    pub dnas: Vec<DnaConfig>,
    pub cells: Vec<CellConfig>,
    pub interfaces: Vec<InterfaceConfig>,
    pub bridges: Vec<Bridge>,
}

impl ConductorState {
    /// A fresh, empty state.
    pub fn new() -> (r: ConductorState)
        ensures
            r.agents@.len() == 0,
            r.dnas@.len() == 0,
            r.cells@.len() == 0,
            r.interfaces@.len() == 0,
            r.bridges@.len() == 0,
    {
        ConductorState {
            agents: Vec::new(),
            dnas: Vec::new(),
            cells: Vec::new(),
            interfaces: Vec::new(),
            bridges: Vec::new(),
        }
    }

    /// Nothing to check yet between the parts of a state.
    pub fn check_consistency(&self) -> (r: Result<(), ()>)
        ensures
            r is Ok,
    {
        Ok(())
    }

    /// The index of the first agent with this id, if any.
    pub fn agent_index(&self, id: &str) -> (r: Option<usize>)
        ensures
            match r {
                Some(i) => i < self.agents@.len() && self.agents@[i as int].id@ == id@ && forall|
                    k: int,
                |
                    0 <= k < i ==> (#[trigger] self.agents@[k]).id@ != id@,
                None => forall|k: int|
                    0 <= k < self.agents@.len() ==> (#[trigger] self.agents@[k]).id@ != id@,
            },
    {
        let mut i: usize = 0;
        while i < self.agents.len()
            invariant
                i <= self.agents.len(),
                forall|k: int| 0 <= k < i ==> (#[trigger] self.agents@[k]).id@ != id@,
            decreases self.agents.len() - i,
        {
            if str_eq(self.agents[i].id.as_str(), id) {
                return Some(i);
            }
            i = i + 1;
        }
        None
    }

    /// The first agent configuration with the given id, if present.
    pub fn agent_by_id(&self, id: &str) -> (r: Option<&AgentConfig>)
        ensures
            match r {
                Some(a) => exists|i: int|
                    0 <= i < self.agents@.len() && (#[trigger] self.agents@[i]).id@ == id@
                        && a == self.agents@[i] && (forall|k: int|
                        0 <= k < i ==> (#[trigger] self.agents@[k]).id@ != id@),
                None => forall|k: int|
                    0 <= k < self.agents@.len() ==> (#[trigger] self.agents@[k]).id@ != id@,
            },
    {
        match self.agent_index(id) {
            Some(i) => Some(&self.agents[i]),
            None => None,
        }
    }

    /// Point the agent with this id at a new key.
    pub fn update_agent_address_by_id(&mut self, id: &str, agent_hash: &AgentPubKey)
        ensures
            final(self).agents@.len() == old(self).agents@.len(),
            forall|k: int|
                0 <= k < old(self).agents@.len() ==> if (#[trigger] old(self).agents@[k]).id@
                    == id@ {
                    final(self).agents@[k].hash == *agent_hash && final(self).agents@[k].id@ == old(
                        self,
                    ).agents@[k].id@
                } else {
                    final(self).agents@[k] == old(self).agents@[k]
                },
            final(self).dnas@ == old(self).dnas@,
            final(self).cells@ == old(self).cells@,
            final(self).interfaces@ == old(self).interfaces@,
            final(self).bridges@ == old(self).bridges@,
    {
        let n = self.agents.len();
        let mut i: usize = 0;
        while i < n
            invariant
                i <= n,
                n == self.agents@.len(),
                self.agents@.len() == old(self).agents@.len(),
                forall|k: int|
                    0 <= k < i ==> if (#[trigger] old(self).agents@[k]).id@ == id@ {
                        self.agents@[k].hash == *agent_hash && self.agents@[k].id@ == old(
                            self,
                        ).agents@[k].id@
                    } else {
                        self.agents@[k] == old(self).agents@[k]
                    },
                forall|k: int| i <= k < n ==> self.agents@[k] == old(self).agents@[k],
                self.dnas@ == old(self).dnas@,
                self.cells@ == old(self).cells@,
                self.interfaces@ == old(self).interfaces@,
                self.bridges@ == old(self).bridges@,
            decreases n - i,
        {
            if str_eq(self.agents[i].id.as_str(), id) {
                let updated = AgentConfig {
                    id: clone_string(&self.agents[i].id),
                    name: clone_string(&self.agents[i].name),
                    hash: *agent_hash,
                    keystore_file: clone_string(&self.agents[i].keystore_file),
                    test_agent: self.agents[i].test_agent,
                };
                self.agents.set(i, updated);
            }
            i = i + 1;
        }
    }

    /// The index of the first DNA with this id, if any.
    pub fn dna_index(&self, id: &str) -> (r: Option<usize>)
        ensures
            match r {
                Some(i) => i < self.dnas@.len() && self.dnas@[i as int].id@ == id@ && forall|k: int|
                    0 <= k < i ==> (#[trigger] self.dnas@[k]).id@ != id@,
                None => forall|k: int|
                    0 <= k < self.dnas@.len() ==> (#[trigger] self.dnas@[k]).id@ != id@,
            },
    {
        let mut i: usize = 0;
        while i < self.dnas.len()
            invariant
                i <= self.dnas.len(),
                forall|k: int| 0 <= k < i ==> (#[trigger] self.dnas@[k]).id@ != id@,
            decreases self.dnas.len() - i,
        {
            if str_eq(self.dnas[i].id.as_str(), id) {
                return Some(i);
            }
            i = i + 1;
        }
        None
    }

    /// The first DNA configuration with the given id, if present.
    pub fn dna_by_id(&self, id: &str) -> (r: Option<&DnaConfig>)
        ensures
            match r {
                Some(d) => exists|i: int|
                    0 <= i < self.dnas@.len() && (#[trigger] self.dnas@[i]).id@ == id@ && d
                        == self.dnas@[i] && (forall|k: int|
                        0 <= k < i ==> (#[trigger] self.dnas@[k]).id@ != id@),
                None => forall|k: int|
                    0 <= k < self.dnas@.len() ==> (#[trigger] self.dnas@[k]).id@ != id@,
            },
    {
        match self.dna_index(id) {
            Some(i) => Some(&self.dnas[i]),
            None => None,
        }
    }

    /// Record a new hash for the first DNA with this id; reports whether one
    /// matched. The matched configuration keeps everything but its hash, and
    /// every other configuration is untouched.
    pub fn update_dna_hash_by_id(&mut self, id: &str, hash: String) -> (r: bool)
        ensures
            r == exists|i: int|
                0 <= i < old(self).dnas@.len() && (#[trigger] old(self).dnas@[i]).id@ == id@,
            final(self).agents@ == old(self).agents@,
            final(self).cells@ == old(self).cells@,
            final(self).interfaces@ == old(self).interfaces@,
            final(self).bridges@ == old(self).bridges@,
            final(self).dnas@.len() == old(self).dnas@.len(),
            forall|k: int|
                0 <= k < old(self).dnas@.len() ==> dna_view(#[trigger] final(self).dnas@[k]) == if (
                old(self).dnas@[k].id@ == id@ && forall|j: int|
                    0 <= j < k ==> (#[trigger] old(self).dnas@[j]).id@ != id@) {
                    (
                        old(self).dnas@[k].id@,
                        old(self).dnas@[k].file@,
                        hash@,
                        match old(self).dnas@[k].uuid {
                            Some(u) => Some(u@),
                            None => None,
                        },
                    )
                } else {
                    dna_view(old(self).dnas@[k])
                },
    {
        match self.dna_index(id) {
            Some(i) => {
                let updated = DnaConfig {
                    id: clone_string(&self.dnas[i].id),
                    file: clone_string(&self.dnas[i].file),
                    hash,
                    uuid: match &self.dnas[i].uuid {
                        Some(u) => Some(clone_string(u)),
                        None => None,
                    },
                };
                self.dnas.set(i, updated);
                proof {
                    assert(old(self).dnas@[i as int].id@ == id@);
                }
                true
            },
            None => false,
        }
    }

    /// The first cell configuration with the given id, if present.
    pub fn cell_by_id(&self, id: &str) -> (r: Option<&CellConfig>)
        ensures
            match r {
                Some(c) => exists|i: int|
                    0 <= i < self.cells@.len() && (#[trigger] self.cells@[i]).id@ == id@ && c
                        == self.cells@[i] && (forall|k: int|
                        0 <= k < i ==> (#[trigger] self.cells@[k]).id@ != id@),
                None => forall|k: int|
                    0 <= k < self.cells@.len() ==> (#[trigger] self.cells@[k]).id@ != id@,
            },
    {
        let mut i: usize = 0;
        while i < self.cells.len()
            invariant
                i <= self.cells.len(),
                forall|k: int| 0 <= k < i ==> (#[trigger] self.cells@[k]).id@ != id@,
            decreases self.cells.len() - i,
        {
            if str_eq(self.cells[i].id.as_str(), id) {
                return Some(&self.cells[i]);
            }
            i = i + 1;
        }
        None
    }

    /// The first interface configuration with the given id, if present.
    pub fn interface_by_id(&self, id: &str) -> (r: Option<&InterfaceConfig>)
        ensures
            match r {
                Some(c) => exists|i: int|
                    0 <= i < self.interfaces@.len() && (#[trigger] self.interfaces@[i]).id@ == id@
                        && c == self.interfaces@[i] && (forall|k: int|
                        0 <= k < i ==> (#[trigger] self.interfaces@[k]).id@ != id@),
                None => forall|k: int|
                    0 <= k < self.interfaces@.len() ==> (#[trigger] self.interfaces@[k]).id@ != id@,
            },
    {
        let mut i: usize = 0;
        while i < self.interfaces.len()
            invariant
                i <= self.interfaces.len(),
                forall|k: int| 0 <= k < i ==> (#[trigger] self.interfaces@[k]).id@ != id@,
            decreases self.interfaces.len() - i,
        {
            if str_eq(self.interfaces[i].id.as_str(), id) {
                return Some(&self.interfaces[i]);
            }
            i = i + 1;
        }
        None
    }

    /// All defined cell ids, in order.
    pub fn cell_ids(&self) -> (r: Vec<String>)
        ensures
            r@.len() == self.cells@.len(),
            forall|i: int| 0 <= i < r@.len() ==> (#[trigger] r@[i])@ == self.cells@[i].id@,
    {
        let mut out: Vec<String> = Vec::new();
        let mut i: usize = 0;
        while i < self.cells.len()
            invariant
                i <= self.cells.len(),
                out@.len() == i,
                forall|k: int| 0 <= k < i ==> (#[trigger] out@[k])@ == self.cells@[k].id@,
            decreases self.cells.len() - i,
        {
            out.push(clone_string(&self.cells[i].id));
            i = i + 1;
        }
        out
    }

    /// Exactly the bridges whose caller is the given cell, in their original
    /// order.
    pub fn bridge_dependencies(&self, caller_cell_id: &str) -> (r: Vec<Bridge>)
        ensures
            bridges_view(r@) == bridges_view(self.bridges@).filter(
                bridge_called_by(caller_cell_id@),
            ),
    {
        let mut out: Vec<Bridge> = Vec::new();
        let mut i: usize = 0;
        while i < self.bridges.len()
            invariant
                i <= self.bridges.len(),
                bridges_view(out@) == bridges_view(self.bridges@.subrange(0, i as int)).filter(
                    bridge_called_by(caller_cell_id@),
                ),
            decreases self.bridges.len() - i,
        {
            let ghost prefix = bridges_view(self.bridges@.subrange(0, i as int));
            proof {
                assert(bridges_view(self.bridges@.subrange(0, i + 1)) =~= prefix.push(
                    bridge_view(self.bridges@[i as int]),
                ));
                prefix.lemma_filter_push(bridge_view(self.bridges@[i as int]), bridge_called_by(caller_cell_id@));
            }
            if str_eq(self.bridges[i].caller_id.as_str(), caller_cell_id) {
                let b = self.bridges[i].dup();
                let ghost out_before = out@;
                proof {
                    assert(bridge_view(b) == bridge_view(self.bridges@[i as int]));
                }
                out.push(b);
                proof {
                    assert(bridges_view(out@) =~= bridges_view(out_before).push(bridge_view(b)));
                }
            }
            i = i + 1;
        }
        proof {
            assert(self.bridges@.subrange(0, self.bridges@.len() as int) =~= self.bridges@);
        }
        out
    }

    /// Remove the cell with this id, and every mention of it in the
    /// interfaces, so the state stays consistent. Everything else — other
    /// cells, the interfaces' own settings and their other mounted cells,
    /// agents, DNAs and bridges — is kept as it was.
    pub fn save_remove_cell(&mut self, id: &str)
        ensures
            cells_view(final(self).cells@) == cells_view(old(self).cells@).filter(
                cell_kept(id@),
            ),
            final(self).interfaces@.len() == old(self).interfaces@.len(),
            forall|j: int|
                0 <= j < old(self).interfaces@.len() ==> {
                    let o = #[trigger] old(self).interfaces@[j];
                    let n = final(self).interfaces@[j];
                    &&& n.id@ == o.id@
                    &&& n.driver == o.driver
                    &&& n.admin == o.admin
                    &&& n.choose_free_port == o.choose_free_port
                    &&& cellrefs_view(n.cells@) == cellrefs_view(o.cells@).filter(
                        cellref_kept(id@),
                    )
                },
            final(self).agents@ == old(self).agents@,
            final(self).dnas@ == old(self).dnas@,
            final(self).bridges@ == old(self).bridges@,
    {
        let mut kept: Vec<CellConfig> = Vec::new();
        let mut i: usize = 0;
        while i < self.cells.len()
            invariant
                i <= self.cells.len(),
                self == old(self),
                cells_view(kept@) == cells_view(self.cells@.subrange(0, i as int)).filter(cell_kept(id@)),
            decreases self.cells.len() - i,
        {
            let ghost prefix = cells_view(self.cells@.subrange(0, i as int));
            proof {
                assert(cells_view(self.cells@.subrange(0, i + 1)) =~= prefix.push(
                    cell_view(self.cells@[i as int]),
                ));
                prefix.lemma_filter_push(cell_view(self.cells@[i as int]), cell_kept(id@));
            }
            if !str_eq(self.cells[i].id.as_str(), id) {
                let c = CellConfig {
                    id: clone_string(&self.cells[i].id),
                    dna: clone_string(&self.cells[i].dna),
                    agent: clone_string(&self.cells[i].agent),
                };
                let ghost kept_before = kept@;
                proof {
                    assert(cell_view(c) == cell_view(self.cells@[i as int]));
                }
                kept.push(c);
                proof {
                    assert(cells_view(kept@) =~= cells_view(kept_before).push(cell_view(c)));
                }
            }
            i = i + 1;
        }
        proof {
            assert(self.cells@.subrange(0, self.cells@.len() as int) =~= self.cells@);
        }
        self.cells = kept;
        let n = self.interfaces.len();
        let mut j: usize = 0;
        while j < n
            invariant
                j <= n,
                n == self.interfaces@.len(),
                self.interfaces@.len() == old(self).interfaces@.len(),
                cells_view(self.cells@) == cells_view(old(self).cells@).filter(cell_kept(id@)),
                forall|m: int|
                    0 <= m < j ==> {
                        let o = #[trigger] old(self).interfaces@[m];
                        let ni = self.interfaces@[m];
                        &&& ni.id@ == o.id@
                        &&& ni.driver == o.driver
                        &&& ni.admin == o.admin
                        &&& ni.choose_free_port == o.choose_free_port
                        &&& cellrefs_view(ni.cells@) == cellrefs_view(o.cells@).filter(cellref_kept(id@))
                    },
                forall|m: int| j <= m < n ==> self.interfaces@[m] == old(self).interfaces@[m],
                self.agents@ == old(self).agents@,
                self.dnas@ == old(self).dnas@,
                self.bridges@ == old(self).bridges@,
            decreases n - j,
        {
            let mut cells_kept: Vec<CellReferenceConfig> = Vec::new();
            let mut k: usize = 0;
            while k < self.interfaces[j].cells.len()
                invariant
                    j < self.interfaces@.len(),
                    self.interfaces@[j as int] == old(self).interfaces@[j as int],
                    k <= self.interfaces@[j as int].cells@.len(),
                    cellrefs_view(cells_kept@) == cellrefs_view(
                        self.interfaces@[j as int].cells@.subrange(0, k as int),
                    ).filter(cellref_kept(id@)),
                decreases self.interfaces@[j as int].cells@.len() - k,
            {
                let ghost refs = self.interfaces@[j as int].cells@;
                let ghost prefix = cellrefs_view(refs.subrange(0, k as int));
                proof {
                    assert(cellrefs_view(refs.subrange(0, k + 1)) =~= prefix.push(
                        cellref_view(refs[k as int]),
                    ));
                    prefix.lemma_filter_push(cellref_view(refs[k as int]), cellref_kept(id@));
                }
                if !str_eq(self.interfaces[j].cells[k].id.as_str(), id) {
                    let cr = CellReferenceConfig {
                        id: clone_string(&self.interfaces[j].cells[k].id),
                        alias: match &self.interfaces[j].cells[k].alias {
                            Some(a) => Some(clone_string(a)),
                            None => None,
                        },
                    };
                    let ghost kept_before = cells_kept@;
                    proof {
                        assert(cellref_view(cr) == cellref_view(refs[k as int]));
                    }
                    cells_kept.push(cr);
                    proof {
                        assert(cellrefs_view(cells_kept@) =~= cellrefs_view(kept_before).push(
                            cellref_view(cr),
                        ));
                    }
                }
                k = k + 1;
            }
            proof {
                let refs = self.interfaces@[j as int].cells@;
                assert(refs.subrange(0, refs.len() as int) =~= refs);
            }
            let updated = InterfaceConfig {
                id: clone_string(&self.interfaces[j].id),
                driver: self.interfaces[j].driver,
                admin: self.interfaces[j].admin,
                cells: cells_kept,
                choose_free_port: self.interfaces[j].choose_free_port,
            };
            self.interfaces.set(j, updated);
            j = j + 1;
        }
    }
}

/// Report duplicated ids in a list: the ids that occur more than once.
pub fn _detect_dupes(ids: &Vec<String>) -> (r: bool)
    ensures
        r == exists|i: int, j: int|
            0 <= i < j < ids@.len() && (#[trigger] ids@[i])@ == (#[trigger] ids@[j])@,
{
    let n = ids.len();
    let mut i: usize = 0;
    while i < n
        invariant
            i <= n,
            n == ids@.len(),
            forall|a: int, b: int| 0 <= a < b < ids@.len() && b < i ==> (#[trigger] ids@[a])@ != (
            #[trigger] ids@[b])@,
        decreases n - i,
    {
        let mut j: usize = 0;
        while j < i
            invariant
                j <= i,
                i < n,
                n == ids@.len(),
                forall|b: int| 0 <= b < j ==> (#[trigger] ids@[b])@ != ids@[i as int]@,
            decreases i - j,
        {
            if str_eq(ids[j].as_str(), ids[i].as_str()) {
                return true;
            }
            j = j + 1;
        }
        i = i + 1;
    }
    false
}

/// What a zome learns about the DNA it runs in.
#[derive(Debug)]
pub struct DnaInfo {
    pub name: Vec<u8>,
    pub hash: DnaHash,
}

/// The DNA-info host function: hands the cell's DNA name and hash to the
/// guest.
pub fn dna_info(info: &DnaInfo) -> (r: DnaInfo)
    ensures
        r.name@ == info.name@,
        r.hash == info.hash,
{
    DnaInfo { name: crate::clone_bytes(&info.name), hash: info.hash }
}

} // verus!
