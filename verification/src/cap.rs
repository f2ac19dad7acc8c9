use vstd::prelude::*;

use crate::chain::ChainVault;
use crate::element::ElementV;
use crate::entry::CapAccess;
use crate::entry::CapAccessV;
use crate::entry::CapSecret;
use crate::entry::Entry;
use crate::entry::EntryV;
use crate::entry::GrantedFunction;
use crate::entry::GrantedFunctionV;
use crate::entry::ZomeCallCapGrant;
use crate::entry::ZomeCallCapGrantV;
use crate::hash::AgentPubKey;
use crate::hash::HeaderHash;
use crate::header::HeaderV;

verus! {

/// Who a zome call may act as, once its capability is resolved.
#[derive(Debug)]
pub enum CapGrant {
    /// The chain's own author: authorship implies full authority.
    ChainAuthor(AgentPubKey),
    /// A grant the author committed for others.
    RemoteAgent(ZomeCallCapGrant),
}

/// The ghost image of a presented secret.
pub open spec fn secret_view(s: Option<&CapSecret>) -> Option<CapSecret> {
    match s {
        Some(x) => Some(*x),
        None => None,
    }
}

/// Whether a grant's access clause admits this caller with this secret:
/// unrestricted access asks nothing, transferable access asks the secret,
/// assigned access asks the secret of one of the assignees.
pub open spec fn access_matches(
    a: CapAccessV,
    caller: AgentPubKey,
    secret: Option<CapSecret>,
) -> bool {
    match a {
        CapAccessV::Unrestricted => true,
        CapAccessV::Transferable { secret: s } => secret matches Some(x) && x.0@ == s.0@,
        CapAccessV::Assigned { secret: s, assignees } => (secret matches Some(x) && x.0@ == s.0@)
            && assignees.contains(caller),
    }
}

/// Whether a grant names the zome function being called.
pub open spec fn grant_covers(g: ZomeCallCapGrantV, f: GrantedFunctionV) -> bool {
    exists|i: int|
        0 <= i < g.functions.len() && (#[trigger] g.functions[i]).zome == f.zome
            && g.functions[i].function == f.function
}

/// Whether a record deletes the record at the given address.
pub open spec fn is_delete_of(e: ElementV, addr: HeaderHash) -> bool {
    e.header() matches HeaderV::ElementDelete(d) && d.deletes_address == addr
}

/// Whether the record at index `i` carries a capability grant that no later
/// record of the chain has deleted.
pub open spec fn live_cap_grant_at(c: Seq<ElementV>, i: int) -> bool {
    &&& 0 <= i < c.len()
    &&& c[i].maybe_entry matches Some(EntryV::CapGrant(_))
    &&& !(exists|j: int| 0 <= j < c.len() && is_delete_of(#[trigger] c[j], c[i].header_address()))
}

/// Whether the record at index `i` holds a live grant that admits this call.
pub open spec fn cap_grant_valid_at(
    c: Seq<ElementV>,
    i: int,
    f: GrantedFunctionV,
    caller: AgentPubKey,
    secret: Option<CapSecret>,
) -> bool {
    &&& live_cap_grant_at(c, i)
    &&& match c[i].maybe_entry {
        Some(EntryV::CapGrant(g)) => access_matches(g.access, caller, secret) && grant_covers(
            g,
            f,
        ),
        _ => false,
    }
}

/// Whether any record of the chain deletes the record at this address.
fn is_deleted(vault: &ChainVault, addr: &HeaderHash) -> (r: bool)
    ensures
        r == exists|j: int| 0 <= j < vault@.len() && is_delete_of(#[trigger] vault@[j], *addr),
{
    let mut j: usize = 0;
    while j < vault.len()
        invariant
            j <= vault@.len(),
            forall|k: int| 0 <= k < j ==> !is_delete_of(#[trigger] vault@[k], *addr),
        decreases vault@.len() - j,
    {
        let e = vault.get(j);
        let hit = match e.header() {
            crate::header::Header::ElementDelete(d) => d.deletes_address.eq(addr),
            _ => false,
        };
        if hit {
            return true;
        }
        j = j + 1;
    }
    false
}

/// Whether a grant's access clause admits this caller with this secret.
fn access_allows(a: &CapAccess, caller: &AgentPubKey, secret: Option<&CapSecret>) -> (r: bool)
    ensures
        r == access_matches(a@, *caller, secret_view(secret)),
{
    match a {
        CapAccess::Unrestricted => true,
        CapAccess::Transferable { secret: s } => match secret {
            Some(x) => x.matches(s),
            None => false,
        },
        CapAccess::Assigned { secret: s, assignees } => {
            let secret_ok = match secret {
                Some(x) => x.matches(s),
                None => false,
            };
            secret_ok && contains_agent(assignees, caller)
        },
    }
}

/// Whether a list of agents names this one.
fn contains_agent(agents: &Vec<AgentPubKey>, caller: &AgentPubKey) -> (r: bool)
    ensures
        r == agents@.contains(*caller),
{
    let mut i: usize = 0;
    while i < agents.len()
        invariant
            i <= agents@.len(),
            forall|k: int| 0 <= k < i ==> agents@[k] != *caller,
        decreases agents@.len() - i,
    {
        if agents[i].eq(caller) {
            proof {
                assert(agents@.contains(*caller));
            }
            return true;
        }
        i = i + 1;
    }
    proof {
        assert(!agents@.contains(*caller));
    }
    false
}

/// Whether a grant names the zome function being called.
fn covers(g: &ZomeCallCapGrant, f: &GrantedFunction) -> (r: bool)
    ensures
        r == grant_covers(g@, f@),
{
    let mut i: usize = 0;
    while i < g.functions.len()
        invariant
            i <= g.functions@.len(),
            forall|k: int|
                0 <= k < i ==> !((#[trigger] g@.functions[k]).zome == f@.zome
                    && g@.functions[k].function == f@.function),
        decreases g.functions@.len() - i,
    {
        if g.functions[i].matches(f) {
            proof {
                assert(g@.functions[i as int].zome == f@.zome && g@.functions[i as int].function
                    == f@.function);
            }
            return true;
        }
        i = i + 1;
    }
    false
}

/// Resolve the authority for one zome call against the committed chain:
/// the chain's own author needs no grant; anyone else is admitted by the
/// most recent committed, undeleted grant that names the function and whose
/// access clause accepts the caller and the presented secret.
pub fn valid_cap_grant(
    vault: &ChainVault,
    check_function: &GrantedFunction,
    check_agent: &AgentPubKey,
    check_secret: Option<&CapSecret>,
) -> (r: Option<CapGrant>)
    requires
        vault@.len() < 0x1_0000_0000,
    ensures
        *check_agent == vault.spec_author() ==> (r matches Some(g) && (g matches
        CapGrant::ChainAuthor(a) && a == vault.spec_author())),
        *check_agent != vault.spec_author() ==> match r {
            Some(g) => {
                &&& g matches CapGrant::RemoteAgent(z)
                &&& exists|i: int|
                    {
                        &&& #[trigger] cap_grant_valid_at(
                            vault@,
                            i,
                            check_function@,
                            *check_agent,
                            secret_view(check_secret),
                        )
                        &&& vault@[i].maybe_entry == Some(EntryV::CapGrant(z@))
                        &&& forall|j: int|
                            i < j < vault@.len() ==> !cap_grant_valid_at(
                                vault@,
                                j,
                                check_function@,
                                *check_agent,
                                secret_view(check_secret),
                            )
                    }
            },
            None => forall|i: int|
                0 <= i < vault@.len() ==> !cap_grant_valid_at(
                    vault@,
                    i,
                    check_function@,
                    *check_agent,
                    secret_view(check_secret),
                ),
        },
{
    if check_agent.eq(&vault.author()) {
        return Some(CapGrant::ChainAuthor(vault.author()));
    }
    let n = vault.len();
    let mut i: usize = n;
    while i > 0
        invariant
            i <= n,
            n == vault@.len(),
            *check_agent != vault.spec_author(),
            forall|j: int|
                i <= j < vault@.len() ==> !cap_grant_valid_at(
                    vault@,
                    j,
                    check_function@,
                    *check_agent,
                    secret_view(check_secret),
                ),
        decreases i,
    {
        i = i - 1;
        let e = vault.get(i);
        let ee = e.entry();
        let grant_found: Option<&ZomeCallCapGrant> = match ee.as_option() {
            Some(Entry::CapGrant(g)) => Some(g),
            _ => None,
        };
        match grant_found {
            Some(g) => {
                let admitted = !is_deleted(vault, &e.header_address()) && access_allows(
                    &g.access,
                    check_agent,
                    check_secret,
                ) && covers(g, check_function);
                if admitted {
                    proof {
                        assert(cap_grant_valid_at(
                            vault@,
                            i as int,
                            check_function@,
                            *check_agent,
                            secret_view(check_secret),
                        ));
                    }
                    return Some(CapGrant::RemoteAgent(g.dup()));
                }
            },
            None => {},
        }
        proof {
            assert(!cap_grant_valid_at(
                vault@,
                i as int,
                check_function@,
                *check_agent,
                secret_view(check_secret),
            ));
        }
    }
    None
}

} // verus!
