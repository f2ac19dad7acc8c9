use vstd::prelude::*;

use crate::chain::ChainVault;
use crate::chain::SourceChain;
use crate::chain::SourceChainError;
use crate::chain::element_in_chain_ok;
use crate::element::Element;
use crate::entry::Entry;
use crate::hash::EntryHash;
use crate::hash::HeaderHash;
use crate::header::HeaderBuilder;
use crate::header::LinkTag;
use crate::header::Timestamp;
use crate::header::ZomeId;
use crate::keystore::Keystore;

verus! {

/// The context a host function is called from: which callback of the guest
/// is on the stack decides what the call may touch.
#[derive(Clone, Copy, Debug, PartialEq, Eq, Structural)]
pub enum HostContext {
    ZomeCall,
    Init,
    Validate,
    ValidationPackage,
    PostCommit,
    EntryDefs,
    MigrateAgent,
    GenesisSelfCheck,
}

/// What a host context may touch: the chain for writing, the chain for
/// reading, deterministic reads only, the keystore, and the network.
#[derive(Clone, Copy, Debug, PartialEq, Eq, Structural)]
pub struct HostFnAccess {
    pub write_workspace: bool,
    pub read_workspace: bool,
    pub read_workspace_deterministic: bool,
    pub keystore: bool,
    pub network: bool,
}

/// The fixed permission table, one row per context: zome calls and init may
/// do anything; validation contexts read deterministically and nothing more,
/// except that building a validation package may use the network; post-commit
/// may not write; the three definition callbacks may touch nothing.
pub open spec fn spec_access(ctx: HostContext) -> HostFnAccess {
    match ctx {
        HostContext::ZomeCall | HostContext::Init => HostFnAccess {
            write_workspace: true,
            read_workspace: true,
            read_workspace_deterministic: true,
            keystore: true,
            network: true,
        },
        HostContext::Validate => HostFnAccess {
            write_workspace: false,
            read_workspace: false,
            read_workspace_deterministic: true,
            keystore: false,
            network: false,
        },
        HostContext::ValidationPackage => HostFnAccess {
            write_workspace: false,
            read_workspace: false,
            read_workspace_deterministic: true,
            keystore: false,
            network: true,
        },
        HostContext::PostCommit => HostFnAccess {
            write_workspace: false,
            read_workspace: true,
            read_workspace_deterministic: true,
            keystore: true,
            network: true,
        },
        HostContext::EntryDefs | HostContext::MigrateAgent | HostContext::GenesisSelfCheck => HostFnAccess {
            write_workspace: false,
            read_workspace: false,
            read_workspace_deterministic: false,
            keystore: false,
            network: false,
        },
    }
}

impl HostContext {
    /// Look this context's permissions up in the table.
    pub fn access(&self) -> (r: HostFnAccess)
        ensures
            r == spec_access(*self),
    {
        match self {
            HostContext::ZomeCall | HostContext::Init => HostFnAccess {
                write_workspace: true,
                read_workspace: true,
                read_workspace_deterministic: true,
                keystore: true,
                network: true,
            },
            HostContext::Validate => HostFnAccess {
                write_workspace: false,
                read_workspace: false,
                read_workspace_deterministic: true,
                keystore: false,
                network: false,
            },
            HostContext::ValidationPackage => HostFnAccess {
                write_workspace: false,
                read_workspace: false,
                read_workspace_deterministic: true,
                keystore: false,
                network: true,
            },
            HostContext::PostCommit => HostFnAccess {
                write_workspace: false,
                read_workspace: true,
                read_workspace_deterministic: true,
                keystore: true,
                network: true,
            },
            HostContext::EntryDefs | HostContext::MigrateAgent | HostContext::GenesisSelfCheck => HostFnAccess {
                write_workspace: false,
                read_workspace: false,
                read_workspace_deterministic: false,
                keystore: false,
                network: false,
            },
        }
    }
}

/// How a host function fails.
#[derive(Clone, Copy, Debug)]
pub enum HostFnError {
    /// The calling context lacks the permission the function needs.
    Permissions,
    /// A deterministic read did not find its subject; the caller parks the
    /// work until the dependency arrives.
    UnresolvedDependencies(EntryHash),
    /// The header a write refers to is not held, or has no entry to act on.
    NotFound,
    /// The chain writer refused the write.
    Chain(SourceChainError),
}

/// Whether a stored record is the one a delete names, and names this entry.
pub open spec fn deletable_at(
    e: crate::element::ElementV,
    addr: HeaderHash,
    eh: EntryHash,
) -> bool {
    &&& e.header_address() == addr
    &&& e.header().entry_data() matches Some((h, _)) && h == eh
}

/// Whether a stored record carries the entry with this address.
pub open spec fn element_has_entry(e: crate::element::ElementV, hash: EntryHash) -> bool {
    &&& e.maybe_entry is Some
    &&& e.header().entry_data() matches Some((eh, _)) && eh == hash
}

/// The deterministic entry read of the validation path: the entry must be
/// found, or the caller parks the op. Permission is the deterministic-read
/// column of the table; the result is the entry of the first record of the
/// chain that carries it.
pub fn must_get_entry(ctx: HostContext, vault: &ChainVault, entry_hash: EntryHash) -> (r: Result<
    Entry,
    HostFnError,
>)
    ensures
        !spec_access(ctx).read_workspace_deterministic ==> r matches Err(
            HostFnError::Permissions,
        ),
        spec_access(ctx).read_workspace_deterministic ==> match r {
            Ok(e) => exists|i: int|
                0 <= i < vault@.len() && element_has_entry(#[trigger] vault@[i], entry_hash)
                    && vault@[i].maybe_entry == Some(e@) && (forall|k: int|
                    0 <= k < i ==> !element_has_entry(#[trigger] vault@[k], entry_hash)),
            Err(e) => {
                &&& (e matches HostFnError::UnresolvedDependencies(h) && h == entry_hash)
                &&& forall|k: int|
                    0 <= k < vault@.len() ==> !element_has_entry(#[trigger] vault@[k], entry_hash)
            },
        },
{
    if !ctx.access().read_workspace_deterministic {
        return Err(HostFnError::Permissions);
    }
    let mut i: usize = 0;
    while i < vault.len()
        invariant
            i <= vault@.len(),
            spec_access(ctx).read_workspace_deterministic,
            forall|k: int| 0 <= k < i ==> !element_has_entry(#[trigger] vault@[k], entry_hash),
        decreases vault@.len() - i,
    {
        let e = vault.get(i);
        let matches_hash = match e.header().entry_data() {
            Some((eh, _)) => eh.eq(&entry_hash),
            None => false,
        };
        if matches_hash {
            match e.entry().as_option() {
                Some(en) => {
                    return Ok(en.dup());
                },
                None => {},
            }
        }
        i = i + 1;
    }
    Err(HostFnError::UnresolvedDependencies(entry_hash))
}

/// The link-creation host function: gate on the write permission, build the
/// link-add record against the chain top, and stage it.
#[verifier::rlimit(100)]
#[verifier::spinoff_prover]
pub fn create_link(
    ctx: HostContext,
    chain: &mut SourceChain,
    keystore: &Keystore,
    base_address: EntryHash,
    target_address: EntryHash,
    zome_id: ZomeId,
    tag: LinkTag,
    now: Timestamp,
) -> (r: Result<HeaderHash, HostFnError>)
    requires
        old(chain).wf(),
        old(chain).spec_author().wf(),
        old(chain).spec_persisted_len() + old(chain).spec_scratch().len() + 1 < 0x1_0000_0000,
        base_address.wf(),
        target_address.wf(),
        tag@.len() < 0x1_0000_0000,
    ensures
        final(chain).spec_author() == old(chain).spec_author(),
        !spec_access(ctx).write_workspace ==> (r matches Err(HostFnError::Permissions))
            && final(chain).spec_scratch() == old(chain).spec_scratch(),
        spec_access(ctx).write_workspace ==> match r {
            Ok(hash) => {
                &&& final(chain).wf()
                &&& final(chain).spec_scratch().len() == old(chain).spec_scratch().len() + 1
                &&& final(chain).spec_scratch().subrange(
                    0,
                    old(chain).spec_scratch().len() as int,
                ) == old(chain).spec_scratch()
                &&& ({
                    let e = final(chain).spec_scratch().last();
                    &&& (e.header() matches crate::header::HeaderV::LinkAdd(l) && l.base_address
                        == base_address && l.target_address == target_address && l.zome_id
                        == zome_id && l.tag == tag@ && l.timestamp == old(chain).spec_put_ts(now))
                    &&& e.header_address() == hash
                    &&& e.maybe_entry is None
                })
            },
            Err(e) => final(chain).spec_scratch() == old(chain).spec_scratch() && match e {
                HostFnError::Chain(ce) => ce matches SourceChainError::GenesisNotComplete || (
                ce matches SourceChainError::Keystore(_) && !keystore.holds(
                    old(chain).spec_author(),
                )),
                _ => false,
            },
        },
{
    if !ctx.access().write_workspace {
        return Err(HostFnError::Permissions);
    }
    let builder = HeaderBuilder::LinkAdd { base_address, target_address, zome_id, tag };
    match chain.put(keystore, builder, None, now) {
        Ok(hash) => Ok(hash),
        Err(e) => Err(HostFnError::Chain(e)),
    }
}

/// The delete host function: gate on the write permission, resolve the
/// record being deleted to find its entry address, and stage the delete.
#[verifier::rlimit(100)]
#[verifier::spinoff_prover]
pub fn delete(
    ctx: HostContext,
    chain: &mut SourceChain,
    vault: &ChainVault,
    keystore: &Keystore,
    deletes_address: HeaderHash,
    now: Timestamp,
) -> (r: Result<HeaderHash, HostFnError>)
    requires
        old(chain).wf(),
        old(chain).spec_author().wf(),
        old(chain).spec_persisted_len() + old(chain).spec_scratch().len() + 1 < 0x1_0000_0000,
        vault.wf(),
        deletes_address.wf(),
    ensures
        final(chain).spec_author() == old(chain).spec_author(),
        !spec_access(ctx).write_workspace ==> (r matches Err(HostFnError::Permissions))
            && final(chain).spec_scratch() == old(chain).spec_scratch(),
        spec_access(ctx).write_workspace ==> match r {
            Ok(hash) => {
                &&& exists|i: int|
                    0 <= i < vault@.len() && (#[trigger] vault@[i]).header_address()
                        == deletes_address && vault@[i].header().entry_data() is Some
                &&& final(chain).wf()
                &&& final(chain).spec_scratch().len() == old(chain).spec_scratch().len() + 1
                &&& final(chain).spec_scratch().subrange(
                    0,
                    old(chain).spec_scratch().len() as int,
                ) == old(chain).spec_scratch()
                &&& ({
                    let e = final(chain).spec_scratch().last();
                    &&& (e.header() matches crate::header::HeaderV::ElementDelete(d)
                        && d.deletes_address == deletes_address && exists|i: int|
                        0 <= i < vault@.len() && deletable_at(
                            #[trigger] vault@[i],
                            deletes_address,
                            d.deletes_entry_address,
                        ))
                    &&& e.header_address() == hash
                    &&& e.maybe_entry is None
                })
            },
            Err(e) => final(chain).spec_scratch() == old(chain).spec_scratch() && match e {
                HostFnError::NotFound => !exists|i: int|
                    0 <= i < vault@.len() && (#[trigger] vault@[i]).header_address()
                        == deletes_address && vault@[i].header().entry_data() is Some,
                HostFnError::Chain(ce) => ce matches SourceChainError::GenesisNotComplete || (
                ce matches SourceChainError::Keystore(_) && !keystore.holds(
                    old(chain).spec_author(),
                )),
                _ => false,
            },
        },
{
    if !ctx.access().write_workspace {
        return Err(HostFnError::Permissions);
    }
    // Resolve the record being deleted: the deepest record wins no meaning
    // here, addresses are unique in a sound chain, so the first match serves.
    let mut found: Option<EntryHash> = None;
    let mut i: usize = 0;
    while i < vault.len()
        invariant
            i <= vault@.len(),
            match found {
                Some(eh) => exists|k: int|
                    0 <= k < vault@.len() && deletable_at(#[trigger] vault@[k], deletes_address, eh),
                None => forall|k: int|
                    0 <= k < i ==> !((#[trigger] vault@[k]).header_address() == deletes_address
                        && vault@[k].header().entry_data() is Some),
            },
        decreases vault@.len() - i,
    {
        if found.is_none() {
            let e = vault.get(i);
            if e.header_address().eq(&deletes_address) {
                match e.header().entry_data() {
                    Some((eh, _)) => {
                        found = Some(eh);
                    },
                    None => {},
                }
            }
        }
        i = i + 1;
    }
    let deletes_entry_address = match found {
        Some(eh) => eh,
        None => {
            return Err(HostFnError::NotFound);
        },
    };
    proof {
        let k = choose|k: int|
            0 <= k < vault@.len() && deletable_at(
                #[trigger] vault@[k],
                deletes_address,
                deletes_entry_address,
            );
        reveal(crate::element::element_wf_def);
        reveal(crate::element::shh_wf_def);
        assert(element_in_chain_ok(vault@, k, vault.spec_author()));
    }
    let builder = HeaderBuilder::ElementDelete { deletes_address, deletes_entry_address };
    match chain.put(keystore, builder, None, now) {
        Ok(hash) => Ok(hash),
        Err(e) => Err(HostFnError::Chain(e)),
    }
}

/// One read answered from the cascade's tiers, in their fixed order: the
/// uncommitted scratch first — unless the context is deterministic, which
/// must not see uncommitted work — then the authored store, the integrated
/// store, and last the cache.
pub fn cascade_pick(
    scratch: Option<Element>,
    authored: Option<Element>,
    integrated: Option<Element>,
    cache: Option<Element>,
    deterministic: bool,
) -> (r: Option<Element>)
    ensures
        r == if !deterministic && scratch is Some {
            scratch
        } else if authored is Some {
            authored
        } else if integrated is Some {
            integrated
        } else {
            cache
        },
{
    if !deterministic {
        match scratch {
            Some(e) => {
                return Some(e);
            },
            None => {},
        }
    }
    match authored {
        Some(e) => Some(e),
        None => match integrated {
            Some(e) => Some(e),
            None => cache,
        },
    }
}

} // verus!
