use vstd::prelude::*;

pub mod arc;
pub mod cap;
pub mod chain;
pub mod conductor;
pub mod codec;
pub mod dht_db;
pub mod dht_op;
pub mod element;
pub mod entry;
pub mod gossip;
pub mod hash;
pub mod header;
pub mod host;
pub mod keystore;
pub mod region;
pub mod sys_validate;
pub mod throttle;

verus! {

/// Entry visibility on the shared network: public entries are fanned out to
/// entry authorities, private ones never leave the author's chain.
#[derive(Clone, Copy, Debug, PartialEq, Eq, Structural)]
pub enum EntryVisibility {
    Public,
    Private,
}

impl EntryVisibility {
    pub fn is_public(&self) -> (r: bool)
        ensures
            r == (*self == EntryVisibility::Public),
    {
        match self {
            EntryVisibility::Public => true,
            EntryVisibility::Private => false,
        }
    }
}

/// Copy a byte vector element by element.
pub fn clone_bytes(v: &Vec<u8>) -> (r: Vec<u8>)
    ensures
        r@ == v@,
{
    let mut out: Vec<u8> = Vec::new();
    let mut i: usize = 0;
    while i < v.len()
        invariant
            i <= v.len(),
            out@ == v@.subrange(0, i as int),
        decreases v.len() - i,
    {
        out.push(v[i]);
        i = i + 1;
    }
    proof {
        assert(out@ =~= v@);
    }
    out
}

/// Compare two byte vectors element by element.
pub fn bytes_eq(a: &Vec<u8>, b: &Vec<u8>) -> (r: bool)
    ensures
        r == (a@ == b@),
{
    if a.len() != b.len() {
        return false;
    }
    let mut i: usize = 0;
    while i < a.len()
        invariant
            i <= a.len(),
            a.len() == b.len(),
            forall|j: int| 0 <= j < i ==> a@[j] == b@[j],
        decreases a.len() - i,
    {
        if a[i] != b[i] {
            return false;
        }
        i = i + 1;
    }
    proof {
        assert(a@ =~= b@);
    }
    true
}

} // verus!
