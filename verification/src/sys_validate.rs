use vstd::prelude::*;

use crate::element::Element;
use crate::element::ElementV;
use crate::entry::entry_hash_of;
use crate::entry::hash_entry;

verus! {

/// Why a record fails the deterministic system checks against its
/// predecessor.
#[derive(Clone, Copy, Debug, PartialEq, Eq, Structural)]
pub enum SysValidationError {
    /// The header's signature does not verify against its author.
    InvalidSignature,
    /// A DNA header may only open a chain; it cannot follow another record.
    DnaAtNonZero,
    /// The record does not link to its predecessor's address.
    PrevHeaderMismatch,
    /// The ordinal is not one past the predecessor's.
    InvalidSeq,
    /// The record's moment precedes its predecessor's.
    TimestampDecreasing,
    /// The carried entry does not hash to the address the header names.
    EntryHashMismatch,
}

/// Whether a record's entry, when carried, hashes to the address its header
/// names.
pub open spec fn entry_hash_consistent(e: ElementV) -> bool {
    match e.maybe_entry {
        Some(en) => e.header().entry_data() matches Some((eh, _)) && eh == entry_hash_of(en),
        None => true,
    }
}

/// Whether a record is sound directly after its predecessor: signed, linked
/// by hash, next in order, no earlier in time, and honest about its entry.
pub open spec fn follows_ok(prev: ElementV, e: ElementV) -> bool {
    &&& e.signed_header.sig_ok()
    &&& !(e.header() is Dna)
    &&& e.header().prev_header() == Some(prev.signed_header.hash)
    &&& e.header().header_seq() == prev.header().header_seq() + 1
    &&& e.header().timestamp().0 >= prev.header().timestamp().0
    &&& entry_hash_consistent(e)
}

/// The deterministic system checks of one record against its resolved
/// predecessor, in their fixed order: the signature, the DNA-only-at-zero
/// rule, the hash link, the ordinal, the moment, and the entry's hash.
/// Succeeds exactly when the record soundly follows the predecessor; each
/// failure names the first check that refused it.
pub fn sys_validate_record(prev: &Element, e: &Element) -> (r: Result<(), SysValidationError>)
    requires
        crate::codec::header_wf(e@.header()),
        prev@.signed_header.wf(),
        match e@.maybe_entry {
            Some(en) => crate::entry::entry_wf(en),
            None => true,
        },
    ensures
        match r {
            Ok(()) => follows_ok(prev@, e@),
            Err(err) => match err {
                SysValidationError::InvalidSignature => !e@.signed_header.sig_ok(),
                SysValidationError::DnaAtNonZero => e@.signed_header.sig_ok() && e@.header()
                    is Dna,
                SysValidationError::PrevHeaderMismatch => e@.signed_header.sig_ok() && !(e@.header()
                    is Dna) && e@.header().prev_header() != Some(prev@.signed_header.hash),
                SysValidationError::InvalidSeq => e@.signed_header.sig_ok() && !(e@.header()
                    is Dna) && e@.header().prev_header() == Some(prev@.signed_header.hash)
                    && e@.header().header_seq() != prev@.header().header_seq() + 1,
                SysValidationError::TimestampDecreasing => e@.signed_header.sig_ok() && !(e@.header()
                    is Dna) && e@.header().prev_header() == Some(prev@.signed_header.hash)
                    && e@.header().header_seq() == prev@.header().header_seq() + 1 && e@.header()
                    .timestamp().0 < prev@.header().timestamp().0,
                SysValidationError::EntryHashMismatch => e@.signed_header.sig_ok() && !(e@.header()
                    is Dna) && e@.header().prev_header() == Some(prev@.signed_header.hash)
                    && e@.header().header_seq() == prev@.header().header_seq() + 1 && e@.header()
                    .timestamp().0 >= prev@.header().timestamp().0 && !entry_hash_consistent(e@),
            },
        },
{
    if e.signed_header().validate().is_err() {
        return Err(SysValidationError::InvalidSignature);
    }
    let header = e.header();
    match header.prev_header() {
        None => {
            // only the DNA variant carries no predecessor
            return Err(SysValidationError::DnaAtNonZero);
        },
        Some(ph) => {
            if !ph.eq(&prev.header_address()) {
                return Err(SysValidationError::PrevHeaderMismatch);
            }
        },
    }
    let prev_seq = prev.header().header_seq();
    if prev_seq == u32::MAX || header.header_seq() != prev_seq + 1 {
        proof {
            assert(e@.header().header_seq() != prev@.header().header_seq() + 1);
        }
        return Err(SysValidationError::InvalidSeq);
    }
    if header.timestamp().0 < prev.header().timestamp().0 {
        return Err(SysValidationError::TimestampDecreasing);
    }
    match e.entry().as_option() {
        Some(en) => {
            let eh = hash_entry(en);
            let named = match header.entry_data() {
                Some((h, _)) => eh.eq(&h),
                None => false,
            };
            if !named {
                return Err(SysValidationError::EntryHashMismatch);
            }
        },
        None => {},
    }
    Ok(())
}

} // verus!
