use vstd::prelude::*;

use crate::EntryVisibility;
use crate::codec::header_hash_of;
use crate::codec::header_wf;
use crate::codec::enc_header;
use crate::codec::hash_header;
use crate::entry::Entry;
use crate::entry::EntryV;
use crate::hash::HeaderHash;
use crate::header::Header;
use crate::header::HeaderV;
use crate::keystore::Keystore;
use crate::keystore::KeystoreError;
use crate::keystore::Signature;
use crate::keystore::agent_verifies;
use crate::keystore::verify_header_signature;

verus! {

/// A header together with its author's signature over its wire form.
#[derive(Debug)]
pub struct SignedHeader(pub Header, pub Signature);

/// The ghost image of a `SignedHeader`.
pub struct SignedHeaderV {
    pub header: HeaderV,
    pub signature: Signature,
}

impl View for SignedHeader {
    type V = SignedHeaderV;

    open spec fn view(&self) -> SignedHeaderV {
        SignedHeaderV { header: self.0@, signature: self.1 }
    }
}

impl SignedHeader {
    pub fn header(&self) -> (r: &Header)
        ensures
            r@ == self@.header,
    {
        &self.0
    }

    pub fn signature(&self) -> (r: Signature)
        ensures
            r == self@.signature,
    {
        self.1
    }
}

/// A signed header carried together with its content address.
#[derive(Debug)]
pub struct SignedHeaderHashed {
    header: Header,
    hash: HeaderHash,
    signature: Signature,
}

/// The ghost image of a `SignedHeaderHashed`.
pub struct SignedHeaderHashedV {
    pub header: HeaderV,
    pub hash: HeaderHash,
    pub signature: Signature,
}

impl View for SignedHeaderHashed {
    type V = SignedHeaderHashedV;

    closed spec fn view(&self) -> SignedHeaderHashedV {
        SignedHeaderHashedV { header: self.header@, hash: self.hash, signature: self.signature }
    }
}

/// A signed header's hash really is its header's content address.
#[verifier::opaque]
pub open spec fn shh_wf_def(v: SignedHeaderHashedV) -> bool {
    &&& header_wf(v.header)
    &&& v.hash == header_hash_of(v.header)
    &&& v.hash.wf()
}

impl SignedHeaderHashedV {
    /// The carried hash really is the header's content address.
    pub open spec fn wf(self) -> bool {
        shh_wf_def(self)
    }

    /// The carried signature really is the author's over the header.
    pub open spec fn sig_ok(self) -> bool {
        agent_verifies(self.header.author(), self.signature, enc_header(self.header))
    }
}

impl SignedHeaderHashed {
    /// Hash a signed header.
    pub fn with_data(sh: SignedHeader) -> (r: SignedHeaderHashed)
        requires
            header_wf(sh@.header),
        ensures
            r@.header == sh@.header,
            r@.signature == sh@.signature,
            r@.wf(),
            r@.hash.wf(),
    {
        proof {
            reveal(shh_wf_def);
        }
        let hash = hash_header(&sh.0);
        SignedHeaderHashed { header: sh.0, hash, signature: sh.1 }
    }

    /// Wrap a header whose hash was already computed.
    pub fn with_presigned(header: Header, hash: HeaderHash, signature: Signature) -> (r:
        SignedHeaderHashed)
        requires
            header_wf(header@),
            hash == header_hash_of(header@),
            hash.wf(),
        ensures
            r@ == (SignedHeaderHashedV { header: header@, hash, signature }),
            r@.wf(),
    {
        proof {
            reveal(shh_wf_def);
        }
        SignedHeaderHashed { header, hash, signature }
    }

    /// Hash and sign a header in one step.
    pub fn new(keystore: &Keystore, header: Header) -> (r: Result<
        SignedHeaderHashed,
        KeystoreError,
    >)
        requires
            header_wf(header@),
        ensures
            match r {
                Ok(shh) => shh@.header == header@ && shh@.wf() && shh@.sig_ok() && shh@.hash.wf(),
                Err(e) => e == KeystoreError::KeyNotFound && !keystore.holds(header@.author()),
            },
    {
        proof {
            reveal(shh_wf_def);
        }
        let author = header.author();
        let signature = match crate::keystore::sign_header(keystore, &author, &header) {
            Ok(s) => s,
            Err(e) => {
                return Err(e);
            },
        };
        let hash = hash_header(&header);
        Ok(SignedHeaderHashed { header, hash, signature })
    }

    /// Check this header's signature against its author.
    pub fn validate(&self) -> (r: Result<(), KeystoreError>)
        requires
            header_wf(self@.header),
        ensures
            match r {
                Ok(()) => self@.sig_ok(),
                Err(e) => e == KeystoreError::InvalidSignature && !self@.sig_ok(),
            },
    {
        let author = self.header.author();
        if verify_header_signature(&author, &self.signature, &self.header) {
            Ok(())
        } else {
            Err(KeystoreError::InvalidSignature)
        }
    }

    pub fn header(&self) -> (r: &Header)
        ensures
            r@ == self@.header,
    {
        &self.header
    }

    pub fn header_address(&self) -> (r: HeaderHash)
        ensures
            r == self@.hash,
    {
        self.hash
    }

    pub fn signature(&self) -> (r: Signature)
        ensures
            r == self@.signature,
    {
        self.signature
    }

    /// Break apart into the header, its hash and the signature.
    pub fn into_header_and_signature(self) -> (r: (Header, HeaderHash, Signature))
        ensures
            r.0@ == self@.header,
            r.1 == self@.hash,
            r.2 == self@.signature,
    {
        (self.header, self.hash, self.signature)
    }

    /// A structurally identical copy.
    pub fn dup(&self) -> (r: SignedHeaderHashed)
        ensures
            r@ == self@,
    {
        SignedHeaderHashed { header: self.header.dup(), hash: self.hash, signature: self.signature }
    }
}

/// How the entry side of an element presents to a reader.
pub enum ElementEntry {
    /// The header points at an entry and it is held here.
    Present(Entry),
    /// The header points at a private entry whose bytes are withheld.
    Hidden,
    /// The header's type carries no entry.
    NotApplicable,
    /// The authority answered that it does not hold the entry.
    NotStored,
}

impl ElementEntry {
    /// The entry, when present.
    pub fn as_option(&self) -> (r: Option<&Entry>)
        ensures
            match r {
                Some(e) => self is Present && e@ == self->Present_0@,
                None => !(self is Present),
            },
    {
        match self {
            ElementEntry::Present(e) => Some(e),
            _ => None,
        }
    }
}

/// A record as stored and served: the signed header and, where the header
/// has one and the reader may see it, the entry.
#[derive(Debug)]
pub struct Element {
    signed_header: SignedHeaderHashed,
    maybe_entry: Option<Entry>,
}

/// The ghost image of an `Element`.
pub struct ElementV {
    pub signed_header: SignedHeaderHashedV,
    pub maybe_entry: Option<EntryV>,
}

impl View for Element {
    type V = ElementV;

    closed spec fn view(&self) -> ElementV {
        ElementV {
            signed_header: self.signed_header@,
            maybe_entry: match self.maybe_entry {
                Some(ref e) => Some(e@),
                None => None,
            },
        }
    }
}

/// An element's entry, when present, is the one its header names.
#[verifier::opaque]
pub open spec fn element_wf_def(v: ElementV) -> bool {
    &&& v.signed_header.wf()
    &&& match v.maybe_entry {
        Some(e) => {
            &&& crate::entry::entry_wf(e)
            &&& match v.signed_header.header.entry_data() {
                Some((eh, _)) => eh == crate::entry::entry_hash_of(e),
                None => false,
            }
        },
        None => true,
    }
}

impl ElementV {
    /// The hashes check out and the entry, when present, is the one the
    /// header names.
    pub open spec fn wf(self) -> bool {
        element_wf_def(self)
    }

    pub open spec fn header(self) -> HeaderV {
        self.signed_header.header
    }

    pub open spec fn header_address(self) -> HeaderHash {
        self.signed_header.hash
    }
}

impl Element {
    /// Pair a signed header with its entry, if any.
    pub fn new(signed_header: SignedHeaderHashed, maybe_entry: Option<Entry>) -> (r: Element)
        ensures
            r@.signed_header == signed_header@,
            r@.maybe_entry == match maybe_entry {
                Some(e) => Some(e@),
                None => None::<EntryV>,
            },
    {
        Element { signed_header, maybe_entry }
    }

    pub fn signed_header(&self) -> (r: &SignedHeaderHashed)
        ensures
            r@ == self@.signed_header,
    {
        &self.signed_header
    }

    pub fn header(&self) -> (r: &Header)
        ensures
            r@ == self@.signed_header.header,
    {
        self.signed_header.header()
    }

    pub fn header_address(&self) -> (r: HeaderHash)
        ensures
            r == self@.signed_header.hash,
    {
        self.signed_header.header_address()
    }

    pub fn signature(&self) -> (r: Signature)
        ensures
            r == self@.signed_header.signature,
    {
        self.signed_header.signature()
    }

    /// Break this element into its parts.
    pub fn into_inner(self) -> (r: (SignedHeaderHashed, Option<Entry>))
        ensures
            r.0@ == self@.signed_header,
            match r.1 {
                Some(e) => self@.maybe_entry == Some(e@),
                None => self@.maybe_entry is None,
            },
    {
        (self.signed_header, self.maybe_entry)
    }

    /// The entry side of this element, classified by the header's type and
    /// visibility.
    pub fn entry(&self) -> (r: ElementEntry)
        ensures
            match r {
                ElementEntry::Present(e) => self@.maybe_entry == Some(e@),
                ElementEntry::Hidden => self@.maybe_entry is None && (self@.header().entry_data()
                    matches Some((_, t)) && t.spec_visibility() == EntryVisibility::Private),
                ElementEntry::NotApplicable => self@.maybe_entry is None && self@.header()
                    .entry_data() is None,
                ElementEntry::NotStored => self@.maybe_entry is None && (self@.header().entry_data()
                    matches Some((_, t)) && t.spec_visibility() == EntryVisibility::Public),
            },
    {
        match &self.maybe_entry {
            Some(e) => ElementEntry::Present(e.dup()),
            None => {
                match self.signed_header.header().entry_data() {
                    Some((_, t)) => {
                        if t.visibility().is_public() {
                            ElementEntry::NotStored
                        } else {
                            ElementEntry::Hidden
                        }
                    },
                    None => ElementEntry::NotApplicable,
                }
            },
        }
    }

    /// A structurally identical copy.
    pub fn dup(&self) -> (r: Element)
        ensures
            r@ == self@,
    {
        Element {
            signed_header: self.signed_header.dup(),
            maybe_entry: match &self.maybe_entry {
                Some(e) => Some(e.dup()),
                None => None,
            },
        }
    }
}

/// An element stripped of its hash for the wire: the receiver recomputes and
/// so cannot be lied to about addresses.
#[derive(Debug)]
pub struct WireElement {
    pub signed_header: SignedHeader,
    pub maybe_entry: Option<Entry>,
}

impl WireElement {
    /// Strip the hash from an element for sending.
    pub fn from_element(e: Element) -> (r: WireElement)
        ensures
            r.signed_header@.header == e@.signed_header.header,
            r.signed_header@.signature == e@.signed_header.signature,
            match r.maybe_entry {
                Some(en) => e@.maybe_entry == Some(en@),
                None => e@.maybe_entry is None,
            },
    {
        let (shh, maybe_entry) = e.into_inner();
        let (header, _, signature) = shh.into_header_and_signature();
        WireElement { signed_header: SignedHeader(header, signature), maybe_entry }
    }

    /// Rehash a received element; the hash cannot be forged because it is
    /// computed here.
    pub fn into_element(self) -> (r: Element)
        requires
            header_wf(self.signed_header@.header),
        ensures
            r@.signed_header.header == self.signed_header@.header,
            r@.signed_header.signature == self.signed_header@.signature,
            r@.signed_header.wf(),
            match r@.maybe_entry {
                Some(en) => self.maybe_entry matches Some(e2) && en == e2@,
                None => self.maybe_entry is None,
            },
    {
        let shh = SignedHeaderHashed::with_data(self.signed_header);
        Element { signed_header: shh, maybe_entry: self.maybe_entry }
    }
}

} // verus!
