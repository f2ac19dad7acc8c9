use vstd::prelude::*;

use crate::codec::digest_as_array;
use crate::codec::enc_header;
use crate::codec::encode_header;
use crate::codec::header_wf;
use crate::codec::lemma_digest_as_array;
use crate::hash::AgentPubKey;
use crate::hash::HashKind;
use crate::hash::HoloHash;
use crate::hash::loc_of;
use crate::header::Header;
use crate::header::HeaderV;

verus! {

/// An ed25519 signature over some bytes.
#[derive(Clone, Copy, Debug)]
pub struct Signature(pub [u8; 64]);

impl PartialEq for Signature {
    fn eq(&self, other: &Signature) -> (r: bool)
        ensures
            r == (*self == *other),
    {
        let mut i: usize = 0;
        while i < 64
            invariant
                i <= 64,
                forall|j: int| 0 <= j < i ==> self.0@[j] == other.0@[j],
            decreases 64 - i,
        {
            if self.0[i] != other.0[i] {
                return false;
            }
            i = i + 1;
        }
        proof {
            assert(self.0@ =~= other.0@);
            vstd::array::axiom_array_ext_equal(self.0, other.0);
        }
        true
    }
}

impl Eq for Signature {
}

impl vstd::std_specs::cmp::PartialEqSpecImpl for Signature {
    open spec fn obeys_eq_spec() -> bool {
        true
    }

    open spec fn eq_spec(&self, other: &Signature) -> bool {
        *self == *other
    }
}

/// What signing yields: a function of the secret key and the message alone.
pub uninterp spec fn sig_of(sk: Seq<u8>, msg: Seq<u8>) -> Seq<u8>;

/// The public key derived from a secret key.
pub uninterp spec fn pk_of(sk: Seq<u8>) -> Seq<u8>;

/// Whether a signature is accepted for a message under a public key.
pub uninterp spec fn verifies(pk: Seq<u8>, sig: Seq<u8>, msg: Seq<u8>) -> bool;

/// Relies on ed25519_dalek::SigningKey::sign: RFC 8032 signing is a
/// deterministic function of the secret key and message, yields 64 bytes,
/// and the signature verifies under the corresponding public key.
#[verifier::external_body]
fn ed25519_sign(sk: &[u8; 32], msg: &Vec<u8>) -> (r: Signature)
    ensures
        r.0@ == sig_of(sk@, msg@),
        verifies(pk_of(sk@), r.0@, msg@),
{
    let key = ed25519_dalek::SigningKey::from_bytes(sk);
    Signature(ed25519_dalek::Signer::sign(&key, msg.as_slice()).to_bytes())
}

/// Relies on ed25519_dalek::SigningKey::verifying_key: the 32-byte public
/// key is a function of the secret key alone.
#[verifier::external_body]
fn ed25519_public_key(sk: &[u8; 32]) -> (r: [u8; 32])
    ensures
        r@ == pk_of(sk@),
{
    ed25519_dalek::SigningKey::from_bytes(sk).verifying_key().to_bytes()
}

/// Relies on ed25519_dalek::VerifyingKey::verify_strict: acceptance depends
/// on the public key, signature and message alone; bytes that are no curve
/// point verify nothing.
#[verifier::external_body]
fn ed25519_verify(pk: &[u8; 32], sig: &Signature, msg: &Vec<u8>) -> (r: bool)
    ensures
        r == verifies(pk@, sig.0@, msg@),
{
    match ed25519_dalek::VerifyingKey::from_bytes(pk) {
        Ok(vk) => vk.verify_strict(
            msg.as_slice(),
            &ed25519_dalek::Signature::from_bytes(&sig.0),
        ).is_ok(),
        Err(_) => false,
    }
}

/// Relies on rand::random: 32 bytes of entropy; nothing is promised of
/// their value.
#[verifier::external_body]
fn random_seed() -> (r: [u8; 32]) {
    rand::random()
}

/// The agent identity derived from a secret key: the public key bytes under
/// the agent hash kind.
pub open spec fn agent_key_of(sk: Seq<u8>) -> AgentPubKey {
    HoloHash { kind: HashKind::Agent, digest: digest_as_array(pk_of(sk)), loc: loc_of(pk_of(sk)) }
}

/// Errors the signing service can answer with.
#[derive(Clone, Copy, Debug, PartialEq, Eq, Structural)]
pub enum KeystoreError {
    /// No key pair for the requested agent.
    KeyNotFound,
    /// A signature did not check out.
    InvalidSignature,
}

/// The signing service: holds the secret keys of the local agents and signs
/// on their behalf. Secrets never leave it.
#[derive(Debug)]
pub struct Keystore {
    secrets: Vec<[u8; 32]>,
}

impl Keystore {
    /// The agents this keystore can sign for.
    pub closed spec fn agents(self) -> Seq<AgentPubKey> {
        Seq::new(self.secrets@.len(), |i: int| agent_key_of(self.secrets@[i]@))
    }

    /// The secret behind agent `i`, as the ghost sees it.
    pub closed spec fn secret_at(self, i: int) -> Seq<u8> {
        self.secrets@[i]@
    }

    pub open spec fn holds(self, agent: AgentPubKey) -> bool {
        exists|i: int| 0 <= i < self.agents().len() && self.agents()[i] == agent
    }

    /// An empty keystore.
    pub fn new() -> (r: Keystore)
        ensures
            r.agents().len() == 0,
    {
        let r = Keystore { secrets: Vec::new() };
        proof {
            assert(r.agents() =~= Seq::empty());
        }
        r
    }

    /// Create a fresh key pair from pure entropy and return its agent key.
    pub fn generate_sign_keypair_from_pure_entropy(&mut self) -> (r: AgentPubKey)
        ensures
            final(self).agents() == old(self).agents().push(r),
            r == agent_key_of(final(self).secret_at(final(self).agents().len() - 1)),
            r.kind == HashKind::Agent,
            r.wf(),
    {
        let seed = random_seed();
        let pk = ed25519_public_key(&seed);
        let agent = HoloHash::from_digest(HashKind::Agent, pk);
        self.secrets.push(seed);
        proof {
            lemma_digest_as_array(pk_of(seed@));
            vstd::array::axiom_array_ext_equal(digest_as_array(pk_of(seed@)), pk);
            assert(digest_as_array(pk_of(seed@)) =~= pk);
            assert(final(self).agents() =~= old(self).agents().push(agent));
        }
        agent
    }

    /// Sign bytes on behalf of an agent; fails if the key is not held here.
    pub fn sign_raw(&self, agent: &AgentPubKey, data: &Vec<u8>) -> (r: Result<
        Signature,
        KeystoreError,
    >)
        ensures
            match r {
                Ok(sig) => self.holds(*agent) && exists|i: int|
                    0 <= i < self.agents().len() && self.agents()[i] == *agent && sig.0@ == sig_of(
                        #[trigger] self.secret_at(i),
                        data@,
                    ) && verifies(pk_of(self.secret_at(i)), sig.0@, data@) && pk_of(
                        self.secret_at(i),
                    ).len() == 32,
                Err(e) => e == KeystoreError::KeyNotFound && !self.holds(*agent),
            },
    {
        let mut i: usize = 0;
        while i < self.secrets.len()
            invariant
                i <= self.secrets.len(),
                forall|j: int| 0 <= j < i ==> self.agents()[j] != *agent,
            decreases self.secrets.len() - i,
        {
            let pk = ed25519_public_key(&self.secrets[i]);
            let candidate = HoloHash::from_digest(HashKind::Agent, pk);
            proof {
                lemma_digest_as_array(pk_of(self.secret_at(i as int)));
                vstd::array::axiom_array_ext_equal(
                    digest_as_array(pk_of(self.secret_at(i as int))),
                    pk,
                );
                assert(digest_as_array(pk_of(self.secret_at(i as int))) =~= pk);
                assert(candidate == self.agents()[i as int]);
            }
            if candidate.eq(agent) {
                let sig = ed25519_sign(&self.secrets[i], data);
                return Ok(sig);
            }
            i = i + 1;
        }
        Err(KeystoreError::KeyNotFound)
    }
}

/// A signature is accepted for an agent when it verifies under the public
/// key that the agent hash carries as its digest.
pub open spec fn agent_verifies(agent: AgentPubKey, sig: Signature, msg: Seq<u8>) -> bool {
    verifies(agent.digest@, sig.0@, msg)
}

/// An agent signed by the keystore it lives in verifies against itself:
/// what `sign` produces, `verify` accepts.
pub proof fn lemma_sign_verifies(ks: Keystore, i: int, agent: AgentPubKey, sig: Signature, msg: Seq<u8>)
    requires
        0 <= i < ks.agents().len(),
        ks.agents()[i] == agent,
        sig.0@ == sig_of(ks.secret_at(i), msg),
        verifies(pk_of(ks.secret_at(i)), sig.0@, msg),
        pk_of(ks.secret_at(i)).len() == 32,
    ensures
        agent_verifies(agent, sig, msg),
{
    lemma_digest_as_array(pk_of(ks.secret_at(i)));
}

/// Identity and signing helpers on agent keys.
pub trait AgentPubKeyExt: Sized {
    /// The agent identity this value stands for.
    spec fn agent_id(&self) -> AgentPubKey;

    /// Create a new key pair in the keystore, returning its agent key.
    fn new_from_pure_entropy(keystore: &mut Keystore) -> (r: AgentPubKey)
        ensures
            final(keystore).agents() == old(keystore).agents().push(r),
            r.wf(),
    ;

    /// Sign arbitrary raw bytes with this agent's key. Signing fails exactly
    /// when the keystore does not hold this agent's key.
    fn sign_raw(&self, keystore: &Keystore, data: &Vec<u8>) -> (r: Result<
        Signature,
        KeystoreError,
    >)
        ensures
            match r {
                Ok(sig) => agent_verifies(self.agent_id(), sig, data@),
                Err(e) => e == KeystoreError::KeyNotFound && !keystore.holds(self.agent_id()),
            },
    ;

    /// Verify a signature over raw bytes against this agent's key.
    fn verify_signature_raw(&self, signature: &Signature, data: &Vec<u8>) -> (r: bool)
        ensures
            r == agent_verifies(self.agent_id(), *signature, data@),
    ;
}

impl AgentPubKeyExt for AgentPubKey {
    open spec fn agent_id(&self) -> AgentPubKey {
        *self
    }

    fn new_from_pure_entropy(keystore: &mut Keystore) -> (r: AgentPubKey)
        ensures
            final(keystore).agents() == old(keystore).agents().push(r),
            r.wf(),
    {
        keystore.generate_sign_keypair_from_pure_entropy()
    }

    fn sign_raw(&self, keystore: &Keystore, data: &Vec<u8>) -> (r: Result<Signature, KeystoreError>)
        ensures
            match r {
                Ok(sig) => agent_verifies(self.agent_id(), sig, data@),
                Err(e) => e == KeystoreError::KeyNotFound && !keystore.holds(self.agent_id()),
            },
    {
        match keystore.sign_raw(self, data) {
            Ok(sig) => {
                proof {
                    let i = choose|i: int|
                        0 <= i < keystore.agents().len() && keystore.agents()[i] == *self && sig.0@
                            == sig_of(#[trigger] keystore.secret_at(i), data@) && verifies(
                            pk_of(keystore.secret_at(i)),
                            sig.0@,
                            data@,
                        ) && pk_of(keystore.secret_at(i)).len() == 32;
                    lemma_sign_verifies(*keystore, i, *self, sig, data@);
                }
                Ok(sig)
            },
            Err(e) => Err(e),
        }
    }

    fn verify_signature_raw(&self, signature: &Signature, data: &Vec<u8>) -> (r: bool)
        ensures
            r == agent_verifies(self.agent_id(), *signature, data@),
    {
        ed25519_verify(&self.digest, signature, data)
    }
}

/// Sign a header: serialize it canonically and sign the bytes.
pub fn sign_header(keystore: &Keystore, agent: &AgentPubKey, header: &Header) -> (r: Result<
    Signature,
    KeystoreError,
>)
    requires
        header_wf(header@),
    ensures
        match r {
            Ok(sig) => agent_verifies(*agent, sig, enc_header(header@)),
            Err(e) => e == KeystoreError::KeyNotFound && !keystore.holds(*agent),
        },
{
    let bytes = encode_header(header);
    agent.sign_raw(keystore, &bytes)
}

/// Check a header's signature against its author.
pub fn verify_header_signature(author: &AgentPubKey, signature: &Signature, header: &Header) -> (r:
    bool)
    requires
        header_wf(header@),
    ensures
        r == agent_verifies(*author, *signature, enc_header(header@)),
{
    let bytes = encode_header(header);
    author.verify_signature_raw(signature, &bytes)
}

} // verus!
