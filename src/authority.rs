//! Keyless authority over custody accounts.
//!
//! A custody account is controlled by the record that owns it: whoever can
//! present the derivation (domain tag, owning record, stored nonce) acts for
//! the account. Derivation is pure and reads no ambient state.
use vstd::prelude::*;

verus! {

/// Identity of an account or record: a 32-byte key held as four words.
#[derive(Clone, Copy, Debug, PartialEq, Eq, Structural)]
pub struct Identity(pub u64, pub u64, pub u64, pub u64);

/// Domain tag that separates the kinds of derivation.
#[derive(Clone, Copy, Debug, PartialEq, Eq, Structural)]
pub enum Domain {
    /// Custody accounts (the "vault" tag).
    Vault,
    /// Storage of the records themselves (the "state" tag).
    State,
}

/// The authority a custody account is registered under.
#[derive(Clone, Copy, Debug, PartialEq, Eq, Structural)]
pub struct Authority {
    pub record: Identity,
    pub nonce: u8,
}

/// An ephemeral proof of authority: the full derivation triple.
#[derive(Clone, Copy, Debug, PartialEq, Eq, Structural)]
pub struct AuthorityProof {
    pub domain: Domain,
    pub record: Identity,
    pub nonce: u8,
}

pub open spec fn derived(domain: Domain, record: Identity, nonce: u8) -> AuthorityProof {
    AuthorityProof { domain, record, nonce }
}

/// A custody account accepts exactly the vault-domain derivation of its
/// registered record and nonce.
pub open spec fn accepted(registered: Authority, proof: AuthorityProof) -> bool {
    &&& proof.domain == Domain::Vault
    &&& proof.record == registered.record
    &&& proof.nonce == registered.nonce
}

/// Derives the proof for the custody account of `record`, given its stored nonce.
pub fn derive_authority(domain: Domain, record: Identity, nonce: u8) -> (proof: AuthorityProof)
    ensures
        proof == derived(domain, record, nonce),
{
    AuthorityProof { domain, record, nonce }
}

/// Whether `proof` authorizes an action on an account registered under `registered`.
pub fn accepts(registered: &Authority, proof: &AuthorityProof) -> (r: bool)
    ensures
        r == accepted(*registered, *proof),
{
    proof.domain == Domain::Vault && proof.record == registered.record && proof.nonce
        == registered.nonce
}

/// A proof derived for one record is rejected by a custody account registered
/// to any other record, whatever nonces either side holds.
pub proof fn lemma_proof_not_transferable(a: Identity, nonce: u8, registered: Authority)
    requires
        a != registered.record,
    ensures
        !accepted(registered, derived(Domain::Vault, a, nonce)),
{
}

/// The derivation for a record's own custody account is accepted there.
pub proof fn lemma_own_proof_accepted(registered: Authority)
    ensures
        accepted(registered, derived(Domain::Vault, registered.record, registered.nonce)),
{
}

} // verus!
