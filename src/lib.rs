//! Maturity settlement of custodial vaults.
//!
//! A vault record holds value in a custody account on behalf of its owner.
//! Once the record has matured, a settlement collects the record's reward from
//! the reward service's custody account, pays the whole local custody balance
//! to the owner, and retires the record, either all at once or not at all.
//! Custody accounts are controlled through keyless authority proofs derived
//! from the owning record and its stored nonce.
use vstd::prelude::*;

pub mod authority;
pub mod custody;
pub mod error;
pub mod settlement;
pub mod vault;

verus! {

} // verus!
