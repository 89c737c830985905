//! Vault records, custody accounts and the reward rule.
use vstd::prelude::*;
use crate::authority::{Authority, Identity};
use crate::error::SettlementError;

verus! {

/// Basis points in a whole.
pub const BPS_DENOMINATOR: u64 = 10_000;

/// The persisted state of one vault.
#[derive(Clone, Copy, Debug, PartialEq, Eq, Structural)]
pub struct VaultRecord {
    /// Key of the record's own storage.
    pub key: Identity,
    /// The owner, paid out on settlement.
    pub owner: Identity,
    /// The custody account that holds the vault's value.
    pub custody: Identity,
    /// Earliest time (seconds) at which the vault may be settled.
    pub maturity: i64,
    /// Stored nonce of the custody account's derivation.
    pub vault_nonce: u8,
    /// Stored nonce of the record storage's derivation.
    pub state_nonce: u8,
    /// Deposited amount the reward accrues on.
    pub principal: u64,
    /// Reward rate, in basis points of the principal.
    pub reward_bps: u64,
}

/// An account that physically holds value under a derived authority.
#[derive(Clone, Copy, Debug, PartialEq, Eq, Structural)]
pub struct CustodyAccount {
    pub key: Identity,
    pub authority: Authority,
    pub balance: u64,
}

/// An ordinary (key-held) account, such as the owner's.
#[derive(Clone, Copy, Debug, PartialEq, Eq, Structural)]
pub struct Wallet {
    pub key: Identity,
    pub balance: u64,
}

/// The reward a record is owed: its rate applied to its principal, rounded down.
pub open spec fn reward_of(record: VaultRecord) -> int {
    (record.principal as int * record.reward_bps as int) / (BPS_DENOMINATOR as int)
}

/// Computes the reward owed to `record`; a pure function of the record.
pub fn calculate_reward(record: &VaultRecord) -> (r: Result<u64, SettlementError>)
    ensures
        reward_of(*record) <= u64::MAX ==> r == Ok::<u64, SettlementError>(
            reward_of(*record) as u64,
        ),
        reward_of(*record) > u64::MAX ==> r == Err::<u64, SettlementError>(
            SettlementError::RewardOverflow,
        ),
{
    let p: u128 = record.principal as u128;
    let b: u128 = record.reward_bps as u128;
    assert(p * b <= u64::MAX as int * u64::MAX as int) by (nonlinear_arith)
        requires
            p <= u64::MAX,
            b <= u64::MAX,
    ;
    let q: u128 = (p * b) / (BPS_DENOMINATOR as u128);
    if q > u64::MAX as u128 {
        Err(SettlementError::RewardOverflow)
    } else {
        Ok(q as u64)
    }
}

} // verus!
