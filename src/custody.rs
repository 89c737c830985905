//! The two fund movements a settlement performs, each all-or-nothing:
//! the reward service's withdrawal between custody accounts, and the
//! transfer of value out of a custody account to a wallet.
use vstd::prelude::*;
use crate::authority::{accepted, accepts, AuthorityProof};
use crate::error::SettlementError;
use crate::vault::{CustodyAccount, Wallet};

verus! {

/// Outcome of withdrawing `amount` from `from` into `to`: the two accounts afterwards.
pub open spec fn withdraw_outcome(
    from: CustodyAccount,
    to: CustodyAccount,
    amount: u64,
    proof: AuthorityProof,
) -> Result<(CustodyAccount, CustodyAccount), SettlementError> {
    if !accepted(from.authority, proof) {
        Err(SettlementError::AuthorityMismatch)
    } else if amount > from.balance {
        Err(SettlementError::InsufficientCounterpartyBalance)
    } else if to.balance + amount > u64::MAX {
        Err(SettlementError::BalanceOverflow)
    } else {
        Ok(
            (
                CustodyAccount { balance: (from.balance - amount) as u64, ..from },
                CustodyAccount { balance: (to.balance + amount) as u64, ..to },
            ),
        )
    }
}

/// Outcome of transferring `amount` from custody account `from` to wallet `to`.
pub open spec fn transfer_outcome(
    from: CustodyAccount,
    to: Wallet,
    amount: u64,
    proof: AuthorityProof,
) -> Result<(CustodyAccount, Wallet), SettlementError> {
    if !accepted(from.authority, proof) {
        Err(SettlementError::AuthorityMismatch)
    } else if amount > from.balance || to.balance + amount > u64::MAX {
        Err(SettlementError::TransferFailure)
    } else {
        Ok(
            (
                CustodyAccount { balance: (from.balance - amount) as u64, ..from },
                Wallet { balance: (to.balance + amount) as u64, ..to },
            ),
        )
    }
}

/// The reward service's withdrawal: debits `from` and credits `to` by `amount`,
/// authorized by `proof` against `from`'s registered authority.
pub fn withdraw(
    from: &mut CustodyAccount,
    to: &mut CustodyAccount,
    amount: u64,
    proof: &AuthorityProof,
) -> (r: Result<(), SettlementError>)
    ensures
        match withdraw_outcome(*old(from), *old(to), amount, *proof) {
            Ok((f, t)) => r is Ok && *final(from) == f && *final(to) == t,
            Err(e) => r == Err::<(), SettlementError>(e) && *final(from) == *old(from)
                && *final(to) == *old(to),
        },
{
    if !accepts(&from.authority, proof) {
        return Err(SettlementError::AuthorityMismatch);
    }
    if amount > from.balance {
        return Err(SettlementError::InsufficientCounterpartyBalance);
    }
    if to.balance > u64::MAX - amount {
        return Err(SettlementError::BalanceOverflow);
    }
    from.balance = from.balance - amount;
    to.balance = to.balance + amount;
    Ok(())
}

/// Moves `amount` out of custody account `from` into wallet `to`,
/// authorized by `proof` against `from`'s registered authority.
pub fn transfer(
    from: &mut CustodyAccount,
    to: &mut Wallet,
    amount: u64,
    proof: &AuthorityProof,
) -> (r: Result<(), SettlementError>)
    ensures
        match transfer_outcome(*old(from), *old(to), amount, *proof) {
            Ok((f, t)) => r is Ok && *final(from) == f && *final(to) == t,
            Err(e) => r == Err::<(), SettlementError>(e) && *final(from) == *old(from)
                && *final(to) == *old(to),
        },
{
    if !accepts(&from.authority, proof) {
        return Err(SettlementError::AuthorityMismatch);
    }
    if amount > from.balance || to.balance > u64::MAX - amount {
        return Err(SettlementError::TransferFailure);
    }
    from.balance = from.balance - amount;
    to.balance = to.balance + amount;
    Ok(())
}

} // verus!
