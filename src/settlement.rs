//! Settlement of a matured vault: collect the reward from the counterparty's
//! custody account, pay the whole local custody balance to the owner, and
//! retire the record, all in one step that either commits whole or not at all.
use vstd::prelude::*;
use crate::authority::{derive_authority, derived, Authority, AuthorityProof, Domain};
use crate::custody::{transfer, transfer_outcome, withdraw, withdraw_outcome};
use crate::error::SettlementError;
use crate::vault::{calculate_reward, reward_of, CustodyAccount, VaultRecord, Wallet};

verus! {

/// The accounts one settlement acts on.
#[derive(Clone, Copy, Debug, PartialEq, Eq, Structural)]
pub struct MatureClose {
    /// The owner, who invokes the settlement and receives the payout.
    pub user: Wallet,
    /// The local custody account.
    pub vault: CustodyAccount,
    /// The local record; `None` once it has been retired.
    pub vault_state: Option<VaultRecord>,
    /// The reward service's custody account.
    pub bank_vault: CustodyAccount,
    /// The reward service's record, read only.
    pub bank_vault_state: VaultRecord,
}

/// Proof for the reward service's custody account, from its record.
pub open spec fn counterparty_proof(s: MatureClose) -> AuthorityProof {
    derived(Domain::Vault, s.bank_vault_state.key, s.bank_vault_state.vault_nonce)
}

/// Proof for the local custody account, from the local record.
pub open spec fn local_proof(record: VaultRecord) -> AuthorityProof {
    derived(Domain::Vault, record.key, record.vault_nonce)
}

/// What settling `s` at time `now` yields: the accounts afterwards, or the
/// first refusal in the order maturity, reward, withdrawal, transfer.
pub open spec fn settle_outcome(s: MatureClose, now: i64) -> Result<MatureClose, SettlementError> {
    match s.vault_state {
        None => Err(SettlementError::RecordNotFound),
        Some(record) => {
            if now < record.maturity {
                Err(SettlementError::NotYetMatured)
            } else if reward_of(record) > u64::MAX {
                Err(SettlementError::RewardOverflow)
            } else {
                match withdraw_outcome(
                    s.bank_vault,
                    s.vault,
                    reward_of(record) as u64,
                    counterparty_proof(s),
                ) {
                    Err(e) => Err(e),
                    Ok((bank, vault)) => match transfer_outcome(
                        vault,
                        s.user,
                        vault.balance,
                        local_proof(record),
                    ) {
                        Err(e) => Err(e),
                        Ok((emptied, user)) => Ok(
                            MatureClose {
                                user,
                                vault: emptied,
                                vault_state: None,
                                bank_vault: bank,
                                bank_vault_state: s.bank_vault_state,
                            },
                        ),
                    },
                }
            }
        },
    }
}

/// For a bound, matured record whose reward fits in a balance, and an owner
/// who can receive the payout, settlement succeeds exactly when the reward
/// service's withdrawal succeeds, and then fails with the withdrawal's error.
/// On success the owner gains the prior custody balance plus the reward, and
/// the counterparty's custody loses the reward.
pub proof fn lemma_settle_iff_withdraw(s: MatureClose, now: i64)
    requires
        s.bound(),
        s.vault_state is Some,
        now >= s.vault_state->Some_0.maturity,
        reward_of(s.vault_state->Some_0) <= u64::MAX,
        s.user.balance + s.vault.balance + reward_of(s.vault_state->Some_0) <= u64::MAX,
    ensures
        ({
            let record = s.vault_state->Some_0;
            let w = withdraw_outcome(
                s.bank_vault,
                s.vault,
                reward_of(record) as u64,
                counterparty_proof(s),
            );
            &&& settle_outcome(s, now) is Ok <==> w is Ok
            &&& w matches Err(e) ==> settle_outcome(s, now) == Err::<MatureClose, SettlementError>(e)
            &&& settle_outcome(s, now) matches Ok(t) ==> {
                &&& t.user.balance == s.user.balance + s.vault.balance + reward_of(record)
                &&& t.bank_vault.balance == s.bank_vault.balance - reward_of(record)
                &&& t.vault_state is None
            }
        }),
{
}

/// A successful settlement retires the record: the accounts it leaves are
/// still bound, and any later settlement of them fails with `RecordNotFound`,
/// so nothing is paid twice.
pub proof fn lemma_settled_once(s: MatureClose, now: i64, later: i64)
    requires
        settle_outcome(s, now) is Ok,
    ensures
        settle_outcome(s, now)->Ok_0.vault_state is None,
        settle_outcome(s, now)->Ok_0.bound(),
        settle_outcome(settle_outcome(s, now)->Ok_0, later) == Err::<MatureClose, SettlementError>(
            SettlementError::RecordNotFound,
        ),
{
}

/// The reward is fixed by the record alone, before any funds move: two
/// successful settlements from snapshots that hold the same record, whatever
/// their balances or times, each debit the counterparty by `reward_of` that record.
pub proof fn lemma_reward_fixed_by_record(s: MatureClose, t: MatureClose, now: i64, then: i64)
    requires
        s.vault_state == t.vault_state,
        settle_outcome(s, now) is Ok,
        settle_outcome(t, then) is Ok,
    ensures
        s.vault_state is Some,
        s.bank_vault.balance - settle_outcome(s, now)->Ok_0.bank_vault.balance == reward_of(
            s.vault_state->Some_0,
        ),
        t.bank_vault.balance - settle_outcome(t, then)->Ok_0.bank_vault.balance == reward_of(
            s.vault_state->Some_0,
        ),
{
}

impl MatureClose {
    /// The relationships the host binds before a settlement is invoked: the
    /// record belongs to the caller, and the local custody account is the one
    /// the record derives, under the record's stored nonce.
    pub open spec fn bound(self) -> bool {
        self.vault_state matches Some(record) ==> {
            &&& record.owner == self.user.key
            &&& record.custody == self.vault.key
            &&& self.vault.authority == Authority { record: record.key, nonce: record.vault_nonce }
        }
    }

    /// Settles a matured vault at time `now`. On success the counterparty's
    /// custody pays the reward into local custody, the whole local custody
    /// balance goes to the owner, and the record is retired. On any failure
    /// nothing changes.
    pub fn mature_close(&mut self, now: i64) -> (r: Result<(), SettlementError>)
        requires
            old(self).bound(),
        ensures
            match settle_outcome(*old(self), now) {
                Ok(t) => r is Ok && *final(self) == t,
                Err(e) => r == Err::<(), SettlementError>(e),
            },
            r is Err ==> *final(self) == *old(self),
            old(self).vault_state is None ==> r == Err::<(), SettlementError>(
                SettlementError::RecordNotFound,
            ),
            old(self).vault_state matches Some(record) && now < record.maturity ==> r == Err::<
                (),
                SettlementError,
            >(SettlementError::NotYetMatured),
            r is Ok ==> {
                let record = old(self).vault_state->Some_0;
                &&& now >= record.maturity
                &&& final(self).vault_state is None
                &&& final(self).user.balance == old(self).user.balance + old(self).vault.balance
                    + reward_of(record)
                &&& final(self).bank_vault.balance == old(self).bank_vault.balance - reward_of(
                    record,
                )
                &&& final(self).vault.balance == 0
                &&& final(self).bank_vault_state == old(self).bank_vault_state
            },
    {
        let record = match self.vault_state {
            None => return Err(SettlementError::RecordNotFound),
            Some(record) => record,
        };
        if now < record.maturity {
            return Err(SettlementError::NotYetMatured);
        }
        // The reward is fixed from the record before any funds move.
        let reward = match calculate_reward(&record) {
            Ok(reward) => reward,
            Err(e) => return Err(e),
        };
        let mut bank = self.bank_vault;
        let mut vault = self.vault;
        let mut user = self.user;
        let bank_proof = derive_authority(
            Domain::Vault,
            self.bank_vault_state.key,
            self.bank_vault_state.vault_nonce,
        );
        match withdraw(&mut bank, &mut vault, reward, &bank_proof) {
            Ok(()) => {},
            Err(e) => return Err(e),
        }
        // The payout is read after the reward has landed.
        let payout = vault.balance;
        let vault_proof = derive_authority(Domain::Vault, record.key, record.vault_nonce);
        match transfer(&mut vault, &mut user, payout, &vault_proof) {
            Ok(()) => {},
            Err(e) => return Err(e),
        }
        self.bank_vault = bank;
        self.vault = vault;
        self.user = user;
        self.vault_state = None;
        Ok(())
    }
}

} // verus!
