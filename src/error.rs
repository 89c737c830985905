use vstd::prelude::*;

verus! {

/// Why a settlement attempt was refused. Every refusal leaves all state as it was.
#[derive(Clone, Copy, Debug, PartialEq, Eq, Structural)]
pub enum SettlementError {
    /// The current time is before the record's maturity.
    NotYetMatured,
    /// A derived authority proof does not match the account's registered authority.
    AuthorityMismatch,
    /// The counterparty custody account cannot cover the reward.
    InsufficientCounterpartyBalance,
    /// The transfer of the local custody balance to the owner failed.
    TransferFailure,
    /// There is no active record to settle: it was already retired.
    RecordNotFound,
    /// The reward rule yields an amount that does not fit in a balance.
    RewardOverflow,
    /// Crediting the reward would overflow the local custody balance.
    BalanceOverflow,
}

} // verus!
