//! Why an entry point refuses a call.

use vstd::prelude::*;

verus! {

/// What left the 128-bit range where an operation is refused with `Overflow`.
#[derive(Clone, Copy, Debug, PartialEq, Eq, Structural)]
pub enum Overflowed {
    /// The shares of an account.
    Balance,
    /// The shares outstanding.
    TotalStaked,
    /// Another amount: of tokens, of shares to mint, or a time.
    Amount,
}

/// The reason an operation was refused. A refused operation leaves the pool as it was.
#[derive(Clone, Copy, Debug, PartialEq, Eq, Structural)]
pub enum StakingError {
    /// A balance or an amount left the 128-bit range.
    Overflow(Overflowed),
    /// The account holds fewer shares than it wants to withdraw.
    InsufficientBalance,
    /// The deposit is worth less than one share.
    ZeroMint,
    /// No shares are outstanding, so none can be redeemed.
    EmptyPool,
    /// The withdrawal would leave fewer shares than the pool keeps at least.
    DustResidual,
    /// Shares are outstanding and no tokens back them.
    MissingBacking,
    /// The deposit holds no tokens.
    ZeroDeposit,
    /// The deposit came from another token than the one the pool stakes.
    IllegalToken,
    /// The deposit does not say what it is for.
    IllegalMsg,
    /// The caller is not the owner of the pool.
    NotOwner,
    /// The call does not carry the one indivisible unit that confirms the intent.
    OneYoctoRequired,
    /// The new genesis time lies in the past.
    ResetTimeIsPast,
    /// Distribution has begun, so its start cannot be moved.
    GenesisTimePassed,
    /// A settlement came with no outcome or with more than one.
    SettlementCount,
}

/// The operation went through and gave `value`.
pub open spec fn yields<T>(result: Result<T, StakingError>, value: T) -> bool {
    result == Ok::<T, StakingError>(value)
}

/// The operation was refused for the reason `error`.
pub open spec fn refuses<T>(result: Result<T, StakingError>, error: StakingError) -> bool {
    result == Err::<T, StakingError>(error)
}

/// Whether the caller, rather than the pool's own bookkeeping, is at fault.
pub open spec fn spec_is_user_error(e: StakingError) -> bool {
    !(e is Overflow || e is MissingBacking || e is SettlementCount)
}

/// The short text that goes with an error.
pub open spec fn spec_message(e: StakingError) -> Seq<char> {
    match e {
        StakingError::Overflow(Overflowed::Balance) => "Balance overflow"@,
        StakingError::Overflow(Overflowed::TotalStaked) => "Total staked overflow"@,
        StakingError::Overflow(Overflowed::Amount) => "ERR_OVERFLOW"@,
        StakingError::InsufficientBalance => "The account doesn't have enough balance"@,
        StakingError::ZeroMint => "ERR_STAKE_TOO_SMALL"@,
        StakingError::EmptyPool => "ERR_EMPTY_TOTAL_SUPPLY"@,
        StakingError::DustResidual => "ERR_KEEP_AT_LEAST_ONE_STAKED_TOKEN"@,
        StakingError::MissingBacking => "ERR_INTERNAL"@,
        StakingError::ZeroDeposit => "ERR_ZERO_DEPOSIT"@,
        StakingError::IllegalToken => "ERR_ILLEGAL_TOKEN"@,
        StakingError::IllegalMsg => "ERR_ILLEGAL_MSG"@,
        StakingError::NotOwner => "ERR_NOT_AN_OWNER"@,
        StakingError::OneYoctoRequired => "Requires attached deposit of exactly 1 yoctoNEAR"@,
        StakingError::ResetTimeIsPast => "ERR_RESET_TIME_IS_PAST_TIME"@,
        StakingError::GenesisTimePassed => "ERR_REWARD_GENESIS_TIME_PASSED"@,
        StakingError::SettlementCount => "Err: expected 1 promise result from unstake"@,
    }
}

impl StakingError {
    /// Whether the caller, rather than the pool's own bookkeeping, is at fault.
    pub fn is_user_error(&self) -> (user: bool)
        ensures
            user == spec_is_user_error(*self),
    {
        match self {
            StakingError::Overflow(_) => false,
            StakingError::MissingBacking => false,
            StakingError::SettlementCount => false,
            _ => true,
        }
    }

    /// The short text that goes with the error.
    pub fn message(&self) -> (text: String)
        ensures
            text@ == spec_message(*self),
    {
        let text: &str = match self {
            StakingError::Overflow(Overflowed::Balance) => "Balance overflow",
            StakingError::Overflow(Overflowed::TotalStaked) => "Total staked overflow",
            StakingError::Overflow(Overflowed::Amount) => "ERR_OVERFLOW",
            StakingError::InsufficientBalance => "The account doesn't have enough balance",
            StakingError::ZeroMint => "ERR_STAKE_TOO_SMALL",
            StakingError::EmptyPool => "ERR_EMPTY_TOTAL_SUPPLY",
            StakingError::DustResidual => "ERR_KEEP_AT_LEAST_ONE_STAKED_TOKEN",
            StakingError::MissingBacking => "ERR_INTERNAL",
            StakingError::ZeroDeposit => "ERR_ZERO_DEPOSIT",
            StakingError::IllegalToken => "ERR_ILLEGAL_TOKEN",
            StakingError::IllegalMsg => "ERR_ILLEGAL_MSG",
            StakingError::NotOwner => "ERR_NOT_AN_OWNER",
            StakingError::OneYoctoRequired => "Requires attached deposit of exactly 1 yoctoNEAR",
            StakingError::ResetTimeIsPast => "ERR_RESET_TIME_IS_PAST_TIME",
            StakingError::GenesisTimePassed => "ERR_REWARD_GENESIS_TIME_PASSED",
            StakingError::SettlementCount => "Err: expected 1 promise result from unstake",
        };
        text.to_owned()
    }
}

} // verus!
