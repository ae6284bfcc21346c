//! The pool as a mathematical value, and what each operation makes of it.
//!
//! Every operation is a function from the pool before to either the pool after or
//! the reason for refusing. The executable entry points are specified against
//! these functions, and the laws of the pool are proved about them.

use crate::errors::{Overflowed, StakingError};
use crate::events::{event_of, EventKind, EventView};
use crate::ft::{
    received_of, request_of, ReceivedView, TokenReceiverMsg, TransferRequestView, ONE_YOCTO,
};
use crate::ledger::{balance_in, ledger_sum};
use crate::wide::mul_div_floor;
use vstd::prelude::*;

verus! {

/// The least number of shares that a withdrawal may leave outstanding, unless it
/// leaves none: 10^18.
pub const MIN_TOTAL_STAKED: u128 = 1_000_000_000_000_000_000;

/// The scale of the virtual price: 10^8 stands for one token a share.
pub const VIRTUAL_PRICE_SCALE: u128 = 100_000_000;

/// How an outside token transfer ended.
#[derive(Clone, Copy, Debug, PartialEq, Eq, Structural)]
pub enum TransferOutcome {
    Successful,
    Failed,
}

/// The state of the pool.
pub struct PoolView {
    pub owner_id: Seq<char>,
    pub token_id: Seq<char>,
    pub undistributed_reward: u128,
    pub locked_token_amount: u128,
    pub prev_distribution_time_in_sec: u32,
    pub reward_genesis_time_in_sec: u32,
    pub reward_per_sec: u128,
    pub account_number: u64,
    pub total_staked: u128,
    pub shares: Map<Seq<char>, u128>,
}

impl PoolView {
    /// The ledger is finite and its balances add up to the shares outstanding;
    /// the last checkpoint is not before the genesis time.
    pub open spec fn wf(self) -> bool {
        &&& self.shares.dom().finite()
        &&& ledger_sum(self.shares) == self.total_staked
        &&& self.prev_distribution_time_in_sec >= self.reward_genesis_time_in_sec
    }

    /// The shares of an account.
    pub open spec fn shares_of(self, account: Seq<char>) -> u128 {
        balance_in(self.shares, account)
    }

    /// The reward that a checkpoint at `now` unlocks: the rate times the seconds
    /// since the last checkpoint, at most what is left to distribute, and nothing
    /// before the genesis time.
    pub open spec fn reward_due(self, now: u32) -> u128 {
        if now > self.reward_genesis_time_in_sec && now > self.prev_distribution_time_in_sec {
            let ideal = self.reward_per_sec * (now - self.prev_distribution_time_in_sec);
            if ideal <= self.undistributed_reward {
                ideal as u128
            } else {
                self.undistributed_reward
            }
        } else {
            0
        }
    }

    /// The later of `now` and the genesis time.
    pub open spec fn checkpoint_time(self, now: u32) -> u32 {
        if now >= self.reward_genesis_time_in_sec {
            now
        } else {
            self.reward_genesis_time_in_sec
        }
    }

    /// Moves the reward due at `now` from the undistributed reward to the locked
    /// amount and records the time.
    pub open spec fn checkpoint(self, now: u32) -> Result<PoolView, StakingError> {
        let due = self.reward_due(now);
        if self.locked_token_amount + due > u128::MAX {
            Err(StakingError::Overflow(Overflowed::Amount))
        } else {
            Ok(
                PoolView {
                    undistributed_reward: (self.undistributed_reward - due) as u128,
                    locked_token_amount: (self.locked_token_amount + due) as u128,
                    prev_distribution_time_in_sec: self.checkpoint_time(now),
                    ..self
                },
            )
        }
    }

    /// Adds shares to an account and to the total, if both stay in the 128-bit
    /// range.
    pub open spec fn deposit(self, account: Seq<char>, amount: u128) -> Result<
        PoolView,
        StakingError,
    > {
        if self.shares_of(account) + amount > u128::MAX {
            Err(StakingError::Overflow(Overflowed::Balance))
        } else if self.total_staked + amount > u128::MAX {
            Err(StakingError::Overflow(Overflowed::TotalStaked))
        } else {
            Ok(
                PoolView {
                    shares: self.shares.insert(
                        account,
                        (self.shares_of(account) + amount) as u128,
                    ),
                    total_staked: (self.total_staked + amount) as u128,
                    ..self
                },
            )
        }
    }

    /// Takes shares from an account and from the total, if both hold as many.
    pub open spec fn withdraw(self, account: Seq<char>, amount: u128) -> Result<
        PoolView,
        StakingError,
    > {
        if self.shares_of(account) < amount {
            Err(StakingError::InsufficientBalance)
        } else if self.total_staked < amount {
            Err(StakingError::Overflow(Overflowed::TotalStaked))
        } else {
            Ok(
                PoolView {
                    shares: self.shares.insert(
                        account,
                        (self.shares_of(account) - amount) as u128,
                    ),
                    total_staked: (self.total_staked - amount) as u128,
                    ..self
                },
            )
        }
    }

    /// The shares that a deposit of `amount` tokens buys: as many as tokens while
    /// no shares exist, else `floor(amount * total_staked / locked_token_amount)`.
    pub open spec fn mint_shares(self, amount: u128) -> Result<u128, StakingError> {
        if self.total_staked == 0 {
            if amount == 0 {
                Err(StakingError::ZeroMint)
            } else {
                Ok(amount)
            }
        } else if self.locked_token_amount == 0 {
            Err(StakingError::MissingBacking)
        } else {
            let minted = mul_div_floor(amount, self.total_staked, self.locked_token_amount);
            if minted > u128::MAX {
                Err(StakingError::Overflow(Overflowed::Amount))
            } else if minted == 0 {
                Err(StakingError::ZeroMint)
            } else {
                Ok(minted as u128)
            }
        }
    }

    /// The tokens that `shares` shares are worth:
    /// `floor(shares * locked_token_amount / total_staked)`.
    pub open spec fn redeem_amount(self, shares: u128) -> Result<u128, StakingError> {
        if self.total_staked == 0 {
            Err(StakingError::EmptyPool)
        } else {
            let amount = mul_div_floor(shares, self.locked_token_amount, self.total_staked);
            if amount > u128::MAX {
                Err(StakingError::Overflow(Overflowed::Amount))
            } else {
                Ok(amount as u128)
            }
        }
    }

    /// Locks `amount` tokens and credits the account with the shares they buy.
    pub open spec fn stake(self, account: Seq<char>, amount: u128) -> Result<
        PoolView,
        StakingError,
    > {
        match self.mint_shares(amount) {
            Err(e) => Err(e),
            Ok(minted) => if self.locked_token_amount + amount > u128::MAX {
                Err(StakingError::Overflow(Overflowed::Amount))
            } else {
                PoolView {
                    locked_token_amount: (self.locked_token_amount + amount) as u128,
                    ..self
                }.deposit(account, minted)
            },
        }
    }

    /// Adds `amount` tokens to the reward that is still to be distributed.
    pub open spec fn add_reward(self, amount: u128) -> Result<PoolView, StakingError> {
        if self.undistributed_reward + amount > u128::MAX {
            Err(StakingError::Overflow(Overflowed::Amount))
        } else {
            Ok(
                PoolView {
                    undistributed_reward: (self.undistributed_reward + amount) as u128,
                    ..self
                },
            )
        }
    }

    /// Takes in `amount` tokens of `sender`: stakes them or adds them to the
    /// reward, as the message says, and tells the notification to give out, the
    /// shares minted and the tokens that go back, which are none. The amount has
    /// to be more than nothing, and the message has to be readable.
    pub open spec fn receive(
        self,
        token: Seq<char>,
        sender: Seq<char>,
        amount: u128,
        msg: Option<TokenReceiverMsg>,
    ) -> Result<(PoolView, ReceivedView), StakingError> {
        if amount == 0 {
            Err(StakingError::ZeroDeposit)
        } else {
            match msg {
                None => Err(StakingError::IllegalMsg),
                Some(TokenReceiverMsg::Stake) => match self.stake(sender, amount) {
                    Err(e) => Err(e),
                    Ok(after) => Ok(
                        (
                            after,
                            received_of(
                                event_of(EventKind::AddStake, sender, amount, token),
                                self.mint_shares(amount)->Ok_0,
                            ),
                        ),
                    ),
                },
                Some(TokenReceiverMsg::AddRewards) => match self.add_reward(amount) {
                    Err(e) => Err(e),
                    Ok(after) => Ok(
                        (
                            after,
                            received_of(
                                event_of(EventKind::AddRewards, sender, amount, token),
                                0,
                            ),
                        ),
                    ),
                },
            }
        }
    }

    /// A deposit that the token `predecessor` reports, which has to be the token
    /// of the pool: after a checkpoint, takes the tokens in.
    pub open spec fn on_transfer(
        self,
        predecessor: Seq<char>,
        sender: Seq<char>,
        amount: u128,
        msg: Option<TokenReceiverMsg>,
        now: u32,
    ) -> Result<(PoolView, ReceivedView), StakingError> {
        if predecessor != self.token_id {
            Err(StakingError::IllegalToken)
        } else {
            match self.checkpoint(now) {
                Err(e) => Err(e),
                Ok(pool) => pool.receive(predecessor, sender, amount, msg),
            }
        }
    }

    /// Whether a withdrawal may leave `total` shares outstanding.
    pub open spec fn keeps_floor(total: u128) -> bool {
        total == 0 || total >= MIN_TOTAL_STAKED
    }

    /// What a withdrawal from the pool as it stands burns and pays: the shares
    /// (all of the account's where none are named) and the tokens that they are
    /// worth. The call has to carry the one unit, shares have to exist and the
    /// account has to hold the shares, which are tested in this order before the
    /// worth is worked out; the shares that stay have to keep the floor.
    pub open spec fn withdrawal(
        self,
        account: Seq<char>,
        amount: Option<u128>,
        attached_deposit: u128,
    ) -> Result<(u128, u128), StakingError> {
        if attached_deposit != ONE_YOCTO {
            Err(StakingError::OneYoctoRequired)
        } else {
            let shares = match amount {
                Some(shares) => shares,
                None => self.shares_of(account),
            };
            if self.total_staked == 0 {
                Err(StakingError::EmptyPool)
            } else if self.shares_of(account) < shares {
                Err(StakingError::InsufficientBalance)
            } else {
                match self.redeem_amount(shares) {
                    Err(e) => Err(e),
                    Ok(unlocked) => match self.withdraw(account, shares) {
                        Err(e) => Err(e),
                        Ok(burnt) => if !Self::keeps_floor(burnt.total_staked) {
                            Err(StakingError::DustResidual)
                        } else if burnt.locked_token_amount < unlocked {
                            Err(StakingError::Overflow(Overflowed::Amount))
                        } else {
                            Ok((shares, unlocked))
                        },
                    },
                }
            }
        }
    }

    /// The first phase of a withdrawal: after a checkpoint, burns the shares,
    /// takes what they are worth off the locked amount, and asks for that many
    /// tokens to be sent to the account.
    pub open spec fn unstake(
        self,
        account: Seq<char>,
        amount: Option<u128>,
        attached_deposit: u128,
        now: u32,
    ) -> Result<(PoolView, TransferRequestView), StakingError> {
        match self.checkpoint(now) {
            Err(e) => Err(e),
            Ok(pool) => match pool.withdrawal(account, amount, attached_deposit) {
                Err(e) => Err(e),
                Ok(terms) => {
                    let burnt = pool.withdraw(account, terms.0)->Ok_0;
                    Ok(
                        (
                            PoolView {
                                locked_token_amount: (burnt.locked_token_amount
                                    - terms.1) as u128,
                                ..burnt
                            },
                            request_of(self.token_id, account, terms.1, terms.0),
                        ),
                    )
                },
            },
        }
    }

    /// The last phase of a withdrawal. A transfer that went through changes
    /// nothing. One that failed gives the tokens back to the locked amount and the
    /// shares back to the account, if the ledger still knows the account; if not,
    /// the tokens stay with the pool and belong to nobody.
    pub open spec fn settle(
        self,
        sender: Seq<char>,
        amount: u128,
        share: u128,
        results_count: u64,
        outcome: TransferOutcome,
    ) -> Result<(PoolView, EventView), StakingError> {
        if results_count != 1 {
            Err(StakingError::SettlementCount)
        } else {
            match outcome {
                TransferOutcome::Successful => Ok(
                    (
                        self,
                        event_of(EventKind::WithdrawSucceeded, sender, amount, self.token_id),
                    ),
                ),
                TransferOutcome::Failed => {
                    let event = event_of(EventKind::WithdrawFailed, sender, amount, self.token_id);
                    if !self.shares.contains_key(sender) {
                        Ok((self, event))
                    } else if self.locked_token_amount + amount > u128::MAX {
                        Err(StakingError::Overflow(Overflowed::Amount))
                    } else {
                        match (PoolView {
                            locked_token_amount: (self.locked_token_amount + amount) as u128,
                            ..self
                        }).deposit(sender, share) {
                            Err(e) => Err(e),
                            Ok(after) => Ok((after, event)),
                        }
                    }
                },
            }
        }
    }

    /// Whether `account` may configure the pool.
    pub open spec fn is_owner(self, account: Seq<char>) -> bool {
        account == self.owner_id
    }

    /// Hands the pool to a new owner, at the owner's wish.
    pub open spec fn set_owner(self, predecessor: Seq<char>, owner_id: Seq<char>) -> Result<
        PoolView,
        StakingError,
    > {
        if !self.is_owner(predecessor) {
            Err(StakingError::NotOwner)
        } else {
            Ok(PoolView { owner_id, ..self })
        }
    }

    /// Sets the reward per second, at the owner's wish, after a checkpoint at
    /// the old rate where one is asked for.
    pub open spec fn modify_reward_per_sec(
        self,
        predecessor: Seq<char>,
        reward_per_sec: u128,
        distribute_before_change: bool,
        now: u32,
    ) -> Result<PoolView, StakingError> {
        if !self.is_owner(predecessor) {
            Err(StakingError::NotOwner)
        } else if distribute_before_change {
            match self.checkpoint(now) {
                Err(e) => Err(e),
                Ok(pool) => Ok(PoolView { reward_per_sec, ..pool }),
            }
        } else {
            Ok(PoolView { reward_per_sec, ..self })
        }
    }

    /// Moves the start of the distribution, at the owner's wish, while neither
    /// the old start nor the new one has passed.
    pub open spec fn reset_reward_genesis_time(
        self,
        predecessor: Seq<char>,
        reward_genesis_time_in_sec: u32,
        now: u32,
    ) -> Result<PoolView, StakingError> {
        if !self.is_owner(predecessor) {
            Err(StakingError::NotOwner)
        } else if reward_genesis_time_in_sec < now {
            Err(StakingError::ResetTimeIsPast)
        } else if self.reward_genesis_time_in_sec < now {
            Err(StakingError::GenesisTimePassed)
        } else {
            Ok(
                PoolView {
                    reward_genesis_time_in_sec,
                    prev_distribution_time_in_sec: reward_genesis_time_in_sec,
                    ..self
                },
            )
        }
    }

    /// What one share is worth at `now`, in units of 10^-8 tokens: the locked
    /// amount with the reward due, times 10^8, over the shares outstanding; 10^8
    /// while no shares exist.
    pub open spec fn virtual_price(self, now: u32) -> Result<u128, StakingError> {
        if self.total_staked == 0 {
            Ok(VIRTUAL_PRICE_SCALE)
        } else if (self.locked_token_amount + self.reward_due(now)) * VIRTUAL_PRICE_SCALE
            > u128::MAX {
            Err(StakingError::Overflow(Overflowed::Amount))
        } else {
            Ok(
                ((self.locked_token_amount + self.reward_due(now)) * VIRTUAL_PRICE_SCALE
                    / (self.total_staked as int)) as u128,
            )
        }
    }
}

} // verus!