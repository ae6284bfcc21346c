//! Staking, the distribution of reward, and the two phases of a withdrawal.

use crate::account_id::AccountId;
use crate::errors::{refuses, yields, Overflowed, StakingError};
use crate::events::{withdraw_failed, withdraw_succeeded, Event};
use crate::ft::{TransferRequest, ONE_YOCTO};
use crate::model::{TransferOutcome, MIN_TOTAL_STAKED};
use crate::utils::{nano_to_sec, spec_nano_to_sec};
use crate::wide::mul_div;
use crate::Contract;
use vstd::prelude::*;

verus! {

impl Contract {
    /// The shares that a deposit of `amount` tokens buys at the pool's ratio.
    /// Refused with `ZeroMint` where that is none, with `MissingBacking` where
    /// shares exist and no tokens are locked, and with `Overflow` where the number
    /// of shares does not fit 128 bits.
    pub fn mint_shares(&self, amount: u128) -> (r: Result<u128, StakingError>)
        ensures
            r == self@.mint_shares(amount),
    {
        if self.total_staked == 0 {
            if amount == 0 {
                Err(StakingError::ZeroMint)
            } else {
                Ok(amount)
            }
        } else if self.locked_token_amount == 0 {
            Err(StakingError::MissingBacking)
        } else {
            match mul_div(amount, self.total_staked, self.locked_token_amount) {
                None => Err(StakingError::Overflow(Overflowed::Amount)),
                Some(minted) => if minted == 0 {
                    Err(StakingError::ZeroMint)
                } else {
                    Ok(minted)
                },
            }
        }
    }

    /// The tokens that `shares` shares are worth at the pool's ratio. Refused with
    /// `EmptyPool` where no shares exist and with `Overflow` where the amount does
    /// not fit 128 bits.
    pub fn redeem_amount(&self, shares: u128) -> (r: Result<u128, StakingError>)
        ensures
            r == self@.redeem_amount(shares),
    {
        if self.total_staked == 0 {
            Err(StakingError::EmptyPool)
        } else {
            match mul_div(shares, self.locked_token_amount, self.total_staked) {
                None => Err(StakingError::Overflow(Overflowed::Amount)),
                Some(amount) => Ok(amount),
            }
        }
    }

    /// Locks `amount` tokens and credits the account with the shares they buy,
    /// which it returns.
    pub fn internal_stake(&mut self, account_id: &AccountId, amount: u128) -> (r: Result<
        u128,
        StakingError,
    >)
        ensures
            r is Ok ==> yields(old(self)@.stake(account_id@, amount), final(self)@),
            r is Ok ==> yields(old(self)@.mint_shares(amount), r->Ok_0),
            r is Err ==> refuses(old(self)@.stake(account_id@, amount), r->Err_0),
            r is Err ==> *final(self) == *old(self),
            old(self)@.wf() ==> final(self)@.wf(),
    {
        let minted: u128 = match self.mint_shares(amount) {
            Err(e) => {
                return Err(e);
            },
            Ok(minted) => minted,
        };
        let locked: u128 = match self.locked_token_amount.checked_add(amount) {
            None => {
                return Err(StakingError::Overflow(Overflowed::Amount));
            },
            Some(locked) => locked,
        };
        match self.internal_deposit(account_id, minted) {
            Err(e) => Err(e),
            Ok(()) => {
                self.locked_token_amount = locked;
                Ok(minted)
            },
        }
    }

    /// Adds `amount` tokens to the reward that is still to be distributed.
    pub fn internal_add_reward(&mut self, amount: u128) -> (r: Result<(), StakingError>)
        ensures
            r is Ok ==> yields(old(self)@.add_reward(amount), final(self)@),
            r is Err ==> refuses(old(self)@.add_reward(amount), r->Err_0),
            r is Err ==> *final(self) == *old(self),
            old(self)@.wf() ==> final(self)@.wf(),
    {
        match self.undistributed_reward.checked_add(amount) {
            None => Err(StakingError::Overflow(Overflowed::Amount)),
            Some(reward) => {
                self.undistributed_reward = reward;
                Ok(())
            },
        }
    }

    /// The reward that a checkpoint at the time given would unlock. Changes nothing.
    pub fn try_distribute_reward(&self, cur_timestamp_in_sec: u32) -> (due: u128)
        ensures
            due == self@.reward_due(cur_timestamp_in_sec),
            due <= self.undistributed_reward,
    {
        if cur_timestamp_in_sec > self.reward_genesis_time_in_sec && cur_timestamp_in_sec
            > self.prev_distribution_time_in_sec {
            let elapsed: u32 = cur_timestamp_in_sec - self.prev_distribution_time_in_sec;
            match self.reward_per_sec.checked_mul(elapsed as u128) {
                None => self.undistributed_reward,
                Some(ideal_amount) => if ideal_amount <= self.undistributed_reward {
                    ideal_amount
                } else {
                    self.undistributed_reward
                },
            }
        } else {
            0
        }
    }

    /// The checkpoint at the block time given, in nanoseconds: unlocks the reward
    /// due into the locked amount and records the time. Refused with `Overflow`
    /// where the locked amount would leave the 128-bit range.
    pub fn distribute_reward(&mut self, block_timestamp: u64) -> (r: Result<(), StakingError>)
        ensures
            r is Ok ==> yields(
                old(self)@.checkpoint(spec_nano_to_sec(block_timestamp)),
                final(self)@,
            ),
            r is Ok ==> *final(self) == old(self).with_checkpoint(
                final(self).undistributed_reward,
                final(self).locked_token_amount,
                final(self).prev_distribution_time_in_sec,
            ),
            r is Err ==> refuses(
                old(self)@.checkpoint(spec_nano_to_sec(block_timestamp)),
                r->Err_0,
            ),
            r is Err ==> *final(self) == *old(self),
            old(self)@.wf() ==> final(self)@.wf(),
    {
        let cur_time: u32 = nano_to_sec(block_timestamp);
        let new_reward: u128 = self.try_distribute_reward(cur_time);
        match self.locked_token_amount.checked_add(new_reward) {
            None => Err(StakingError::Overflow(Overflowed::Amount)),
            Some(locked) => {
                self.undistributed_reward = self.undistributed_reward - new_reward;
                self.locked_token_amount = locked;
                self.prev_distribution_time_in_sec = if cur_time
                    >= self.reward_genesis_time_in_sec {
                    cur_time
                } else {
                    self.reward_genesis_time_in_sec
                };
                Ok(())
            },
        }
    }

    /// The pool with the three values that a checkpoint changes set as given.
    pub open spec fn with_checkpoint(
        self,
        undistributed_reward: u128,
        locked_token_amount: u128,
        time: u32,
    ) -> Contract {
        Contract {
            undistributed_reward,
            locked_token_amount,
            prev_distribution_time_in_sec: time,
            ..self
        }
    }

    /// Takes a checkpoint back: the three values that it changed are set as given.
    pub(crate) fn undo_checkpoint(
        &mut self,
        undistributed_reward: u128,
        locked_token_amount: u128,
        time: u32,
    )
        ensures
            *final(self) == old(self).with_checkpoint(
                undistributed_reward,
                locked_token_amount,
                time,
            ),
    {
        self.undistributed_reward = undistributed_reward;
        self.locked_token_amount = locked_token_amount;
        self.prev_distribution_time_in_sec = time;
    }

    /// What a withdrawal from the pool as it stands burns and pays: the shares,
    /// which are all that the account holds where none are named, and the tokens
    /// that they are worth. Changes nothing.
    ///
    /// Refused, in this order, with `OneYoctoRequired` where the attached deposit
    /// is not one unit, with `EmptyPool` where no shares exist, with
    /// `InsufficientBalance` where the account holds fewer shares, with
    /// `Overflow` where their worth or the totals leave the 128-bit range, and
    /// with `DustResidual` where the shares that stay are some and fewer than
    /// `MIN_TOTAL_STAKED`.
    pub fn withdrawal(
        &self,
        account_id: &AccountId,
        amount: Option<u128>,
        attached_deposit: u128,
    ) -> (r: Result<(u128, u128), StakingError>)
        ensures
            r == self@.withdrawal(account_id@, amount, attached_deposit),
    {
        if attached_deposit != ONE_YOCTO {
            return Err(StakingError::OneYoctoRequired);
        }
        let balance: u128 = self.balance_of(account_id);
        let shares: u128 = match amount {
            Some(shares) => shares,
            None => balance,
        };
        if self.total_staked == 0 {
            return Err(StakingError::EmptyPool);
        }
        if balance < shares {
            return Err(StakingError::InsufficientBalance);
        }
        let unlocked: u128 = match self.redeem_amount(shares) {
            Err(e) => {
                return Err(e);
            },
            Ok(unlocked) => unlocked,
        };
        if self.total_staked < shares {
            return Err(StakingError::Overflow(Overflowed::TotalStaked));
        }
        let remaining: u128 = self.total_staked - shares;
        if remaining != 0 && remaining < MIN_TOTAL_STAKED {
            return Err(StakingError::DustResidual);
        }
        if self.locked_token_amount < unlocked {
            return Err(StakingError::Overflow(Overflowed::Amount));
        }
        Ok((shares, unlocked))
    }

    /// The first phase of a withdrawal, for the account that calls, at the block
    /// time given in nanoseconds. After a checkpoint it burns `amount` shares, or
    /// all that the account holds where none are named, takes what they are worth
    /// off the locked amount, and returns the transfer to ask of the token.
    ///
    /// The call has to carry an attached deposit of exactly one unit, shares have
    /// to exist, the account has to hold the shares, and the shares that stay
    /// outstanding have to be none or at least `MIN_TOTAL_STAKED`.
    pub fn unstake(
        &mut self,
        account_id: &AccountId,
        amount: Option<u128>,
        attached_deposit: u128,
        block_timestamp: u64,
    ) -> (r: Result<TransferRequest, StakingError>)
        ensures
            r is Ok ==> yields(
                old(self)@.unstake(
                    account_id@,
                    amount,
                    attached_deposit,
                    spec_nano_to_sec(block_timestamp),
                ),
                (final(self)@, r->Ok_0@),
            ),
            r is Err ==> refuses(
                old(self)@.unstake(
                    account_id@,
                    amount,
                    attached_deposit,
                    spec_nano_to_sec(block_timestamp),
                ),
                r->Err_0,
            ),
            r is Err ==> *final(self) == *old(self),
            old(self)@.wf() ==> final(self)@.wf(),
    {
        let reward_before: u128 = self.undistributed_reward;
        let locked_before: u128 = self.locked_token_amount;
        let time_before: u32 = self.prev_distribution_time_in_sec;
        match self.distribute_reward(block_timestamp) {
            Err(e) => {
                return Err(e);
            },
            Ok(()) => {},
        }
        let burnt = match self.withdrawal(account_id, amount, attached_deposit) {
            Err(e) => Err(e),
            Ok((shares, unlocked)) => match self.internal_withdraw(account_id, shares) {
                Err(e) => Err(e),
                Ok(()) => Ok((shares, unlocked)),
            },
        };
        match burnt {
            Err(e) => {
                self.undo_checkpoint(reward_before, locked_before, time_before);
                Err(e)
            },
            Ok((shares, unlocked)) => {
                self.locked_token_amount = self.locked_token_amount - unlocked;
                Ok(self.internal_ft_transfer(account_id, unlocked, shares))
            },
        }
    }

    /// The last phase of a withdrawal, when the transfer of `amount` tokens for
    /// `share` shares to `sender_id` has ended. Exactly one outcome has to be
    /// reported. A transfer that failed is undone: the tokens go back to the
    /// locked amount and the shares to the account, if the ledger knows the
    /// account; if it does not, the tokens stay with the pool.
    pub fn callback_post_unstake(
        &mut self,
        sender_id: &AccountId,
        amount: u128,
        share: u128,
        results_count: u64,
        outcome: TransferOutcome,
    ) -> (r: Result<Event, StakingError>)
        ensures
            r is Ok ==> yields(
                old(self)@.settle(sender_id@, amount, share, results_count, outcome),
                (final(self)@, r->Ok_0@),
            ),
            r is Err ==> refuses(
                old(self)@.settle(sender_id@, amount, share, results_count, outcome),
                r->Err_0,
            ),
            r is Err ==> *final(self) == *old(self),
            old(self)@.wf() ==> final(self)@.wf(),
    {
        if results_count != 1 {
            return Err(StakingError::SettlementCount);
        }
        match outcome {
            TransferOutcome::Successful => Ok(
                withdraw_succeeded(sender_id, amount, &self.token_id),
            ),
            TransferOutcome::Failed => {
                if self.shares.get(sender_id).is_some() {
                    let locked: u128 = match self.locked_token_amount.checked_add(amount) {
                        None => {
                            return Err(StakingError::Overflow(Overflowed::Amount));
                        },
                        Some(locked) => locked,
                    };
                    match self.internal_deposit(sender_id, share) {
                        Err(e) => {
                            return Err(e);
                        },
                        Ok(()) => {
                            self.locked_token_amount = locked;
                        },
                    }
                }
                Ok(withdraw_failed(sender_id, amount, &self.token_id))
            },
        }
    }
}

} // verus!
