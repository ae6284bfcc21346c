//! What the pool shows of itself. Nothing here changes it.

use crate::account_id::AccountId;
use crate::errors::{refuses, yields, Overflowed, StakingError};
use crate::model::{PoolView, VIRTUAL_PRICE_SCALE};
use crate::utils::{nano_to_sec, spec_nano_to_sec};
use crate::Contract;
use vstd::prelude::*;

verus! {

/// The description of the pool as a mathematical value.
pub struct ContractMetadataView {
    pub version: Seq<char>,
    pub owner_id: Seq<char>,
    pub token_id: Seq<char>,
    pub undistributed_reward: u128,
    pub locked_token_amount: u128,
    pub cur_undistributed_reward: u128,
    pub cur_locked_token_amount: u128,
    pub total_staked: u128,
    pub prev_distribution_time_in_sec: u32,
    pub reward_genesis_time_in_sec: u32,
    pub reward_per_sec: u128,
    pub account_number: u128,
}

/// The description of the pool at one moment.
#[derive(Debug, PartialEq, Eq)]
pub struct ContractMetadata {
    pub version: String,
    pub owner_id: AccountId,
    pub token_id: AccountId,
    /// Reward not yet unlocked, as of the last checkpoint.
    pub undistributed_reward: u128,
    /// Tokens that back the shares, as of the last checkpoint.
    pub locked_token_amount: u128,
    /// Reward not yet unlocked, as of the moment of the description.
    pub cur_undistributed_reward: u128,
    /// Tokens that back the shares, as of the moment of the description.
    pub cur_locked_token_amount: u128,
    pub total_staked: u128,
    pub prev_distribution_time_in_sec: u32,
    pub reward_genesis_time_in_sec: u32,
    pub reward_per_sec: u128,
    /// The number of accounts in the ledger.
    pub account_number: u128,
}

impl View for ContractMetadata {
    type V = ContractMetadataView;

    open spec fn view(&self) -> ContractMetadataView {
        ContractMetadataView {
            version: self.version@,
            owner_id: self.owner_id@,
            token_id: self.token_id@,
            undistributed_reward: self.undistributed_reward,
            locked_token_amount: self.locked_token_amount,
            cur_undistributed_reward: self.cur_undistributed_reward,
            cur_locked_token_amount: self.cur_locked_token_amount,
            total_staked: self.total_staked,
            prev_distribution_time_in_sec: self.prev_distribution_time_in_sec,
            reward_genesis_time_in_sec: self.reward_genesis_time_in_sec,
            reward_per_sec: self.reward_per_sec,
            account_number: self.account_number,
        }
    }
}

impl PoolView {
    /// The description of the pool at `now`: its state as of the last checkpoint
    /// and the two amounts that a checkpoint at `now` would leave.
    pub open spec fn metadata(self, version: Seq<char>, now: u32) -> Result<
        ContractMetadataView,
        StakingError,
    > {
        if self.locked_token_amount + self.reward_due(now) > u128::MAX {
            Err(StakingError::Overflow(Overflowed::Amount))
        } else {
            Ok(
                ContractMetadataView {
                    version,
                    owner_id: self.owner_id,
                    token_id: self.token_id,
                    undistributed_reward: self.undistributed_reward,
                    locked_token_amount: self.locked_token_amount,
                    cur_undistributed_reward: (self.undistributed_reward - self.reward_due(
                        now,
                    )) as u128,
                    cur_locked_token_amount: (self.locked_token_amount + self.reward_due(
                        now,
                    )) as u128,
                    total_staked: self.total_staked,
                    prev_distribution_time_in_sec: self.prev_distribution_time_in_sec,
                    reward_genesis_time_in_sec: self.reward_genesis_time_in_sec,
                    reward_per_sec: self.reward_per_sec,
                    account_number: self.shares.dom().len() as u128,
                },
            )
        }
    }
}

impl Contract {
    /// The description of the pool at the block time given, in nanoseconds, under
    /// the version given. Refused with `Overflow` where a checkpoint at that time
    /// would be.
    pub fn contract_metadata(&self, version: String, block_timestamp: u64) -> (r: Result<
        ContractMetadata,
        StakingError,
    >)
        ensures
            r is Ok ==> yields(
                self@.metadata(version@, spec_nano_to_sec(block_timestamp)),
                r->Ok_0@,
            ),
            r is Err ==> refuses(
                self@.metadata(version@, spec_nano_to_sec(block_timestamp)),
                r->Err_0,
            ),
    {
        let to_be_distributed: u128 = self.try_distribute_reward(nano_to_sec(block_timestamp));
        match self.locked_token_amount.checked_add(to_be_distributed) {
            None => Err(StakingError::Overflow(Overflowed::Amount)),
            Some(cur_locked_token_amount) => Ok(
                ContractMetadata {
                    version,
                    owner_id: self.owner_id.clone(),
                    token_id: self.token_id.clone(),
                    undistributed_reward: self.undistributed_reward,
                    locked_token_amount: self.locked_token_amount,
                    cur_undistributed_reward: self.undistributed_reward - to_be_distributed,
                    cur_locked_token_amount,
                    total_staked: self.total_staked,
                    prev_distribution_time_in_sec: self.prev_distribution_time_in_sec,
                    reward_genesis_time_in_sec: self.reward_genesis_time_in_sec,
                    reward_per_sec: self.reward_per_sec,
                    account_number: self.shares.len() as u128,
                },
            ),
        }
    }

    /// What one share is worth at the block time given, in nanoseconds, in units
    /// of 10^-8 tokens. Refused with `Overflow` where the locked amount with the
    /// reward due, times 10^8, leaves the 128-bit range.
    pub fn get_virtual_price(&self, block_timestamp: u64) -> (r: Result<u128, StakingError>)
        ensures
            r == self@.virtual_price(spec_nano_to_sec(block_timestamp)),
    {
        if self.total_staked == 0 {
            Ok(VIRTUAL_PRICE_SCALE)
        } else {
            let due: u128 = self.try_distribute_reward(nano_to_sec(block_timestamp));
            let locked: u128 = match self.locked_token_amount.checked_add(due) {
                None => {
                    proof {
                        assert((self.locked_token_amount + due) * VIRTUAL_PRICE_SCALE
                            > u128::MAX) by (nonlinear_arith)
                            requires
                                self.locked_token_amount + due > u128::MAX,
                                VIRTUAL_PRICE_SCALE == 100_000_000,
                        ;
                    }
                    return Err(StakingError::Overflow(Overflowed::Amount));
                },
                Some(locked) => locked,
            };
            match locked.checked_mul(VIRTUAL_PRICE_SCALE) {
                None => Err(StakingError::Overflow(Overflowed::Amount)),
                Some(scaled) => Ok(scaled / self.total_staked),
            }
        }
    }

    /// The reward received and not yet unlocked, as of the last checkpoint.
    pub fn get_undistributed_reward(&self) -> (reward: u128)
        ensures
            reward == self@.undistributed_reward,
    {
        self.undistributed_reward
    }

    /// The shares of an account; none where the ledger does not know it.
    pub fn get_shares(&self, account_id: AccountId) -> (shares: u128)
        ensures
            shares == self@.shares_of(account_id@),
    {
        self.balance_of(&account_id)
    }

    /// The shares outstanding.
    pub fn get_total_staked(&self) -> (total: u128)
        ensures
            total == self@.total_staked,
    {
        self.total_staked
    }
}

} // verus!
