//! A single-sided staking pool: accounts deposit a token for shares of the pool,
//! and a reward that unlocks second by second raises what each share is worth.

pub mod account;
pub mod account_id;
pub mod admin;
pub mod errors;
pub mod events;
pub mod ft;
pub mod laws;
pub mod ledger;
pub mod model;
pub mod staking;
pub mod utils;
pub mod views;
pub mod wide;

use crate::account_id::AccountId;
use crate::errors::{Overflowed, StakingError};
use crate::ledger::{lemma_sum_empty, ShareLedger};
use crate::model::PoolView;
use crate::utils::{nano_to_sec, spec_nano_to_sec, DURATION_30DAYS_IN_SEC};
use vstd::prelude::*;

verus! {

/// The pool: its configuration, its totals and the ledger of shares.
pub struct Contract {
    /// The account that may configure the pool.
    pub owner_id: AccountId,
    /// The token that the pool stakes.
    pub token_id: AccountId,
    /// Reward received and not yet unlocked, as of the last checkpoint.
    pub undistributed_reward: u128,
    /// Tokens that back the shares, as of the last checkpoint.
    pub locked_token_amount: u128,
    /// The time of the last checkpoint, in seconds.
    pub prev_distribution_time_in_sec: u32,
    /// The time from which reward is distributed, in seconds.
    pub reward_genesis_time_in_sec: u32,
    /// Reward unlocked per second.
    pub reward_per_sec: u128,
    /// A counter of accounts, kept for information.
    pub account_number: u64,
    /// Shares outstanding.
    pub total_staked: u128,
    /// Shares of every account.
    pub shares: ShareLedger,
}

impl View for Contract {
    type V = PoolView;

    open spec fn view(&self) -> PoolView {
        PoolView {
            owner_id: self.owner_id@,
            token_id: self.token_id@,
            undistributed_reward: self.undistributed_reward,
            locked_token_amount: self.locked_token_amount,
            prev_distribution_time_in_sec: self.prev_distribution_time_in_sec,
            reward_genesis_time_in_sec: self.reward_genesis_time_in_sec,
            reward_per_sec: self.reward_per_sec,
            account_number: self.account_number,
            total_staked: self.total_staked,
            shares: self.shares@,
        }
    }
}

/// The pool that `Contract::new` makes at the time given.
pub open spec fn new_pool(owner_id: Seq<char>, token_id: Seq<char>, genesis: u32) -> PoolView {
    PoolView {
        owner_id,
        token_id,
        undistributed_reward: 0,
        locked_token_amount: 0,
        prev_distribution_time_in_sec: genesis,
        reward_genesis_time_in_sec: genesis,
        reward_per_sec: 0,
        account_number: 0,
        total_staked: 0,
        shares: Map::empty(),
    }
}

impl Contract {
    /// An empty pool for the token, whose reward starts thirty days after the
    /// block time given, in nanoseconds. Refused with `Overflow` where that start
    /// does not fit 32 bits of seconds.
    pub fn new(owner_id: AccountId, token_id: AccountId, block_timestamp: u64) -> (r: Result<
        Contract,
        StakingError,
    >)
        ensures
            r is Ok <==> spec_nano_to_sec(block_timestamp) + DURATION_30DAYS_IN_SEC <= u32::MAX,
            r is Ok ==> r->Ok_0@ == new_pool(
                owner_id@,
                token_id@,
                (spec_nano_to_sec(block_timestamp) + DURATION_30DAYS_IN_SEC) as u32,
            ),
            r is Ok ==> r->Ok_0@.wf(),
            r is Err ==> r->Err_0 == StakingError::Overflow(Overflowed::Amount),
    {
        match DURATION_30DAYS_IN_SEC.checked_add(nano_to_sec(block_timestamp)) {
            None => Err(StakingError::Overflow(Overflowed::Amount)),
            Some(genesis) => {
                let shares = ShareLedger::new();
                proof {
                    lemma_sum_empty();
                }
                Ok(
                    Contract {
                        owner_id,
                        token_id,
                        undistributed_reward: 0,
                        locked_token_amount: 0,
                        prev_distribution_time_in_sec: genesis,
                        reward_genesis_time_in_sec: genesis,
                        reward_per_sec: 0,
                        account_number: 0,
                        total_staked: 0,
                        shares,
                    },
                )
            },
        }
    }
}

} // verus!
