//! What the owner of the pool may change.

use crate::account_id::AccountId;
use crate::errors::{refuses, yields, StakingError};
use crate::utils::{nano_to_sec, spec_nano_to_sec};
use crate::Contract;
use vstd::prelude::*;

verus! {

impl Contract {
    /// Hands the pool to `owner_id`. Refused with `NotOwner` unless the owner calls.
    pub fn set_owner(&mut self, predecessor_id: &AccountId, owner_id: AccountId) -> (r: Result<
        (),
        StakingError,
    >)
        ensures
            r is Ok ==> yields(old(self)@.set_owner(predecessor_id@, owner_id@), final(self)@),
            r is Err ==> refuses(old(self)@.set_owner(predecessor_id@, owner_id@), r->Err_0),
            r is Err ==> *final(self) == *old(self),
            old(self)@.wf() ==> final(self)@.wf(),
    {
        match self.assert_owner(predecessor_id) {
            Err(e) => Err(e),
            Ok(()) => {
                self.owner_id = owner_id;
                Ok(())
            },
        }
    }

    /// The owner of the pool.
    pub fn get_owner(&self) -> (owner_id: AccountId)
        ensures
            owner_id@ == self@.owner_id,
    {
        self.owner_id.clone()
    }

    /// Sets the reward per second, after a checkpoint at the old rate and the
    /// block time given, in nanoseconds, where `distribute_before_change` asks
    /// for one. Refused with `NotOwner` unless the owner calls, and with
    /// `Overflow` where the checkpoint is.
    pub fn modify_reward_per_sec(
        &mut self,
        predecessor_id: &AccountId,
        reward_per_sec: u128,
        distribute_before_change: bool,
        block_timestamp: u64,
    ) -> (r: Result<(), StakingError>)
        ensures
            r is Ok ==> yields(
                old(self)@.modify_reward_per_sec(
                    predecessor_id@,
                    reward_per_sec,
                    distribute_before_change,
                    spec_nano_to_sec(block_timestamp),
                ),
                final(self)@,
            ),
            r is Err ==> refuses(
                old(self)@.modify_reward_per_sec(
                    predecessor_id@,
                    reward_per_sec,
                    distribute_before_change,
                    spec_nano_to_sec(block_timestamp),
                ),
                r->Err_0,
            ),
            r is Err ==> *final(self) == *old(self),
            old(self)@.wf() ==> final(self)@.wf(),
    {
        match self.assert_owner(predecessor_id) {
            Err(e) => {
                return Err(e);
            },
            Ok(()) => {},
        }
        if distribute_before_change {
            match self.distribute_reward(block_timestamp) {
                Err(e) => {
                    return Err(e);
                },
                Ok(()) => {},
            }
        }
        self.reward_per_sec = reward_per_sec;
        Ok(())
    }

    /// The reward per second.
    pub fn get_reward_per_sec(&self) -> (reward_per_sec: u128)
        ensures
            reward_per_sec == self@.reward_per_sec,
    {
        self.reward_per_sec
    }

    /// Moves the start of the distribution to the time given, from which the
    /// next checkpoint then counts. Refused with `NotOwner` unless the owner
    /// calls, with `ResetTimeIsPast` where the new start lies before the block
    /// time given, in nanoseconds, and with `GenesisTimePassed` where the old one
    /// does.
    pub fn reset_reward_genesis_time_in_sec(
        &mut self,
        predecessor_id: &AccountId,
        reward_genesis_time_in_sec: u32,
        block_timestamp: u64,
    ) -> (r: Result<(), StakingError>)
        ensures
            r is Ok ==> yields(
                old(self)@.reset_reward_genesis_time(
                    predecessor_id@,
                    reward_genesis_time_in_sec,
                    spec_nano_to_sec(block_timestamp),
                ),
                final(self)@,
            ),
            r is Err ==> refuses(
                old(self)@.reset_reward_genesis_time(
                    predecessor_id@,
                    reward_genesis_time_in_sec,
                    spec_nano_to_sec(block_timestamp),
                ),
                r->Err_0,
            ),
            r is Err ==> *final(self) == *old(self),
            old(self)@.wf() ==> final(self)@.wf(),
    {
        match self.assert_owner(predecessor_id) {
            Err(e) => {
                return Err(e);
            },
            Ok(()) => {},
        }
        let cur_time: u32 = nano_to_sec(block_timestamp);
        if reward_genesis_time_in_sec < cur_time {
            return Err(StakingError::ResetTimeIsPast);
        } else if self.reward_genesis_time_in_sec < cur_time {
            return Err(StakingError::GenesisTimePassed);
        }
        self.reward_genesis_time_in_sec = reward_genesis_time_in_sec;
        self.prev_distribution_time_in_sec = reward_genesis_time_in_sec;
        Ok(())
    }

    /// Whether the account that calls is the owner: `NotOwner` where it is not.
    pub fn assert_owner(&self, predecessor_id: &AccountId) -> (r: Result<(), StakingError>)
        ensures
            r is Ok <==> self@.is_owner(predecessor_id@),
            r is Err ==> r->Err_0 == StakingError::NotOwner,
    {
        if *predecessor_id == self.owner_id {
            Ok(())
        } else {
            Err(StakingError::NotOwner)
        }
    }
}

} // verus!
