//! The two operations on the ledger of shares.

use crate::account_id::AccountId;
use crate::errors::{refuses, yields, Overflowed, StakingError};
use crate::ledger::lemma_sum_insert;
use crate::Contract;
use vstd::prelude::*;

verus! {

impl Contract {
    /// The shares that the ledger holds for an account.
    pub(crate) fn balance_of(&self, account_id: &AccountId) -> (balance: u128)
        ensures
            balance == self@.shares_of(account_id@),
    {
        match self.shares.get(account_id) {
            Some(balance) => balance,
            None => 0,
        }
    }

    /// Adds `amount` shares to the account and to the total. Refused with
    /// `Overflow` where either would leave the 128-bit range.
    pub fn internal_deposit(&mut self, account_id: &AccountId, amount: u128) -> (r: Result<
        (),
        StakingError,
    >)
        ensures
            r is Ok ==> yields(old(self)@.deposit(account_id@, amount), final(self)@),
            r is Err ==> refuses(old(self)@.deposit(account_id@, amount), r->Err_0),
            r is Err ==> *final(self) == *old(self),
            old(self)@.wf() ==> final(self)@.wf(),
    {
        let user_balance: u128 = self.balance_of(account_id);
        match amount.checked_add(user_balance) {
            None => Err(StakingError::Overflow(Overflowed::Balance)),
            Some(new_balance) => match self.total_staked.checked_add(amount) {
                None => Err(StakingError::Overflow(Overflowed::TotalStaked)),
                Some(new_total) => {
                    proof {
                        if old(self)@.wf() {
                            lemma_sum_insert(old(self)@.shares, account_id@, new_balance);
                        }
                    }
                    self.shares.insert(account_id, new_balance);
                    self.total_staked = new_total;
                    Ok(())
                },
            },
        }
    }

    /// Takes `amount` shares from the account and from the total. Refused with
    /// `InsufficientBalance` where the account holds fewer, and with `Overflow`
    /// where the total does.
    pub fn internal_withdraw(&mut self, account_id: &AccountId, amount: u128) -> (r: Result<
        (),
        StakingError,
    >)
        ensures
            r is Ok ==> yields(old(self)@.withdraw(account_id@, amount), final(self)@),
            r is Err ==> refuses(old(self)@.withdraw(account_id@, amount), r->Err_0),
            r is Err ==> *final(self) == *old(self),
            old(self)@.wf() ==> final(self)@.wf(),
    {
        let user_balance: u128 = self.balance_of(account_id);
        match user_balance.checked_sub(amount) {
            None => Err(StakingError::InsufficientBalance),
            Some(new_balance) => match self.total_staked.checked_sub(amount) {
                None => Err(StakingError::Overflow(Overflowed::TotalStaked)),
                Some(new_total) => {
                    proof {
                        if old(self)@.wf() {
                            lemma_sum_insert(old(self)@.shares, account_id@, new_balance);
                        }
                    }
                    self.shares.insert(account_id, new_balance);
                    self.total_staked = new_total;
                    Ok(())
                },
            },
        }
    }
}

} // verus!
