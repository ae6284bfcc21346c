//! The pool's dealings with the token it stakes: deposits that the token
//! reports, and the transfers that the pool asks of it.

use crate::account_id::AccountId;
use crate::errors::{refuses, yields, StakingError};
use crate::events::{add_rewards, add_stake, Event, EventView};
use crate::utils::spec_nano_to_sec;
use crate::Contract;
use vstd::prelude::*;

verus! {

/// The attached deposit that confirms a withdrawal or a transfer: one indivisible
/// unit.
pub const ONE_YOCTO: u128 = 1;

/// What a deposit is for.
#[derive(Clone, Copy, Debug, PartialEq, Eq, Structural)]
pub enum TokenReceiverMsg {
    Stake,
    AddRewards,
}

/// Gas for the transfer that a withdrawal asks of the token: 20 Tgas.
pub const GAS_FOR_FT_TRANSFER: u64 = 20_000_000_000_000;

/// Gas for the settlement that follows the transfer: 20 Tgas.
pub const GAS_FOR_AFTER_FT_TRANSFER: u64 = 20_000_000_000_000;

/// A request for a transfer, as a mathematical value.
pub struct TransferRequestView {
    pub token_id: Seq<char>,
    pub receiver_id: Seq<char>,
    pub amount: u128,
    pub shares: u128,
    pub attached_deposit: u128,
    pub gas: u64,
    pub callback_gas: u64,
}

/// A request to the token to send `amount` tokens to the receiver, with what the
/// settlement has to know: the receiver, the tokens and the shares burnt for them.
#[derive(Debug, PartialEq, Eq)]
pub struct TransferRequest {
    /// The token that is asked.
    pub token_id: AccountId,
    /// The account that gets the tokens.
    pub receiver_id: AccountId,
    /// The tokens to send.
    pub amount: u128,
    /// The shares that were burnt for the tokens.
    pub shares: u128,
    /// The deposit to attach to the transfer.
    pub attached_deposit: u128,
    /// The gas for the transfer.
    pub gas: u64,
    /// The gas for the settlement after the transfer.
    pub callback_gas: u64,
}

impl View for TransferRequest {
    type V = TransferRequestView;

    open spec fn view(&self) -> TransferRequestView {
        TransferRequestView {
            token_id: self.token_id@,
            receiver_id: self.receiver_id@,
            amount: self.amount,
            shares: self.shares,
            attached_deposit: self.attached_deposit,
            gas: self.gas,
            callback_gas: self.callback_gas,
        }
    }
}

/// What the pool answers to a deposit, as a mathematical value.
pub struct ReceivedView {
    pub event: EventView,
    pub minted: u128,
    pub unused_amount: u128,
}

/// What the pool answers to a deposit that it took in.
#[derive(Debug, PartialEq, Eq)]
pub struct Received {
    /// The notification to give out.
    pub event: Event,
    /// The shares minted for the deposit; none where it went to the reward.
    pub minted: u128,
    /// The tokens that go back to the sender: none.
    pub unused_amount: u128,
}

impl View for Received {
    type V = ReceivedView;

    open spec fn view(&self) -> ReceivedView {
        ReceivedView {
            event: self.event@,
            minted: self.minted,
            unused_amount: self.unused_amount,
        }
    }
}

/// The answer to a deposit that minted `minted` shares: all of it was taken in.
pub open spec fn received_of(event: EventView, minted: u128) -> ReceivedView {
    ReceivedView { event, minted, unused_amount: 0 }
}

/// The request to the token `token_id` to send `unlocked` tokens to an account
/// for `amount` shares: with one unit attached, and 20 Tgas each for the
/// transfer and for its settlement.
pub open spec fn request_of(
    token_id: Seq<char>,
    account_id: Seq<char>,
    unlocked: u128,
    amount: u128,
) -> TransferRequestView {
    TransferRequestView {
        token_id,
        receiver_id: account_id,
        amount: unlocked,
        shares: amount,
        attached_deposit: ONE_YOCTO,
        gas: GAS_FOR_FT_TRANSFER,
        callback_gas: GAS_FOR_AFTER_FT_TRANSFER,
    }
}

impl Contract {
    /// A deposit of `amount` tokens by `sender_id` that the token `predecessor_id`
    /// reports, with what the deposit is for (`None` where the message could not
    /// be read) and the block time in nanoseconds. After a checkpoint the tokens
    /// are staked for the sender or added to the reward. Returns the notification
    /// to give out, the shares minted and the tokens that go back to the sender,
    /// which are none.
    ///
    /// Refused where another token than the pool's reports, where the amount is
    /// zero and where the message could not be read.
    pub fn ft_on_transfer(
        &mut self,
        predecessor_id: &AccountId,
        sender_id: &AccountId,
        amount: u128,
        msg: Option<TokenReceiverMsg>,
        block_timestamp: u64,
    ) -> (r: Result<Received, StakingError>)
        ensures
            r is Ok ==> yields(
                old(self)@.on_transfer(
                    predecessor_id@,
                    sender_id@,
                    amount,
                    msg,
                    spec_nano_to_sec(block_timestamp),
                ),
                (final(self)@, r->Ok_0@),
            ),
            r is Err ==> refuses(
                old(self)@.on_transfer(
                    predecessor_id@,
                    sender_id@,
                    amount,
                    msg,
                    spec_nano_to_sec(block_timestamp),
                ),
                r->Err_0,
            ),
            r is Err ==> *final(self) == *old(self),
            old(self)@.wf() ==> final(self)@.wf(),
    {
        if *predecessor_id != self.token_id {
            return Err(StakingError::IllegalToken);
        }
        let reward_before: u128 = self.undistributed_reward;
        let locked_before: u128 = self.locked_token_amount;
        let time_before: u32 = self.prev_distribution_time_in_sec;
        match self.distribute_reward(block_timestamp) {
            Err(e) => {
                return Err(e);
            },
            Ok(()) => {},
        }
        match self.receive(predecessor_id, sender_id, amount, msg) {
            Err(e) => {
                self.undo_checkpoint(reward_before, locked_before, time_before);
                Err(e)
            },
            Ok(received) => Ok(received),
        }
    }

    /// Takes in `amount` tokens of `sender_id` in the token `token_id`: stakes
    /// them or adds them to the reward, as the message says, and returns the
    /// notification to give out with the shares minted. Refused with
    /// `ZeroDeposit` where the amount is zero and with `IllegalMsg` where the
    /// message could not be read.
    pub fn receive(
        &mut self,
        token_id: &AccountId,
        sender_id: &AccountId,
        amount: u128,
        msg: Option<TokenReceiverMsg>,
    ) -> (r: Result<Received, StakingError>)
        ensures
            r is Ok ==> yields(
                old(self)@.receive(token_id@, sender_id@, amount, msg),
                (final(self)@, r->Ok_0@),
            ),
            r is Err ==> refuses(
                old(self)@.receive(token_id@, sender_id@, amount, msg),
                r->Err_0,
            ),
            r is Err ==> *final(self) == *old(self),
            old(self)@.wf() ==> final(self)@.wf(),
    {
        if amount == 0 {
            return Err(StakingError::ZeroDeposit);
        }
        match msg {
            None => Err(StakingError::IllegalMsg),
            Some(TokenReceiverMsg::Stake) => match self.internal_stake(sender_id, amount) {
                Err(e) => Err(e),
                Ok(minted) => Ok(
                    Received {
                        event: add_stake(sender_id, amount, token_id),
                        minted,
                        unused_amount: 0,
                    },
                ),
            },
            Some(TokenReceiverMsg::AddRewards) => match self.internal_add_reward(amount) {
                Err(e) => Err(e),
                Ok(()) => Ok(
                    Received {
                        event: add_rewards(sender_id, amount, token_id),
                        minted: 0,
                        unused_amount: 0,
                    },
                ),
            },
        }
    }

    /// The transfer of `unlocked` tokens to the account that a withdrawal of
    /// `amount` shares asks of the pool's token.
    pub fn internal_ft_transfer(
        &self,
        account_id: &AccountId,
        unlocked: u128,
        amount: u128,
    ) -> (request: TransferRequest)
        ensures
            request@ == request_of(self@.token_id, account_id@, unlocked, amount),
    {
        TransferRequest {
            token_id: self.token_id.clone(),
            receiver_id: account_id.clone(),
            amount: unlocked,
            shares: amount,
            attached_deposit: ONE_YOCTO,
            gas: GAS_FOR_FT_TRANSFER,
            callback_gas: GAS_FOR_AFTER_FT_TRANSFER,
        }
    }
}

} // verus!
