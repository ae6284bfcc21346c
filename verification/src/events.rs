//! The notifications that the pool gives out: who, how much, of which token.

use crate::account_id::AccountId;
use vstd::prelude::*;

verus! {

/// What a notification reports.
#[derive(Clone, Copy, Debug, PartialEq, Eq, Structural)]
pub enum EventKind {
    AddStake,
    AddRewards,
    WithdrawFailed,
    WithdrawSucceeded,
}

/// A notification as a mathematical value.
pub struct EventView {
    pub kind: EventKind,
    pub account_id: Seq<char>,
    pub amount: u128,
    pub token_id: Seq<char>,
}

/// A notification: an account, an amount and the token it is in.
#[derive(Debug, PartialEq, Eq)]
pub struct Event {
    pub kind: EventKind,
    pub account_id: AccountId,
    pub amount: u128,
    pub token_id: AccountId,
}

impl View for Event {
    type V = EventView;

    open spec fn view(&self) -> EventView {
        EventView {
            kind: self.kind,
            account_id: self.account_id@,
            amount: self.amount,
            token_id: self.token_id@,
        }
    }
}

/// The notification of the given kind about an account, an amount and a token.
pub open spec fn event_of(
    kind: EventKind,
    account_id: Seq<char>,
    amount: u128,
    token_id: Seq<char>,
) -> EventView {
    EventView { kind, account_id, amount, token_id }
}

/// The name under which a kind of notification is published.
pub open spec fn spec_event_name(kind: EventKind) -> Seq<char> {
    match kind {
        EventKind::AddStake => "add_stake"@,
        EventKind::AddRewards => "add_rewards"@,
        EventKind::WithdrawFailed => "withdraw_failed"@,
        EventKind::WithdrawSucceeded => "withdraw_succeeded"@,
    }
}

impl EventKind {
    /// The name under which this kind of notification is published.
    pub fn name(&self) -> (name: String)
        ensures
            name@ == spec_event_name(*self),
    {
        let name: &str = match self {
            EventKind::AddStake => "add_stake",
            EventKind::AddRewards => "add_rewards",
            EventKind::WithdrawFailed => "withdraw_failed",
            EventKind::WithdrawSucceeded => "withdraw_succeeded",
        };
        name.to_owned()
    }
}

/// The standard that the notifications follow.
pub fn event_standard() -> (standard: String)
    ensures
        standard@ == "single-sided-staking"@,
{
    "single-sided-staking".to_owned()
}

/// The version of that standard.
pub fn event_version() -> (version: String)
    ensures
        version@ == "1.0.0"@,
{
    "1.0.0".to_owned()
}

fn event(kind: EventKind, account_id: &AccountId, amount: u128, token_id: &AccountId) -> (event:
    Event)
    ensures
        event@ == event_of(kind, account_id@, amount, token_id@),
{
    Event { kind, account_id: account_id.clone(), amount, token_id: token_id.clone() }
}

/// Tokens were staked for an account.
pub fn add_stake(account_id: &AccountId, amount: u128, token_id: &AccountId) -> (event: Event)
    ensures
        event@ == event_of(EventKind::AddStake, account_id@, amount, token_id@),
{
    event(EventKind::AddStake, account_id, amount, token_id)
}

/// An account added tokens to the reward.
pub fn add_rewards(account_id: &AccountId, amount: u128, token_id: &AccountId) -> (event: Event)
    ensures
        event@ == event_of(EventKind::AddRewards, account_id@, amount, token_id@),
{
    event(EventKind::AddRewards, account_id, amount, token_id)
}

/// The tokens of a withdrawal did not reach the account.
pub fn withdraw_failed(account_id: &AccountId, amount: u128, token_id: &AccountId) -> (event: Event)
    ensures
        event@ == event_of(EventKind::WithdrawFailed, account_id@, amount, token_id@),
{
    event(EventKind::WithdrawFailed, account_id, amount, token_id)
}

/// The tokens of a withdrawal reached the account.
pub fn withdraw_succeeded(account_id: &AccountId, amount: u128, token_id: &AccountId) -> (event:
    Event)
    ensures
        event@ == event_of(EventKind::WithdrawSucceeded, account_id@, amount, token_id@),
{
    event(EventKind::WithdrawSucceeded, account_id, amount, token_id)
}

} // verus!
