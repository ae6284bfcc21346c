use single_sided_staking::account_id::AccountId;
use single_sided_staking::errors::Overflowed::{Amount, Balance, TotalStaked};
use single_sided_staking::errors::StakingError::{self, Overflow};
use single_sided_staking::events::EventKind;
use single_sided_staking::ft::TokenReceiverMsg;
use single_sided_staking::model::TransferOutcome;
use single_sided_staking::utils::DURATION_30DAYS_IN_SEC;
use single_sided_staking::Contract;

const TOKEN: u128 = 1_000_000_000_000_000_000_000_000;
const FLOOR: u128 = 1_000_000_000_000_000_000;

/// The block time, in nanoseconds, of a time in seconds.
fn at(sec: u32) -> u64 {
    sec as u64 * 1_000_000_000
}

fn id(name: &str) -> AccountId {
    AccountId::new(name.to_string()).unwrap()
}

fn fresh() -> Contract {
    Contract::new(id("owner.near"), id("token.near"), 0).unwrap()
}

/// A pool whose reward runs at `rate` from the second `genesis` on.
fn running(rate: u128, genesis: u32) -> Contract {
    let mut c = fresh();
    let owner = id("owner.near");
    c.modify_reward_per_sec(&owner, rate, false, at(0)).unwrap();
    c.reset_reward_genesis_time_in_sec(&owner, genesis, at(0)).unwrap();
    c
}

#[test]
fn new_pool_is_empty_and_starts_in_thirty_days() {
    let c = Contract::new(id("owner.near"), id("token.near"), 5_000_000_000).unwrap();
    assert_eq!(c.reward_genesis_time_in_sec, DURATION_30DAYS_IN_SEC + 5);
    assert_eq!(c.prev_distribution_time_in_sec, DURATION_30DAYS_IN_SEC + 5);
    assert_eq!(c.get_total_staked(), 0);
    assert_eq!(c.get_undistributed_reward(), 0);
    assert_eq!(c.get_reward_per_sec(), 0);
    assert_eq!(c.locked_token_amount, 0);
    assert_eq!(c.account_number, 0);
    assert_eq!(c.get_owner().as_str(), "owner.near");
    assert_eq!(c.token_id.as_str(), "token.near");
    assert_eq!(c.shares.len(), 0);
}

#[test]
fn new_pool_refuses_a_start_beyond_32_bits() {
    let late: u64 = (u32::MAX as u64 - DURATION_30DAYS_IN_SEC as u64 + 1) * 1_000_000_000;
    assert_eq!(
        Contract::new(id("o.near"), id("t.near"), late).err(),
        Some(Overflow(Amount))
    );
    let last: u64 = (u32::MAX as u64 - DURATION_30DAYS_IN_SEC as u64) * 1_000_000_000;
    let c = Contract::new(id("o.near"), id("t.near"), last).unwrap();
    assert_eq!(c.reward_genesis_time_in_sec, u32::MAX);
}

#[test]
fn first_stake_mints_one_share_a_token() {
    let mut c = fresh();
    let alice = id("alice.near");
    assert_eq!(c.mint_shares(12345), Ok(12345));
    assert_eq!(c.internal_stake(&alice, 12345), Ok(12345));
    assert_eq!(c.get_shares(alice), 12345);
    assert_eq!(c.get_total_staked(), 12345);
    assert_eq!(c.locked_token_amount, 12345);
}

#[test]
fn later_stake_mints_in_proportion() {
    let mut c = fresh();
    let alice = id("alice.near");
    let bob = id("bob.near");
    c.internal_stake(&alice, 1000).unwrap();
    // Reward triples what a share is worth: 1000 shares for 3000 tokens.
    c.internal_add_reward(2000).unwrap();
    let owner = id("owner.near");
    c.reset_reward_genesis_time_in_sec(&owner, 10, at(0)).unwrap();
    c.modify_reward_per_sec(&owner, 2000, false, at(0)).unwrap();
    c.distribute_reward(at(11)).unwrap();
    assert_eq!(c.locked_token_amount, 3000);
    assert_eq!(c.get_total_staked(), 1000);
    // floor(10 * 1000 / 3000) = 3
    assert_eq!(c.mint_shares(10), Ok(3));
    assert_eq!(c.internal_stake(&bob, 10), Ok(3));
    assert_eq!(c.get_shares(bob.clone()), 3);
    assert_eq!(c.get_total_staked(), 1003);
    assert_eq!(c.locked_token_amount, 3010);
    // floor(2 * 1003 / 3010) = 0
    assert_eq!(c.internal_stake(&bob, 2), Err(StakingError::ZeroMint));
    assert_eq!(c.get_shares(bob), 3);
    assert_eq!(c.locked_token_amount, 3010);
}

#[test]
fn stake_of_nothing_is_refused() {
    let mut c = fresh();
    let alice = id("alice.near");
    assert_eq!(c.internal_stake(&alice, 0), Err(StakingError::ZeroMint));
    c.internal_stake(&alice, 50).unwrap();
    assert_eq!(c.internal_stake(&alice, 0), Err(StakingError::ZeroMint));
    assert_eq!(c.get_total_staked(), 50);
    assert_eq!(
        c.ft_on_transfer(&id("token.near"), &alice, 0, Some(TokenReceiverMsg::Stake), at(0))
            .err(),
        Some(StakingError::ZeroDeposit)
    );
}

#[test]
fn stake_without_backing_is_refused() {
    let mut c = fresh();
    let alice = id("alice.near");
    c.internal_deposit(&alice, 10).unwrap();
    assert_eq!(c.locked_token_amount, 0);
    assert_eq!(c.mint_shares(5), Err(StakingError::MissingBacking));
    assert_eq!(c.internal_stake(&alice, 5), Err(StakingError::MissingBacking));
}

#[test]
fn stake_that_mints_too_many_shares_is_refused() {
    let mut c = fresh();
    let alice = id("alice.near");
    c.internal_deposit(&alice, u128::MAX / 2).unwrap();
    c.locked_token_amount = 1;
    assert_eq!(c.mint_shares(3), Err(Overflow(Amount)));
    assert_eq!(c.internal_stake(&alice, 3), Err(Overflow(Amount)));
    assert_eq!(c.mint_shares(2), Ok(u128::MAX - 1));
    // The shares fit, the balance with them does not.
    assert_eq!(c.internal_stake(&alice, 2), Err(Overflow(Balance)));
    assert_eq!(c.locked_token_amount, 1);
    assert_eq!(c.get_total_staked(), u128::MAX / 2);
}

#[test]
fn add_reward_overflow_is_refused() {
    let mut c = fresh();
    c.internal_add_reward(u128::MAX).unwrap();
    assert_eq!(c.internal_add_reward(1), Err(Overflow(Amount)));
    assert_eq!(c.get_undistributed_reward(), u128::MAX);
}

#[test]
fn reward_unlocks_by_the_second() {
    let mut c = running(100_000, 50);
    c.internal_add_reward(1_000_000_000).unwrap();
    // Nothing before the genesis time, and nothing at it.
    assert_eq!(c.try_distribute_reward(49), 0);
    assert_eq!(c.try_distribute_reward(50), 0);
    assert_eq!(c.try_distribute_reward(51), 100_000);
    assert_eq!(c.try_distribute_reward(1050), 100_000_000);
    c.distribute_reward(at(1050)).unwrap();
    assert_eq!(c.locked_token_amount, 100_000_000);
    assert_eq!(c.get_undistributed_reward(), 900_000_000);
    assert_eq!(c.prev_distribution_time_in_sec, 1050);
    // No time, no reward.
    c.distribute_reward(at(1050)).unwrap();
    assert_eq!(c.locked_token_amount, 100_000_000);
    assert_eq!(c.try_distribute_reward(1060), 1_000_000);
}

#[test]
fn reward_unlocks_no_more_than_is_left() {
    let mut c = running(100_000, 50);
    c.internal_add_reward(250_000).unwrap();
    assert_eq!(c.try_distribute_reward(60), 250_000);
    c.distribute_reward(at(60)).unwrap();
    assert_eq!(c.locked_token_amount, 250_000);
    assert_eq!(c.get_undistributed_reward(), 0);
    assert_eq!(c.prev_distribution_time_in_sec, 60);
    c.distribute_reward(at(70)).unwrap();
    assert_eq!(c.locked_token_amount, 250_000);
    assert_eq!(c.prev_distribution_time_in_sec, 70);
}

#[test]
fn reward_rate_beyond_128_bits_unlocks_what_is_left() {
    let mut c = running(u128::MAX, 50);
    c.internal_add_reward(77).unwrap();
    assert_eq!(c.try_distribute_reward(52), 77);
    c.distribute_reward(at(52)).unwrap();
    assert_eq!(c.locked_token_amount, 77);
    assert_eq!(c.get_undistributed_reward(), 0);
}

#[test]
fn checkpoint_before_genesis_keeps_the_genesis_time() {
    let mut c = running(100_000, 50);
    c.internal_add_reward(1_000_000).unwrap();
    c.distribute_reward(at(20)).unwrap();
    assert_eq!(c.prev_distribution_time_in_sec, 50);
    assert_eq!(c.locked_token_amount, 0);
    assert_eq!(c.get_undistributed_reward(), 1_000_000);
}

#[test]
fn checkpoint_overflow_is_refused() {
    let mut c = running(1, 50);
    c.internal_add_reward(10).unwrap();
    c.locked_token_amount = u128::MAX - 5;
    assert_eq!(c.distribute_reward(at(60)), Err(Overflow(Amount)));
    assert_eq!(c.locked_token_amount, u128::MAX - 5);
    assert_eq!(c.get_undistributed_reward(), 10);
    assert_eq!(c.prev_distribution_time_in_sec, 50);
    assert_eq!(c.distribute_reward(at(55)), Ok(()));
    assert_eq!(c.locked_token_amount, u128::MAX);
    assert_eq!(c.get_undistributed_reward(), 5);
}

#[test]
fn deposit_from_another_token_is_refused() {
    let mut c = fresh();
    let alice = id("alice.near");
    let r = c.ft_on_transfer(&id("other.near"), &alice, 5, Some(TokenReceiverMsg::Stake), at(0));
    assert_eq!(r.err(), Some(StakingError::IllegalToken));
    assert_eq!(c.get_total_staked(), 0);
}

#[test]
fn deposit_with_unreadable_message_is_refused_and_undoes_the_checkpoint() {
    let mut c = running(10, 50);
    c.internal_add_reward(1000).unwrap();
    let alice = id("alice.near");
    let r = c.ft_on_transfer(&id("token.near"), &alice, 5, None, at(60));
    assert_eq!(r.err(), Some(StakingError::IllegalMsg));
    assert_eq!(c.locked_token_amount, 0);
    assert_eq!(c.get_undistributed_reward(), 1000);
    assert_eq!(c.prev_distribution_time_in_sec, 50);
}

#[test]
fn deposit_stakes_after_the_checkpoint() {
    let mut c = running(10, 50);
    let token = id("token.near");
    let alice = id("alice.near");
    let bob = id("bob.near");
    let received = c
        .ft_on_transfer(&token, &alice, 1000, Some(TokenReceiverMsg::Stake), at(40))
        .unwrap();
    assert_eq!(received.unused_amount, 0);
    assert_eq!(received.minted, 1000);
    let event = received.event;
    assert_eq!(event.kind, EventKind::AddStake);
    assert_eq!(event.account_id.as_str(), "alice.near");
    assert_eq!(event.amount, 1000);
    assert_eq!(event.token_id.as_str(), "token.near");
    let received = c
        .ft_on_transfer(&token, &bob, 500, Some(TokenReceiverMsg::AddRewards), at(45))
        .unwrap();
    assert_eq!(received.unused_amount, 0);
    assert_eq!(received.minted, 0);
    let event = received.event;
    assert_eq!(event.kind, EventKind::AddRewards);
    assert_eq!(event.account_id.as_str(), "bob.near");
    assert_eq!(event.amount, 500);
    assert_eq!(c.get_undistributed_reward(), 500);
    assert_eq!(c.get_shares(bob.clone()), 0);
    // Ten seconds at 10 a second are unlocked first: 1100 tokens back 1000 shares.
    let received =
        c.ft_on_transfer(&token, &bob, 220, Some(TokenReceiverMsg::Stake), at(60)).unwrap();
    assert_eq!(received.minted, 200);
    assert_eq!(c.get_shares(bob), 200);
    assert_eq!(c.locked_token_amount, 1320);
    assert_eq!(c.get_undistributed_reward(), 400);
    assert_eq!(c.get_total_staked(), 1200);
}

#[test]
fn deposit_too_small_for_a_share_undoes_the_checkpoint() {
    let mut c = running(10, 50);
    let token = id("token.near");
    let alice = id("alice.near");
    c.ft_on_transfer(&token, &alice, 1000, Some(TokenReceiverMsg::Stake), at(40)).unwrap();
    c.ft_on_transfer(&token, &alice, 5000, Some(TokenReceiverMsg::AddRewards), at(45)).unwrap();
    // At 250 the pool would hold 3000 tokens for 1000 shares.
    let r = c.ft_on_transfer(&token, &alice, 2, Some(TokenReceiverMsg::Stake), at(250));
    assert_eq!(r.err(), Some(StakingError::ZeroMint));
    assert_eq!(c.locked_token_amount, 1000);
    assert_eq!(c.get_undistributed_reward(), 5000);
    assert_eq!(c.prev_distribution_time_in_sec, 50);
    assert_eq!(c.get_total_staked(), 1000);
}

#[test]
fn stake_then_unstake_returns_the_stake() {
    let mut c = fresh();
    let alice = id("alice.near");
    c.internal_stake(&alice, 5 * TOKEN).unwrap();
    let request = c.unstake(&alice, None, 1, at(0)).unwrap();
    assert_eq!(request.amount, 5 * TOKEN);
    assert_eq!(request.shares, 5 * TOKEN);
    assert_eq!(request.receiver_id.as_str(), "alice.near");
    assert_eq!(request.token_id.as_str(), "token.near");
    assert_eq!(request.attached_deposit, 1);
    assert_eq!(request.gas, 20_000_000_000_000);
    assert_eq!(request.callback_gas, 20_000_000_000_000);
    assert_eq!(c.get_shares(alice), 0);
    assert_eq!(c.get_total_staked(), 0);
    assert_eq!(c.locked_token_amount, 0);
}

#[test]
fn stake_then_unstake_loses_at_most_a_unit_while_shares_outnumber_tokens() {
    let mut c = fresh();
    let alice = id("alice.near");
    let bob = id("bob.near");
    c.internal_deposit(&alice, 3 * FLOOR).unwrap();
    c.locked_token_amount = 2 * FLOOR + 1;
    let minted = c.internal_stake(&bob, 1000).unwrap();
    // floor(1000 * 3e18 / (2e18 + 1)) = 1499
    assert_eq!(minted, 1499);
    let request = c.unstake(&bob, Some(minted), 1, at(0)).unwrap();
    assert_eq!(request.amount, 999);
    assert_eq!(c.get_shares(bob), 0);
    assert_eq!(c.get_total_staked(), 3 * FLOOR);
}

#[test]
fn stake_then_unstake_may_lose_a_share_s_worth() {
    let mut c = fresh();
    let alice = id("alice.near");
    let bob = id("bob.near");
    c.internal_deposit(&alice, FLOOR).unwrap();
    c.locked_token_amount = 1000 * FLOOR;
    assert_eq!(c.internal_stake(&bob, 1999), Ok(1));
    let request = c.unstake(&bob, None, 1, at(0)).unwrap();
    assert_eq!(request.amount, 1000);
}

#[test]
fn unstake_of_a_small_pool_must_take_all() {
    let mut c = running(100_000, 1);
    let token = id("token.near");
    let a = id("a.near");
    let b = id("b.near");
    c.ft_on_transfer(&token, &a, 700, Some(TokenReceiverMsg::Stake), at(0)).unwrap();
    assert_eq!(c.get_shares(a.clone()), 700);
    assert_eq!(c.get_total_staked(), 700);
    c.ft_on_transfer(&token, &b, 1400, Some(TokenReceiverMsg::Stake), at(0)).unwrap();
    assert_eq!(c.get_total_staked(), 2100);
    c.ft_on_transfer(&token, &b, 100_000_000, Some(TokenReceiverMsg::AddRewards), at(0)).unwrap();
    // 1400 shares would stay, fewer than the floor.
    assert_eq!(c.unstake(&a, None, 1, at(1001)).err(), Some(StakingError::DustResidual));
    assert_eq!(c.get_shares(a.clone()), 700);
    assert_eq!(c.locked_token_amount, 2100);
    // The last to leave takes the rest.
    c.internal_withdraw(&b, 1400).unwrap();
    let request = c.unstake(&a, None, 1, at(1001)).unwrap();
    assert_eq!(request.amount, 2100 + 100_000_000);
    assert_eq!(c.get_shares(a), 0);
    assert_eq!(c.get_total_staked(), 0);
    assert_eq!(c.locked_token_amount, 0);
}

#[test]
fn withdrawal_tells_what_would_be_burnt_and_paid() {
    let mut c = fresh();
    let alice = id("alice.near");
    let bob = id("bob.near");
    c.internal_stake(&alice, 2 * FLOOR).unwrap();
    c.internal_stake(&bob, 2 * FLOOR).unwrap();
    c.locked_token_amount = 6 * FLOOR + 3;
    assert_eq!(c.withdrawal(&alice, None, 1), Ok((2 * FLOOR, 3 * FLOOR + 1)));
    assert_eq!(c.withdrawal(&alice, Some(FLOOR), 1), Ok((FLOOR, 3 * FLOOR / 2)));
    assert_eq!(c.withdrawal(&alice, Some(0), 1), Ok((0, 0)));
    assert_eq!(c.withdrawal(&id("carol.near"), None, 1), Ok((0, 0)));
    assert_eq!(c.withdrawal(&alice, None, 0), Err(StakingError::OneYoctoRequired));
    assert_eq!(
        c.withdrawal(&alice, Some(2 * FLOOR + 1), 1),
        Err(StakingError::InsufficientBalance)
    );
    c.total_staked = 2 * FLOOR - 1;
    assert_eq!(c.withdrawal(&alice, None, 1), Err(Overflow(TotalStaked)));
    c.total_staked = 4 * FLOOR;
    c.internal_withdraw(&bob, FLOOR + 1).unwrap();
    assert_eq!(c.withdrawal(&alice, None, 1), Err(StakingError::DustResidual));
    // Nothing of this changed the pool.
    assert_eq!(c.get_shares(alice), 2 * FLOOR);
    assert_eq!(c.locked_token_amount, 6 * FLOOR + 3);
}

#[test]
fn receive_takes_tokens_in_without_a_checkpoint() {
    let mut c = running(10, 50);
    let token = id("token.near");
    let alice = id("alice.near");
    assert_eq!(
        c.receive(&token, &alice, 0, Some(TokenReceiverMsg::AddRewards)).err(),
        Some(StakingError::ZeroDeposit)
    );
    assert_eq!(c.receive(&token, &alice, 9, None).err(), Some(StakingError::IllegalMsg));
    let received = c.receive(&token, &alice, 9, Some(TokenReceiverMsg::AddRewards)).unwrap();
    assert_eq!(received.event.kind, EventKind::AddRewards);
    assert_eq!(received.event.amount, 9);
    assert_eq!((received.minted, received.unused_amount), (0, 0));
    let received = c.receive(&token, &alice, 4, Some(TokenReceiverMsg::Stake)).unwrap();
    assert_eq!((received.minted, received.unused_amount), (4, 0));
    let event = received.event;
    assert_eq!(event.kind, EventKind::AddStake);
    assert_eq!(event.account_id.as_str(), "alice.near");
    assert_eq!(event.token_id.as_str(), "token.near");
    assert_eq!(c.get_shares(alice), 4);
    assert_eq!(c.get_undistributed_reward(), 9);
    assert_eq!(c.prev_distribution_time_in_sec, 50);
}

#[test]
fn unstake_needs_the_one_unit() {
    let mut c = fresh();
    let alice = id("alice.near");
    c.internal_stake(&alice, 5 * TOKEN).unwrap();
    assert_eq!(c.unstake(&alice, None, 0, at(0)).err(), Some(StakingError::OneYoctoRequired));
    assert_eq!(c.unstake(&alice, None, 2, at(0)).err(), Some(StakingError::OneYoctoRequired));
    assert_eq!(c.get_shares(alice), 5 * TOKEN);
}

#[test]
fn unstake_from_an_empty_pool_is_refused() {
    let mut c = fresh();
    let alice = id("alice.near");
    assert_eq!(c.unstake(&alice, None, 1, at(0)).err(), Some(StakingError::EmptyPool));
    assert_eq!(c.redeem_amount(0), Err(StakingError::EmptyPool));
    assert_eq!(c.shares.len(), 0);
}

#[test]
fn unstake_of_more_than_the_balance_is_refused() {
    let mut c = fresh();
    let alice = id("alice.near");
    let bob = id("bob.near");
    c.internal_stake(&alice, 5 * TOKEN).unwrap();
    c.internal_stake(&bob, 5 * TOKEN).unwrap();
    assert_eq!(
        c.unstake(&alice, Some(5 * TOKEN + 1), 1, at(0)).err(),
        Some(StakingError::InsufficientBalance)
    );
    assert_eq!(
        c.unstake(&id("carol.near"), Some(1), 1, at(0)).err(),
        Some(StakingError::InsufficientBalance)
    );
    assert_eq!(c.get_shares(alice), 5 * TOKEN);
    assert_eq!(c.get_total_staked(), 10 * TOKEN);
    assert_eq!(c.shares.len(), 2);
}

#[test]
fn unstake_worth_more_than_128_bits_is_refused() {
    let mut c = fresh();
    let alice = id("alice.near");
    c.internal_deposit(&alice, 2).unwrap();
    c.locked_token_amount = u128::MAX;
    assert_eq!(c.redeem_amount(3), Err(Overflow(Amount)));
    assert_eq!(
        c.unstake(&alice, Some(3), 1, at(0)).err(),
        Some(StakingError::InsufficientBalance)
    );
    assert_eq!(c.redeem_amount(2), Ok(u128::MAX));
    assert_eq!(c.redeem_amount(1), Ok(u128::MAX / 2));
    // Only where the total has fallen under the balance are shares that the
    // account holds worth too much.
    c.total_staked = 1;
    assert_eq!(c.redeem_amount(2), Err(Overflow(Amount)));
    assert_eq!(c.withdrawal(&alice, Some(2), 1), Err(Overflow(Amount)));
    assert_eq!(c.unstake(&alice, Some(2), 1, at(0)).err(), Some(Overflow(Amount)));
    assert_eq!(c.get_shares(alice), 2);
    assert_eq!(c.locked_token_amount, u128::MAX);
}

#[test]
fn unstake_tests_the_balance_before_the_worth() {
    let mut c = fresh();
    let alice = id("alice.near");
    let bob = id("bob.near");
    c.internal_deposit(&alice, 2).unwrap();
    c.locked_token_amount = u128::MAX;
    for asked in [3, 4, u128::MAX] {
        let refused = c.unstake(&alice, Some(asked), 1, at(0)).err();
        assert_eq!(refused, Some(StakingError::InsufficientBalance));
        assert!(refused.unwrap().is_user_error());
        assert_eq!(
            c.withdrawal(&bob, Some(asked), 1),
            Err(StakingError::InsufficientBalance)
        );
    }
    // The one unit and the empty pool come first.
    assert_eq!(c.withdrawal(&alice, Some(3), 0), Err(StakingError::OneYoctoRequired));
    let mut empty = fresh();
    assert_eq!(empty.withdrawal(&alice, Some(3), 1), Err(StakingError::EmptyPool));
    assert_eq!(
        empty.unstake(&alice, Some(3), 1, at(0)).err(),
        Some(StakingError::EmptyPool)
    );
    assert_eq!(c.get_shares(alice), 2);
    assert_eq!(c.get_total_staked(), 2);
    assert_eq!(c.locked_token_amount, u128::MAX);
    assert_eq!(c.shares.len(), 1);
}

#[test]
fn unstake_that_leaves_dust_is_refused_and_changes_nothing() {
    let mut c = running(10, 50);
    let alice = id("alice.near");
    let bob = id("bob.near");
    c.internal_stake(&alice, FLOOR).unwrap();
    c.internal_stake(&bob, FLOOR / 2).unwrap();
    c.internal_add_reward(1_000_000).unwrap();
    // Without alice, half the floor would stay.
    assert_eq!(c.unstake(&alice, None, 1, at(80)).err(), Some(StakingError::DustResidual));
    assert_eq!(
        c.unstake(&alice, Some(FLOOR - 1), 1, at(80)).err(),
        Some(StakingError::DustResidual)
    );
    assert_eq!(
        c.unstake(&alice, Some(FLOOR / 2 + 1), 1, at(80)).err(),
        Some(StakingError::DustResidual)
    );
    assert_eq!(c.get_shares(alice.clone()), FLOOR);
    assert_eq!(c.get_shares(bob.clone()), FLOOR / 2);
    assert_eq!(c.get_total_staked(), FLOOR + FLOOR / 2);
    assert_eq!(c.locked_token_amount, FLOOR + FLOOR / 2);
    assert_eq!(c.get_undistributed_reward(), 1_000_000);
    assert_eq!(c.prev_distribution_time_in_sec, 50);
    // Exactly the floor may stay, and so may nothing.
    let request = c.unstake(&bob, None, 1, at(50)).unwrap();
    assert_eq!(request.amount, FLOOR / 2);
    assert_eq!(c.get_total_staked(), FLOOR);
    let request = c.unstake(&alice, None, 1, at(50)).unwrap();
    assert_eq!(request.amount, FLOOR);
    assert_eq!(c.get_total_staked(), 0);
}

#[test]
fn failed_transfer_gives_shares_and_tokens_back() {
    let mut c = fresh();
    let alice = id("alice.near");
    let bob = id("bob.near");
    c.internal_stake(&alice, 7 * TOKEN).unwrap();
    c.internal_stake(&bob, 3 * TOKEN).unwrap();
    c.internal_add_reward(5 * TOKEN).unwrap();
    c.locked_token_amount += 5 * TOKEN;
    let shares_before = c.get_shares(alice.clone());
    let locked_before = c.locked_token_amount;
    let request = c.unstake(&alice, Some(2 * TOKEN), 1, at(0)).unwrap();
    assert_eq!(request.amount, 3 * TOKEN);
    assert_eq!(request.shares, 2 * TOKEN);
    assert_eq!(c.get_shares(alice.clone()), 5 * TOKEN);
    assert_eq!(c.locked_token_amount, 12 * TOKEN);
    let event = c
        .callback_post_unstake(
            &request.receiver_id,
            request.amount,
            request.shares,
            1,
            TransferOutcome::Failed,
        )
        .unwrap();
    assert_eq!(event.kind, EventKind::WithdrawFailed);
    assert_eq!(event.account_id.as_str(), "alice.near");
    assert_eq!(event.amount, 3 * TOKEN);
    assert_eq!(event.token_id.as_str(), "token.near");
    assert_eq!(c.get_shares(alice), shares_before);
    assert_eq!(c.locked_token_amount, locked_before);
    assert_eq!(c.get_total_staked(), 10 * TOKEN);
}

#[test]
fn successful_transfer_changes_nothing_more() {
    let mut c = fresh();
    let alice = id("alice.near");
    c.internal_stake(&alice, 7 * TOKEN).unwrap();
    let request = c.unstake(&alice, Some(2 * TOKEN), 1, at(0)).unwrap();
    let event = c
        .callback_post_unstake(
            &request.receiver_id,
            request.amount,
            request.shares,
            1,
            TransferOutcome::Successful,
        )
        .unwrap();
    assert_eq!(event.kind, EventKind::WithdrawSucceeded);
    assert_eq!(event.account_id.as_str(), "alice.near");
    assert_eq!(event.amount, 2 * TOKEN);
    assert_eq!(c.get_shares(alice), 5 * TOKEN);
    assert_eq!(c.locked_token_amount, 5 * TOKEN);
    assert_eq!(c.get_total_staked(), 5 * TOKEN);
}

#[test]
fn failed_transfer_to_an_unknown_account_leaves_the_tokens_with_the_pool() {
    let mut c = fresh();
    let alice = id("alice.near");
    c.internal_stake(&alice, 7 * TOKEN).unwrap();
    let event = c
        .callback_post_unstake(&id("gone.near"), 40, 30, 1, TransferOutcome::Failed)
        .unwrap();
    assert_eq!(event.kind, EventKind::WithdrawFailed);
    assert_eq!(event.account_id.as_str(), "gone.near");
    assert_eq!(c.locked_token_amount, 7 * TOKEN);
    assert_eq!(c.get_total_staked(), 7 * TOKEN);
    assert_eq!(c.get_shares(id("gone.near")), 0);
    assert_eq!(c.shares.len(), 1);
}

#[test]
fn settlement_needs_exactly_one_outcome() {
    let mut c = fresh();
    let alice = id("alice.near");
    c.internal_stake(&alice, 7 * TOKEN).unwrap();
    assert_eq!(
        c.callback_post_unstake(&alice, 1, 1, 0, TransferOutcome::Failed).err(),
        Some(StakingError::SettlementCount)
    );
    assert_eq!(
        c.callback_post_unstake(&alice, 1, 1, 2, TransferOutcome::Successful).err(),
        Some(StakingError::SettlementCount)
    );
    assert_eq!(c.locked_token_amount, 7 * TOKEN);
}

#[test]
fn failed_transfer_that_overflows_is_refused() {
    let mut c = fresh();
    let alice = id("alice.near");
    c.internal_stake(&alice, 7).unwrap();
    assert_eq!(
        c.callback_post_unstake(&alice, u128::MAX, 1, 1, TransferOutcome::Failed).err(),
        Some(Overflow(Amount))
    );
    assert_eq!(
        c.callback_post_unstake(&alice, 1, u128::MAX, 1, TransferOutcome::Failed).err(),
        Some(Overflow(Balance))
    );
    assert_eq!(c.locked_token_amount, 7);
    assert_eq!(c.get_shares(alice), 7);
    assert_eq!(c.get_total_staked(), 7);
}

#[test]
fn balances_add_up_after_every_operation() {
    let mut c = running(1000, 10);
    let token = id("token.near");
    let names = ["a.near", "b.near", "c.near"];
    let sum = |c: &Contract| -> u128 { names.iter().map(|n| c.get_shares(id(n))).sum() };
    c.ft_on_transfer(&token, &id("a.near"), 4 * FLOOR, Some(TokenReceiverMsg::Stake), at(1)).unwrap();
    assert_eq!(sum(&c), c.get_total_staked());
    c.ft_on_transfer(&token, &id("b.near"), 9 * FLOOR, Some(TokenReceiverMsg::AddRewards), at(2))
        .unwrap();
    assert_eq!(sum(&c), c.get_total_staked());
    c.ft_on_transfer(&token, &id("b.near"), 3 * FLOOR, Some(TokenReceiverMsg::Stake), at(500)).unwrap();
    assert_eq!(sum(&c), c.get_total_staked());
    c.ft_on_transfer(&token, &id("c.near"), FLOOR, Some(TokenReceiverMsg::Stake), at(900)).unwrap();
    assert_eq!(sum(&c), c.get_total_staked());
    let request = c.unstake(&id("a.near"), Some(FLOOR), 1, at(1500)).unwrap();
    assert_eq!(sum(&c), c.get_total_staked());
    c.callback_post_unstake(&request.receiver_id, request.amount, request.shares, 1,
        TransferOutcome::Failed).unwrap();
    assert_eq!(sum(&c), c.get_total_staked());
    let request = c.unstake(&id("b.near"), None, 1, at(2500)).unwrap();
    assert_eq!(sum(&c), c.get_total_staked());
    c.callback_post_unstake(&request.receiver_id, request.amount, request.shares, 1,
        TransferOutcome::Successful).unwrap();
    assert_eq!(sum(&c), c.get_total_staked());
    assert!(c.unstake(&id("c.near"), Some(2 * FLOOR), 1, at(2600)).is_err());
    assert_eq!(sum(&c), c.get_total_staked());
    assert_eq!(c.shares.len(), 3);
}

#[test]
fn share_value_never_falls_on_stake_or_checkpoint() {
    let mut c = running(7, 10);
    let token = id("token.near");
    c.ft_on_transfer(&token, &id("a.near"), 1_000_003, Some(TokenReceiverMsg::Stake), at(1)).unwrap();
    c.ft_on_transfer(&token, &id("a.near"), 999_999, Some(TokenReceiverMsg::AddRewards), at(2))
        .unwrap();
    let mut now = 11;
    for amount in [17u128, 1_000, 333_333, 5, 123_456_789] {
        let (locked, total) = (c.locked_token_amount, c.get_total_staked());
        c.distribute_reward(at(now)).unwrap();
        assert!(c.locked_token_amount * total >= locked * c.get_total_staked());
        let (locked, total) = (c.locked_token_amount, c.get_total_staked());
        c.internal_stake(&id("b.near"), amount).unwrap();
        assert!(c.locked_token_amount * total >= locked * c.get_total_staked());
        now += 1000;
    }
}
