use single_sided_staking::account_id::AccountId;
use single_sided_staking::errors::StakingError;
use single_sided_staking::ft::TokenReceiverMsg;
use single_sided_staking::model::TransferOutcome;
use single_sided_staking::Contract;

const REWARD_PER_SEC: u128 = 100_000;
const REWARD_PER_SEC_2: u128 = 2 * REWARD_PER_SEC;
const ONE_YOCTO: u128 = 1;

/// The block time, in nanoseconds, of a time in seconds.
fn at(sec: u32) -> u64 {
    sec as u64 * 1_000_000_000
}

fn tokens(n: u128) -> u128 {
    n * 1_000_000_000_000_000_000_000_000
}

fn account(name: &str) -> AccountId {
    AccountId::new(name.to_string()).unwrap()
}

fn u128_diff(a: u128, b: u128) -> u128 {
    if a > b {
        a - b
    } else {
        b - a
    }
}

/// The pool of `owner.near` for `token.near`, made at the second 1000.
fn init() -> (Contract, AccountId, AccountId, AccountId) {
    let owner = account("owner.near");
    let token = account("token.near");
    let anon = account("anon.near");
    let contract = Contract::new(owner.clone(), token.clone(), 1_000_000_000_000).unwrap();
    (contract, token, owner, anon)
}

#[test]
fn verify_get_owner_id() {
    let (contract, token, owner, anon) = init();
    let owner_id = contract.get_owner();
    assert_eq!(owner_id, owner);
    assert_ne!(owner_id, token);
    assert_ne!(owner_id, anon);
}

#[test]
fn verify_get_set_reward_per_sec() {
    let (mut contract, _, owner, anon) = init();
    assert_ne!(contract.get_reward_per_sec(), REWARD_PER_SEC);
    let by_anon = contract.modify_reward_per_sec(&anon, REWARD_PER_SEC, false, at(1000));
    assert!(by_anon.is_err(), "ANON DOESN'T TRIGGER A FAILURE");
    assert!(
        by_anon.unwrap_err().message().contains("ERR_NOT_AN_OWNER"),
        "ANON DOESN'T TRIGGER ERR_NOT_AN_OWNER"
    );
    assert_ne!(contract.get_reward_per_sec(), REWARD_PER_SEC);
    let by_owner = contract.modify_reward_per_sec(&owner, REWARD_PER_SEC, false, at(1000));
    assert!(by_owner.is_ok(), "OWNER TRIGGERED ERR_NOT_AN_OWNER");
    assert_eq!(contract.get_reward_per_sec(), REWARD_PER_SEC);
}

#[test]
fn verify_add_rewards() {
    let (mut contract, token, owner, _anon) = init();
    let amount_100_tokens = tokens(100);
    let amount_300_tokens = tokens(300);

    // A message that cannot be read: all tokens go back.
    let refused = contract.ft_on_transfer(&token, &owner, amount_100_tokens, None, at(1000));
    assert_eq!(refused.err(), Some(StakingError::IllegalMsg));
    assert_eq!(contract.get_undistributed_reward(), 0);

    let added = contract.ft_on_transfer(
        &token,
        &owner,
        amount_100_tokens,
        Some(TokenReceiverMsg::AddRewards),
        at(1001),
    );
    assert!(added.is_ok());
    assert_eq!(added.unwrap().unused_amount, 0);
    let after_100_tokens = contract.get_undistributed_reward();
    assert!(
        amount_100_tokens.checked_sub(after_100_tokens).unwrap() < REWARD_PER_SEC,
        "DIFF OF get_undistributed_reward 100 tokens IS MORE THAN A SECOND "
    );
    assert_eq!(after_100_tokens, amount_100_tokens);

    contract
        .ft_on_transfer(&token, &owner, amount_300_tokens, Some(TokenReceiverMsg::AddRewards), at(1002))
        .unwrap();
    let after_300_tokens = contract.get_undistributed_reward();
    assert!(
        (amount_300_tokens + amount_100_tokens).checked_sub(after_300_tokens).unwrap()
            < REWARD_PER_SEC,
        "DIFF OF get_undistributed_reward 100 tokens IS MORE THAN A SECOND "
    );
    assert_eq!(after_300_tokens, tokens(400));
    assert_eq!(contract.get_total_staked(), 0);
}

#[test]
fn verify_add_deposits() {
    let (mut contract, token, owner, anon) = init();
    let alice = account("alice.near");
    let mut now: u32 = 1000;

    // add 250 tokens rewards
    contract
        .ft_on_transfer(&token, &owner, tokens(250), Some(TokenReceiverMsg::AddRewards), at(now))
        .unwrap();

    // anon has 800 tokens and alice 3000
    let amount_800_tokens = tokens(800);
    let amount_3000_tokens = tokens(3000);
    let mut anon_ft_balance = amount_800_tokens;
    let mut alice_ft_balance = amount_3000_tokens;

    // anon to stake 700 tokens
    let amount_700_tokens = tokens(700);
    contract
        .ft_on_transfer(&token, &anon, amount_700_tokens, Some(TokenReceiverMsg::Stake), at(now))
        .unwrap();
    anon_ft_balance -= amount_700_tokens;
    assert_eq!(
        contract.get_shares(anon.clone()),
        amount_700_tokens,
        "ERR ILLEGAL STAKING BALANCE"
    );
    assert_eq!(
        anon_ft_balance,
        amount_800_tokens - amount_700_tokens,
        "ERR ILLEGAL FT BALANCE AFTER STAKE"
    );

    // alice to stake 1400 tokens
    let amount_1400_tokens = tokens(1400);
    contract
        .ft_on_transfer(&token, &alice, amount_1400_tokens, Some(TokenReceiverMsg::Stake), at(now))
        .unwrap();
    alice_ft_balance -= amount_1400_tokens;
    assert_eq!(
        contract.get_total_staked(),
        amount_700_tokens + amount_1400_tokens,
        "ERR ILLEGAL TOTAL STAKE"
    );

    // enable staking
    contract.modify_reward_per_sec(&owner, REWARD_PER_SEC, false, at(now)).unwrap();
    let timestamp_after_stake = now;

    // start staking rewards in 1 sec from now
    contract.reset_reward_genesis_time_in_sec(&owner, timestamp_after_stake + 1, at(now)).unwrap();

    now += 1001;
    let sec_passed = (now - timestamp_after_stake - 1) as u128;
    assert_eq!(sec_passed, 1000);

    let request = contract.unstake(&anon, None, ONE_YOCTO, at(now)).unwrap();
    contract
        .callback_post_unstake(
            &request.receiver_id,
            request.amount,
            request.shares,
            1,
            TransferOutcome::Successful,
        )
        .unwrap();
    anon_ft_balance += request.amount;
    assert_eq!(contract.get_shares(anon.clone()), 0, "ERR ILLEGAL STAKING BALANCE");

    let anon_rewards =
        sec_passed * REWARD_PER_SEC * amount_700_tokens / (amount_1400_tokens + amount_700_tokens);
    let alice_rewards_round_1 =
        sec_passed * REWARD_PER_SEC * amount_1400_tokens / (amount_1400_tokens + amount_700_tokens);

    // anon had 800, staked and withdrawn 700
    let anon_balance_with_rewards = amount_800_tokens + anon_rewards;
    let rewards_round1_diff = u128_diff(anon_balance_with_rewards, anon_ft_balance);
    assert!(
        rewards_round1_diff <= 10 * REWARD_PER_SEC,
        "ERR ILLEGAL UNCLAIMED REWARDS (rounded to 10 sec)"
    );
    // 700 tokens and a third of 1000 seconds of reward, floored.
    assert_eq!(request.amount, 700_000_000_000_000_000_033_333_333);
    assert_eq!(request.shares, amount_700_tokens);
    assert_eq!(contract.locked_token_amount, 1_400_000_000_000_000_000_066_666_667);

    // new round of staking: set double rewards
    contract.modify_reward_per_sec(&owner, REWARD_PER_SEC_2, false, at(now)).unwrap();

    // anon to stake 500 more
    let amount_500_tokens = tokens(500);
    contract
        .ft_on_transfer(&token, &anon, amount_500_tokens, Some(TokenReceiverMsg::Stake), at(now))
        .unwrap();
    anon_ft_balance -= amount_500_tokens;
    assert_eq!(contract.get_shares(anon.clone()), 499_999_999_999_999_999_976_190_476);
    let timestamp_after_stake_2 = now;

    now += 2000;
    let sec_passed_2 = (now - timestamp_after_stake_2) as u128;

    let request = contract.unstake(&anon, None, ONE_YOCTO, at(now)).unwrap();
    contract
        .callback_post_unstake(
            &request.receiver_id,
            request.amount,
            request.shares,
            1,
            TransferOutcome::Successful,
        )
        .unwrap();
    anon_ft_balance += request.amount;
    assert_eq!(request.amount, 500_000_000_000_000_000_105_263_157);

    let anon_rewards_round_2 = sec_passed_2 * REWARD_PER_SEC_2 * amount_500_tokens
        / (amount_1400_tokens + alice_rewards_round_1 + amount_500_tokens);

    // anon had 800, staked and withdrawn 500
    let anon_balance_with_rewards_2 = amount_800_tokens + anon_rewards + anon_rewards_round_2;
    assert_eq!(
        contract.get_shares(alice.clone()),
        amount_1400_tokens,
        "ERR ILLEGAL STAKING BALANCE FOR ALICE"
    );
    let rewards_round2_diff = u128_diff(anon_balance_with_rewards_2, anon_ft_balance);
    assert!(
        rewards_round2_diff < 10 * REWARD_PER_SEC_2,
        "ERR ILLEGAL UNCLAIMED REWARDS (rounded to 10 secs)"
    );

    // owner stake 1 token, then alice withdraws all
    contract
        .ft_on_transfer(&token, &owner, tokens(1), Some(TokenReceiverMsg::Stake), at(now))
        .unwrap();
    let request = contract.unstake(&alice, None, ONE_YOCTO, at(now)).unwrap();
    contract
        .callback_post_unstake(
            &request.receiver_id,
            request.amount,
            request.shares,
            1,
            TransferOutcome::Successful,
        )
        .unwrap();
    alice_ft_balance += request.amount;

    // rewards in round 2 only
    let alice_rewards_round_2 = sec_passed_2 * REWARD_PER_SEC_2 * amount_1400_tokens
        / (amount_1400_tokens + alice_rewards_round_1 + amount_500_tokens);

    // alice had 3000, staked and withdrawn 1400
    let alice_balance_with_rewards_2 =
        amount_3000_tokens + alice_rewards_round_1 + alice_rewards_round_2;
    assert_eq!(
        contract.get_shares(alice),
        0,
        "ERR ILLEGAL STAKING BALANCE FOR ALICE after unstake"
    );
    let alice_rewards_round2_diff = u128_diff(alice_balance_with_rewards_2, alice_ft_balance);
    assert!(
        alice_rewards_round2_diff < 30 * REWARD_PER_SEC_2,
        "ERR ILLEGAL UNCLAIMED REWARDS (rounded to 30 secs)"
    );
}
