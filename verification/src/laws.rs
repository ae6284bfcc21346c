//! What holds of the pool whatever is done with it.

use crate::errors::{refuses, yields, StakingError};
use crate::ft::{TokenReceiverMsg, ONE_YOCTO};
use crate::ledger::{lemma_balance_le_sum, lemma_sum_insert};
use crate::model::{PoolView, TransferOutcome, MIN_TOTAL_STAKED};
use crate::wide::{lemma_mul_div_floor_bounds, mul_div_floor};
use vstd::arithmetic::div_mod::{
    lemma_div_is_ordered, lemma_div_multiples_vanish, lemma_fundamental_div_mod,
};
use vstd::prelude::*;

verus! {

/// A checkpoint keeps the ledger and its total.
pub proof fn lemma_checkpoint_conserves(pool: PoolView, now: u32)
    requires
        pool.wf(),
        pool.checkpoint(now) is Ok,
    ensures
        pool.checkpoint(now)->Ok_0.wf(),
        pool.checkpoint(now)->Ok_0.shares == pool.shares,
        pool.checkpoint(now)->Ok_0.total_staked == pool.total_staked,
{
}

/// After a deposit the balances still add up to the total.
pub proof fn lemma_deposit_conserves(pool: PoolView, account: Seq<char>, amount: u128)
    requires
        pool.wf(),
        pool.deposit(account, amount) is Ok,
    ensures
        pool.deposit(account, amount)->Ok_0.wf(),
{
    lemma_sum_insert(pool.shares, account, (pool.shares_of(account) + amount) as u128);
}

/// After a withdrawal the balances still add up to the total. Among balances that
/// add up to the total, a withdrawal is refused only for want of balance.
pub proof fn lemma_withdraw_conserves(pool: PoolView, account: Seq<char>, amount: u128)
    requires
        pool.wf(),
    ensures
        pool.withdraw(account, amount) is Ok <==> amount <= pool.shares_of(account),
        pool.withdraw(account, amount) is Ok ==> pool.withdraw(account, amount)->Ok_0.wf(),
        pool.withdraw(account, amount) is Err ==> pool.withdraw(account, amount)->Err_0
            == StakingError::InsufficientBalance,
{
    if amount <= pool.shares_of(account) {
        lemma_sum_insert(pool.shares, account, (pool.shares_of(account) - amount) as u128);
    }
}

/// After a stake the balances still add up to the total.
pub proof fn lemma_stake_conserves(pool: PoolView, account: Seq<char>, amount: u128)
    requires
        pool.wf(),
    ensures
        pool.stake(account, amount) is Ok ==> pool.stake(account, amount)->Ok_0.wf(),
{
    if pool.stake(account, amount) is Ok {
        let minted = pool.mint_shares(amount)->Ok_0;
        let locked = PoolView {
            locked_token_amount: (pool.locked_token_amount + amount) as u128,
            ..pool
        };
        lemma_deposit_conserves(locked, account, minted);
    }
}

/// Bootstrap minting: while no shares exist, a stake of `amount` tokens mints
/// exactly `amount` shares, which are then all the shares there are.
pub proof fn lemma_bootstrap_minting(pool: PoolView, account: Seq<char>, amount: u128)
    requires
        pool.wf(),
        pool.total_staked == 0,
        amount > 0,
        pool.locked_token_amount + amount <= u128::MAX,
    ensures
        yields(pool.mint_shares(amount), amount),
        pool.stake(account, amount) is Ok,
        pool.stake(account, amount)->Ok_0.shares_of(account) == amount,
        pool.stake(account, amount)->Ok_0.total_staked == amount,
        pool.stake(account, amount)->Ok_0.locked_token_amount == pool.locked_token_amount
            + amount,
{
    lemma_balance_le_sum(pool.shares, account);
}

/// Proportional minting: where `total_staked` shares stand for `locked` tokens, a
/// stake of `amount` tokens mints `floor(amount * total_staked / locked)` shares,
/// if that is at least one and fits 128 bits, and credits the account with them.
pub proof fn lemma_proportional_minting(pool: PoolView, account: Seq<char>, amount: u128)
    requires
        pool.total_staked > 0,
        pool.locked_token_amount > 0,
        0 < mul_div_floor(amount, pool.total_staked, pool.locked_token_amount) <= u128::MAX,
    ensures
        ({
            let minted = mul_div_floor(amount, pool.total_staked, pool.locked_token_amount);
            let staked = pool.stake(account, amount);
            &&& yields(pool.mint_shares(amount), minted as u128)
            &&& staked is Ok ==> {
                &&& staked->Ok_0.shares_of(account) == pool.shares_of(account) + minted
                &&& staked->Ok_0.total_staked == pool.total_staked + minted
                &&& staked->Ok_0.locked_token_amount == pool.locked_token_amount + amount
            }
            &&& staked is Ok <==> {
                &&& pool.locked_token_amount + amount <= u128::MAX
                &&& pool.shares_of(account) + minted <= u128::MAX
                &&& pool.total_staked + minted <= u128::MAX
            }
        }),
{
}

/// A stake that would mint less than one share is refused.
pub proof fn lemma_small_stake_refused(pool: PoolView, account: Seq<char>, amount: u128)
    requires
        pool.total_staked > 0,
        pool.locked_token_amount > 0,
        mul_div_floor(amount, pool.total_staked, pool.locked_token_amount) == 0,
    ensures
        refuses(pool.stake(account, amount), StakingError::ZeroMint),
{
}

/// A stake of no tokens is refused whatever the pool holds.
pub proof fn lemma_zero_stake_refused(pool: PoolView, account: Seq<char>)
    ensures
        pool.stake(account, 0) is Err,
        pool.locked_token_amount > 0 || pool.total_staked == 0 ==> refuses(
            pool.stake(account, 0),
            StakingError::ZeroMint,
        ),
{
}

/// The reward due never exceeds what is left to distribute, nor the rate times
/// the seconds since the last checkpoint.
pub proof fn lemma_reward_due_bounds(pool: PoolView, now: u32)
    ensures
        pool.reward_due(now) <= pool.undistributed_reward,
        now >= pool.prev_distribution_time_in_sec ==> pool.reward_due(now) <= pool.reward_per_sec
            * (now - pool.prev_distribution_time_in_sec),
        now <= pool.prev_distribution_time_in_sec || now <= pool.reward_genesis_time_in_sec
            ==> pool.reward_due(now) == 0,
{
    if now >= pool.prev_distribution_time_in_sec {
        assert(0 <= pool.reward_per_sec * (now - pool.prev_distribution_time_in_sec))
            by (nonlinear_arith)
            requires
                now >= pool.prev_distribution_time_in_sec,
        ;
    }
}

/// Linear distribution: once the genesis time has passed, a checkpoint `elapsed`
/// seconds after the last one moves `reward_per_sec * elapsed` from the
/// undistributed reward to the locked amount; where less than that is left, it
/// moves all of it and leaves none.
pub proof fn lemma_linear_distribution(pool: PoolView, now: u32)
    requires
        now > pool.reward_genesis_time_in_sec,
        now > pool.prev_distribution_time_in_sec,
        pool.checkpoint(now) is Ok,
    ensures
        ({
            let after = pool.checkpoint(now)->Ok_0;
            let ideal = pool.reward_per_sec * (now - pool.prev_distribution_time_in_sec);
            &&& after.prev_distribution_time_in_sec == now
            &&& pool.undistributed_reward >= ideal ==> after.locked_token_amount
                == pool.locked_token_amount + ideal && after.undistributed_reward
                == pool.undistributed_reward - ideal
            &&& pool.undistributed_reward < ideal ==> after.locked_token_amount
                == pool.locked_token_amount + pool.undistributed_reward
                && after.undistributed_reward == 0
        }),
{
}

/// A checkpoint moves reward and nothing else: the locked amount and the
/// undistributed reward together stay what they were, and no shares change.
pub proof fn lemma_checkpoint_moves_reward(pool: PoolView, now: u32)
    requires
        pool.checkpoint(now) is Ok,
    ensures
        ({
            let after = pool.checkpoint(now)->Ok_0;
            &&& after.locked_token_amount + after.undistributed_reward
                == pool.locked_token_amount + pool.undistributed_reward
            &&& after.locked_token_amount >= pool.locked_token_amount
            &&& after.total_staked == pool.total_staked
            &&& after.shares == pool.shares
            &&& now <= pool.reward_genesis_time_in_sec || now
                <= pool.prev_distribution_time_in_sec ==> after.locked_token_amount
                == pool.locked_token_amount
        }),
{
}

/// Ratios compare as their cross products do, and so do their whole parts:
/// where `a / c` is at least `b / d` as a fraction, it is as a quotient.
pub proof fn lemma_ratio_order(a: int, c: int, b: int, d: int)
    requires
        0 <= a,
        0 <= b,
        0 < c,
        0 < d,
        a * d >= b * c,
    ensures
        a / c >= b / d,
{
    let q = b / d;
    lemma_fundamental_div_mod(b, d);
    assert(q * c <= a) by (nonlinear_arith)
        requires
            a * d >= b * c,
            b == d * q + b % d,
            0 <= b % d,
            0 < c,
            0 < d,
    ;
    lemma_div_is_ordered(q * c, a, c);
    lemma_div_multiples_vanish(q, c);
    assert(q * c == c * q) by (nonlinear_arith);
}

/// Monotonic ratio: a stake never lowers what a share is worth: neither the
/// ratio of the locked tokens to the shares, which compares as the cross products
/// do, nor its whole part.
pub proof fn lemma_stake_keeps_ratio(pool: PoolView, account: Seq<char>, amount: u128)
    requires
        pool.total_staked > 0,
        pool.stake(account, amount) is Ok,
    ensures
        ({
            let after = pool.stake(account, amount)->Ok_0;
            &&& after.locked_token_amount * pool.total_staked >= pool.locked_token_amount
                * after.total_staked
            &&& after.locked_token_amount / after.total_staked >= pool.locked_token_amount
                / pool.total_staked
        }),
{
    let after = pool.stake(account, amount)->Ok_0;
    let minted = mul_div_floor(amount, pool.total_staked, pool.locked_token_amount);
    lemma_mul_div_floor_bounds(amount, pool.total_staked, pool.locked_token_amount);
    let s: int = pool.total_staked as int;
    let l: int = pool.locked_token_amount as int;
    let x: int = amount as int;
    assert((l + x) * s >= l * (s + minted)) by (nonlinear_arith)
        requires
            minted * l <= x * s,
    ;
    lemma_ratio_order(l + x, s + minted, l, s);
}

/// Monotonic ratio: a checkpoint never lowers what a share is worth: the shares
/// stay and the locked amount does not shrink, so neither the ratio nor its
/// whole part falls.
pub proof fn lemma_checkpoint_keeps_ratio(pool: PoolView, now: u32)
    requires
        pool.checkpoint(now) is Ok,
    ensures
        ({
            let after = pool.checkpoint(now)->Ok_0;
            &&& after.total_staked == pool.total_staked
            &&& after.locked_token_amount * pool.total_staked >= pool.locked_token_amount
                * after.total_staked
            &&& pool.total_staked > 0 ==> after.locked_token_amount / after.total_staked
                >= pool.locked_token_amount / pool.total_staked
        }),
{
    let after = pool.checkpoint(now)->Ok_0;
    assert(after.locked_token_amount * pool.total_staked >= pool.locked_token_amount
        * pool.total_staked) by (nonlinear_arith)
        requires
            after.locked_token_amount >= pool.locked_token_amount,
    ;
    if pool.total_staked > 0 {
        lemma_ratio_order(
            after.locked_token_amount as int,
            after.total_staked as int,
            pool.locked_token_amount as int,
            pool.total_staked as int,
        );
    }
}

/// After a deposit that the token reports the balances still add up to the total.
pub proof fn lemma_on_transfer_conserves(
    pool: PoolView,
    predecessor: Seq<char>,
    sender: Seq<char>,
    amount: u128,
    msg: Option<TokenReceiverMsg>,
    now: u32,
)
    requires
        pool.wf(),
        pool.on_transfer(predecessor, sender, amount, msg, now) is Ok,
    ensures
        pool.on_transfer(predecessor, sender, amount, msg, now)->Ok_0.0.wf(),
{
    lemma_stake_conserves(pool.checkpoint(now)->Ok_0, sender, amount);
}

/// Among balances that add up to the total, the first phase of a withdrawal goes
/// through exactly where the checkpoint does, the call carries the one unit,
/// shares exist, the account holds the shares, and those that stay are none or
/// reach the floor. It then asks for `floor(shares * locked / total_staked)`
/// tokens, at the ratio after the checkpoint, and the balances still add up.
pub proof fn lemma_unstake_goes_through(
    pool: PoolView,
    account: Seq<char>,
    amount: Option<u128>,
    attached_deposit: u128,
    now: u32,
)
    requires
        pool.wf(),
        pool.checkpoint(now) is Ok,
    ensures
        ({
            let checked = pool.checkpoint(now)->Ok_0;
            let shares = match amount {
                Some(shares) => shares,
                None => checked.shares_of(account),
            };
            let result = pool.unstake(account, amount, attached_deposit, now);
            &&& result is Ok <==> {
                &&& attached_deposit == ONE_YOCTO
                &&& checked.total_staked > 0
                &&& shares <= checked.shares_of(account)
                &&& PoolView::keeps_floor((checked.total_staked - shares) as u128)
            }
            &&& result is Ok ==> {
                &&& result->Ok_0.0.wf()
                &&& result->Ok_0.1.amount == mul_div_floor(
                    shares,
                    checked.locked_token_amount,
                    checked.total_staked,
                )
                &&& result->Ok_0.1.amount <= checked.locked_token_amount
                &&& result->Ok_0.1.shares == shares
                &&& result->Ok_0.0.locked_token_amount == checked.locked_token_amount
                    - result->Ok_0.1.amount
                &&& result->Ok_0.0.total_staked == checked.total_staked - shares
                &&& result->Ok_0.0.shares_of(account) == checked.shares_of(account) - shares
            }
        }),
{
    let checked = pool.checkpoint(now)->Ok_0;
    let shares = match amount {
        Some(shares) => shares,
        None => checked.shares_of(account),
    };
    lemma_withdraw_conserves(checked, account, shares);
    if checked.total_staked > 0 && shares <= checked.shares_of(account) {
        lemma_redeem_within_locked(checked, shares);
    }
}

/// Shares that are no more than the shares outstanding are worth no more than
/// the locked amount.
pub proof fn lemma_redeem_within_locked(pool: PoolView, shares: u128)
    requires
        pool.total_staked > 0,
        shares <= pool.total_staked,
    ensures
        pool.redeem_amount(shares) is Ok,
        pool.redeem_amount(shares)->Ok_0 == mul_div_floor(
            shares,
            pool.locked_token_amount,
            pool.total_staked,
        ),
        pool.redeem_amount(shares)->Ok_0 <= pool.locked_token_amount,
{
    let q = mul_div_floor(shares, pool.locked_token_amount, pool.total_staked);
    lemma_mul_div_floor_bounds(shares, pool.locked_token_amount, pool.total_staked);
    assert(q <= pool.locked_token_amount) by (nonlinear_arith)
        requires
            q * pool.total_staked <= shares * pool.locked_token_amount,
            shares <= pool.total_staked,
            pool.total_staked > 0,
            0 <= q,
            0 <= pool.locked_token_amount,
    ;
}

/// After the first phase of a withdrawal the balances still add up to the total.
pub proof fn lemma_unstake_conserves(
    pool: PoolView,
    account: Seq<char>,
    amount: Option<u128>,
    attached_deposit: u128,
    now: u32,
)
    requires
        pool.wf(),
        pool.unstake(account, amount, attached_deposit, now) is Ok,
    ensures
        pool.unstake(account, amount, attached_deposit, now)->Ok_0.0.wf(),
{
    lemma_unstake_goes_through(pool, account, amount, attached_deposit, now);
}

/// After a settlement, whatever its outcome, the balances still add up to the total.
pub proof fn lemma_settle_conserves(
    pool: PoolView,
    sender: Seq<char>,
    amount: u128,
    share: u128,
    results_count: u64,
    outcome: TransferOutcome,
)
    requires
        pool.wf(),
        pool.settle(sender, amount, share, results_count, outcome) is Ok,
    ensures
        pool.settle(sender, amount, share, results_count, outcome)->Ok_0.0.wf(),
{
    if outcome == TransferOutcome::Failed && pool.shares.contains_key(sender) {
        let credited = PoolView {
            locked_token_amount: (pool.locked_token_amount + amount) as u128,
            ..pool
        };
        lemma_deposit_conserves(credited, sender, share);
    }
}

/// Monotonic ratio: a withdrawal never lowers what a share is worth to those who
/// stay: the ratio after it, and its whole part, are at least what they were
/// after its checkpoint.
pub proof fn lemma_unstake_keeps_ratio(
    pool: PoolView,
    account: Seq<char>,
    amount: Option<u128>,
    attached_deposit: u128,
    now: u32,
)
    requires
        pool.wf(),
        pool.unstake(account, amount, attached_deposit, now) is Ok,
    ensures
        ({
            let checked = pool.checkpoint(now)->Ok_0;
            let after = pool.unstake(account, amount, attached_deposit, now)->Ok_0.0;
            &&& after.locked_token_amount * checked.total_staked
                >= checked.locked_token_amount * after.total_staked
            &&& after.total_staked > 0 ==> after.locked_token_amount / after.total_staked
                >= checked.locked_token_amount / checked.total_staked
        }),
{
    let checked = pool.checkpoint(now)->Ok_0;
    let result = pool.unstake(account, amount, attached_deposit, now)->Ok_0;
    let shares = result.1.shares;
    let unlocked = result.1.amount;
    lemma_mul_div_floor_bounds(shares, checked.locked_token_amount, checked.total_staked);
    let s: int = checked.total_staked as int;
    let l: int = checked.locked_token_amount as int;
    assert((l - unlocked) * s >= l * (s - shares)) by (nonlinear_arith)
        requires
            unlocked * s <= shares * l,
    ;
    if s - shares > 0 {
        lemma_ratio_order(l - unlocked, s - shares, l, s);
    }
}

/// Dust floor: a withdrawal that would leave shares outstanding, but fewer than
/// the floor, is refused, and the pool stays as it was.
pub proof fn lemma_dust_floor(pool: PoolView, account: Seq<char>, amount: Option<u128>, now: u32)
    requires
        pool.wf(),
        pool.checkpoint(now) is Ok,
        ({
            let checked = pool.checkpoint(now)->Ok_0;
            let shares = match amount {
                Some(shares) => shares,
                None => checked.shares_of(account),
            };
            &&& shares <= checked.shares_of(account)
            &&& 0 < checked.total_staked - shares < MIN_TOTAL_STAKED
        }),
    ensures
        refuses(pool.unstake(account, amount, ONE_YOCTO, now), StakingError::DustResidual),
        step(
            pool,
            Operation::Unstake { account, shares: amount, attached_deposit: ONE_YOCTO, now },
        ) == pool,
{
    let checked = pool.checkpoint(now)->Ok_0;
    let shares = match amount {
        Some(shares) => shares,
        None => checked.shares_of(account),
    };
    lemma_redeem_within_locked(checked, shares);
}

/// Compensation: where the transfer of a withdrawal fails, its settlement goes
/// through and puts back what the withdrawal took: every account holds the
/// shares, and the pool the totals, that the checkpoint of the withdrawal left.
pub proof fn lemma_failed_transfer_is_undone(
    pool: PoolView,
    account: Seq<char>,
    amount: Option<u128>,
    attached_deposit: u128,
    now: u32,
)
    requires
        pool.wf(),
        pool.unstake(account, amount, attached_deposit, now) is Ok,
    ensures
        ({
            let checked = pool.checkpoint(now)->Ok_0;
            let after = pool.unstake(account, amount, attached_deposit, now)->Ok_0.0;
            let request = pool.unstake(account, amount, attached_deposit, now)->Ok_0.1;
            let settled = after.settle(
                request.receiver_id,
                request.amount,
                request.shares,
                1,
                TransferOutcome::Failed,
            );
            &&& settled is Ok
            &&& settled->Ok_0.0 == PoolView { shares: settled->Ok_0.0.shares, ..checked }
            &&& forall|other: Seq<char>| #[trigger]
                settled->Ok_0.0.shares_of(other) == checked.shares_of(other)
            &&& pool.reward_due(now) == 0 ==> settled->Ok_0.0.locked_token_amount
                == pool.locked_token_amount
            &&& settled->Ok_0.0.shares_of(account) == pool.shares_of(account)
        }),
{
}

/// Withdrawal round trip: the shares that a stake of `amount` tokens mints,
/// withdrawn at once with no reward due, pay back no more than `amount` tokens,
/// and fall short of it by less than one token and what stood behind one share:
/// `(amount - returned) * total_staked < total_staked + locked`, with the shares
/// after the stake and the tokens before it. Where the pool held no more tokens
/// than there are shares after the stake, they pay back `amount` or one unit
/// less. The account and the total then hold the shares that they held before
/// the stake.
pub proof fn lemma_stake_unstake_round_trip(
    pool: PoolView,
    account: Seq<char>,
    amount: u128,
    now: u32,
)
    requires
        pool.wf(),
        pool.total_staked > 0 || pool.locked_token_amount == 0,
        pool.stake(account, amount) is Ok,
        pool.stake(account, amount)->Ok_0.reward_due(now) == 0,
        pool.stake(account, amount)->Ok_0.unstake(
            account,
            Some(pool.mint_shares(amount)->Ok_0),
            ONE_YOCTO,
            now,
        ) is Ok,
    ensures
        ({
            let staked = pool.stake(account, amount)->Ok_0;
            let minted = pool.mint_shares(amount)->Ok_0;
            let after = staked.unstake(account, Some(minted), ONE_YOCTO, now)->Ok_0.0;
            let returned = staked.unstake(account, Some(minted), ONE_YOCTO, now)->Ok_0.1.amount;
            &&& returned <= amount
            &&& (amount - returned) * staked.total_staked < staked.total_staked
                + pool.locked_token_amount
            &&& pool.locked_token_amount <= staked.total_staked ==> returned >= amount - 1
            &&& after.shares_of(account) == pool.shares_of(account)
            &&& after.total_staked == pool.total_staked
        }),
{
    let staked = pool.stake(account, amount)->Ok_0;
    let minted = pool.mint_shares(amount)->Ok_0;
    lemma_stake_conserves(pool, account, amount);
    let returned = staked.unstake(account, Some(minted), ONE_YOCTO, now)->Ok_0.1.amount;
    let s: int = pool.total_staked as int;
    let l: int = pool.locked_token_amount as int;
    let x: int = amount as int;
    let m: int = minted as int;
    let r: int = returned as int;
    lemma_mul_div_floor_bounds(minted, (l + x) as u128, (s + m) as u128);
    if pool.total_staked > 0 {
        lemma_mul_div_floor_bounds(amount, pool.total_staked, pool.locked_token_amount);
    } else {
        assert(m * l <= x * s) by (nonlinear_arith)
            requires
                l == 0,
                s == 0,
        ;
    }
    assert(r <= x) by (nonlinear_arith)
        requires
            r * (s + m) <= m * (l + x),
            m * l <= x * s,
            s + m > 0,
            r >= 0,
            x >= 0,
    ;
    assert((x - r) * (s + m) < (s + m) + l) by (nonlinear_arith)
        requires
            m * (l + x) < r * (s + m) + (s + m),
            (x * s < m * l + l) || (l == 0 && s == 0 && m == x),
    ;
    if l <= s + m {
        assert(r >= x - 1) by (nonlinear_arith)
            requires
                (x - r) * (s + m) < (s + m) + l,
                l <= s + m,
                s + m > 0,
        ;
    }
}

/// One call of an entry point that changes the pool, with its arguments.
pub enum Operation {
    Transfer {
        predecessor: Seq<char>,
        sender: Seq<char>,
        amount: u128,
        msg: Option<TokenReceiverMsg>,
        now: u32,
    },
    Unstake { account: Seq<char>, shares: Option<u128>, attached_deposit: u128, now: u32 },
    Settle {
        sender: Seq<char>,
        amount: u128,
        share: u128,
        results_count: u64,
        outcome: TransferOutcome,
    },
    SetOwner { predecessor: Seq<char>, owner_id: Seq<char> },
    ModifyRewardPerSec {
        predecessor: Seq<char>,
        reward_per_sec: u128,
        distribute_before_change: bool,
        now: u32,
    },
    ResetRewardGenesisTime { predecessor: Seq<char>, reward_genesis_time_in_sec: u32, now: u32 },
}

/// The pool after one call: what the call makes of it, or the pool as it was
/// where the call is refused.
pub open spec fn step(pool: PoolView, operation: Operation) -> PoolView {
    match operation {
        Operation::Transfer { predecessor, sender, amount, msg, now } => {
            match pool.on_transfer(predecessor, sender, amount, msg, now) {
                Ok(done) => done.0,
                Err(_) => pool,
            }
        },
        Operation::Unstake { account, shares, attached_deposit, now } => {
            match pool.unstake(account, shares, attached_deposit, now) {
                Ok(done) => done.0,
                Err(_) => pool,
            }
        },
        Operation::Settle { sender, amount, share, results_count, outcome } => {
            match pool.settle(sender, amount, share, results_count, outcome) {
                Ok(done) => done.0,
                Err(_) => pool,
            }
        },
        Operation::SetOwner { predecessor, owner_id } => {
            match pool.set_owner(predecessor, owner_id) {
                Ok(done) => done,
                Err(_) => pool,
            }
        },
        Operation::ModifyRewardPerSec {
            predecessor,
            reward_per_sec,
            distribute_before_change,
            now,
        } => {
            match pool.modify_reward_per_sec(
                predecessor,
                reward_per_sec,
                distribute_before_change,
                now,
            ) {
                Ok(done) => done,
                Err(_) => pool,
            }
        },
        Operation::ResetRewardGenesisTime { predecessor, reward_genesis_time_in_sec, now } => {
            match pool.reset_reward_genesis_time(predecessor, reward_genesis_time_in_sec, now) {
                Ok(done) => done,
                Err(_) => pool,
            }
        },
    }
}

/// The pool after a sequence of calls, made one after the other.
pub open spec fn run(pool: PoolView, operations: Seq<Operation>) -> PoolView
    decreases operations.len(),
{
    if operations.len() == 0 {
        pool
    } else {
        step(run(pool, operations.drop_last()), operations.last())
    }
}

/// One call keeps the balances of the ledger adding up to the shares outstanding.
pub proof fn lemma_step_conserves(pool: PoolView, operation: Operation)
    requires
        pool.wf(),
    ensures
        step(pool, operation).wf(),
{
    match operation {
        Operation::Transfer { predecessor, sender, amount, msg, now } => {
            if pool.on_transfer(predecessor, sender, amount, msg, now) is Ok {
                lemma_on_transfer_conserves(pool, predecessor, sender, amount, msg, now);
            }
        },
        Operation::Unstake { account, shares, attached_deposit, now } => {
            if pool.unstake(account, shares, attached_deposit, now) is Ok {
                lemma_unstake_conserves(pool, account, shares, attached_deposit, now);
            }
        },
        Operation::Settle { sender, amount, share, results_count, outcome } => {
            if pool.settle(sender, amount, share, results_count, outcome) is Ok {
                lemma_settle_conserves(pool, sender, amount, share, results_count, outcome);
            }
        },
        Operation::SetOwner { predecessor, owner_id } => {},
        Operation::ModifyRewardPerSec {
            predecessor,
            reward_per_sec,
            distribute_before_change,
            now,
        } => {},
        Operation::ResetRewardGenesisTime { predecessor, reward_genesis_time_in_sec, now } => {},
    }
}

/// Conservation: after any sequence of calls, whichever of them are refused and
/// however the transfers end, the balances of the ledger add up to the shares
/// outstanding.
pub proof fn lemma_conservation(pool: PoolView, operations: Seq<Operation>)
    requires
        pool.wf(),
    ensures
        run(pool, operations).wf(),
    decreases operations.len(),
{
    if operations.len() > 0 {
        lemma_conservation(pool, operations.drop_last());
        lemma_step_conserves(run(pool, operations.drop_last()), operations.last());
    }
}

} // verus!
