use vstd::prelude::*;

use crate::accrual::{settlement, update_rewards};
use crate::error::ErrorCode;
use crate::policy::{admits, validate_admin_address, validate_staking_mint, Policy};
use crate::state::{Identity, Pool, User};

verus! {

/// The accounts a new pool is bound to.
#[derive(Clone, Copy, Debug)]
pub struct InitializePool {
    pub staking_mint: Identity,
    pub staking_vault: Identity,
    pub reward_mint: Identity,
    pub reward_vault: Identity,
    pub admin: Identity,
}

/// Notification of what a user had pending when claiming, paid or not.
#[derive(Clone, Copy, Debug, PartialEq, Eq, Structural)]
pub struct EventPendingReward {
    pub value: u64,
}

/// Notification of a nonzero reward payout.
#[derive(Clone, Copy, Debug, PartialEq, Eq, Structural)]
pub struct EventClaimReward {
    pub value: u64,
}

/// What a claim reports: the pending notification, always, and the payout
/// notification when something was paid. The payout is the amount to move
/// from the reward vault to the user.
#[derive(Clone, Copy, Debug, PartialEq, Eq, Structural)]
pub struct ClaimOutcome {
    pub pending: EventPendingReward,
    pub claimed: Option<EventClaimReward>,
}

/// Reward units per second when `funding_amount` is spread over
/// `reward_duration` seconds; `None` for a zero duration.
pub fn rate_by_funding(funding_amount: u64, reward_duration: u64) -> (r: Option<u64>)
    ensures
        reward_duration == 0 ==> r is None,
        reward_duration > 0 ==> r == Some((funding_amount / reward_duration) as u64),
{
    if reward_duration == 0 {
        None
    } else {
        Some(funding_amount / reward_duration)
    }
}

/// The pool that creation yields, or the reason it is refused.
pub open spec fn new_pool(
    policy: Policy,
    accounts: InitializePool,
    pool_nonce: u8,
    reward_duration: u64,
    funding_amount: u64,
) -> Result<Pool, ErrorCode> {
    if !admits(policy.staking_mint, accounts.staking_mint) {
        Err(ErrorCode::WrongStakingMint)
    } else if !admits(policy.admin, accounts.admin) {
        Err(ErrorCode::InvalidAdminWhenCreatingPool)
    } else if reward_duration < policy.min_duration {
        Err(ErrorCode::DurationTooShort)
    } else if reward_duration == 0 {
        Err(ErrorCode::MathOverFlow)
    } else {
        Ok(
            Pool {
                nonce: pool_nonce,
                staking_mint: accounts.staking_mint,
                staking_vault: accounts.staking_vault,
                reward_mint: accounts.reward_mint,
                reward_vault: accounts.reward_vault,
                admin: accounts.admin,
                reward_rate: (funding_amount / reward_duration) as u64,
                reward_duration: reward_duration,
                reward_end_timestamp: 0,
                last_update_time: 0,
                reward_per_token_stored: 0,
            },
        )
    }
}

/// Creates a pool whose rate spreads `funding_amount` evenly over
/// `reward_duration`, with no accrual yet and not yet active.
pub fn initialize_pool(
    policy: &Policy,
    accounts: &InitializePool,
    pool_nonce: u8,
    reward_duration: u64,
    funding_amount: u64,
) -> (r: Result<Pool, ErrorCode>)
    ensures
        r == new_pool(*policy, *accounts, pool_nonce, reward_duration, funding_amount),
        match r {
            Ok(p) => p.well_formed(),
            Err(_) => true,
        },
{
    if !validate_staking_mint(policy, &accounts.staking_mint) {
        return Err(ErrorCode::WrongStakingMint);
    }
    if !validate_admin_address(policy, &accounts.admin) {
        return Err(ErrorCode::InvalidAdminWhenCreatingPool);
    }
    if reward_duration < policy.min_duration {
        return Err(ErrorCode::DurationTooShort);
    }
    let reward_rate = match rate_by_funding(funding_amount, reward_duration) {
        Some(rate) => rate,
        None => return Err(ErrorCode::MathOverFlow),
    };
    Ok(
        Pool {
            nonce: pool_nonce,
            staking_mint: accounts.staking_mint,
            staking_vault: accounts.staking_vault,
            reward_mint: accounts.reward_mint,
            reward_vault: accounts.reward_vault,
            admin: accounts.admin,
            reward_rate,
            reward_duration,
            reward_end_timestamp: 0,
            last_update_time: 0,
            reward_per_token_stored: 0,
        },
    )
}

/// Starts accrual at `now`, to end `reward_duration` seconds later. Calling
/// it again restarts the schedule. On overflow of the end the pool is kept.
pub fn activate_farming(pool: &mut Pool, now: u64) -> (r: Result<(), ErrorCode>)
    ensures
        now + old(pool).reward_duration <= u64::MAX ==> r is Ok && *final(pool) == (Pool {
            last_update_time: now,
            reward_end_timestamp: (now + old(pool).reward_duration) as u64,
            ..*old(pool)
        }),
        now + old(pool).reward_duration > u64::MAX ==> r == Err::<(), ErrorCode>(
            ErrorCode::MathOverFlow,
        ) && *final(pool) == *old(pool),
        r is Ok ==> final(pool).well_formed(),
{
    match now.checked_add(pool.reward_duration) {
        Some(end) => {
            pool.last_update_time = now;
            pool.reward_end_timestamp = end;
            Ok(())
        },
        None => Err(ErrorCode::MathOverFlow),
    }
}

/// A fresh record for `owner` in `pool`, with nothing staked or owed.
pub fn create_user(pool: Identity, owner: Identity, nonce: u8) -> (r: User)
    ensures
        r == (User {
            pool: pool,
            owner: owner,
            balance_staked: 0,
            reward_per_token_complete: 0,
            reward_per_token_pending: 0,
            nonce: nonce,
        }),
{
    User {
        pool,
        owner,
        balance_staked: 0,
        reward_per_token_complete: 0,
        reward_per_token_pending: 0,
        nonce,
    }
}

/// The pool and user after depositing `amount` against a vault that held
/// `total_staked`, or the reason the deposit is refused.
pub open spec fn deposit_outcome(pool: Pool, user: User, total_staked: u64, amount: u64, now: u64) -> Result<
    (Pool, User),
    ErrorCode,
> {
    if amount == 0 {
        Err(ErrorCode::AmountMustBeGreaterThanZero)
    } else {
        match settlement(pool, user, total_staked, now) {
            Some((p, u)) => if u.balance_staked + amount > u64::MAX {
                Err(ErrorCode::MathOverFlow)
            } else {
                Ok((p, User { balance_staked: (u.balance_staked + amount) as u64, ..u }))
            },
            None => Err(ErrorCode::MathOverFlow),
        }
    }
}

/// The pool and user after withdrawing `amount` from a vault that held
/// `total_staked`, or the reason the withdrawal is refused.
pub open spec fn withdraw_outcome(pool: Pool, user: User, total_staked: u64, amount: u64, now: u64) -> Result<
    (Pool, User),
    ErrorCode,
> {
    if amount == 0 {
        Err(ErrorCode::AmountMustBeGreaterThanZero)
    } else if user.balance_staked < amount {
        Err(ErrorCode::InsufficientFundWithdraw)
    } else {
        match settlement(pool, user, total_staked, now) {
            Some((p, u)) => Ok((p, User { balance_staked: (u.balance_staked - amount) as u64, ..u })),
            None => Err(ErrorCode::MathOverFlow),
        }
    }
}

/// The smaller of what is pending and what the reward vault holds.
pub open spec fn payout(pending: u64, reward_vault_amount: u64) -> u64 {
    if reward_vault_amount < pending {
        reward_vault_amount
    } else {
        pending
    }
}

/// The pool, the user and the notifications after a claim against a reward
/// vault that holds `reward_vault_amount`, or `None` on overflow.
pub open spec fn claim_outcome(
    pool: Pool,
    user: User,
    total_staked: u64,
    reward_vault_amount: u64,
    now: u64,
) -> Option<(Pool, User, ClaimOutcome)> {
    match settlement(pool, user, total_staked, now) {
        Some((p, u)) => {
            let paid = payout(u.reward_per_token_pending, reward_vault_amount);
            Some(
                (
                    p,
                    User { reward_per_token_pending: (u.reward_per_token_pending - paid) as u64, ..u },
                    ClaimOutcome {
                        pending: EventPendingReward { value: u.reward_per_token_pending },
                        claimed: if paid > 0 {
                            Some(EventClaimReward { value: paid })
                        } else {
                            None
                        },
                    },
                ),
            )
        },
        None => None,
    }
}

/// Settles `user` at `now` and then adds `amount` to its stake;
/// `total_staked` is what the staking vault held before the deposit. The
/// caller moves `amount` into the vault once this succeeds. A refused
/// deposit changes nothing.
pub fn deposit(pool: &mut Pool, user: &mut User, total_staked: u64, amount: u64, now: u64) -> (r: Result<(), ErrorCode>)
    ensures
        match deposit_outcome(*old(pool), *old(user), total_staked, amount, now) {
            Ok((p, u)) => r is Ok && *final(pool) == p && *final(user) == u,
            Err(e) => r == Err::<(), ErrorCode>(e) && *final(pool) == *old(pool) && *final(user)
                == *old(user),
        },
        r is Ok ==> final(pool).well_formed() && final(pool).last_update_time <= now,
{
    if amount == 0 {
        return Err(ErrorCode::AmountMustBeGreaterThanZero);
    }
    let mut p = *pool;
    let mut u = *user;
    update_rewards(&mut p, &mut u, total_staked, now)?;
    u.balance_staked = match u.balance_staked.checked_add(amount) {
        Some(balance) => balance,
        None => return Err(ErrorCode::MathOverFlow),
    };
    *pool = p;
    *user = u;
    Ok(())
}

/// Deposits everything the depositor's account holds, `stake_from_amount`.
pub fn deposit_full(
    pool: &mut Pool,
    user: &mut User,
    total_staked: u64,
    stake_from_amount: u64,
    now: u64,
) -> (r: Result<(), ErrorCode>)
    ensures
        match deposit_outcome(*old(pool), *old(user), total_staked, stake_from_amount, now) {
            Ok((p, u)) => r is Ok && *final(pool) == p && *final(user) == u,
            Err(e) => r == Err::<(), ErrorCode>(e) && *final(pool) == *old(pool) && *final(user)
                == *old(user),
        },
        r is Ok ==> final(pool).well_formed() && final(pool).last_update_time <= now,
{
    deposit(pool, user, total_staked, stake_from_amount, now)
}

/// Settles `user` at `now` against the stake held before the withdrawal,
/// `total_staked`, and then takes `spt_amount` off its stake. The caller
/// moves `spt_amount` out of the vault once this succeeds. A refused
/// withdrawal changes nothing.
pub fn withdraw(pool: &mut Pool, user: &mut User, total_staked: u64, spt_amount: u64, now: u64) -> (r: Result<(), ErrorCode>)
    ensures
        match withdraw_outcome(*old(pool), *old(user), total_staked, spt_amount, now) {
            Ok((p, u)) => r is Ok && *final(pool) == p && *final(user) == u,
            Err(e) => r == Err::<(), ErrorCode>(e) && *final(pool) == *old(pool) && *final(user)
                == *old(user),
        },
        r is Ok ==> final(pool).well_formed() && final(pool).last_update_time <= now,
{
    if spt_amount == 0 {
        return Err(ErrorCode::AmountMustBeGreaterThanZero);
    }
    if user.balance_staked < spt_amount {
        return Err(ErrorCode::InsufficientFundWithdraw);
    }
    let mut p = *pool;
    let mut u = *user;
    update_rewards(&mut p, &mut u, total_staked, now)?;
    u.balance_staked = match u.balance_staked.checked_sub(spt_amount) {
        Some(balance) => balance,
        None => return Err(ErrorCode::CannotWithdrawMoreThanBalance),
    };
    *pool = p;
    *user = u;
    Ok(())
}

/// Settles `user` at `now` and pays out what is pending, as far as the
/// reward vault's `reward_vault_amount` reaches; the rest stays pending.
/// The caller moves the claimed amount and delivers the notifications.
pub fn claim(pool: &mut Pool, user: &mut User, total_staked: u64, reward_vault_amount: u64, now: u64) -> (r: Result<ClaimOutcome, ErrorCode>)
    ensures
        match claim_outcome(*old(pool), *old(user), total_staked, reward_vault_amount, now) {
            Some((p, u, c)) => r == Ok::<ClaimOutcome, ErrorCode>(c) && *final(pool) == p && *final(user) == u,
            None => r == Err::<ClaimOutcome, ErrorCode>(ErrorCode::MathOverFlow) && *final(pool) == *old(pool)
                && *final(user) == *old(user),
        },
        r is Ok ==> final(pool).well_formed() && final(pool).last_update_time <= now,
{
    update_rewards(pool, user, total_staked, now)?;
    let pending = user.reward_per_token_pending;
    let paid = if reward_vault_amount < pending {
        reward_vault_amount
    } else {
        pending
    };
    user.reward_per_token_pending = pending - paid;
    let claimed = if paid > 0 {
        Some(EventClaimReward { value: paid })
    } else {
        None
    };
    Ok(ClaimOutcome { pending: EventPendingReward { value: pending }, claimed })
}

/// Closes `user` when it has nothing staked and nothing owed; otherwise
/// hands the record back unchanged.
pub fn close_user(user: User) -> (r: Result<(), User>)
    ensures
        user.balance_staked == 0 && user.reward_per_token_pending == 0 ==> r is Ok,
        !(user.balance_staked == 0 && user.reward_per_token_pending == 0) ==> r == Err::<(), User>(
            user,
        ),
{
    if user.balance_staked == 0 && user.reward_per_token_pending == 0 {
        Ok(())
    } else {
        Err(user)
    }
}

} // verus!
