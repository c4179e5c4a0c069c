use vstd::prelude::*;
use vstd::arithmetic::div_mod::{lemma_fundamental_div_mod, lemma_hoist_over_denominator};

use crate::error::ErrorCode;
use crate::state::{Pool, User, SCALE};

verus! {

/// The instant up to which rewards can have accrued at `now`: accrual stops at
/// the scheduled end, and before activation (end zero) no time has passed.
pub open spec fn applicable_time(pool: Pool, now: u64) -> u64 {
    if now < pool.reward_end_timestamp {
        now
    } else {
        pool.reward_end_timestamp
    }
}

/// The pool's cumulative reward per token, integrated up to `t` over a stake
/// of `total_staked`; `None` where the elapsed time is negative or the value
/// leaves 64 bits. Without stake nothing accrues.
pub open spec fn reward_per_token_at(pool: Pool, total_staked: u64, t: u64) -> Option<u64> {
    if total_staked == 0 {
        Some(pool.reward_per_token_stored)
    } else if t < pool.last_update_time {
        None
    } else {
        let v = pool.reward_per_token_stored + (t - pool.last_update_time) * pool.reward_rate
            * SCALE / (total_staked as int);
        if v <= u64::MAX {
            Some(v as u64)
        } else {
            None
        }
    }
}

/// What `user` is owed once settled against the cumulative value `stored`:
/// the reward accrued since its checkpoint plus what was already pending.
pub open spec fn earned_at(stored: u64, user: User) -> Option<u64> {
    if stored < user.reward_per_token_complete {
        None
    } else {
        let v = user.balance_staked * (stored - user.reward_per_token_complete) / (SCALE as int)
            + user.reward_per_token_pending;
        if v <= u64::MAX {
            Some(v as u64)
        } else {
            None
        }
    }
}

/// The pool with its accrual brought up to `now`, or `None` on overflow.
pub open spec fn pool_update(pool: Pool, total_staked: u64, now: u64) -> Option<Pool> {
    let t = applicable_time(pool, now);
    match reward_per_token_at(pool, total_staked, t) {
        Some(r) => Some(Pool { reward_per_token_stored: r, last_update_time: t, ..pool }),
        None => None,
    }
}

/// The user settled against an already updated pool, or `None` on overflow.
pub open spec fn user_update(pool: Pool, user: User) -> Option<User> {
    match earned_at(pool.reward_per_token_stored, user) {
        Some(e) => Some(
            User {
                reward_per_token_pending: e,
                reward_per_token_complete: pool.reward_per_token_stored,
                ..user
            },
        ),
        None => None,
    }
}

/// The pool and user after a settlement at `now`, or `None` on overflow.
pub open spec fn settlement(pool: Pool, user: User, total_staked: u64, now: u64) -> Option<(Pool, User)> {
    match pool_update(pool, total_staked, now) {
        Some(p) => match user_update(p, user) {
            Some(u) => Some((p, u)),
            None => None,
        },
        None => None,
    }
}

impl Pool {
    /// The instant up to which rewards have accrued at `now`.
    pub fn last_time_reward_applicable(&self, now: u64) -> (r: u64)
        ensures
            r == applicable_time(*self, now),
            r <= now,
            r <= self.reward_end_timestamp,
    {
        if now < self.reward_end_timestamp {
            now
        } else {
            self.reward_end_timestamp
        }
    }

    /// The cumulative reward per token at `last_time_reward_applicable`,
    /// with every intermediate product held in 128 bits.
    pub fn reward_per_token(&self, total_staked: u64, last_time_reward_applicable: u64) -> (r: Option<u64>)
        ensures
            r == reward_per_token_at(*self, total_staked, last_time_reward_applicable),
    {
        if total_staked == 0 {
            return Some(self.reward_per_token_stored);
        }
        if last_time_reward_applicable < self.last_update_time {
            return None;
        }
        let elapsed: u128 = (last_time_reward_applicable - self.last_update_time) as u128;
        let rate: u128 = self.reward_rate as u128;
        assert(elapsed * rate <= u64::MAX * u64::MAX) by (nonlinear_arith)
            requires
                elapsed <= u64::MAX,
                rate <= u64::MAX,
        ;
        let emitted: u128 = elapsed * rate;
        let total: u128 = total_staked as u128;
        let scale: u128 = SCALE as u128;
        let whole: u128 = emitted / total;
        let part: u128 = emitted % total;
        proof {
            let q = emitted as int / total as int;
            let m = emitted as int % total as int;
            lemma_fundamental_div_mod(emitted as int, total as int);
            assert(emitted as int * scale == (q * scale) * total + m * scale) by (nonlinear_arith)
                requires
                    emitted as int == total * q + m,
            ;
            lemma_hoist_over_denominator(m * scale, q * scale, total as nat);
            assert(q * scale >= q) by (nonlinear_arith)
                requires
                    q >= 0,
                    scale >= 1,
            ;
            assert(m * scale / (total as int) >= 0) by (nonlinear_arith)
                requires
                    m >= 0,
                    scale >= 1,
                    total >= 1,
            ;
        }
        if whole > u64::MAX as u128 {
            return None;
        }
        assert(part * scale < u64::MAX * scale) by (nonlinear_arith)
            requires
                part < total,
                total <= u64::MAX,
                scale >= 1,
        ;
        assert(whole * scale <= u64::MAX * scale) by (nonlinear_arith)
            requires
                whole <= u64::MAX,
                scale >= 1,
        ;
        let accrued: u128 = whole * scale + part * scale / total;
        let value: u128 = self.reward_per_token_stored as u128 + accrued;
        if value > u64::MAX as u128 {
            None
        } else {
            Some(value as u64)
        }
    }

    /// What `user` is owed when settled against this pool's cumulative value.
    pub fn user_earned_amount(&self, user: &User) -> (r: Option<u64>)
        ensures
            r == earned_at(self.reward_per_token_stored, *user),
    {
        if self.reward_per_token_stored < user.reward_per_token_complete {
            return None;
        }
        let delta: u128 = (self.reward_per_token_stored - user.reward_per_token_complete) as u128;
        let balance: u128 = user.balance_staked as u128;
        assert(balance * delta <= u64::MAX * u64::MAX) by (nonlinear_arith)
            requires
                balance <= u64::MAX,
                delta <= u64::MAX,
        ;
        let accrued: u128 = balance * delta / (SCALE as u128);
        assert(accrued <= balance * delta) by (nonlinear_arith)
            requires
                accrued == balance * delta / (SCALE as int),
                balance * delta >= 0,
        ;
        let value: u128 = accrued + user.reward_per_token_pending as u128;
        if value > u64::MAX as u128 {
            None
        } else {
            Some(value as u64)
        }
    }
}

/// Brings the pool's cumulative reward per token up to `now`. On overflow
/// the pool is left as it was.
pub fn update_pool_rewards(pool: &mut Pool, total_staked: u64, now: u64) -> (r: Result<(), ErrorCode>)
    ensures
        match pool_update(*old(pool), total_staked, now) {
            Some(p) => r is Ok && *final(pool) == p,
            None => r == Err::<(), ErrorCode>(ErrorCode::MathOverFlow) && *final(pool) == *old(pool),
        },
        r is Ok ==> final(pool).well_formed() && final(pool).last_update_time <= now,
{
    let t = pool.last_time_reward_applicable(now);
    match pool.reward_per_token(total_staked, t) {
        Some(reward) => {
            pool.reward_per_token_stored = reward;
            pool.last_update_time = t;
            Ok(())
        },
        None => Err(ErrorCode::MathOverFlow),
    }
}

/// Brings the pool up to `now`, then settles `user` against it: the accrued
/// reward moves into `reward_per_token_pending` and the user's checkpoint
/// becomes the pool's new cumulative value. On overflow neither changes.
pub fn update_rewards(pool: &mut Pool, user: &mut User, total_staked: u64, now: u64) -> (r: Result<(), ErrorCode>)
    ensures
        match settlement(*old(pool), *old(user), total_staked, now) {
            Some((p, u)) => r is Ok && *final(pool) == p && *final(user) == u,
            None => r == Err::<(), ErrorCode>(ErrorCode::MathOverFlow) && *final(pool) == *old(pool)
                && *final(user) == *old(user),
        },
        r is Ok ==> final(pool).well_formed() && final(pool).last_update_time <= now,
{
    let t = pool.last_time_reward_applicable(now);
    let reward = match pool.reward_per_token(total_staked, t) {
        Some(reward) => reward,
        None => return Err(ErrorCode::MathOverFlow),
    };
    let updated = Pool { reward_per_token_stored: reward, last_update_time: t, ..*pool };
    let amount = match updated.user_earned_amount(user) {
        Some(amount) => amount,
        None => return Err(ErrorCode::MathOverFlow),
    };
    *pool = updated;
    user.reward_per_token_pending = amount;
    user.reward_per_token_complete = pool.reward_per_token_stored;
    Ok(())
}

} // verus!
