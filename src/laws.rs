use vstd::prelude::*;

use crate::accrual::{applicable_time, earned_at, pool_update, reward_per_token_at, settlement};
use crate::error::ErrorCode;
use crate::instructions::{claim_outcome, deposit_outcome, withdraw_outcome, ClaimOutcome};
use crate::state::{Pool, User, SCALE};

verus! {

/// The sum of the stakes of `users`.
pub open spec fn total_balance(users: Seq<User>) -> int
    decreases users.len(),
{
    if users.len() == 0 {
        0
    } else {
        total_balance(users.drop_last()) + users.last().balance_staked
    }
}

/// Replacing one user changes the sum of stakes by the change of that stake.
pub proof fn lemma_total_balance_update(users: Seq<User>, i: int, u: User)
    requires
        0 <= i < users.len(),
    ensures
        total_balance(users.update(i, u)) == total_balance(users) - users[i].balance_staked
            + u.balance_staked,
    decreases users.len(),
{
    let updated = users.update(i, u);
    if i == users.len() - 1 {
        assert(updated.drop_last() =~= users.drop_last());
    } else {
        lemma_total_balance_update(users.drop_last(), i, u);
        assert(updated.drop_last() =~= users.drop_last().update(i, u));
    }
}

/// Conservation under deposits: when the staking vault holds the sum of all
/// stakes, a successful deposit of `amount` by one of the users leaves the
/// sum equal to the vault's holding plus `amount`.
pub proof fn lemma_deposit_conserves_stake(
    pool: Pool,
    users: Seq<User>,
    i: int,
    vault: u64,
    amount: u64,
    now: u64,
    p: Pool,
    u: User,
)
    requires
        0 <= i < users.len(),
        total_balance(users) == vault,
        deposit_outcome(pool, users[i], vault, amount, now) == Ok::<(Pool, User), ErrorCode>((p, u)),
    ensures
        total_balance(users.update(i, u)) == vault + amount,
{
    lemma_total_balance_update(users, i, u);
}

/// Conservation under withdrawals: when the staking vault holds the sum of
/// all stakes, a successful withdrawal of `amount` by one of the users leaves
/// the sum equal to the vault's holding minus `amount`.
pub proof fn lemma_withdraw_conserves_stake(
    pool: Pool,
    users: Seq<User>,
    i: int,
    vault: u64,
    amount: u64,
    now: u64,
    p: Pool,
    u: User,
)
    requires
        0 <= i < users.len(),
        total_balance(users) == vault,
        withdraw_outcome(pool, users[i], vault, amount, now) == Ok::<(Pool, User), ErrorCode>((p, u)),
    ensures
        total_balance(users.update(i, u)) == vault - amount,
{
    lemma_total_balance_update(users, i, u);
}

/// Conservation under claims: a claim moves no stake.
pub proof fn lemma_claim_conserves_stake(
    pool: Pool,
    users: Seq<User>,
    i: int,
    vault: u64,
    reward_vault_amount: u64,
    now: u64,
    p: Pool,
    u: User,
    c: ClaimOutcome,
)
    requires
        0 <= i < users.len(),
        claim_outcome(pool, users[i], vault, reward_vault_amount, now) == Some((p, u, c)),
    ensures
        total_balance(users.update(i, u)) == total_balance(users),
{
    lemma_total_balance_update(users, i, u);
}

/// Monotonic accrual: bringing a pool up to date never lowers its
/// cumulative reward per token.
pub proof fn lemma_update_is_monotonic(pool: Pool, total_staked: u64, now: u64, p: Pool)
    requires
        pool_update(pool, total_staked, now) == Some(p),
    ensures
        p.reward_per_token_stored >= pool.reward_per_token_stored,
{
    let t = applicable_time(pool, now);
    if total_staked > 0 {
        let e = t - pool.last_update_time;
        assert(e * pool.reward_rate * SCALE / (total_staked as int) >= 0)
            by (nonlinear_arith)
            requires
                e >= 0,
                pool.reward_rate >= 0,
                total_staked > 0,
        ;
    }
}

/// The pool after a run of updates, each step giving the total stake and the
/// time of one update; `None` once a step overflows.
pub open spec fn update_run(pool: Pool, steps: Seq<(u64, u64)>) -> Option<Pool>
    decreases steps.len(),
{
    if steps.len() == 0 {
        Some(pool)
    } else {
        match update_run(pool, steps.drop_last()) {
            Some(p) => pool_update(p, steps.last().0, steps.last().1),
            None => None,
        }
    }
}

/// Monotonic accrual: across any run of successful updates the cumulative
/// reward per token does not decrease.
pub proof fn lemma_run_is_monotonic(pool: Pool, steps: Seq<(u64, u64)>, p: Pool)
    requires
        update_run(pool, steps) == Some(p),
    ensures
        p.reward_per_token_stored >= pool.reward_per_token_stored,
    decreases steps.len(),
{
    if steps.len() > 0 {
        let mid = update_run(pool, steps.drop_last())->Some_0;
        lemma_run_is_monotonic(pool, steps.drop_last(), mid);
        lemma_update_is_monotonic(mid, steps.last().0, steps.last().1, p);
    }
}

/// No stake, no accrual: with nothing staked the cumulative value is
/// returned unchanged, whatever time has passed.
pub proof fn lemma_no_stake_no_accrual(pool: Pool, t: u64)
    ensures
        reward_per_token_at(pool, 0, t) == Some(pool.reward_per_token_stored),
{
}

/// Idempotent re-settlement: settling again at the same time and stake
/// succeeds and changes neither the pool nor the user.
pub proof fn lemma_settlement_is_idempotent(
    pool: Pool,
    user: User,
    total_staked: u64,
    now: u64,
    p: Pool,
    u: User,
)
    requires
        settlement(pool, user, total_staked, now) == Some((p, u)),
    ensures
        settlement(p, u, total_staked, now) == Some((p, u)),
{
    assert(applicable_time(p, now) == p.last_update_time);
    if total_staked > 0 {
        assert(0 * p.reward_rate * SCALE / (total_staked as int) == 0) by (nonlinear_arith)
            requires
                total_staked > 0,
        ;
    }
    assert(pool_update(p, total_staked, now) == Some(p));
    assert(u.balance_staked * 0 / (SCALE as int) == 0) by (nonlinear_arith);
    assert(earned_at(p.reward_per_token_stored, u) == Some(u.reward_per_token_pending));
}

/// Accrual cutoff: settling after the scheduled end gives exactly what
/// settling at the end gives.
pub proof fn lemma_accrual_cutoff(pool: Pool, user: User, total_staked: u64, now: u64)
    requires
        now > pool.reward_end_timestamp,
    ensures
        pool_update(pool, total_staked, now) == pool_update(pool, total_staked, pool.reward_end_timestamp),
        settlement(pool, user, total_staked, now) == settlement(
            pool,
            user,
            total_staked,
            pool.reward_end_timestamp,
        ),
{
}

/// Withdrawal guard: asking for more than the stake is refused.
pub proof fn lemma_withdrawal_guard(pool: Pool, user: User, total_staked: u64, amount: u64, now: u64)
    requires
        amount > user.balance_staked,
    ensures
        withdraw_outcome(pool, user, total_staked, amount, now) == Err::<(Pool, User), ErrorCode>(
            ErrorCode::InsufficientFundWithdraw,
        ),
{
}

} // verus!
