//! The staking position manager: deposits, accrual checkpoints, and
//! principal-withdrawal requests.
//!
//! Every operation reads the term configuration and a fresh clock reading,
//! checks all of its preconditions, and only then mutates the position and
//! at most one pending queue — an error leaves every record untouched. The
//! reward queue's timer follows the last-arm-wins policy: each nonzero
//! accrual overwrites `claimable_at` with a newly computed future reading
//! rather than keeping the earliest pending one.

use vstd::prelude::*;

use crate::account::PendingRewardWithdrawl;
use crate::account::PendingWithdrawl;
use crate::account::RuinStaking;
use crate::account::RuinStakingTerm;
use crate::account::UserStaked;
use crate::error::ProgramErrorCode;
use crate::reward::calculate_reward;
use crate::reward::reward_overflows;
use crate::reward::reward_owed;

verus! {

/// The position after a deposit of `amount` at reading `now`: the principal
/// grows and both timestamps are re-stamped, so the lock is measured from
/// the most recent deposit.
pub open spec fn staked_position(position: UserStaked, amount: u64, now: i64) -> UserStaked {
    UserStaked {
        total_staked: (position.total_staked + amount) as u64,
        join_time: now,
        updated_time: now,
    }
}

/// The position after an accrual checkpoint at reading `now`: only the
/// watermark moves.
pub open spec fn checkpointed_position(position: UserStaked, now: i64) -> UserStaked {
    UserStaked { updated_time: now, ..position }
}

/// The reward queue after an accrual of `reward` at reading `now`: a
/// nonzero accrual is added to the pending balance and re-arms the timer to
/// `now + delay` (last-arm-wins); a zero accrual leaves the queue alone.
pub open spec fn armed_reward_queue(
    queue: PendingRewardWithdrawl,
    reward: int,
    now: int,
    delay: int,
) -> PendingRewardWithdrawl {
    if reward > 0 {
        PendingRewardWithdrawl {
            pending_rewards: (queue.pending_rewards + reward) as u128,
            claimable_at: (now + delay) as i64,
        }
    } else {
        queue
    }
}

/// Whether the position's lock has matured at reading `now`: the lock
/// window, measured from the most recent deposit, ended strictly before
/// `now`.
pub open spec fn principal_matured(term: RuinStakingTerm, position: UserStaked, now: int) -> bool {
    position.join_time + term.lock_duration < now
}

/// The principal queue after a matured request of `amount` at reading
/// `now`: the amount joins the pending balance and the timer is re-armed to
/// `now + lock` (last-arm-wins). The post-request wait of this queue re-uses
/// the term's lock duration; only the reward queue waits `delay_duration`.
pub open spec fn requested_principal_queue(
    queue: PendingWithdrawl,
    amount: u64,
    now: int,
    lock: int,
) -> PendingWithdrawl {
    PendingWithdrawl {
        pending_tokens: (queue.pending_tokens + amount) as u64,
        claimable_at: (now + lock) as i64,
    }
}

/// Why a stake of `amount` is refused, or `None` when it is admitted. The
/// checks run in this order, and all of them precede any mutation.
pub open spec fn stake_rejection(
    pool: RuinStaking,
    term: RuinStakingTerm,
    position: UserStaked,
    queue: PendingRewardWithdrawl,
    amount: u64,
    user_balance: u64,
    now: int,
) -> Option<ProgramErrorCode> {
    let reward = reward_owed(term, position, now);
    if pool.paused {
        Some(ProgramErrorCode::PoolPaused)
    } else if term.ruin_staking != pool.address {
        Some(ProgramErrorCode::InvalidStakingTerms)
    } else if amount > user_balance {
        Some(ProgramErrorCode::ExceedsCurrentBalance)
    } else if now < term.start_join_time || now > term.end_join_time {
        Some(ProgramErrorCode::StakingNotStartedOrEnded)
    } else if position.total_staked + amount > u64::MAX {
        Some(ProgramErrorCode::ArithmeticOverflow)
    } else if position.total_staked + amount < term.minimum_staking_amount {
        Some(ProgramErrorCode::MinimumAmountNotReached)
    } else if position.total_staked + amount > term.maximum_staking_amount {
        Some(ProgramErrorCode::MaximumAmountExceeds)
    } else if reward_overflows(term, position, now) {
        Some(ProgramErrorCode::ArithmeticOverflow)
    } else if reward > 0 && (queue.pending_rewards + reward > u128::MAX || now
        + term.delay_duration > i64::MAX) {
        Some(ProgramErrorCode::ArithmeticOverflow)
    } else if pool.total_staked + amount > u128::MAX {
        Some(ProgramErrorCode::ArithmeticOverflow)
    } else {
        None
    }
}

/// Opens a position with its first deposit, or adds to an existing one.
///
/// Admission requires the pool live, the term matching, the amount covered
/// by the user's balance, the reading inside the join window, and the
/// resulting principal inside `[minimum_staking_amount,
/// maximum_staking_amount]`. On success the reward accrued over the prior
/// state is parked in the reward queue, both position timestamps are
/// re-stamped to `now`, the pool's lifetime total grows, and the caller owes
/// a transfer of `amount` from the user's balance to the pool treasury. On
/// an error nothing changes and no transfer is owed.
pub fn open_or_add(
    pool: &mut RuinStaking,
    term: &RuinStakingTerm,
    position: &mut UserStaked,
    reward_queue: &mut PendingRewardWithdrawl,
    amount: u64,
    user_balance: u64,
    now: i64,
) -> (result: Result<(), ProgramErrorCode>)
    requires
        term.wf(),
        old(position).wf(),
        old(reward_queue).wf(),
        now >= 0,
    ensures
        match result {
            Ok(()) => {
                &&& stake_rejection(
                    *old(pool),
                    *term,
                    *old(position),
                    *old(reward_queue),
                    amount,
                    user_balance,
                    now as int,
                ) is None
                &&& *final(position) == staked_position(*old(position), amount, now)
                &&& *final(reward_queue) == armed_reward_queue(
                    *old(reward_queue),
                    reward_owed(*term, *old(position), now as int),
                    now as int,
                    term.delay_duration as int,
                )
                &&& *final(pool) == (RuinStaking {
                    total_staked: (old(pool).total_staked + amount) as u128,
                    ..*old(pool)
                })
                &&& final(position).wf()
                &&& final(reward_queue).wf()
            },
            Err(e) => {
                &&& stake_rejection(
                    *old(pool),
                    *term,
                    *old(position),
                    *old(reward_queue),
                    amount,
                    user_balance,
                    now as int,
                ) == Some(e)
                &&& *final(pool) == *old(pool)
                &&& *final(position) == *old(position)
                &&& *final(reward_queue) == *old(reward_queue)
            },
        },
{
    if pool.paused {
        return Err(ProgramErrorCode::PoolPaused);
    }
    if term.ruin_staking != pool.address {
        return Err(ProgramErrorCode::InvalidStakingTerms);
    }
    if amount > user_balance {
        return Err(ProgramErrorCode::ExceedsCurrentBalance);
    }
    if now < term.start_join_time || now > term.end_join_time {
        return Err(ProgramErrorCode::StakingNotStartedOrEnded);
    }
    let new_total = match position.total_staked.checked_add(amount) {
        Some(v) => v,
        None => {
            return Err(ProgramErrorCode::ArithmeticOverflow);
        },
    };
    if new_total < term.minimum_staking_amount {
        return Err(ProgramErrorCode::MinimumAmountNotReached);
    }
    if new_total > term.maximum_staking_amount {
        return Err(ProgramErrorCode::MaximumAmountExceeds);
    }
    let reward = match calculate_reward(term, position, now) {
        Ok(r) => r,
        Err(e) => {
            return Err(e);
        },
    };
    let mut new_pending = reward_queue.pending_rewards;
    let mut new_claimable = reward_queue.claimable_at;
    if reward > 0 {
        new_pending = match reward_queue.pending_rewards.checked_add(reward) {
            Some(v) => v,
            None => {
                return Err(ProgramErrorCode::ArithmeticOverflow);
            },
        };
        new_claimable = match now.checked_add(term.delay_duration) {
            Some(v) => v,
            None => {
                return Err(ProgramErrorCode::ArithmeticOverflow);
            },
        };
    }
    let new_pool_total = match pool.total_staked.checked_add(amount as u128) {
        Some(v) => v,
        None => {
            return Err(ProgramErrorCode::ArithmeticOverflow);
        },
    };
    position.total_staked = new_total;
    position.join_time = now;
    position.updated_time = now;
    reward_queue.pending_rewards = new_pending;
    reward_queue.claimable_at = new_claimable;
    pool.total_staked = new_pool_total;
    Ok(())
}

/// Why an accrual checkpoint is refused, or `None` when it goes through.
pub open spec fn harvest_rejection(
    pool: RuinStaking,
    term: RuinStakingTerm,
    position: UserStaked,
    queue: PendingRewardWithdrawl,
    now: int,
) -> Option<ProgramErrorCode> {
    let reward = reward_owed(term, position, now);
    if pool.paused {
        Some(ProgramErrorCode::PoolPaused)
    } else if term.ruin_staking != pool.address {
        Some(ProgramErrorCode::InvalidStakingTerms)
    } else if reward_overflows(term, position, now) {
        Some(ProgramErrorCode::ArithmeticOverflow)
    } else if reward > 0 && (queue.pending_rewards + reward > u128::MAX || now
        + term.delay_duration > i64::MAX) {
        Some(ProgramErrorCode::ArithmeticOverflow)
    } else {
        None
    }
}

/// Checkpoints the position's accrual through `now` and parks the reward in
/// the reward queue.
///
/// The reward owed over `[updated_time, now]` (capped as the calculator
/// caps it) joins `pending_rewards`, a nonzero reward re-arms the queue's
/// timer to `now + delay_duration`, and the watermark moves to `now`. No
/// funds move and no transfer is owed.
pub fn checkpoint_and_harvest(
    pool: &RuinStaking,
    term: &RuinStakingTerm,
    position: &mut UserStaked,
    reward_queue: &mut PendingRewardWithdrawl,
    now: i64,
) -> (result: Result<(), ProgramErrorCode>)
    requires
        term.wf(),
        old(position).wf(),
        old(reward_queue).wf(),
        now >= 0,
    ensures
        match result {
            Ok(()) => {
                &&& harvest_rejection(
                    *pool,
                    *term,
                    *old(position),
                    *old(reward_queue),
                    now as int,
                ) is None
                &&& *final(position) == checkpointed_position(*old(position), now)
                &&& *final(reward_queue) == armed_reward_queue(
                    *old(reward_queue),
                    reward_owed(*term, *old(position), now as int),
                    now as int,
                    term.delay_duration as int,
                )
                &&& final(position).wf()
                &&& final(reward_queue).wf()
            },
            Err(e) => {
                &&& harvest_rejection(*pool, *term, *old(position), *old(reward_queue), now as int)
                    == Some(e)
                &&& *final(position) == *old(position)
                &&& *final(reward_queue) == *old(reward_queue)
            },
        },
{
    if pool.paused {
        return Err(ProgramErrorCode::PoolPaused);
    }
    if term.ruin_staking != pool.address {
        return Err(ProgramErrorCode::InvalidStakingTerms);
    }
    let reward = match calculate_reward(term, position, now) {
        Ok(r) => r,
        Err(e) => {
            return Err(e);
        },
    };
    if reward > 0 {
        let new_pending = match reward_queue.pending_rewards.checked_add(reward) {
            Some(v) => v,
            None => {
                return Err(ProgramErrorCode::ArithmeticOverflow);
            },
        };
        let new_claimable = match now.checked_add(term.delay_duration) {
            Some(v) => v,
            None => {
                return Err(ProgramErrorCode::ArithmeticOverflow);
            },
        };
        reward_queue.pending_rewards = new_pending;
        reward_queue.claimable_at = new_claimable;
    }
    position.updated_time = now;
    Ok(())
}

/// Why a principal-withdrawal request is refused, or `None` when it goes
/// through (which includes the silent pre-maturity no-op).
pub open spec fn request_rejection(
    pool: RuinStaking,
    term: RuinStakingTerm,
    position: UserStaked,
    queue: PendingWithdrawl,
    amount: u64,
    now: int,
) -> Option<ProgramErrorCode> {
    if pool.paused {
        Some(ProgramErrorCode::PoolPaused)
    } else if term.ruin_staking != pool.address {
        Some(ProgramErrorCode::InvalidStakingTerms)
    } else if amount > position.total_staked {
        Some(ProgramErrorCode::ExceedsCurrentStakingAmount)
    } else if position.join_time + term.lock_duration > i64::MAX {
        Some(ProgramErrorCode::ArithmeticOverflow)
    } else if principal_matured(term, position, now) && (queue.pending_tokens + amount > u64::MAX
        || now + term.lock_duration > i64::MAX) {
        Some(ProgramErrorCode::ArithmeticOverflow)
    } else {
        None
    }
}

/// Requests a delayed withdrawal of `amount` of staked principal.
///
/// The request must not exceed the position's staked total. It only queues
/// anything when the position's lock has matured; before maturity the call
/// succeeds and deliberately changes nothing. A matured request adds the
/// amount to the principal queue and re-arms its timer to `now +
/// lock_duration`. The position's staked total is not reduced at request
/// time, and no transfer is owed until the queue is claimed.
pub fn request_principal_withdrawal(
    pool: &RuinStaking,
    term: &RuinStakingTerm,
    position: &UserStaked,
    pending_queue: &mut PendingWithdrawl,
    amount: u64,
    now: i64,
) -> (result: Result<(), ProgramErrorCode>)
    requires
        term.wf(),
        position.wf(),
        old(pending_queue).wf(),
        now >= 0,
    ensures
        match result {
            Ok(()) => {
                &&& request_rejection(
                    *pool,
                    *term,
                    *position,
                    *old(pending_queue),
                    amount,
                    now as int,
                ) is None
                &&& *final(pending_queue) == (if principal_matured(*term, *position, now as int) {
                    requested_principal_queue(
                        *old(pending_queue),
                        amount,
                        now as int,
                        term.lock_duration as int,
                    )
                } else {
                    *old(pending_queue)
                })
                &&& final(pending_queue).wf()
            },
            Err(e) => {
                &&& request_rejection(*pool, *term, *position, *old(pending_queue), amount, now as int)
                    == Some(e)
                &&& *final(pending_queue) == *old(pending_queue)
            },
        },
{
    if pool.paused {
        return Err(ProgramErrorCode::PoolPaused);
    }
    if term.ruin_staking != pool.address {
        return Err(ProgramErrorCode::InvalidStakingTerms);
    }
    if amount > position.total_staked {
        return Err(ProgramErrorCode::ExceedsCurrentStakingAmount);
    }
    let lock_expiry = match position.join_time.checked_add(term.lock_duration) {
        Some(v) => v,
        None => {
            return Err(ProgramErrorCode::ArithmeticOverflow);
        },
    };
    if lock_expiry < now {
        let new_pending = match pending_queue.pending_tokens.checked_add(amount) {
            Some(v) => v,
            None => {
                return Err(ProgramErrorCode::ArithmeticOverflow);
            },
        };
        let new_claimable = match now.checked_add(term.lock_duration) {
            Some(v) => v,
            None => {
                return Err(ProgramErrorCode::ArithmeticOverflow);
            },
        };
        pending_queue.pending_tokens = new_pending;
        pending_queue.claimable_at = new_claimable;
    }
    Ok(())
}

} // verus!
