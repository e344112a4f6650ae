//! Claiming the two pending-withdrawal queues.
//!
//! Both queues share one state machine: idle while `claimable_at == 0`,
//! armed while it holds a future reading. A claim releases the whole pending
//! balance once the armed timer has been reached and tells the caller how
//! much to transfer; claiming an idle queue, or an armed one before its
//! time, releases nothing and changes nothing. A release zeroes the pending
//! balance but deliberately leaves `claimable_at` standing: re-arming takes
//! a fresh nonzero accrual or request, and callers must tolerate a stale
//! nonzero timer beside a zero balance.

use vstd::prelude::*;

use crate::account::PendingRewardWithdrawl;
use crate::account::PendingWithdrawl;
use crate::account::RuinStaking;
use crate::account::RuinStakingTerm;
use crate::error::ProgramErrorCode;
use crate::reward::DIV_PRECISION;

verus! {

/// Whether the reward queue releases at reading `now`: it was armed and its
/// timer has been reached.
pub open spec fn reward_release_due(queue: PendingRewardWithdrawl, now: int) -> bool {
    queue.claimable_at > 0 && now >= queue.claimable_at
}

/// The token amount a reward claim releases at reading `now`: the pending
/// fixed-point balance with the scale divided back out (the remainder below
/// one token unit is forfeited), or zero while the queue is idle or early.
pub open spec fn reward_released_amount(queue: PendingRewardWithdrawl, now: int) -> int {
    if reward_release_due(queue, now) {
        queue.pending_rewards as int / (DIV_PRECISION as int)
    } else {
        0
    }
}

/// Why a reward claim is refused, or `None` when it goes through.
pub open spec fn claim_reward_rejection(
    pool: RuinStaking,
    term: RuinStakingTerm,
    queue: PendingRewardWithdrawl,
    now: int,
) -> Option<ProgramErrorCode> {
    if pool.paused {
        Some(ProgramErrorCode::PoolPaused)
    } else if term.ruin_staking != pool.address {
        Some(ProgramErrorCode::InvalidStakingTerms)
    } else if reward_released_amount(queue, now) > u64::MAX {
        Some(ProgramErrorCode::ArithmeticOverflow)
    } else {
        None
    }
}

/// Claims the pending reward queue.
///
/// Returns the token amount the caller owes as a transfer from the pool's
/// distributor balance to the user; zero means the queue was idle or early
/// and no transfer is owed. A release zeroes `pending_rewards` and leaves
/// `claimable_at` standing.
pub fn claim_pending_reward(
    pool: &RuinStaking,
    term: &RuinStakingTerm,
    queue: &mut PendingRewardWithdrawl,
    now: i64,
) -> (result: Result<u64, ProgramErrorCode>)
    requires
        term.wf(),
        old(queue).wf(),
        now >= 0,
    ensures
        match result {
            Ok(released) => {
                &&& claim_reward_rejection(*pool, *term, *old(queue), now as int) is None
                &&& released == reward_released_amount(*old(queue), now as int)
                &&& final(queue).pending_rewards == (if reward_release_due(
                    *old(queue),
                    now as int,
                ) {
                    0u128
                } else {
                    old(queue).pending_rewards
                })
                &&& final(queue).claimable_at == old(queue).claimable_at
                &&& final(queue).wf()
            },
            Err(e) => {
                &&& claim_reward_rejection(*pool, *term, *old(queue), now as int) == Some(e)
                &&& *final(queue) == *old(queue)
            },
        },
{
    if pool.paused {
        return Err(ProgramErrorCode::PoolPaused);
    }
    if term.ruin_staking != pool.address {
        return Err(ProgramErrorCode::InvalidStakingTerms);
    }
    if queue.claimable_at > 0 && now >= queue.claimable_at {
        let scaled = queue.pending_rewards / (DIV_PRECISION as u128);
        if scaled > u64::MAX as u128 {
            return Err(ProgramErrorCode::ArithmeticOverflow);
        }
        queue.pending_rewards = 0;
        Ok(scaled as u64)
    } else {
        Ok(0)
    }
}

/// Whether the principal queue releases at reading `now`: it was armed and
/// its timer has been reached.
pub open spec fn principal_release_due(queue: PendingWithdrawl, now: int) -> bool {
    queue.claimable_at > 0 && now >= queue.claimable_at
}

/// The token amount a principal claim releases at reading `now`: the whole
/// pending balance, or zero while the queue is idle or early.
pub open spec fn principal_released_amount(queue: PendingWithdrawl, now: int) -> int {
    if principal_release_due(queue, now) {
        queue.pending_tokens as int
    } else {
        0
    }
}

/// Why a principal claim is refused, or `None` when it goes through.
pub open spec fn claim_principal_rejection(
    pool: RuinStaking,
    term: RuinStakingTerm,
    now: int,
) -> Option<ProgramErrorCode> {
    if pool.paused {
        Some(ProgramErrorCode::PoolPaused)
    } else if term.ruin_staking != pool.address {
        Some(ProgramErrorCode::InvalidStakingTerms)
    } else {
        None
    }
}

/// Claims the pending principal queue.
///
/// Returns the token amount the caller owes as a transfer from the pool
/// treasury back to the user; zero means the queue was idle or early and no
/// transfer is owed. A release zeroes `pending_tokens` and leaves
/// `claimable_at` standing.
pub fn claim_pending_principal(
    pool: &RuinStaking,
    term: &RuinStakingTerm,
    queue: &mut PendingWithdrawl,
    now: i64,
) -> (result: Result<u64, ProgramErrorCode>)
    requires
        term.wf(),
        old(queue).wf(),
        now >= 0,
    ensures
        match result {
            Ok(released) => {
                &&& claim_principal_rejection(*pool, *term, now as int) is None
                &&& released == principal_released_amount(*old(queue), now as int)
                &&& final(queue).pending_tokens == (if principal_release_due(
                    *old(queue),
                    now as int,
                ) {
                    0u64
                } else {
                    old(queue).pending_tokens
                })
                &&& final(queue).claimable_at == old(queue).claimable_at
                &&& final(queue).wf()
            },
            Err(e) => {
                &&& claim_principal_rejection(*pool, *term, now as int) == Some(e)
                &&& *final(queue) == *old(queue)
            },
        },
{
    if pool.paused {
        return Err(ProgramErrorCode::PoolPaused);
    }
    if term.ruin_staking != pool.address {
        return Err(ProgramErrorCode::InvalidStakingTerms);
    }
    if queue.claimable_at > 0 && now >= queue.claimable_at {
        let released = queue.pending_tokens;
        queue.pending_tokens = 0;
        Ok(released)
    } else {
        Ok(0)
    }
}

} // verus!
