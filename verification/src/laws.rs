//! Laws relating the ledger's operations to one another.
//!
//! Each proof here is stated over the same spec functions the operations'
//! own contracts use, so what it establishes holds of every run of the
//! executable code.

use vstd::prelude::*;

use crate::account::PendingRewardWithdrawl;
use crate::account::PendingWithdrawl;
use crate::account::RuinStakingTerm;
use crate::account::UserStaked;
use crate::claim::principal_released_amount;
use crate::manager::armed_reward_queue;
use crate::manager::checkpointed_position;
use crate::manager::principal_matured;
use crate::manager::requested_principal_queue;
use crate::manager::staked_position;
use crate::reward::accrual_elapsed;
use crate::reward::lemma_reward_zero_elapsed;
use crate::reward::reward_owed;

verus! {

/// Law: checkpointing twice at one instant accrues nothing the second time.
///
/// After a checkpoint at `now` the position's watermark stands at `now`, so
/// the second accrual window at the same reading is empty and the second
/// checkpoint owes zero reward and leaves the reward queue exactly as it
/// was. This holds whenever the term's delay does not outrun its lock
/// (`delay_duration <= lock_duration`); with a longer delay the capped
/// window end `join_time + delay_duration` can still lie beyond `now` and
/// the second call accrues again.
pub proof fn lemma_second_checkpoint_adds_nothing(
    term: RuinStakingTerm,
    position: UserStaked,
    queue: PendingRewardWithdrawl,
    now: i64,
)
    requires
        term.wf(),
        position.wf(),
        now >= 0,
        term.delay_duration <= term.lock_duration,
    ensures
        reward_owed(term, checkpointed_position(position, now), now as int) == 0,
        armed_reward_queue(
            queue,
            reward_owed(term, checkpointed_position(position, now), now as int),
            now as int,
            term.delay_duration as int,
        ) == queue,
{
    let checkpointed = checkpointed_position(position, now);
    assert(accrual_elapsed(term, checkpointed, now as int) == 0);
    lemma_reward_zero_elapsed(term, checkpointed, now as int);
}

/// Law: principal makes the round trip whole.
///
/// Stake `amount` into a fresh position, request the full amount back once
/// the lock has matured, and claim once the queue's own wait has passed:
/// the request is admitted in full, the queue holds exactly `amount`, and
/// the claim releases exactly `amount` — the principal transferred back
/// equals the principal transferred in, so the round trip neither creates
/// nor destroys value.
pub proof fn lemma_principal_round_trip(
    term: RuinStakingTerm,
    amount: u64,
    t_stake: i64,
    t_request: i64,
    t_claim: i64,
)
    requires
        term.wf(),
        t_stake >= 0,
        t_stake + term.lock_duration < t_request,
        t_request + term.lock_duration <= i64::MAX,
        t_request + term.lock_duration <= t_claim,
    ensures
        ({
            let fresh_position = UserStaked { total_staked: 0, join_time: 0, updated_time: 0 };
            let fresh_queue = PendingWithdrawl { pending_tokens: 0, claimable_at: 0 };
            let position = staked_position(fresh_position, amount, t_stake);
            let queue = requested_principal_queue(
                fresh_queue,
                amount,
                t_request as int,
                term.lock_duration as int,
            );
            &&& position.total_staked == amount
            &&& amount <= position.total_staked
            &&& principal_matured(term, position, t_request as int)
            &&& queue.pending_tokens == amount
            &&& principal_released_amount(queue, t_claim as int) == amount
        }),
{
}

} // verus!
