//! Tests of accrual checkpoints, withdrawal requests, and claims.

use ruin_staking::account::PendingRewardWithdrawl;
use ruin_staking::account::PendingWithdrawl;
use ruin_staking::account::RuinStaking;
use ruin_staking::account::RuinStakingTerm;
use ruin_staking::account::UserStaked;
use ruin_staking::claim::claim_pending_principal;
use ruin_staking::claim::claim_pending_reward;
use ruin_staking::error::ProgramErrorCode;
use ruin_staking::manager::checkpoint_and_harvest;
use ruin_staking::manager::request_principal_withdrawal;
use ruin_staking::reward::DIV_PRECISION;

fn pool() -> RuinStaking {
    RuinStaking::new(7, 1, 2, 3, 4)
}

fn term() -> RuinStakingTerm {
    RuinStakingTerm::new(7, 100, 10_000, 0, 1_000_000, 86_400, 3_600, 1000, 1).unwrap()
}

#[test]
fn harvest_parks_reward_and_moves_watermark() {
    let pool = pool();
    let term = term();
    let mut position = UserStaked { total_staked: 1_000, join_time: 100, updated_time: 100 };
    let mut queue = PendingRewardWithdrawl::new();
    let r = checkpoint_and_harvest(&pool, &term, &mut position, &mut queue, 3_700);
    assert_eq!(r, Ok(()));
    // 1000 * 3600 * 1000 / 10000 * 10^12 / 31536000 = 11415525114.
    assert_eq!(queue.pending_rewards, 11_415_525_114);
    assert_eq!(queue.claimable_at, 3_700 + 3_600);
    assert_eq!(position.updated_time, 3_700);
    assert_eq!(position.join_time, 100);
    assert_eq!(position.total_staked, 1_000);
}

#[test]
fn second_harvest_same_instant_adds_nothing() {
    let pool = pool();
    let term = term();
    let mut position = UserStaked { total_staked: 1_000, join_time: 100, updated_time: 100 };
    let mut queue = PendingRewardWithdrawl::new();
    assert_eq!(checkpoint_and_harvest(&pool, &term, &mut position, &mut queue, 3_700), Ok(()));
    let after_first = queue;
    assert_eq!(checkpoint_and_harvest(&pool, &term, &mut position, &mut queue, 3_700), Ok(()));
    assert_eq!(queue, after_first);
    assert_eq!(position.updated_time, 3_700);
}

#[test]
fn repeated_harvests_accumulate_and_rearm() {
    // Last-arm-wins: each nonzero accrual adds to the balance and pushes
    // `claimable_at` out to the newest reading plus the delay.
    let pool = pool();
    let term = term();
    let mut position = UserStaked { total_staked: 1_000, join_time: 100, updated_time: 100 };
    let mut queue = PendingRewardWithdrawl::new();
    assert_eq!(checkpoint_and_harvest(&pool, &term, &mut position, &mut queue, 3_700), Ok(()));
    assert_eq!(queue.claimable_at, 3_700 + 3_600);
    assert_eq!(checkpoint_and_harvest(&pool, &term, &mut position, &mut queue, 7_300), Ok(()));
    assert_eq!(queue.pending_rewards, 2 * 11_415_525_114);
    assert_eq!(queue.claimable_at, 7_300 + 3_600);
}

#[test]
fn harvest_with_delay_beyond_lock_reaccrues() {
    // When the delay outruns the lock, the capped window end
    // `join_time + delay_duration` can lie beyond `now`, so even a second
    // checkpoint at the same instant accrues again. 31536 staked at 10000
    // basis units accrues exactly 10^9 scaled units per second.
    let pool = pool();
    let term = RuinStakingTerm::new(7, 100, 100_000, 0, 1_000_000, 100, 200, 10_000, 1).unwrap();
    let mut position = UserStaked { total_staked: 31_536, join_time: 10, updated_time: 10 };
    let mut queue = PendingRewardWithdrawl::new();
    // The lock expired at 110, strictly before 150: the window is
    // [10, 10 + 200] = 200 seconds.
    assert_eq!(checkpoint_and_harvest(&pool, &term, &mut position, &mut queue, 150), Ok(()));
    assert_eq!(queue.pending_rewards, 200 * 1_000_000_000);
    // The second call at the same instant opens at the new watermark 150
    // but still closes at 210: 60 more seconds accrue.
    assert_eq!(checkpoint_and_harvest(&pool, &term, &mut position, &mut queue, 150), Ok(()));
    assert_eq!(queue.pending_rewards, 260 * 1_000_000_000);
}

#[test]
fn request_with_lock_bound_overflow_fails() {
    let pool = pool();
    let term = term();
    let position = UserStaked { total_staked: 1_000, join_time: i64::MAX, updated_time: 100 };
    let mut queue = PendingWithdrawl::new();
    let r = request_principal_withdrawal(&pool, &term, &position, &mut queue, 500, 86_501);
    assert_eq!(r, Err(ProgramErrorCode::ArithmeticOverflow));
    assert_eq!(queue.pending_tokens, 0);
}

#[test]
fn paused_pool_rejects_harvest_request_and_claims() {
    let paused = RuinStaking { paused: true, ..pool() };
    let term = term();
    let mut position = UserStaked { total_staked: 1_000, join_time: 100, updated_time: 100 };
    let mut reward_queue = PendingRewardWithdrawl::new();
    let mut principal_queue = PendingWithdrawl::new();
    assert_eq!(
        checkpoint_and_harvest(&paused, &term, &mut position, &mut reward_queue, 3_700),
        Err(ProgramErrorCode::PoolPaused)
    );
    assert_eq!(
        request_principal_withdrawal(&paused, &term, &position, &mut principal_queue, 10, 3_700),
        Err(ProgramErrorCode::PoolPaused)
    );
    assert_eq!(
        claim_pending_reward(&paused, &term, &mut reward_queue, 3_700),
        Err(ProgramErrorCode::PoolPaused)
    );
    assert_eq!(
        claim_pending_principal(&paused, &term, &mut principal_queue, 3_700),
        Err(ProgramErrorCode::PoolPaused)
    );
}

#[test]
fn request_before_maturity_is_silent_noop() {
    let pool = pool();
    let term = term();
    // Lock runs until join_time + lock_duration; strictly later readings
    // mature it.
    let position = UserStaked { total_staked: 1_000, join_time: 100, updated_time: 100 };
    let mut queue = PendingWithdrawl::new();
    let r = request_principal_withdrawal(&pool, &term, &position, &mut queue, 500, 86_500);
    assert_eq!(r, Ok(()));
    assert_eq!(queue.pending_tokens, 0);
    assert_eq!(queue.claimable_at, 0);
}

#[test]
fn request_after_maturity_arms_queue() {
    let pool = pool();
    let term = term();
    let position = UserStaked { total_staked: 1_000, join_time: 100, updated_time: 100 };
    let mut queue = PendingWithdrawl::new();
    let r = request_principal_withdrawal(&pool, &term, &position, &mut queue, 500, 86_501);
    assert_eq!(r, Ok(()));
    assert_eq!(queue.pending_tokens, 500);
    // This queue waits the lock duration again, not the reward delay.
    assert_eq!(queue.claimable_at, 86_501 + 86_400);
}

#[test]
fn request_above_staked_total_rejected() {
    let pool = pool();
    let term = term();
    let position = UserStaked { total_staked: 1_000, join_time: 100, updated_time: 100 };
    let mut queue = PendingWithdrawl::new();
    let r = request_principal_withdrawal(&pool, &term, &position, &mut queue, 1_001, 86_501);
    assert_eq!(r, Err(ProgramErrorCode::ExceedsCurrentStakingAmount));
    assert_eq!(queue.pending_tokens, 0);
}

#[test]
fn repeated_requests_accumulate_and_rearm() {
    let pool = pool();
    let term = term();
    let position = UserStaked { total_staked: 1_000, join_time: 100, updated_time: 100 };
    let mut queue = PendingWithdrawl::new();
    assert_eq!(
        request_principal_withdrawal(&pool, &term, &position, &mut queue, 300, 86_501),
        Ok(())
    );
    assert_eq!(
        request_principal_withdrawal(&pool, &term, &position, &mut queue, 200, 90_000),
        Ok(())
    );
    assert_eq!(queue.pending_tokens, 500);
    // Last-arm-wins: the newer request pushed the release out.
    assert_eq!(queue.claimable_at, 90_000 + 86_400);
}

#[test]
fn claim_with_unarmed_timer_releases_nothing() {
    let pool = pool();
    let term = term();
    let mut reward_queue = PendingRewardWithdrawl { pending_rewards: 55, claimable_at: 0 };
    let mut principal_queue = PendingWithdrawl { pending_tokens: 55, claimable_at: 0 };
    assert_eq!(claim_pending_reward(&pool, &term, &mut reward_queue, 1_000_000), Ok(0));
    assert_eq!(reward_queue.pending_rewards, 55);
    assert_eq!(claim_pending_principal(&pool, &term, &mut principal_queue, 1_000_000), Ok(0));
    assert_eq!(principal_queue.pending_tokens, 55);
}

#[test]
fn claim_before_timer_releases_nothing() {
    let pool = pool();
    let term = term();
    let mut queue = PendingWithdrawl { pending_tokens: 500, claimable_at: 90_000 };
    assert_eq!(claim_pending_principal(&pool, &term, &mut queue, 89_999), Ok(0));
    assert_eq!(queue.pending_tokens, 500);
    assert_eq!(queue.claimable_at, 90_000);
}

#[test]
fn claim_at_timer_releases_everything() {
    let pool = pool();
    let term = term();
    let mut queue = PendingWithdrawl { pending_tokens: 500, claimable_at: 90_000 };
    assert_eq!(claim_pending_principal(&pool, &term, &mut queue, 90_000), Ok(500));
    assert_eq!(queue.pending_tokens, 0);
    // The timer is left standing; only a fresh request re-arms the queue.
    assert_eq!(queue.claimable_at, 90_000);
    // A second claim with the stale timer finds nothing to release.
    assert_eq!(claim_pending_principal(&pool, &term, &mut queue, 90_001), Ok(0));
}

#[test]
fn reward_claim_truncates_fixed_point() {
    let pool = pool();
    let term = term();
    // 2 tokens and change, in fixed point: the change is forfeited.
    let pending = 2 * DIV_PRECISION as u128 + (DIV_PRECISION as u128 - 1);
    let mut queue = PendingRewardWithdrawl { pending_rewards: pending, claimable_at: 7_300 };
    assert_eq!(claim_pending_reward(&pool, &term, &mut queue, 7_300), Ok(2));
    assert_eq!(queue.pending_rewards, 0);
    assert_eq!(queue.claimable_at, 7_300);
}

#[test]
fn reward_claim_too_wide_for_token_amount_fails() {
    let pool = pool();
    let term = term();
    let mut queue = PendingRewardWithdrawl { pending_rewards: u128::MAX, claimable_at: 10 };
    assert_eq!(
        claim_pending_reward(&pool, &term, &mut queue, 10),
        Err(ProgramErrorCode::ArithmeticOverflow)
    );
    assert_eq!(queue.pending_rewards, u128::MAX);
}

#[test]
fn mismatched_term_rejects_claims() {
    let pool = pool();
    let other_term =
        RuinStakingTerm::new(8, 100, 10_000, 0, 1_000_000, 86_400, 3_600, 1000, 1).unwrap();
    let mut reward_queue = PendingRewardWithdrawl { pending_rewards: 5, claimable_at: 1 };
    let mut principal_queue = PendingWithdrawl { pending_tokens: 5, claimable_at: 1 };
    assert_eq!(
        claim_pending_reward(&pool, &other_term, &mut reward_queue, 10),
        Err(ProgramErrorCode::InvalidStakingTerms)
    );
    assert_eq!(
        claim_pending_principal(&pool, &other_term, &mut principal_queue, 10),
        Err(ProgramErrorCode::InvalidStakingTerms)
    );
    assert_eq!(
        request_principal_withdrawal(
            &pool,
            &other_term,
            &UserStaked::new(),
            &mut principal_queue,
            0,
            10
        ),
        Err(ProgramErrorCode::InvalidStakingTerms)
    );
}
