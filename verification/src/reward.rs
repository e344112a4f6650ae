//! The reward accrual calculator.
//!
//! Rewards accrue linearly over a closed window of seconds determined by the
//! position's watermark, the current clock reading, and the term's lock and
//! delay durations. The formula keeps its result in fixed point, scaled by
//! [`DIV_PRECISION`], so consumers divide the scale back out on release.

use vstd::arithmetic::div_mod::lemma_div_is_ordered;
use vstd::arithmetic::mul::lemma_mul_inequality;
use vstd::arithmetic::mul::lemma_mul_is_commutative;
use vstd::arithmetic::mul::lemma_mul_upper_bound;
use vstd::prelude::*;

use crate::account::RuinStakingTerm;
use crate::account::UserStaked;
use crate::error::ProgramErrorCode;

verus! {

/// Seconds in one (non-leap) year, the denominator of the annual rate.
pub const ONE_YEAR_IN_SECONDS: u64 = 365 * 24 * 60 * 60;

/// The fixed-point scale of accrued rewards: ten to the twelfth.
pub const DIV_PRECISION: u64 = 1000000000000;

/// The divisor that turns the annual rate into a fraction: an `apr` of
/// `10000` means 100% per year.
pub const APR_DENOMINATOR: u64 = 10000;

/// Where the accrual window opens: at the position's checkpoint watermark,
/// or at the current reading while the watermark was never stamped.
pub open spec fn accrual_start(position: UserStaked, now: int) -> int {
    if position.updated_time > 0 {
        position.updated_time as int
    } else {
        now
    }
}

/// Whether accrual is capped: the term locks deposits and the position's
/// lock expired strictly before `now`.
pub open spec fn accrual_capped(term: RuinStakingTerm, position: UserStaked, now: int) -> bool {
    term.lock_duration > 0 && position.join_time + term.lock_duration < now
}

/// Where the accrual window closes: at the current reading, unless the
/// position's lock already expired, in which case accrual stops at
/// `join_time + delay_duration` rather than running on indefinitely.
pub open spec fn accrual_end(term: RuinStakingTerm, position: UserStaked, now: int) -> int {
    if accrual_capped(term, position, now) {
        position.join_time + term.delay_duration
    } else {
        now
    }
}

/// The width of the accrual window in seconds, clamped at zero when the
/// window closes before it opens.
pub open spec fn accrual_elapsed(term: RuinStakingTerm, position: UserStaked, now: int) -> int {
    let d = accrual_end(term, position, now) - accrual_start(position, now);
    if d < 0 {
        0
    } else {
        d
    }
}

/// The scaled reward owed for `staked` principal over `elapsed` seconds at
/// annual rate `apr`. The order of operations is part of the contract: the
/// rate is applied and truncated before the fixed-point scale is applied, so
/// every implementation truncates identically.
pub open spec fn scaled_reward(staked: int, elapsed: int, apr: int) -> int {
    staked * elapsed * apr / (APR_DENOMINATOR as int) * (DIV_PRECISION as int) / (
    ONE_YEAR_IN_SECONDS as int)
}

/// The scaled reward the calculator owes a position at reading `now`.
pub open spec fn reward_owed(term: RuinStakingTerm, position: UserStaked, now: int) -> int {
    scaled_reward(
        position.total_staked as int,
        accrual_elapsed(term, position, now),
        term.apr as int,
    )
}

/// Whether some checked step of the calculator overflows its integer type:
/// the lock-expiry bound or the capped window end leaves `i64`, or a product
/// of the formula leaves `u128`.
pub open spec fn reward_overflows(term: RuinStakingTerm, position: UserStaked, now: int) -> bool {
    let base = position.total_staked * accrual_elapsed(term, position, now) * term.apr;
    ||| (term.lock_duration > 0 && position.join_time + term.lock_duration > i64::MAX)
    ||| (accrual_capped(term, position, now) && position.join_time + term.delay_duration
        > i64::MAX)
    ||| base > u128::MAX
    ||| base / (APR_DENOMINATOR as int) * (DIV_PRECISION as int) > u128::MAX
}

/// Computes the scaled reward owed for the position's current accrual
/// window, failing rather than wrapping when any arithmetic step overflows.
///
/// On success the result is exactly [`reward_owed`]; the error is
/// `ArithmeticOverflow` exactly on the inputs where [`reward_overflows`]
/// holds.
pub fn calculate_reward(
    term: &RuinStakingTerm,
    user_staked: &UserStaked,
    now: i64,
) -> (result: Result<u128, ProgramErrorCode>)
    requires
        term.wf(),
        user_staked.wf(),
        now >= 0,
    ensures
        match result {
            Ok(reward) => !reward_overflows(*term, *user_staked, now as int) && reward
                == reward_owed(*term, *user_staked, now as int),
            Err(e) => reward_overflows(*term, *user_staked, now as int) && e
                == ProgramErrorCode::ArithmeticOverflow,
        },
{
    let mut start_time: i64 = now;
    let mut end_time: i64 = now;

    if user_staked.updated_time > 0 {
        start_time = user_staked.updated_time;
    }

    if term.lock_duration > 0 {
        let lock_expiry = match user_staked.join_time.checked_add(term.lock_duration) {
            Some(t) => t,
            None => {
                return Err(ProgramErrorCode::ArithmeticOverflow);
            },
        };
        if lock_expiry < end_time {
            end_time = match user_staked.join_time.checked_add(term.delay_duration) {
                Some(t) => t,
                None => {
                    return Err(ProgramErrorCode::ArithmeticOverflow);
                },
            };
        }
    }

    let elapsed: u128 = if end_time < start_time {
        0
    } else {
        (end_time - start_time) as u128
    };
    let staked: u128 = user_staked.total_staked as u128;

    proof {
        lemma_mul_upper_bound(staked as int, u64::MAX as int, elapsed as int, i64::MAX as int);
    }
    let staked_seconds: u128 = staked * elapsed;

    let rated = match staked_seconds.checked_mul(term.apr as u128) {
        Some(v) => v,
        None => {
            return Err(ProgramErrorCode::ArithmeticOverflow);
        },
    };
    let fraction = rated / (APR_DENOMINATOR as u128);
    let scaled = match fraction.checked_mul(DIV_PRECISION as u128) {
        Some(v) => v,
        None => {
            return Err(ProgramErrorCode::ArithmeticOverflow);
        },
    };
    Ok(scaled / (ONE_YEAR_IN_SECONDS as u128))
}

/// Law: an empty accrual window owes nothing. For every stake size and every
/// rate, the scaled reward over zero elapsed seconds is zero, so a position
/// whose window opens where it closes accrues nothing.
pub proof fn lemma_reward_zero_elapsed(term: RuinStakingTerm, position: UserStaked, now: int)
    requires
        accrual_elapsed(term, position, now) == 0,
    ensures
        reward_owed(term, position, now) == 0,
        position.total_staked * accrual_elapsed(term, position, now) * term.apr == 0,
{
    assert(position.total_staked * accrual_elapsed(term, position, now) * term.apr == 0) by (nonlinear_arith)
        requires
            accrual_elapsed(term, position, now) == 0,
    ;
}

/// Law: the scaled reward is monotonically non-decreasing in the staked
/// amount, the elapsed window and the annual rate, each independently and
/// jointly, over all non-negative inputs.
pub proof fn lemma_reward_monotonic(s1: int, e1: int, a1: int, s2: int, e2: int, a2: int)
    requires
        0 <= s1 <= s2,
        0 <= e1 <= e2,
        0 <= a1 <= a2,
    ensures
        scaled_reward(s1, e1, a1) <= scaled_reward(s2, e2, a2),
{
    lemma_mul_inequality(s1, s2, e1);
    lemma_mul_is_commutative(s2, e1);
    lemma_mul_is_commutative(s2, e2);
    lemma_mul_inequality(e1, e2, s2);
    assert(s1 * e1 <= s2 * e2);
    lemma_mul_inequality(s1 * e1, s2 * e2, a1);
    lemma_mul_is_commutative(s2 * e2, a1);
    lemma_mul_is_commutative(s2 * e2, a2);
    lemma_mul_inequality(a1, a2, s2 * e2);
    assert(s1 * e1 * a1 <= s2 * e2 * a2);
    lemma_div_is_ordered(s1 * e1 * a1, s2 * e2 * a2, APR_DENOMINATOR as int);
    lemma_mul_inequality(
        s1 * e1 * a1 / (APR_DENOMINATOR as int),
        s2 * e2 * a2 / (APR_DENOMINATOR as int),
        DIV_PRECISION as int,
    );
    lemma_div_is_ordered(
        s1 * e1 * a1 / (APR_DENOMINATOR as int) * (DIV_PRECISION as int),
        s2 * e2 * a2 / (APR_DENOMINATOR as int) * (DIV_PRECISION as int),
        ONE_YEAR_IN_SECONDS as int,
    );
}

} // verus!
