//! Errors surfaced by the staking state machine.

use vstd::prelude::*;

verus! {

/// Every way an operation of the ledger can be refused.
///
/// Each operation checks its preconditions before it mutates anything, so an
/// error always leaves the pool, the position and the queues exactly as they
/// were.
#[derive(Clone, Copy, Debug, PartialEq, Eq, Structural)]
pub enum ProgramErrorCode {
    /// A withdrawal request asks for more than the position has staked.
    ExceedsCurrentStakingAmount,
    /// A stake arrived outside the `[start_join_time, end_join_time]` window.
    StakingNotStartedOrEnded,
    /// A stake would lift the position above `maximum_staking_amount`.
    MaximumAmountExceeds,
    /// A stake would leave the position below `minimum_staking_amount`.
    MinimumAmountNotReached,
    /// A stake asks for more than the user's token balance holds.
    ExceedsCurrentBalance,
    /// A term was created with a zero annual rate.
    InvalidStakingAPR,
    /// A term was created with `end_join_time` not after `start_join_time`.
    InvalidJoiningTime,
    /// The term handed to an operation does not belong to the pool handed
    /// beside it.
    InvalidStakingTerms,
    /// The pool's emergency halt flag is set.
    PoolPaused,
    /// A checked arithmetic step would overflow its integer type.
    ArithmeticOverflow,
}

} // verus!
