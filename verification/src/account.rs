//! The records of the ledger: pool, term, position, and the two pending
//! withdrawal queues.
//!
//! Identities (admin, token, custodial balances) are carried as plain `u64`
//! addresses under which the surrounding account store keeps the real
//! entities; the state machine never looks inside them, it only compares
//! them. All timestamps are clock readings in whole seconds and all
//! durations are in seconds, both non-negative.

use vstd::prelude::*;

use crate::error::ProgramErrorCode;

verus! {

/// One staking pool: the asset it accepts, the parties around it, and the
/// running total of principal ever staked into it.
#[derive(Clone, Copy, Debug, PartialEq, Eq, Structural)]
pub struct RuinStaking {
    /// Address under which the account store holds this pool.
    pub address: u64,
    /// Identity authorized to manage the pool. Immutable after creation.
    pub staking_admin: u64,
    /// Identity of the fungible asset the pool accepts.
    pub staking_token: u64,
    /// Custodial balance holding the reward inventory.
    pub distributor: u64,
    /// Custodial balance holding the staked principal.
    pub treasury: u64,
    /// Lifetime sum of all principal staked into the pool. Grows with every
    /// accepted stake and is never decremented: it tracks lifetime intake,
    /// not the balance currently locked.
    pub total_staked: u128,
    /// Emergency halt: while set, every state-mutating operation is refused.
    pub paused: bool,
}

/// The configuration attached to a pool: rates, windows and limits.
/// Created atomically with the pool and immutable thereafter.
#[derive(Clone, Copy, Debug, PartialEq, Eq, Structural)]
pub struct RuinStakingTerm {
    /// Address of the pool this term belongs to.
    pub ruin_staking: u64,
    /// Inclusive lower bound on a position's cumulative staked total.
    pub minimum_staking_amount: u64,
    /// Inclusive upper bound on a position's cumulative staked total.
    pub maximum_staking_amount: u64,
    /// First instant at which a stake is accepted (inclusive).
    pub start_join_time: i64,
    /// Last instant at which a stake is accepted (inclusive).
    pub end_join_time: i64,
    /// Seconds a deposit must remain before principal withdrawal opens.
    pub lock_duration: i64,
    /// Additional seconds a requested reward withdrawal must wait before it
    /// becomes claimable.
    pub delay_duration: i64,
    /// Annual reward rate in units where `10000` means 100%.
    pub apr: u32,
    /// Declared capacity of the term. Recorded, not enforced by the accrual
    /// logic.
    pub total_slot: u8,
}

/// One user's position under a (pool, term) pair.
#[derive(Clone, Copy, Debug, PartialEq, Eq, Structural)]
pub struct UserStaked {
    /// Cumulative principal currently staked.
    pub total_staked: u64,
    /// Clock reading of the most recent stake. Re-stamped on every
    /// additional deposit, so the lock is measured from the latest one.
    /// Zero until the first deposit.
    pub join_time: i64,
    /// Watermark through which rewards have been checkpointed. Zero until
    /// accrual first runs.
    pub updated_time: i64,
}

/// Accumulated rewards awaiting their delayed release.
///
/// `pending_rewards` is kept in fixed point, scaled by [`crate::reward::DIV_PRECISION`],
/// so sub-unit accrual is not lost between checkpoints. A release divides the
/// scale back out and the remainder below one token unit is forfeited.
#[derive(Clone, Copy, Debug, PartialEq, Eq, Structural)]
pub struct PendingRewardWithdrawl {
    /// Scaled reward amount awaiting release.
    pub pending_rewards: u128,
    /// Clock reading from which the amount may be released; zero means the
    /// queue was never armed.
    pub claimable_at: i64,
}

/// Accumulated principal awaiting its delayed release.
#[derive(Clone, Copy, Debug, PartialEq, Eq, Structural)]
pub struct PendingWithdrawl {
    /// Principal amount awaiting release.
    pub pending_tokens: u64,
    /// Clock reading from which the amount may be released; zero means the
    /// queue was never armed.
    pub claimable_at: i64,
}

impl RuinStaking {
    /// A freshly created pool: nothing staked, not paused.
    pub fn new(
        address: u64,
        staking_admin: u64,
        staking_token: u64,
        distributor: u64,
        treasury: u64,
    ) -> (pool: RuinStaking)
        ensures
            pool == (RuinStaking {
                address,
                staking_admin,
                staking_token,
                distributor,
                treasury,
                total_staked: 0,
                paused: false,
            }),
    {
        RuinStaking {
            address,
            staking_admin,
            staking_token,
            distributor,
            treasury,
            total_staked: 0,
            paused: false,
        }
    }
}

impl RuinStakingTerm {
    /// The term's internal invariant: the join window is well ordered, all
    /// times are clock readings (non-negative), durations are non-negative,
    /// and the annual rate is positive. Creation establishes it and nothing
    /// mutates a term afterwards.
    pub open spec fn wf(self) -> bool {
        &&& 0 <= self.start_join_time < self.end_join_time
        &&& 0 <= self.lock_duration
        &&& 0 <= self.delay_duration
        &&& self.apr >= 1
    }

    /// Creates the configuration record for a pool, refusing a zero annual
    /// rate and a join window that does not end after it starts.
    pub fn new(
        ruin_staking: u64,
        minimum_staking_amount: u64,
        maximum_staking_amount: u64,
        start_join_time: i64,
        end_join_time: i64,
        lock_duration: i64,
        delay_duration: i64,
        apr: u32,
        total_slot: u8,
    ) -> (result: Result<RuinStakingTerm, ProgramErrorCode>)
        requires
            start_join_time >= 0,
            lock_duration >= 0,
            delay_duration >= 0,
        ensures
            match result {
                Ok(term) => {
                    &&& apr > 0
                    &&& end_join_time > start_join_time
                    &&& term == (RuinStakingTerm {
                        ruin_staking,
                        minimum_staking_amount,
                        maximum_staking_amount,
                        start_join_time,
                        end_join_time,
                        lock_duration,
                        delay_duration,
                        apr,
                        total_slot,
                    })
                    &&& term.wf()
                },
                Err(e) => {
                    &&& (e == ProgramErrorCode::InvalidStakingAPR <==> apr == 0)
                    &&& (e == ProgramErrorCode::InvalidJoiningTime <==> (apr > 0
                        && end_join_time <= start_join_time))
                },
            },
    {
        if apr == 0 {
            return Err(ProgramErrorCode::InvalidStakingAPR);
        }
        if end_join_time <= start_join_time {
            return Err(ProgramErrorCode::InvalidJoiningTime);
        }
        Ok(RuinStakingTerm {
            ruin_staking,
            minimum_staking_amount,
            maximum_staking_amount,
            start_join_time,
            end_join_time,
            lock_duration,
            delay_duration,
            apr,
            total_slot,
        })
    }
}

impl UserStaked {
    /// The position's internal invariant: its timestamps are clock readings
    /// (or zero while the field was never stamped).
    pub open spec fn wf(self) -> bool {
        &&& 0 <= self.join_time
        &&& 0 <= self.updated_time
    }

    /// A position before its first deposit.
    pub fn new() -> (position: UserStaked)
        ensures
            position == (UserStaked { total_staked: 0, join_time: 0, updated_time: 0 }),
            position.wf(),
    {
        UserStaked { total_staked: 0, join_time: 0, updated_time: 0 }
    }
}

impl PendingRewardWithdrawl {
    /// The queue's internal invariant: its timer is a clock reading or zero.
    pub open spec fn wf(self) -> bool {
        0 <= self.claimable_at
    }

    /// An idle reward queue: nothing pending, timer never armed.
    pub fn new() -> (queue: PendingRewardWithdrawl)
        ensures
            queue == (PendingRewardWithdrawl { pending_rewards: 0, claimable_at: 0 }),
            queue.wf(),
    {
        PendingRewardWithdrawl { pending_rewards: 0, claimable_at: 0 }
    }
}

impl PendingWithdrawl {
    /// The queue's internal invariant: its timer is a clock reading or zero.
    pub open spec fn wf(self) -> bool {
        0 <= self.claimable_at
    }

    /// An idle principal queue: nothing pending, timer never armed.
    pub fn new() -> (queue: PendingWithdrawl)
        ensures
            queue == (PendingWithdrawl { pending_tokens: 0, claimable_at: 0 }),
            queue.wf(),
    {
        PendingWithdrawl { pending_tokens: 0, claimable_at: 0 }
    }
}

} // verus!
