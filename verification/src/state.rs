//! The two persisted records: the pool-wide state and a participant's ledger.

use vstd::prelude::*;

verus! {

/// Risk parameter that a freshly initialized pool starts with.
pub const DEFAULT_DELTA_THRESHOLD: u64 = 100;

/// Pool-wide record: one per deployment.
#[derive(Clone, Copy, Debug, PartialEq, Eq, Structural)]
pub struct State {
    /// Seed byte of the delegated custody authority that this state owns.
    pub bump: u8,
    /// Sum of all participants' staked amounts.
    pub total_staked: u64,
    /// Last reward-accrual checkpoint.
    pub last_update: i64,
    /// Last rebalance checkpoint.
    pub last_rebalance: i64,
    /// Governance-controlled risk parameter.
    pub allowed_delta_threshold: u64,
}

/// A participant's ledger.
#[derive(Clone, Copy, Debug, PartialEq, Eq, Structural)]
pub struct UserStake {
    /// Currently staked balance.
    pub amount: u64,
    /// Time of the participant's most recent stake or unstake.
    pub last_update: i64,
}

/// Creates the pool state: nothing staked, both checkpoints at `now`, the
/// risk parameter at its default.
pub fn initialize(bump: u8, now: i64) -> (state: State)
    ensures
        state == (State {
            bump,
            total_staked: 0,
            last_update: now,
            last_rebalance: now,
            allowed_delta_threshold: DEFAULT_DELTA_THRESHOLD,
        }),
{
    State {
        bump,
        total_staked: 0,
        last_update: now,
        last_rebalance: now,
        allowed_delta_threshold: DEFAULT_DELTA_THRESHOLD,
    }
}

/// Stamps the rebalance checkpoint with `now`; no balance moves.
pub fn rebalance(state: &mut State, now: i64)
    ensures
        *final(state) == (State { last_rebalance: now, ..*old(state) }),
{
    state.last_rebalance = now;
}

} // verus!
