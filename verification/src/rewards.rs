//! Reward engine: four ways to size a reward, all minted through
//! [`mint_rewards`].
//!
//! None of them limits how often it may be called: a second call re-mints
//! from the totals and readings it is given.

use vstd::prelude::*;
use crate::custody::{mint_rewards, CustodyInstruction, PendingMint};
use crate::error::CustomError;
use crate::state::State;

verus! {

/// Reward per staked unit and time unit.
pub const REWARD_RATE: u64 = 1;

/// Divisor that turns a funding rate into a share of the pool total.
pub const FUNDING_RATE_SCALE: u64 = 100;

/// Maker volume that earns one unit of reward.
pub const MAKER_VOLUME_PER_REWARD: u64 = 1000;

/// Time units from the pool's last reward checkpoint to `now`.
pub open spec fn elapsed_since_update(state: State, now: i64) -> int {
    now - state.last_update
}

/// The reward that accrues over the time from the last checkpoint to `now`.
pub open spec fn accrued_reward(state: State, now: i64) -> int {
    state.total_staked * REWARD_RATE * elapsed_since_update(state, now)
}

/// Why a distribution at time `now` fails, if it does: the elapsed time is
/// below zero, or it or the reward is too large to represent.
pub open spec fn distribution_failure(state: State, now: i64) -> Option<CustomError> {
    if elapsed_since_update(state, now) < 0 {
        Some(CustomError::ArithmeticUnderflow)
    } else if elapsed_since_update(state, now) > i64::MAX || accrued_reward(state, now)
        > u64::MAX {
        Some(CustomError::ArithmeticOverflow)
    } else {
        None
    }
}

/// The reward that a funding rate earns on the pool total, rounded towards
/// zero.
pub open spec fn funding_reward(state: State, funding_rate: u64) -> int {
    state.total_staked * funding_rate / (FUNDING_RATE_SCALE as int)
}

/// Distributes the reward accrued since the last checkpoint.
///
/// The reward is the pool total times `REWARD_RATE` times the time elapsed
/// since the checkpoint. On success its mint is issued and the checkpoint
/// moves to `now`. A failure changes nothing, so the checkpoint never moves
/// back.
pub fn distribute_rewards(state: &mut State, now: i64) -> (r: Result<PendingMint, CustomError>)
    ensures
        match r {
            Ok(pending) => {
                &&& distribution_failure(*old(state), now) is None
                &&& *final(state) == (State { last_update: now, ..*old(state) })
                &&& pending == (PendingMint {
                    instruction: CustodyInstruction::reward(
                        old(state).bump,
                        accrued_reward(*old(state), now) as u64,
                    ),
                    prior_state: *old(state),
                })
            },
            Err(e) => {
                &&& distribution_failure(*old(state), now) == Some(e)
                &&& *final(state) == *old(state)
            },
        },
        final(state).last_update >= old(state).last_update,
{
    let elapsed = match now.checked_sub(state.last_update) {
        Some(elapsed) => elapsed,
        None => {
            if now < state.last_update {
                return Err(CustomError::ArithmeticUnderflow);
            }
            return Err(CustomError::ArithmeticOverflow);
        },
    };
    if elapsed < 0 {
        return Err(CustomError::ArithmeticUnderflow);
    }
    let duration = elapsed as u64;
    let per_time_unit = match state.total_staked.checked_mul(REWARD_RATE) {
        Some(per_time_unit) => per_time_unit,
        None => return Err(CustomError::ArithmeticOverflow),
    };
    let reward = match per_time_unit.checked_mul(duration) {
        Some(reward) => reward,
        None => return Err(CustomError::ArithmeticOverflow),
    };
    let pending = mint_rewards(state, reward);
    state.last_update = now;
    Ok(pending)
}

/// Sizes a reward by the funding rate read from the market:
/// `total_staked * funding_rate / 100`, rounded towards zero. Fails with
/// `ArithmeticOverflow` if and only if the product leaves the range of a
/// `u64`. The pool state is only read.
pub fn update_rewards_based_on_funding(state: &State, funding_rate: u64) -> (r: Result<
    PendingMint,
    CustomError,
>)
    ensures
        match r {
            Ok(pending) => {
                &&& state.total_staked * funding_rate <= u64::MAX
                &&& pending == (PendingMint {
                    instruction: CustodyInstruction::reward(
                        state.bump,
                        funding_reward(*state, funding_rate) as u64,
                    ),
                    prior_state: *state,
                })
            },
            Err(e) => {
                &&& state.total_staked * funding_rate > u64::MAX
                &&& e == CustomError::ArithmeticOverflow
            },
        },
{
    match state.total_staked.checked_mul(funding_rate) {
        Some(scaled) => Ok(mint_rewards(state, scaled / FUNDING_RATE_SCALE)),
        None => Err(CustomError::ArithmeticOverflow),
    }
}

/// Mints the arbitrage profits read from the vault, unscaled.
pub fn distribute_arbitrage_profits(state: &State, total_profits: u64) -> (pending: PendingMint)
    ensures
        pending == (PendingMint {
            instruction: CustodyInstruction::reward(state.bump, total_profits),
            prior_state: *state,
        }),
{
    mint_rewards(state, total_profits)
}

/// Rewards liquidity providers with one unit per `MAKER_VOLUME_PER_REWARD`
/// of maker volume; the remainder is discarded.
pub fn reward_liquidity_providers(state: &State, maker_volume: u64) -> (pending: PendingMint)
    ensures
        pending == (PendingMint {
            instruction: CustodyInstruction::reward(
                state.bump,
                (maker_volume / MAKER_VOLUME_PER_REWARD) as u64,
            ),
            prior_state: *state,
        }),
{
    mint_rewards(state, maker_volume / MAKER_VOLUME_PER_REWARD)
}

} // verus!
