//! Stake ledger: deposits into the pool and withdrawals from it.

use vstd::prelude::*;
use crate::custody::{Authority, CustodyInstruction, Party, PendingTransfer};
use crate::error::CustomError;
use crate::state::{State, UserStake};

verus! {

/// Least time that must have passed since a participant's last stake or
/// unstake before they may withdraw.
pub const MIN_STAKE_DURATION: i64 = 60;

/// Whether adding `credit` to the pool total or to the participant's balance
/// leaves the range of a `u64`.
pub open spec fn credit_overflows(state: State, user_stake: UserStake, credit: int) -> bool {
    state.total_staked + credit > u64::MAX || user_stake.amount + credit > u64::MAX
}

/// The pool state after `credit` has been added to its total.
pub open spec fn state_credited(state: State, credit: int) -> State {
    State { total_staked: (state.total_staked + credit) as u64, ..state }
}

/// The participant's ledger after `credit` has been added at time `now`.
pub open spec fn stake_credited(user_stake: UserStake, credit: int, now: i64) -> UserStake {
    UserStake { amount: (user_stake.amount + credit) as u64, last_update: now }
}

/// Why a stake of `amount` is refused, if it is: nothing is staked, or a
/// sum leaves the range of a `u64`.
pub open spec fn stake_refusal(state: State, user_stake: UserStake, amount: u64) -> Option<
    CustomError,
> {
    if amount == 0 {
        Some(CustomError::ZeroStakeAmount)
    } else if credit_overflows(state, user_stake, amount as int) {
        Some(CustomError::ArithmeticOverflow)
    } else {
        None
    }
}

/// Why a withdrawal of `amount` at time `now` is refused, if it is. The
/// checks come in this order: the balance, the time since the participant's
/// last activity, the range of that time, the pool total.
pub open spec fn unstake_refusal(state: State, user_stake: UserStake, amount: u64, now: i64)
    -> Option<CustomError> {
    let elapsed = now - user_stake.last_update;
    if amount > user_stake.amount {
        Some(CustomError::InsufficientStake)
    } else if elapsed < MIN_STAKE_DURATION {
        Some(CustomError::EarlyUnstakeNotAllowed)
    } else if elapsed > i64::MAX {
        Some(CustomError::ArithmeticOverflow)
    } else if amount > state.total_staked {
        Some(CustomError::ArithmeticUnderflow)
    } else {
        None
    }
}

/// The pool state after `amount` has been taken from its total.
pub open spec fn state_debited(state: State, amount: u64) -> State {
    State { total_staked: (state.total_staked - amount) as u64, ..state }
}

/// The participant's ledger after `amount` has been taken at time `now`.
pub open spec fn stake_debited(user_stake: UserStake, amount: u64, now: i64) -> UserStake {
    UserStake { amount: (user_stake.amount - amount) as u64, last_update: now }
}

/// Adds `credit` to both records and issues the deposit of `moved`.
fn credit_ledger(
    state: &mut State,
    user_stake: &mut UserStake,
    credit: u64,
    moved: u64,
    now: i64,
) -> (r: Result<PendingTransfer, CustomError>)
    ensures
        match r {
            Ok(pending) => {
                &&& !credit_overflows(*old(state), *old(user_stake), credit as int)
                &&& *final(state) == state_credited(*old(state), credit as int)
                &&& *final(user_stake) == stake_credited(*old(user_stake), credit as int, now)
                &&& pending == (PendingTransfer {
                    instruction: CustodyInstruction::deposit(moved),
                    prior_state: *old(state),
                    prior_stake: *old(user_stake),
                })
            },
            Err(e) => {
                &&& credit_overflows(*old(state), *old(user_stake), credit as int)
                &&& e == CustomError::ArithmeticOverflow
                &&& *final(state) == *old(state)
                &&& *final(user_stake) == *old(user_stake)
            },
        },
{
    let total = match state.total_staked.checked_add(credit) {
        Some(total) => total,
        None => return Err(CustomError::ArithmeticOverflow),
    };
    let balance = match user_stake.amount.checked_add(credit) {
        Some(balance) => balance,
        None => return Err(CustomError::ArithmeticOverflow),
    };
    let pending = PendingTransfer {
        instruction: CustodyInstruction::Transfer {
            from: Party::Participant,
            to: Party::Vault,
            authority: Authority::Participant,
            amount: moved,
        },
        prior_state: *state,
        prior_stake: *user_stake,
    };
    state.total_staked = total;
    user_stake.amount = balance;
    user_stake.last_update = now;
    Ok(pending)
}

/// Stakes `amount` at time `now`.
///
/// The pool total and the participant's balance both grow by `amount`, the
/// participant's last activity becomes `now`, and the deposit of `amount`
/// from the participant into the vault is issued. A stake of nothing is
/// refused with `ZeroStakeAmount`. If the pool total, or the balance, would
/// leave the range of a `u64`, the call fails with `ArithmeticOverflow`. A
/// refusal changes nothing and issues no deposit.
pub fn stake(state: &mut State, user_stake: &mut UserStake, amount: u64, now: i64) -> (r: Result<
    PendingTransfer,
    CustomError,
>)
    ensures
        amount == 0 ==> (r matches Err(CustomError::ZeroStakeAmount)) && *final(state) == *old(
            state,
        ) && *final(user_stake) == *old(user_stake),
        old(state).total_staked + amount > u64::MAX ==> (r matches Err(
            CustomError::ArithmeticOverflow,
        )) && *final(state) == *old(state) && *final(user_stake) == *old(user_stake),
        match r {
            Ok(pending) => {
                &&& stake_refusal(*old(state), *old(user_stake), amount) is None
                &&& *final(state) == state_credited(*old(state), amount as int)
                &&& *final(user_stake) == stake_credited(*old(user_stake), amount as int, now)
                &&& pending == (PendingTransfer {
                    instruction: CustodyInstruction::deposit(amount),
                    prior_state: *old(state),
                    prior_stake: *old(user_stake),
                })
            },
            Err(e) => {
                &&& stake_refusal(*old(state), *old(user_stake), amount) == Some(e)
                &&& *final(state) == *old(state)
                &&& *final(user_stake) == *old(user_stake)
            },
        },
{
    if amount == 0 {
        return Err(CustomError::ZeroStakeAmount);
    }
    credit_ledger(state, user_stake, amount, amount, now)
}

/// Stakes `amount` of an asset that counts `conversion_rate` accounting
/// units apiece.
///
/// The ledger is credited with the normalized amount, `amount *
/// conversion_rate`, while the deposit that is issued moves the raw `amount`
/// of the asset itself. If the product, the pool total or the balance would
/// leave the range of a `u64`, the call fails with `ArithmeticOverflow` and
/// changes nothing.
pub fn stake_with_multiple_assets(
    state: &mut State,
    user_stake: &mut UserStake,
    amount: u64,
    conversion_rate: u64,
    now: i64,
) -> (r: Result<PendingTransfer, CustomError>)
    ensures
        match r {
            Ok(pending) => {
                &&& amount * conversion_rate <= u64::MAX
                &&& !credit_overflows(*old(state), *old(user_stake), amount * conversion_rate)
                &&& *final(state) == state_credited(*old(state), amount * conversion_rate)
                &&& *final(user_stake) == stake_credited(
                    *old(user_stake),
                    amount * conversion_rate,
                    now,
                )
                &&& pending == (PendingTransfer {
                    instruction: CustodyInstruction::deposit(amount),
                    prior_state: *old(state),
                    prior_stake: *old(user_stake),
                })
            },
            Err(e) => {
                &&& amount * conversion_rate > u64::MAX || credit_overflows(
                    *old(state),
                    *old(user_stake),
                    amount * conversion_rate,
                )
                &&& e == CustomError::ArithmeticOverflow
                &&& *final(state) == *old(state)
                &&& *final(user_stake) == *old(user_stake)
            },
        },
{
    match amount.checked_mul(conversion_rate) {
        Some(normalized) => credit_ledger(state, user_stake, normalized, amount, now),
        None => Err(CustomError::ArithmeticOverflow),
    }
}

/// Unstakes `amount` at time `now`.
///
/// The call is refused with `InsufficientStake` if and only if `amount`
/// exceeds the participant's balance; otherwise with
/// `EarlyUnstakeNotAllowed` if and only if fewer than `MIN_STAKE_DURATION`
/// time units have passed since the participant's last stake or unstake.
/// Past both gates it fails only where a checked operation does: with
/// `ArithmeticOverflow` if the elapsed time is more than a timestamp can
/// hold, with `ArithmeticUnderflow` if `amount` exceeds the pool total. A
/// refusal changes nothing. On success the pool total and the balance both
/// shrink by `amount`, the participant's last activity becomes `now`, and the
/// withdrawal of `amount` from the vault to the participant is issued under
/// the pool's delegated authority.
pub fn unstake(state: &mut State, user_stake: &mut UserStake, amount: u64, now: i64) -> (r: Result<
    PendingTransfer,
    CustomError,
>)
    ensures
        (r matches Err(CustomError::InsufficientStake)) <==> amount > old(user_stake).amount,
        (r matches Err(CustomError::EarlyUnstakeNotAllowed)) <==> amount <= old(user_stake).amount
            && now - old(user_stake).last_update < MIN_STAKE_DURATION,
        r is Ok <==> amount <= old(user_stake).amount && amount <= old(state).total_staked
            && MIN_STAKE_DURATION <= now - old(user_stake).last_update <= i64::MAX,
        match r {
            Ok(pending) => {
                &&& unstake_refusal(*old(state), *old(user_stake), amount, now) is None
                &&& *final(state) == state_debited(*old(state), amount)
                &&& *final(user_stake) == stake_debited(*old(user_stake), amount, now)
                &&& pending == (PendingTransfer {
                    instruction: CustodyInstruction::withdrawal(old(state).bump, amount),
                    prior_state: *old(state),
                    prior_stake: *old(user_stake),
                })
            },
            Err(e) => {
                &&& unstake_refusal(*old(state), *old(user_stake), amount, now) == Some(e)
                &&& *final(state) == *old(state)
                &&& *final(user_stake) == *old(user_stake)
            },
        },
        final(user_stake).last_update >= old(user_stake).last_update,
{
    if amount > user_stake.amount {
        return Err(CustomError::InsufficientStake);
    }
    match now.checked_sub(user_stake.last_update) {
        Some(elapsed) => {
            if elapsed < MIN_STAKE_DURATION {
                return Err(CustomError::EarlyUnstakeNotAllowed);
            }
        },
        None => {
            if now < user_stake.last_update {
                return Err(CustomError::EarlyUnstakeNotAllowed);
            }
            return Err(CustomError::ArithmeticOverflow);
        },
    }
    let total = match state.total_staked.checked_sub(amount) {
        Some(total) => total,
        None => return Err(CustomError::ArithmeticUnderflow),
    };
    let pending = PendingTransfer {
        instruction: CustodyInstruction::Transfer {
            from: Party::Vault,
            to: Party::Participant,
            authority: Authority::Delegated { bump: state.bump },
            amount,
        },
        prior_state: *state,
        prior_stake: *user_stake,
    };
    state.total_staked = total;
    user_stake.amount = user_stake.amount - amount;
    user_stake.last_update = now;
    Ok(pending)
}

/// What a participant has staked can be withdrawn again: once the minimum
/// duration has passed since a successful stake of `amount`, a withdrawal of
/// `amount` is not refused, and it puts the pool total and the balance back
/// to what they were before the stake.
pub proof fn lemma_stake_then_unstake_restores(
    state: State,
    user_stake: UserStake,
    amount: u64,
    now: i64,
    later: i64,
)
    requires
        stake_refusal(state, user_stake, amount) is None,
        MIN_STAKE_DURATION <= later - now <= i64::MAX,
    ensures
        unstake_refusal(
            state_credited(state, amount as int),
            stake_credited(user_stake, amount as int, now),
            amount,
            later,
        ) is None,
        state_debited(state_credited(state, amount as int), amount) == state,
        stake_debited(stake_credited(user_stake, amount as int, now), amount, later) == (UserStake {
            last_update: later,
            ..user_stake
        }),
{
}

} // verus!
