//! The pool as a whole, and what every stake and unstake preserves: the pool
//! total equals the sum of the participants' balances.
//!
//! The operations themselves see one participant's ledger at a time. The
//! model here puts all ledgers side by side, replays requests on them with
//! the effects that the operations' contracts state, and proves the
//! reconciliation for every sequence of requests.

use vstd::prelude::*;
use crate::error::{CustodyError, CustomError};
use crate::stake::{
    credit_overflows,
    stake_credited,
    stake_debited,
    stake_refusal,
    state_credited,
    state_debited,
    unstake_refusal,
};
use crate::state::{State, UserStake};

verus! {

/// Sum of the staked balances of all participants.
pub open spec fn staked_sum(stakes: Seq<UserStake>) -> int
    decreases stakes.len(),
{
    if stakes.len() == 0 {
        0
    } else {
        staked_sum(stakes.drop_last()) + stakes.last().amount
    }
}

/// The pool state together with the ledger of every participant.
pub struct Pool {
    pub state: State,
    pub stakes: Seq<UserStake>,
}

/// A request by the participant at index `who`, with the answer that the
/// custody primitive gives to the instruction it issues.
pub enum Request {
    Stake { who: int, amount: u64, now: i64, custody: Result<(), CustodyError> },
    StakeWithMultipleAssets {
        who: int,
        amount: u64,
        conversion_rate: u64,
        now: i64,
        custody: Result<(), CustodyError>,
    },
    Unstake { who: int, amount: u64, now: i64, custody: Result<(), CustodyError> },
}

impl Pool {
    /// The reconciliation invariant: the total is the sum of the balances.
    pub open spec fn reconciled(self) -> bool {
        self.state.total_staked == staked_sum(self.stakes)
    }

    /// The pool after participant `who` has been credited with `credit`.
    pub open spec fn credited(self, who: int, credit: int, now: i64) -> Pool {
        Pool {
            state: state_credited(self.state, credit),
            stakes: self.stakes.update(who, stake_credited(self.stakes[who], credit, now)),
        }
    }

    /// The pool after `amount` has been taken from participant `who`.
    pub open spec fn debited(self, who: int, amount: u64, now: i64) -> Pool {
        Pool {
            state: state_debited(self.state, amount),
            stakes: self.stakes.update(who, stake_debited(self.stakes[who], amount, now)),
        }
    }

    /// The pool after one request. A request that names no participant, that
    /// the operation refuses, or whose custody instruction fails leaves the
    /// pool as it was.
    pub open spec fn after(self, request: Request) -> Pool {
        match request {
            Request::Stake { who, amount, now, custody } => {
                if 0 <= who < self.stakes.len() && custody is Ok && stake_refusal(
                    self.state,
                    self.stakes[who],
                    amount,
                ) is None {
                    self.credited(who, amount as int, now)
                } else {
                    self
                }
            },
            Request::StakeWithMultipleAssets { who, amount, conversion_rate, now, custody } => {
                if 0 <= who < self.stakes.len() && custody is Ok && amount * conversion_rate
                    <= u64::MAX && !credit_overflows(
                    self.state,
                    self.stakes[who],
                    amount * conversion_rate,
                ) {
                    self.credited(who, amount * conversion_rate, now)
                } else {
                    self
                }
            },
            Request::Unstake { who, amount, now, custody } => {
                if 0 <= who < self.stakes.len() && custody is Ok && unstake_refusal(
                    self.state,
                    self.stakes[who],
                    amount,
                    now,
                ) is None {
                    self.debited(who, amount, now)
                } else {
                    self
                }
            },
        }
    }

    /// The pool after a sequence of requests, first to last.
    pub open spec fn after_all(self, requests: Seq<Request>) -> Pool
        decreases requests.len(),
    {
        if requests.len() == 0 {
            self
        } else {
            self.after_all(requests.drop_last()).after(requests.last())
        }
    }
}

/// Replacing one ledger changes the sum by the difference of the two
/// balances.
pub proof fn lemma_staked_sum_update(stakes: Seq<UserStake>, who: int, replacement: UserStake)
    requires
        0 <= who < stakes.len(),
    ensures
        staked_sum(stakes.update(who, replacement)) == staked_sum(stakes) - stakes[who].amount
            + replacement.amount,
    decreases stakes.len(),
{
    let updated = stakes.update(who, replacement);
    if who == stakes.len() - 1 {
        assert(updated.drop_last() =~= stakes.drop_last());
    } else {
        assert(updated.drop_last() =~= stakes.drop_last().update(who, replacement));
        lemma_staked_sum_update(stakes.drop_last(), who, replacement);
    }
}

/// The sum of the balances is never below zero.
pub proof fn lemma_staked_sum_nonnegative(stakes: Seq<UserStake>)
    ensures
        0 <= staked_sum(stakes),
    decreases stakes.len(),
{
    if stakes.len() > 0 {
        lemma_staked_sum_nonnegative(stakes.drop_last());
    }
}

/// No balance exceeds the sum of all balances.
pub proof fn lemma_staked_sum_bounds(stakes: Seq<UserStake>, who: int)
    requires
        0 <= who < stakes.len(),
    ensures
        stakes[who].amount <= staked_sum(stakes),
    decreases stakes.len(),
{
    if who == stakes.len() - 1 {
        lemma_staked_sum_nonnegative(stakes.drop_last());
    } else {
        lemma_staked_sum_bounds(stakes.drop_last(), who);
    }
}

/// In a reconciled pool no participant's balance exceeds the pool total.
pub proof fn lemma_balance_within_total(pool: Pool, who: int)
    requires
        pool.reconciled(),
        0 <= who < pool.stakes.len(),
    ensures
        pool.stakes[who].amount <= pool.state.total_staked,
{
    lemma_staked_sum_bounds(pool.stakes, who);
}

/// In a reconciled pool a withdrawal that passes the balance gate and the
/// time gate never fails on the pool total.
pub proof fn lemma_unstake_never_underflows(pool: Pool, who: int, amount: u64, now: i64)
    requires
        pool.reconciled(),
        0 <= who < pool.stakes.len(),
    ensures
        unstake_refusal(pool.state, pool.stakes[who], amount, now) != Some(
            CustomError::ArithmeticUnderflow,
        ),
{
    lemma_balance_within_total(pool, who);
}

/// One request keeps a reconciled pool reconciled.
pub proof fn lemma_request_conserves(pool: Pool, request: Request)
    requires
        pool.reconciled(),
    ensures
        pool.after(request).reconciled(),
        pool.after(request).stakes.len() == pool.stakes.len(),
{
    match request {
        Request::Stake { who, amount, now, custody } => {
            if 0 <= who < pool.stakes.len() {
                lemma_staked_sum_update(
                    pool.stakes,
                    who,
                    stake_credited(pool.stakes[who], amount as int, now),
                );
            }
        },
        Request::StakeWithMultipleAssets { who, amount, conversion_rate, now, custody } => {
            if 0 <= who < pool.stakes.len() {
                lemma_staked_sum_update(
                    pool.stakes,
                    who,
                    stake_credited(pool.stakes[who], amount * conversion_rate, now),
                );
            }
        },
        Request::Unstake { who, amount, now, custody } => {
            if 0 <= who < pool.stakes.len() {
                lemma_staked_sum_update(
                    pool.stakes,
                    who,
                    stake_debited(pool.stakes[who], amount, now),
                );
            }
        },
    }
}

/// Conservation: after any sequence of stakes and unstakes, successful or
/// not, the pool total equals the sum of all participants' balances.
pub proof fn lemma_conservation(pool: Pool, requests: Seq<Request>)
    requires
        pool.reconciled(),
    ensures
        pool.after_all(requests).reconciled(),
        pool.after_all(requests).stakes.len() == pool.stakes.len(),
    decreases requests.len(),
{
    if requests.len() > 0 {
        lemma_conservation(pool, requests.drop_last());
        lemma_request_conserves(pool.after_all(requests.drop_last()), requests.last());
    }
}

} // verus!
