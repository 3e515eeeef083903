//! Custody link: the instructions that the pool hands to the external
//! value-transfer primitive, and what becomes of the ledger once the
//! primitive has answered.
//!
//! An operation first updates the ledger and only then yields an
//! instruction, so no instruction exists without a ledger update that
//! succeeded. The answer of the primitive is settled afterwards: on failure
//! the ledger goes back to what it held before the operation.

use vstd::prelude::*;
use crate::error::{CustodyError, CustomError};
use crate::state::{State, UserStake};

verus! {

/// A token holding that an instruction moves value from or to.
#[derive(Clone, Copy, Debug, PartialEq, Eq, Structural)]
pub enum Party {
    /// The participant's own holding.
    Participant,
    /// The pool's vault.
    Vault,
    /// The holding that rewards are minted to.
    Rewards,
}

/// Who signs an instruction.
#[derive(Clone, Copy, Debug, PartialEq, Eq, Structural)]
pub enum Authority {
    /// The participant signs for their own holding.
    Participant,
    /// The pool state signs through its delegated authority.
    Delegated { bump: u8 },
}

/// One request to the external value-transfer primitive.
#[derive(Clone, Copy, Debug, PartialEq, Eq, Structural)]
pub enum CustodyInstruction {
    /// Move `amount` between two holdings.
    Transfer { from: Party, to: Party, authority: Authority, amount: u64 },
    /// Create `amount` of new value in a holding.
    MintTo { to: Party, authority: Authority, amount: u64 },
}

impl CustodyInstruction {
    /// A participant's deposit into the vault, signed by the participant.
    pub open spec fn deposit(amount: u64) -> CustodyInstruction {
        CustodyInstruction::Transfer {
            from: Party::Participant,
            to: Party::Vault,
            authority: Authority::Participant,
            amount,
        }
    }

    /// A withdrawal from the vault to the participant, signed by the pool's
    /// delegated authority.
    pub open spec fn withdrawal(bump: u8, amount: u64) -> CustodyInstruction {
        CustodyInstruction::Transfer {
            from: Party::Vault,
            to: Party::Participant,
            authority: Authority::Delegated { bump },
            amount,
        }
    }

    /// A reward mint, signed by the pool's delegated authority.
    pub open spec fn reward(bump: u8, amount: u64) -> CustodyInstruction {
        CustodyInstruction::MintTo {
            to: Party::Rewards,
            authority: Authority::Delegated { bump },
            amount,
        }
    }
}

/// A transfer issued by a stake or unstake, with the ledger as it stood
/// before the operation.
#[derive(Clone, Copy, Debug, PartialEq, Eq, Structural)]
pub struct PendingTransfer {
    pub instruction: CustodyInstruction,
    pub prior_state: State,
    pub prior_stake: UserStake,
}

/// A reward mint issued by a distribution, with the pool state as it stood
/// before the operation.
#[derive(Clone, Copy, Debug, PartialEq, Eq, Structural)]
pub struct PendingMint {
    pub instruction: CustodyInstruction,
    pub prior_state: State,
}

impl PendingTransfer {
    /// Settles the answer of the custody primitive. A success keeps the
    /// ledger as the operation left it. A failure puts both records back to
    /// what they held before the operation and is reported under the
    /// matching error kind.
    pub fn settle(
        self,
        state: &mut State,
        user_stake: &mut UserStake,
        outcome: Result<(), CustodyError>,
    ) -> (r: Result<(), CustomError>)
        ensures
            match outcome {
                Ok(_) => {
                    &&& r is Ok
                    &&& *final(state) == *old(state)
                    &&& *final(user_stake) == *old(user_stake)
                },
                Err(e) => {
                    &&& r == Err::<(), CustomError>(CustomError::of_custody(e))
                    &&& *final(state) == self.prior_state
                    &&& *final(user_stake) == self.prior_stake
                },
            },
    {
        match outcome {
            Ok(()) => Ok(()),
            Err(e) => {
                *state = self.prior_state;
                *user_stake = self.prior_stake;
                Err(CustomError::from(e))
            },
        }
    }
}

impl PendingMint {
    /// Settles the answer of the custody primitive. A success keeps the pool
    /// state as the operation left it. A failure puts it back to what it
    /// held before the operation and is reported under the matching error
    /// kind.
    pub fn settle(self, state: &mut State, outcome: Result<(), CustodyError>) -> (r: Result<
        (),
        CustomError,
    >)
        ensures
            match outcome {
                Ok(_) => r is Ok && *final(state) == *old(state),
                Err(e) => {
                    &&& r == Err::<(), CustomError>(CustomError::of_custody(e))
                    &&& *final(state) == self.prior_state
                },
            },
    {
        match outcome {
            Ok(()) => Ok(()),
            Err(e) => {
                *state = self.prior_state;
                Err(CustomError::from(e))
            },
        }
    }
}

/// Issues the mint of `amount` to the rewards holding under the delegated
/// authority of `state`, recording `state` as what a failed mint goes back to.
pub fn mint_rewards(state: &State, amount: u64) -> (pending: PendingMint)
    ensures
        pending == (PendingMint {
            instruction: CustodyInstruction::reward(state.bump, amount),
            prior_state: *state,
        }),
{
    PendingMint {
        instruction: CustodyInstruction::MintTo {
            to: Party::Rewards,
            authority: Authority::Delegated { bump: state.bump },
            amount,
        },
        prior_state: *state,
    }
}

} // verus!
