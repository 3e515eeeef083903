//! Error kinds. Each one aborts the whole operation that reports it.

use vstd::prelude::*;

verus! {

/// Failure reported by the custody collaborator for one instruction.
#[derive(Clone, Copy, Debug, PartialEq, Eq, Structural)]
pub enum CustodyError {
    /// The signing authority is not the one the source answers to.
    AuthorizationFailed,
    /// The source holds less than the amount to move.
    InsufficientFunds,
}

/// Why an operation failed.
#[derive(Clone, Copy, Debug, PartialEq, Eq, Structural)]
pub enum CustomError {
    /// A withdrawal exceeds the participant's staked balance.
    InsufficientStake,
    /// The minimum time since the participant's last activity has not passed.
    EarlyUnstakeNotAllowed,
    /// The yes-votes fall short of the supermajority.
    NotEnoughVotes,
    /// A checked operation left the representable range upwards.
    ArithmeticOverflow,
    /// A checked operation left the representable range downwards.
    ArithmeticUnderflow,
    /// The custody collaborator rejected the signing authority.
    CustodyAuthorizationFailed,
    /// The custody collaborator found the source short of funds.
    CustodyInsufficientFunds,
    /// A stake of nothing was asked for.
    ZeroStakeAmount,
}

impl CustomError {
    /// The error kind under which a custody failure is reported.
    pub open spec fn of_custody(e: CustodyError) -> CustomError {
        match e {
            CustodyError::AuthorizationFailed => CustomError::CustodyAuthorizationFailed,
            CustodyError::InsufficientFunds => CustomError::CustodyInsufficientFunds,
        }
    }

    /// The text shown to a caller for each error kind.
    pub open spec fn message_text(self) -> Seq<char> {
        match self {
            CustomError::InsufficientStake => "Insufficient stake amount."@,
            CustomError::EarlyUnstakeNotAllowed =>
                "Early unstake is not allowed. Minimum staking duration not met."@,
            CustomError::NotEnoughVotes => "Not enough votes for the proposal."@,
            CustomError::ArithmeticOverflow => "Arithmetic overflow."@,
            CustomError::ArithmeticUnderflow => "Arithmetic underflow."@,
            CustomError::CustodyAuthorizationFailed => "Custody authorization failed."@,
            CustomError::CustodyInsufficientFunds => "Insufficient funds in custody."@,
            CustomError::ZeroStakeAmount => "Stake amount must be greater than zero."@,
        }
    }

    /// Human-readable description of the error.
    pub fn message(&self) -> (text: &'static str)
        ensures
            text@ == self.message_text(),
    {
        match self {
            CustomError::InsufficientStake => "Insufficient stake amount.",
            CustomError::EarlyUnstakeNotAllowed =>
                "Early unstake is not allowed. Minimum staking duration not met.",
            CustomError::NotEnoughVotes => "Not enough votes for the proposal.",
            CustomError::ArithmeticOverflow => "Arithmetic overflow.",
            CustomError::ArithmeticUnderflow => "Arithmetic underflow.",
            CustomError::CustodyAuthorizationFailed => "Custody authorization failed.",
            CustomError::CustodyInsufficientFunds => "Insufficient funds in custody.",
            CustomError::ZeroStakeAmount => "Stake amount must be greater than zero.",
        }
    }
}

impl From<CustodyError> for CustomError {
    /// Propagates a custody failure under the matching error kind.
    fn from(e: CustodyError) -> (r: CustomError) {
        match e {
            CustodyError::AuthorizationFailed => CustomError::CustodyAuthorizationFailed,
            CustodyError::InsufficientFunds => CustomError::CustodyInsufficientFunds,
        }
    }
}

impl vstd::std_specs::convert::FromSpecImpl<CustodyError> for CustomError {
    open spec fn obeys_from_spec() -> bool {
        true
    }

    open spec fn from_spec(e: CustodyError) -> CustomError {
        CustomError::of_custody(e)
    }
}

} // verus!
