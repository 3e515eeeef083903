//! Governance: a supermajority of votes replaces the risk parameter.

use vstd::prelude::*;
use crate::error::CustomError;
use crate::state::State;

verus! {

/// Least share of yes-votes, in percent rounded down, that carries a
/// proposal.
pub const SUPERMAJORITY_PERCENT: u64 = 60;

/// Whether the yes-votes reach the supermajority of the votes cast.
pub open spec fn supermajority(yes_votes: u64, total_votes: u64) -> bool {
    yes_votes * 100 / (total_votes as int) >= SUPERMAJORITY_PERCENT
}

/// Sets the risk parameter to `new_threshold` if the yes-votes reach the
/// supermajority, whatever `new_threshold` is. If the yes-votes are so many
/// that their hundredfold leaves the range of a `u64`, the call fails with
/// `ArithmeticOverflow`; short of the supermajority it fails with
/// `NotEnoughVotes`. A failure changes nothing.
pub fn vote_on_risk_params(
    state: &mut State,
    new_threshold: u64,
    total_votes: u64,
    yes_votes: u64,
) -> (r: Result<(), CustomError>)
    requires
        total_votes > 0,
    ensures
        yes_votes * 100 > u64::MAX ==> (r matches Err(CustomError::ArithmeticOverflow))
            && *final(state) == *old(state),
        yes_votes * 100 <= u64::MAX ==> (r is Ok <==> supermajority(yes_votes, total_votes)),
        match r {
            Ok(_) => *final(state) == (State {
                allowed_delta_threshold: new_threshold,
                ..*old(state)
            }),
            Err(e) => {
                &&& e == CustomError::ArithmeticOverflow || e == CustomError::NotEnoughVotes
                &&& (e == CustomError::ArithmeticOverflow <==> yes_votes * 100 > u64::MAX)
                &&& *final(state) == *old(state)
            },
        },
{
    let scaled = match yes_votes.checked_mul(100) {
        Some(scaled) => scaled,
        None => return Err(CustomError::ArithmeticOverflow),
    };
    if scaled / total_votes >= SUPERMAJORITY_PERCENT {
        state.allowed_delta_threshold = new_threshold;
        Ok(())
    } else {
        Err(CustomError::NotEnoughVotes)
    }
}

} // verus!
