use dnt_perpetual_token::{
    distribute_rewards, mint_rewards, stake, unstake, Authority, CustodyError, CustodyInstruction,
    CustomError, Party, PendingMint, State, UserStake,
};

fn pool() -> State {
    State { bump: 9, total_staked: 300, last_update: 10, last_rebalance: 4, allowed_delta_threshold: 100 }
}

#[test]
fn mint_rewards_is_signed_by_the_delegated_authority() {
    let pending = mint_rewards(&pool(), 77);
    assert_eq!(
        pending,
        PendingMint {
            instruction: CustodyInstruction::MintTo {
                to: Party::Rewards,
                authority: Authority::Delegated { bump: 9 },
                amount: 77,
            },
            prior_state: pool(),
        }
    );
}

#[test]
fn settled_success_keeps_the_stake() {
    let mut state = pool();
    let mut user = UserStake { amount: 20, last_update: 0 };
    let pending = stake(&mut state, &mut user, 5, 12).unwrap();
    assert_eq!(pending.settle(&mut state, &mut user, Ok(())), Ok(()));
    assert_eq!(state.total_staked, 305);
    assert_eq!(user, UserStake { amount: 25, last_update: 12 });
}

#[test]
fn failed_deposit_rolls_the_stake_back() {
    let mut state = pool();
    let mut user = UserStake { amount: 20, last_update: 0 };
    let pending = stake(&mut state, &mut user, 5, 12).unwrap();
    let result = pending.settle(&mut state, &mut user, Err(CustodyError::InsufficientFunds));
    assert_eq!(result, Err(CustomError::CustodyInsufficientFunds));
    assert_eq!(state, pool());
    assert_eq!(user, UserStake { amount: 20, last_update: 0 });
}

#[test]
fn failed_withdrawal_rolls_the_unstake_back() {
    let mut state = pool();
    let mut user = UserStake { amount: 20, last_update: 0 };
    let pending = unstake(&mut state, &mut user, 5, 100).unwrap();
    assert_eq!(state.total_staked, 295);
    let result = pending.settle(&mut state, &mut user, Err(CustodyError::AuthorizationFailed));
    assert_eq!(result, Err(CustomError::CustodyAuthorizationFailed));
    assert_eq!(state, pool());
    assert_eq!(user, UserStake { amount: 20, last_update: 0 });
}

#[test]
fn failed_mint_rolls_the_checkpoint_back() {
    let mut state = pool();
    let pending = distribute_rewards(&mut state, 15).unwrap();
    assert_eq!(state.last_update, 15);
    let result = pending.settle(&mut state, Err(CustodyError::AuthorizationFailed));
    assert_eq!(result, Err(CustomError::CustodyAuthorizationFailed));
    assert_eq!(state, pool());
}

#[test]
fn settled_mint_keeps_the_checkpoint() {
    let mut state = pool();
    let pending = distribute_rewards(&mut state, 15).unwrap();
    assert_eq!(pending.settle(&mut state, Ok(())), Ok(()));
    assert_eq!(state, State { last_update: 15, ..pool() });
}

#[test]
fn custody_errors_convert_to_their_kinds() {
    assert_eq!(
        CustomError::from(CustodyError::AuthorizationFailed),
        CustomError::CustodyAuthorizationFailed
    );
    assert_eq!(
        CustomError::from(CustodyError::InsufficientFunds),
        CustomError::CustodyInsufficientFunds
    );
}

#[test]
fn every_error_has_its_message() {
    assert_eq!(CustomError::InsufficientStake.message(), "Insufficient stake amount.");
    assert_eq!(
        CustomError::EarlyUnstakeNotAllowed.message(),
        "Early unstake is not allowed. Minimum staking duration not met."
    );
    assert_eq!(CustomError::NotEnoughVotes.message(), "Not enough votes for the proposal.");
    assert_eq!(CustomError::ArithmeticOverflow.message(), "Arithmetic overflow.");
    assert_eq!(CustomError::ArithmeticUnderflow.message(), "Arithmetic underflow.");
    assert_eq!(
        CustomError::CustodyAuthorizationFailed.message(),
        "Custody authorization failed."
    );
    assert_eq!(
        CustomError::CustodyInsufficientFunds.message(),
        "Insufficient funds in custody."
    );
    assert_eq!(
        CustomError::ZeroStakeAmount.message(),
        "Stake amount must be greater than zero."
    );
}
