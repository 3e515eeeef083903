use dnt_perpetual_token::{
    initialize, stake, stake_with_multiple_assets, unstake, Authority, CustodyInstruction,
    CustomError, Party, PendingTransfer, State, UserStake,
};

fn pool_with(total_staked: u64) -> State {
    State { bump: 254, total_staked, last_update: 0, last_rebalance: 0, allowed_delta_threshold: 100 }
}

#[test]
fn initialize_sets_defaults() {
    let state = initialize(251, 1_700_000_000);
    assert_eq!(
        state,
        State {
            bump: 251,
            total_staked: 0,
            last_update: 1_700_000_000,
            last_rebalance: 1_700_000_000,
            allowed_delta_threshold: 100,
        }
    );
}

#[test]
fn stake_credits_both_records_and_issues_deposit() {
    let mut state = pool_with(1_000);
    let mut user = UserStake { amount: 40, last_update: 3 };
    let pending = stake(&mut state, &mut user, 100, 17).unwrap();
    assert_eq!(state, State { total_staked: 1_100, ..pool_with(1_000) });
    assert_eq!(user, UserStake { amount: 140, last_update: 17 });
    assert_eq!(
        pending,
        PendingTransfer {
            instruction: CustodyInstruction::Transfer {
                from: Party::Participant,
                to: Party::Vault,
                authority: Authority::Participant,
                amount: 100,
            },
            prior_state: pool_with(1_000),
            prior_stake: UserStake { amount: 40, last_update: 3 },
        }
    );
}

#[test]
fn stake_of_nothing_is_refused_and_changes_nothing() {
    let mut state = pool_with(1_000);
    let mut user = UserStake { amount: 40, last_update: 3 };
    let result = stake(&mut state, &mut user, 0, 17);
    assert_eq!(result, Err(CustomError::ZeroStakeAmount));
    assert_eq!(state, pool_with(1_000));
    assert_eq!(user, UserStake { amount: 40, last_update: 3 });
}

#[test]
fn stake_of_one_unit_succeeds() {
    let mut state = pool_with(1_000);
    let mut user = UserStake { amount: 40, last_update: 3 };
    assert!(stake(&mut state, &mut user, 1, 17).is_ok());
    assert_eq!(state.total_staked, 1_001);
    assert_eq!(user, UserStake { amount: 41, last_update: 17 });
}

#[test]
fn stake_overflowing_total_fails_and_changes_nothing() {
    let mut state = pool_with(u64::MAX - 5);
    let mut user = UserStake { amount: 10, last_update: 3 };
    let result = stake(&mut state, &mut user, 6, 99);
    assert_eq!(result, Err(CustomError::ArithmeticOverflow));
    assert_eq!(state, pool_with(u64::MAX - 5));
    assert_eq!(user, UserStake { amount: 10, last_update: 3 });
}

#[test]
fn stake_up_to_the_maximum_total_succeeds() {
    let mut state = pool_with(u64::MAX - 5);
    let mut user = UserStake { amount: 10, last_update: 3 };
    assert!(stake(&mut state, &mut user, 5, 99).is_ok());
    assert_eq!(state.total_staked, u64::MAX);
    assert_eq!(user, UserStake { amount: 15, last_update: 99 });
}

#[test]
fn stake_overflowing_balance_fails_and_changes_nothing() {
    let mut state = pool_with(7);
    let mut user = UserStake { amount: u64::MAX, last_update: 3 };
    let result = stake(&mut state, &mut user, 1, 99);
    assert_eq!(result, Err(CustomError::ArithmeticOverflow));
    assert_eq!(state, pool_with(7));
    assert_eq!(user, UserStake { amount: u64::MAX, last_update: 3 });
}

#[test]
fn multi_asset_stake_credits_normalized_and_moves_raw() {
    let mut state = pool_with(10);
    let mut user = UserStake { amount: 1, last_update: 0 };
    let pending = stake_with_multiple_assets(&mut state, &mut user, 7, 3, 50).unwrap();
    assert_eq!(state.total_staked, 31);
    assert_eq!(user, UserStake { amount: 22, last_update: 50 });
    assert_eq!(
        pending.instruction,
        CustodyInstruction::Transfer {
            from: Party::Participant,
            to: Party::Vault,
            authority: Authority::Participant,
            amount: 7,
        }
    );
    assert_eq!(pending.prior_state, pool_with(10));
    assert_eq!(pending.prior_stake, UserStake { amount: 1, last_update: 0 });
}

#[test]
fn multi_asset_stake_at_rate_one_equals_plain_stake() {
    let mut state_a = pool_with(10);
    let mut user_a = UserStake { amount: 1, last_update: 0 };
    let mut state_b = pool_with(10);
    let mut user_b = UserStake { amount: 1, last_update: 0 };
    let a = stake_with_multiple_assets(&mut state_a, &mut user_a, 25, 1, 8);
    let b = stake(&mut state_b, &mut user_b, 25, 8);
    assert_eq!(a, b);
    assert_eq!(state_a, state_b);
    assert_eq!(user_a, user_b);
}

#[test]
fn multi_asset_stake_overflowing_product_fails_and_changes_nothing() {
    let mut state = pool_with(0);
    let mut user = UserStake { amount: 0, last_update: 0 };
    let result = stake_with_multiple_assets(&mut state, &mut user, u64::MAX / 2 + 1, 2, 50);
    assert_eq!(result, Err(CustomError::ArithmeticOverflow));
    assert_eq!(state, pool_with(0));
    assert_eq!(user, UserStake { amount: 0, last_update: 0 });
}

#[test]
fn multi_asset_stake_overflowing_total_fails_and_changes_nothing() {
    let mut state = pool_with(u64::MAX - 10);
    let mut user = UserStake { amount: 0, last_update: 0 };
    let result = stake_with_multiple_assets(&mut state, &mut user, 4, 3, 50);
    assert_eq!(result, Err(CustomError::ArithmeticOverflow));
    assert_eq!(state, pool_with(u64::MAX - 10));
    assert_eq!(user, UserStake { amount: 0, last_update: 0 });
}

#[test]
fn unstake_debits_both_records_and_issues_delegated_withdrawal() {
    let mut state = pool_with(500);
    let mut user = UserStake { amount: 200, last_update: 1_000 };
    let pending = unstake(&mut state, &mut user, 150, 1_075).unwrap();
    assert_eq!(state, State { total_staked: 350, ..pool_with(500) });
    assert_eq!(user, UserStake { amount: 50, last_update: 1_075 });
    assert_eq!(
        pending,
        PendingTransfer {
            instruction: CustodyInstruction::Transfer {
                from: Party::Vault,
                to: Party::Participant,
                authority: Authority::Delegated { bump: 254 },
                amount: 150,
            },
            prior_state: pool_with(500),
            prior_stake: UserStake { amount: 200, last_update: 1_000 },
        }
    );
}

#[test]
fn unstake_one_unit_short_of_minimum_duration_is_early() {
    let mut state = pool_with(500);
    let mut user = UserStake { amount: 200, last_update: 1_000 };
    let result = unstake(&mut state, &mut user, 1, 1_059);
    assert_eq!(result, Err(CustomError::EarlyUnstakeNotAllowed));
    assert_eq!(state, pool_with(500));
    assert_eq!(user, UserStake { amount: 200, last_update: 1_000 });
}

#[test]
fn unstake_exactly_at_minimum_duration_succeeds() {
    let mut state = pool_with(500);
    let mut user = UserStake { amount: 200, last_update: 1_000 };
    assert!(unstake(&mut state, &mut user, 1, 1_060).is_ok());
    assert_eq!(state.total_staked, 499);
    assert_eq!(user, UserStake { amount: 199, last_update: 1_060 });
}

#[test]
fn unstake_before_last_activity_is_early() {
    let mut state = pool_with(500);
    let mut user = UserStake { amount: 200, last_update: 1_000 };
    assert_eq!(unstake(&mut state, &mut user, 1, 999), Err(CustomError::EarlyUnstakeNotAllowed));
    assert_eq!(unstake(&mut state, &mut user, 1, 1_000), Err(CustomError::EarlyUnstakeNotAllowed));
}

#[test]
fn unstake_with_elapsed_time_below_every_timestamp_is_early() {
    let mut state = pool_with(500);
    let mut user = UserStake { amount: 200, last_update: i64::MAX };
    let result = unstake(&mut state, &mut user, 1, i64::MIN);
    assert_eq!(result, Err(CustomError::EarlyUnstakeNotAllowed));
    assert_eq!(user, UserStake { amount: 200, last_update: i64::MAX });
}

#[test]
fn unstake_with_elapsed_time_above_every_timestamp_overflows() {
    let mut state = pool_with(500);
    let mut user = UserStake { amount: 200, last_update: -2 };
    let result = unstake(&mut state, &mut user, 1, i64::MAX);
    assert_eq!(result, Err(CustomError::ArithmeticOverflow));
    assert_eq!(state, pool_with(500));
    assert_eq!(user, UserStake { amount: 200, last_update: -2 });
}

#[test]
fn unstake_with_largest_representable_elapsed_time_succeeds() {
    let mut state = pool_with(500);
    let mut user = UserStake { amount: 200, last_update: 0 };
    assert!(unstake(&mut state, &mut user, 1, i64::MAX).is_ok());
    assert_eq!(user, UserStake { amount: 199, last_update: i64::MAX });
}

#[test]
fn unstake_more_than_balance_is_insufficient() {
    let mut state = pool_with(500);
    let mut user = UserStake { amount: 200, last_update: 0 };
    let result = unstake(&mut state, &mut user, 201, 1_000);
    assert_eq!(result, Err(CustomError::InsufficientStake));
    assert_eq!(state, pool_with(500));
    assert_eq!(user, UserStake { amount: 200, last_update: 0 });
}

#[test]
fn unstake_whole_balance_succeeds_and_keeps_the_record() {
    let mut state = pool_with(500);
    let mut user = UserStake { amount: 200, last_update: 0 };
    assert!(unstake(&mut state, &mut user, 200, 1_000).is_ok());
    assert_eq!(user, UserStake { amount: 0, last_update: 1_000 });
    assert_eq!(state.total_staked, 300);
}

#[test]
fn unstake_balance_gate_comes_before_time_gate() {
    let mut state = pool_with(500);
    let mut user = UserStake { amount: 5, last_update: 100 };
    assert_eq!(unstake(&mut state, &mut user, 10, 100), Err(CustomError::InsufficientStake));
}

#[test]
fn unstake_of_nothing_still_waits_for_minimum_duration() {
    let mut state = pool_with(500);
    let mut user = UserStake { amount: 5, last_update: 100 };
    assert_eq!(unstake(&mut state, &mut user, 0, 159), Err(CustomError::EarlyUnstakeNotAllowed));
    assert!(unstake(&mut state, &mut user, 0, 160).is_ok());
    assert_eq!(user, UserStake { amount: 5, last_update: 160 });
    assert_eq!(state.total_staked, 500);
}

#[test]
fn unstake_beyond_pool_total_underflows() {
    let mut state = pool_with(30);
    let mut user = UserStake { amount: 200, last_update: 0 };
    let result = unstake(&mut state, &mut user, 31, 1_000);
    assert_eq!(result, Err(CustomError::ArithmeticUnderflow));
    assert_eq!(state, pool_with(30));
    assert_eq!(user, UserStake { amount: 200, last_update: 0 });
}

#[test]
fn unstake_restarts_the_waiting_time() {
    let mut state = pool_with(500);
    let mut user = UserStake { amount: 200, last_update: 0 };
    assert!(unstake(&mut state, &mut user, 10, 60).is_ok());
    assert_eq!(unstake(&mut state, &mut user, 10, 119), Err(CustomError::EarlyUnstakeNotAllowed));
    assert!(unstake(&mut state, &mut user, 10, 120).is_ok());
    assert_eq!(user, UserStake { amount: 180, last_update: 120 });
    assert_eq!(state.total_staked, 480);
}

#[test]
fn stake_restarts_the_waiting_time() {
    let mut state = pool_with(0);
    let mut user = UserStake { amount: 0, last_update: 0 };
    assert!(stake(&mut state, &mut user, 10, 0).is_ok());
    assert!(stake(&mut state, &mut user, 10, 59).is_ok());
    assert_eq!(unstake(&mut state, &mut user, 5, 60), Err(CustomError::EarlyUnstakeNotAllowed));
    assert!(unstake(&mut state, &mut user, 5, 119).is_ok());
}

#[test]
fn end_to_end_stake_wait_unstake() {
    let mut state = initialize(255, 1_000);
    let mut user = UserStake { amount: 0, last_update: 0 };
    let deposit = stake(&mut state, &mut user, 100, 1_000).unwrap();
    assert_eq!(deposit.settle(&mut state, &mut user, Ok(())), Ok(()));
    let withdrawal = unstake(&mut state, &mut user, 50, 1_061).unwrap();
    assert_eq!(withdrawal.settle(&mut state, &mut user, Ok(())), Ok(()));
    assert_eq!(user.amount, 50);
    assert_eq!(state.total_staked, 50);
}
