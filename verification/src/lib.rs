//! Accounting core of a pooled-staking protocol: staked balances, reward
//! accrual, liquidation triggers and governance, with every state change
//! proved against its contract.
//!
//! The core neither reads a clock nor moves value. Each operation takes the
//! current time and the market readings it needs as plain values, updates
//! the records it is given, and hands back the custody instruction that the
//! caller is to carry out. The caller reports what became of the instruction
//! to `settle`, which undoes the update if the instruction failed.

pub mod conservation;
pub mod custody;
pub mod error;
pub mod governance;
pub mod liquidation;
pub mod rewards;
pub mod stake;
pub mod state;

pub use custody::{mint_rewards, Authority, CustodyInstruction, Party, PendingMint, PendingTransfer};
pub use error::{CustodyError, CustomError};
pub use governance::{vote_on_risk_params, SUPERMAJORITY_PERCENT};
pub use liquidation::{
    auto_liquidate, liquidation_step_after, LiquidationStep, UserPosition, MAX_ALLOWED_LOSS,
};
pub use rewards::{
    distribute_arbitrage_profits, distribute_rewards, reward_liquidity_providers,
    update_rewards_based_on_funding, FUNDING_RATE_SCALE, MAKER_VOLUME_PER_REWARD, REWARD_RATE,
};
pub use stake::{stake, stake_with_multiple_assets, unstake, MIN_STAKE_DURATION};
pub use state::{initialize, rebalance, State, UserStake, DEFAULT_DELTA_THRESHOLD};
