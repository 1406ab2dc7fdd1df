//! Accounting core of a liquid-staking pool.
//!
//! Users deposit a base asset and receive receipt tokens that are redeemable
//! at a floating exchange rate. The pool keeps part of the deposits in a
//! liquid reserve and delegates the rest to a bounded set of validators;
//! validator rewards flow back into the pool and raise the rate, net of a
//! protocol fee.
//!
//! Every operation is a transition of the ledger on plain values. Moving the
//! asset, minting and burning receipt tokens and delegating to validators are
//! left to the caller, who performs them with the amounts that the operations
//! return and commits the new ledger once they have succeeded.

pub mod error;
pub mod exchange;
pub mod fees;
pub mod identity;
pub mod laws;
pub mod math;
pub mod rebalance;
pub mod rewards;
pub mod state;
pub mod validators;

pub use error::ErrorCode;
pub use exchange::{
    deposit_sol, withdraw_sol, DepositSol, WithdrawSol, MIN_DEPOSIT, WITHDRAWAL_FEE_BPS,
};
pub use fees::{withdraw_protocol_fees, WithdrawProtocolFees};
pub use identity::Identity;
pub use math::{BPS_DENOMINATOR, SCALE};
pub use rebalance::{rebalance_pool, RebalancePool, RebalanceReport};
pub use rewards::{
    accrue_rewards, harvest_rewards, recompute_exchange_rate, update_rewards, HarvestRewards,
    UpdateRewards,
};
pub use state::{
    initialize_pool, InitializePool, StakingPool, ValidatorInfo, DEFAULT_PROTOCOL_FEE_BPS,
    DEFAULT_RESERVE_RATIO, FULL_PERFORMANCE_SCORE, MAX_VALIDATORS,
};
pub use validators::{add_validator, stake_to_validator, AddValidator, StakeToValidator};
