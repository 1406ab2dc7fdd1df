//! What holds of the ledger over whole histories of operations.
//!
//! A history is a sequence of commands, each with everything that it is
//! given. A command that is rejected leaves the ledger as it was.

use vstd::prelude::*;
use crate::error::ErrorCode;
use crate::exchange::{
    deposit_outcome, withdraw_outcome, gross_for_receipt, receipt_for_deposit,
    lemma_deposit_keeps_well_formed, lemma_withdrawal_keeps_well_formed,
};
use crate::fees::fee_withdrawal_outcome;
use crate::identity::Identity;
use crate::math::{lemma_floor_times_divisor, SCALE};
use crate::rebalance::{rebalance_outcome, lemma_share_within_whole, pool_balance};
use crate::rewards::{
    harvest_outcome, update_outcome, lemma_rewards_keep_well_formed,
    lemma_rewards_never_lower_rate,
};
use crate::state::{fresh_pool, StakingPool, ValidatorInfo, MAX_VALIDATORS};
use crate::validators::{delegation_outcome, registration_outcome};

verus! {

/// One operation on the pool, with its inputs.
pub enum Command {
    /// A deposit of `amount`.
    Deposit { amount: u64 },
    /// An instant withdrawal of `receipt_amount` receipt tokens.
    Withdraw { receipt_amount: u64 },
    /// The registration of a validator by `caller`.
    AddValidator {
        caller: Identity,
        vote_account: Identity,
        allocation_percentage: u8,
        epoch: u64,
    },
    /// A delegation of `amount` by `caller` to the validator with the record
    /// `validator`.
    Stake { caller: Identity, validator: ValidatorInfo, amount: u64, epoch: u64 },
    /// A harvest by `caller` from the validator with the record `validator`,
    /// whose delegation is observed to hold `observed`.
    Harvest {
        caller: Identity,
        validator: ValidatorInfo,
        validator_index: u8,
        observed: u64,
        epoch: u64,
    },
    /// A pool-wide reward update by `caller`.
    UpdateRewards { caller: Identity, total_rewards: u64 },
    /// A rebalance by `caller`.
    Rebalance { caller: Identity },
    /// A payment of `amount` of the protocol fees to `caller`.
    WithdrawFees { caller: Identity, amount: u64 },
}

impl Command {
    /// Whether the command brings rewards into the pool.
    pub open spec fn is_reward_event(self) -> bool {
        self is Harvest || self is UpdateRewards
    }
}

/// The ledger after one command.
pub open spec fn pool_after(pool: StakingPool, command: Command) -> StakingPool {
    match command {
        Command::Deposit { amount } => match deposit_outcome(pool, amount) {
            Ok((next, _)) => next,
            Err(_) => pool,
        },
        Command::Withdraw { receipt_amount } => match withdraw_outcome(pool, receipt_amount) {
            Ok((next, _)) => next,
            Err(_) => pool,
        },
        Command::AddValidator {
            caller,
            vote_account,
            allocation_percentage,
            epoch,
        } => match registration_outcome(pool, caller, vote_account, allocation_percentage, epoch) {
            Ok((next, _)) => next,
            Err(_) => pool,
        },
        Command::Stake { caller, validator, amount, epoch } => match delegation_outcome(
            pool,
            validator,
            caller,
            amount,
            epoch,
        ) {
            Ok((next, _)) => next,
            Err(_) => pool,
        },
        Command::Harvest {
            caller,
            validator,
            validator_index,
            observed,
            epoch,
        } => match harvest_outcome(pool, validator, caller, validator_index, observed, epoch) {
            Ok((next, _)) => next,
            Err(_) => pool,
        },
        Command::UpdateRewards { caller, total_rewards } => match update_outcome(
            pool,
            caller,
            total_rewards,
        ) {
            Ok(next) => next,
            Err(_) => pool,
        },
        Command::Rebalance { caller } => match rebalance_outcome(pool, caller) {
            Ok((next, _)) => next,
            Err(_) => pool,
        },
        Command::WithdrawFees { caller, amount } => match fee_withdrawal_outcome(
            pool,
            caller,
            amount,
        ) {
            Ok(next) => next,
            Err(_) => pool,
        },
    }
}

/// The ledger after a history of commands, the first command first.
pub open spec fn pool_after_all(pool: StakingPool, history: Seq<Command>) -> StakingPool
    decreases history.len(),
{
    if history.len() == 0 {
        pool
    } else {
        pool_after(pool_after_all(pool, history.drop_last()), history.last())
    }
}

/// After every single operation, stake and reserve together are the
/// deposited total, if they were before.
pub proof fn lemma_operation_keeps_balance(pool: StakingPool, command: Command)
    requires
        pool.is_balanced(),
    ensures
        pool_after(pool, command).is_balanced(),
{
}

/// Every single operation leaves a well-formed ledger well formed.
pub proof fn lemma_operation_keeps_well_formed(pool: StakingPool, command: Command)
    requires
        pool.well_formed(),
    ensures
        pool_after(pool, command).well_formed(),
{
    match command {
        Command::Deposit { amount } => {
            lemma_deposit_keeps_well_formed(pool, amount);
        },
        Command::Withdraw { receipt_amount } => {
            lemma_withdrawal_keeps_well_formed(pool, receipt_amount);
        },
        Command::Harvest { caller, validator, validator_index, observed, epoch } => {
            if observed > validator.total_delegated {
                lemma_rewards_keep_well_formed(pool, (observed - validator.total_delegated) as u64);
            }
        },
        Command::UpdateRewards { caller, total_rewards } => {
            lemma_rewards_keep_well_formed(pool, total_rewards);
        },
        Command::Rebalance { caller } => {
            if pool_balance(pool) <= u64::MAX {
                lemma_share_within_whole(pool_balance(pool), pool.target_reserve_ratio as int);
            }
        },
        _ => {},
    }
}

/// No single operation lowers the exchange rate of a ledger whose receipt
/// tokens are covered, and none but a reward event changes the rate of any
/// ledger.
pub proof fn lemma_operation_and_rate(pool: StakingPool, command: Command)
    ensures
        !command.is_reward_event() ==> pool_after(pool, command).exchange_rate
            == pool.exchange_rate,
        pool.is_backed() ==> pool_after(pool, command).exchange_rate >= pool.exchange_rate,
{
    match command {
        Command::Harvest { caller, validator, validator_index, observed, epoch } => {
            if pool.is_backed() && observed > validator.total_delegated {
                lemma_rewards_never_lower_rate(pool, (observed - validator.total_delegated) as u64);
            }
        },
        Command::UpdateRewards { caller, total_rewards } => {
            if pool.is_backed() {
                lemma_rewards_never_lower_rate(pool, total_rewards);
            }
        },
        _ => {},
    }
}

/// Over any history, stake and reserve together stay the deposited total.
pub proof fn lemma_history_keeps_balance(pool: StakingPool, history: Seq<Command>)
    requires
        pool.is_balanced(),
    ensures
        pool_after_all(pool, history).is_balanced(),
    decreases history.len(),
{
    if history.len() > 0 {
        lemma_history_keeps_balance(pool, history.drop_last());
        lemma_operation_keeps_balance(pool_after_all(pool, history.drop_last()), history.last());
    }
}

/// Over any history, a well-formed ledger stays well formed.
pub proof fn lemma_history_keeps_well_formed(pool: StakingPool, history: Seq<Command>)
    requires
        pool.well_formed(),
    ensures
        pool_after_all(pool, history).well_formed(),
    decreases history.len(),
{
    if history.len() > 0 {
        lemma_history_keeps_well_formed(pool, history.drop_last());
        let before_last = pool_after_all(pool, history.drop_last());
        lemma_operation_keeps_well_formed(before_last, history.last());
    }
}

/// Whatever is done to a new pool, its ledger is well formed: stake and
/// reserve together are the deposited total, the receipt tokens are covered,
/// the rate is at least one, and the registry holds at most
/// [`MAX_VALIDATORS`] validators.
pub proof fn lemma_new_pool_stays_well_formed(
    authority: Identity,
    bump: u8,
    history: Seq<Command>,
)
    ensures
        pool_after_all(fresh_pool(authority, bump), history).well_formed(),
        pool_after_all(fresh_pool(authority, bump), history).is_balanced(),
        pool_after_all(fresh_pool(authority, bump), history).validator_count <= MAX_VALIDATORS,
{
    lemma_history_keeps_well_formed(fresh_pool(authority, bump), history);
}

/// Over any history without a reward event, deposits and instant
/// withdrawals among them, the exchange rate stays what it was.
pub proof fn lemma_rate_fixed_without_rewards(pool: StakingPool, history: Seq<Command>)
    requires
        forall|i: int| 0 <= i < history.len() ==> !(#[trigger] history[i]).is_reward_event(),
    ensures
        pool_after_all(pool, history).exchange_rate == pool.exchange_rate,
    decreases history.len(),
{
    if history.len() > 0 {
        lemma_rate_fixed_without_rewards(pool, history.drop_last());
        lemma_operation_and_rate(pool_after_all(pool, history.drop_last()), history.last());
    }
}

/// Over any history, the exchange rate of a well-formed ledger never falls.
pub proof fn lemma_rate_never_falls(pool: StakingPool, history: Seq<Command>)
    requires
        pool.well_formed(),
    ensures
        pool_after_all(pool, history).exchange_rate >= pool.exchange_rate,
    decreases history.len(),
{
    if history.len() > 0 {
        lemma_rate_never_falls(pool, history.drop_last());
        lemma_history_keeps_well_formed(pool, history.drop_last());
        lemma_operation_and_rate(pool_after_all(pool, history.drop_last()), history.last());
    }
}

/// The receipt tokens that a deposit buys are worth no more than the
/// deposit: redeemed at once, before any fee, they give back at most what was
/// paid in.
pub proof fn lemma_round_trip_gives_no_more(pool: StakingPool, amount: u64)
    requires
        deposit_outcome(pool, amount) is Ok,
    ensures
        ({
            let (after, minted) = deposit_outcome(pool, amount)->Ok_0;
            0 <= gross_for_receipt(after, minted) <= amount
        }),
{
    let rate = pool.exchange_rate as int;
    let minted = receipt_for_deposit(pool, amount);
    let a = amount as int;
    let s = SCALE as int;
    assert(0 <= a * s) by (nonlinear_arith)
        requires
            0 <= a,
            0 <= s,
    ;
    lemma_floor_times_divisor(a * s, rate);
    vstd::arithmetic::div_mod::lemma_div_pos_is_pos(a * s, rate);
    assert(0 <= minted * rate <= a * s) by (nonlinear_arith)
        requires
            0 <= minted,
            0 <= rate,
            rate * minted <= a * s,
    ;
    vstd::arithmetic::div_mod::lemma_div_is_ordered(minted * rate, a * s, s);
    vstd::arithmetic::div_mod::lemma_div_is_ordered(0, minted * rate, s);
}

/// A rebalance settles the pool: a second rebalance right after a successful
/// one moves nothing.
pub proof fn lemma_rebalance_settles(pool: StakingPool, caller: Identity)
    requires
        rebalance_outcome(pool, caller) is Ok,
    ensures
        ({
            let (after, _) = rebalance_outcome(pool, caller)->Ok_0;
            &&& rebalance_outcome(after, caller) is Ok
            &&& rebalance_outcome(after, caller)->Ok_0.0 == after
            &&& rebalance_outcome(after, caller)->Ok_0.1.unstaked == 0
        }),
{
}

/// With the registry full, a registration that is otherwise in order is
/// rejected with `TooManyValidators`, and the count stays what it was.
pub proof fn lemma_full_registry_rejects(
    pool: StakingPool,
    caller: Identity,
    vote_account: Identity,
    allocation_percentage: u8,
    epoch: u64,
)
    requires
        pool.validator_count >= MAX_VALIDATORS,
        caller == pool.authority,
        allocation_percentage <= 100,
    ensures
        registration_outcome(pool, caller, vote_account, allocation_percentage, epoch) == Err::<
            (StakingPool, ValidatorInfo),
            ErrorCode,
        >(ErrorCode::TooManyValidators),
        pool_after(
            pool,
            (Command::AddValidator { caller, vote_account, allocation_percentage, epoch }),
        ).validator_count == pool.validator_count,
{
}

} // verus!
