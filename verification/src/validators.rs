//! The validator registry: registering validators and delegating reserve
//! funds to them.

use vstd::prelude::*;
use crate::error::ErrorCode;
use crate::identity::Identity;
use crate::math::{add_checked, sub_checked};
use crate::state::{StakingPool, ValidatorInfo, MAX_VALIDATORS, FULL_PERFORMANCE_SCORE};

verus! {

/// The accounts of [`add_validator`].
#[derive(Clone, Copy, Debug, PartialEq, Eq)]
pub struct AddValidator {
    /// The caller.
    pub authority: Identity,
    /// The pool ledger.
    pub pool: StakingPool,
    /// The place of the new record in the registry.
    pub validator_info: ValidatorInfo,
}

/// The accounts of [`stake_to_validator`].
#[derive(Clone, Copy, Debug, PartialEq, Eq)]
pub struct StakeToValidator {
    /// The caller.
    pub authority: Identity,
    /// The pool ledger.
    pub pool: StakingPool,
    /// The record of the validator to delegate to.
    pub validator_info: ValidatorInfo,
}

/// The record of a validator that has just been registered: nothing
/// delegated, a full score, active.
pub open spec fn fresh_validator(
    vote_account: Identity,
    allocation_percentage: u8,
    epoch: u64,
) -> ValidatorInfo {
    ValidatorInfo {
        vote_account,
        allocation_percentage,
        total_delegated: 0,
        last_update_epoch: epoch,
        performance_score: FULL_PERFORMANCE_SCORE,
        is_active: true,
    }
}

/// What registering a validator does: the ledger and the new record, or why
/// the registration is rejected.
///
/// Only the pool authority may register; the percentage is at most one
/// hundred; the registry takes [`MAX_VALIDATORS`] records. The same vote
/// account may be registered more than once.
pub open spec fn registration_outcome(
    pool: StakingPool,
    caller: Identity,
    vote_account: Identity,
    allocation_percentage: u8,
    epoch: u64,
) -> Result<(StakingPool, ValidatorInfo), ErrorCode> {
    if caller != pool.authority {
        Err(ErrorCode::Unauthorized)
    } else if allocation_percentage > 100 {
        Err(ErrorCode::InvalidAllocation)
    } else if pool.validator_count >= MAX_VALIDATORS {
        Err(ErrorCode::TooManyValidators)
    } else {
        Ok(
            (
                StakingPool { validator_count: (pool.validator_count + 1) as u8, ..pool },
                fresh_validator(vote_account, allocation_percentage, epoch),
            ),
        )
    }
}

/// What delegating `amount` from the reserve to a validator does: the ledger
/// and the validator's record, or why the delegation is rejected.
///
/// Only the pool authority may delegate, no more than the liquid reserve
/// holds, and only to an active validator. The amount leaves the liquid
/// reserve and joins the staked balance and the validator's delegated total;
/// the record is stamped with the epoch.
pub open spec fn delegation_outcome(
    pool: StakingPool,
    validator: ValidatorInfo,
    caller: Identity,
    amount: u64,
    epoch: u64,
) -> Result<(StakingPool, ValidatorInfo), ErrorCode> {
    if caller != pool.authority {
        Err(ErrorCode::Unauthorized)
    } else if amount > pool.liquid_reserve {
        Err(ErrorCode::InsufficientLiquidity)
    } else if !validator.is_active {
        Err(ErrorCode::ValidatorInactive)
    } else if pool.staked_sol_balance + amount > u64::MAX || validator.total_delegated + amount
        > u64::MAX {
        Err(ErrorCode::ArithmeticOverflow)
    } else {
        Ok(
            (
                StakingPool {
                    liquid_reserve: (pool.liquid_reserve - amount) as u64,
                    staked_sol_balance: (pool.staked_sol_balance + amount) as u64,
                    ..pool
                },
                ValidatorInfo {
                    total_delegated: (validator.total_delegated + amount) as u64,
                    last_update_epoch: epoch,
                    ..validator
                },
            ),
        )
    }
}

/// Registers a validator in the epoch `current_epoch`.
///
/// On success the new record is written to `ctx.validator_info` and the
/// pool's validator count goes up by one. A rejected registration changes
/// nothing; in particular a registration with the registry full is rejected
/// with `TooManyValidators` and leaves the count as it was.
pub fn add_validator(
    ctx: &mut AddValidator,
    validator_vote_account: Identity,
    allocation_percentage: u8,
    current_epoch: u64,
) -> (r: Result<(), ErrorCode>)
    ensures
        final(ctx).authority == old(ctx).authority,
        match registration_outcome(
            old(ctx).pool,
            old(ctx).authority,
            validator_vote_account,
            allocation_percentage,
            current_epoch,
        ) {
            Ok((pool, validator)) => {
                &&& r is Ok
                &&& final(ctx).pool == pool
                &&& final(ctx).validator_info == validator
            },
            Err(e) => r == Err::<(), ErrorCode>(e) && *final(ctx) == *old(ctx),
        },
        ({
            &&& old(ctx).authority == old(ctx).pool.authority
            &&& allocation_percentage <= 100
            &&& old(ctx).pool.validator_count >= MAX_VALIDATORS
        }) ==> r == Err::<(), ErrorCode>(ErrorCode::TooManyValidators),
        r is Err ==> final(ctx).pool.validator_count == old(ctx).pool.validator_count,
        r is Ok ==> final(ctx).validator_info.well_formed(),
        old(ctx).pool.is_balanced() ==> final(ctx).pool.is_balanced(),
        old(ctx).pool.well_formed() ==> final(ctx).pool.well_formed(),
{
    if !(ctx.authority == ctx.pool.authority) {
        return Err(ErrorCode::Unauthorized);
    }
    if allocation_percentage > 100 {
        return Err(ErrorCode::InvalidAllocation);
    }
    if ctx.pool.validator_count >= MAX_VALIDATORS {
        return Err(ErrorCode::TooManyValidators);
    }
    ctx.validator_info = ValidatorInfo {
        vote_account: validator_vote_account,
        allocation_percentage,
        total_delegated: 0,
        last_update_epoch: current_epoch,
        performance_score: FULL_PERFORMANCE_SCORE,
        is_active: true,
    };
    ctx.pool.validator_count = ctx.pool.validator_count + 1;
    Ok(())
}

/// Delegates `amount` from the liquid reserve to the validator of
/// `ctx.validator_info`, into the delegation slot `slot`, in the epoch
/// `current_epoch`.
///
/// The slot only names the delegation that the caller creates: the ledger
/// takes any slot and does the same for each. The caller creates the
/// delegation itself, with the same amount, and commits the new ledger and
/// record only once that has succeeded. A rejected delegation changes
/// nothing.
#[allow(unused_variables)]
pub fn stake_to_validator(
    ctx: &mut StakeToValidator,
    amount: u64,
    slot: u64,
    current_epoch: u64,
) -> (r: Result<(), ErrorCode>)
    ensures
        final(ctx).authority == old(ctx).authority,
        match delegation_outcome(
            old(ctx).pool,
            old(ctx).validator_info,
            old(ctx).authority,
            amount,
            current_epoch,
        ) {
            Ok((pool, validator)) => {
                &&& r is Ok
                &&& final(ctx).pool == pool
                &&& final(ctx).validator_info == validator
            },
            Err(e) => r == Err::<(), ErrorCode>(e) && *final(ctx) == *old(ctx),
        },
        ({
            &&& old(ctx).authority == old(ctx).pool.authority
            &&& amount <= old(ctx).pool.liquid_reserve
            &&& old(ctx).validator_info.is_active
            &&& old(ctx).pool.staked_sol_balance + amount <= u64::MAX
            &&& old(ctx).validator_info.total_delegated + amount <= u64::MAX
        }) ==> r is Ok,
        r is Ok ==> {
            &&& final(ctx).pool.liquid_reserve == old(ctx).pool.liquid_reserve - amount
            &&& final(ctx).pool.staked_sol_balance == old(ctx).pool.staked_sol_balance + amount
            &&& final(ctx).validator_info.total_delegated
                == old(ctx).validator_info.total_delegated + amount
            &&& final(ctx).validator_info.last_update_epoch == current_epoch
        },
        final(ctx).pool.exchange_rate == old(ctx).pool.exchange_rate,
        old(ctx).validator_info.well_formed() ==> final(ctx).validator_info.well_formed(),
        old(ctx).pool.is_balanced() ==> final(ctx).pool.is_balanced(),
        old(ctx).pool.well_formed() ==> final(ctx).pool.well_formed(),
{
    if !(ctx.authority == ctx.pool.authority) {
        return Err(ErrorCode::Unauthorized);
    }
    if amount > ctx.pool.liquid_reserve {
        return Err(ErrorCode::InsufficientLiquidity);
    }
    if !ctx.validator_info.is_active {
        return Err(ErrorCode::ValidatorInactive);
    }
    let liquid: u64 = sub_checked(ctx.pool.liquid_reserve, amount)?;
    let staked: u64 = add_checked(ctx.pool.staked_sol_balance, amount)?;
    let delegated: u64 = add_checked(ctx.validator_info.total_delegated, amount)?;
    ctx.pool.liquid_reserve = liquid;
    ctx.pool.staked_sol_balance = staked;
    ctx.validator_info.total_delegated = delegated;
    ctx.validator_info.last_update_epoch = current_epoch;
    Ok(())
}

} // verus!
