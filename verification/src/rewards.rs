//! Validator rewards: how they are split between the holders and the
//! protocol, and how they raise the exchange rate.

use vstd::prelude::*;
use crate::error::ErrorCode;
use crate::identity::Identity;
use crate::math::{
    add_checked, sub_checked, mul_div, mul_div_floor, lemma_floor_times_divisor,
    lemma_bounded_by_floor, SCALE, BPS_DENOMINATOR,
};
use crate::state::{StakingPool, ValidatorInfo};

verus! {

/// The accounts of [`harvest_rewards`].
#[derive(Clone, Copy, Debug, PartialEq, Eq)]
pub struct HarvestRewards {
    /// The caller.
    pub authority: Identity,
    /// The pool ledger.
    pub pool: StakingPool,
    /// The record of the validator to harvest from.
    pub validator_info: ValidatorInfo,
    /// The balance that the validator's delegation is observed to hold.
    pub stake_account_balance: u64,
}

/// The accounts of [`update_rewards`].
#[derive(Clone, Copy, Debug, PartialEq, Eq)]
pub struct UpdateRewards {
    /// The caller.
    pub authority: Identity,
    /// The pool ledger.
    pub pool: StakingPool,
}

/// The exchange rate that the ledger's totals give: `total_sol_deposited *
/// SCALE / total_fluidSOL_minted`, rounded down, or the rate as it stands
/// while no receipt tokens are in circulation.
pub open spec fn recomputed_rate(pool: StakingPool) -> int {
    if pool.total_fluidSOL_minted > 0 {
        mul_div_floor(pool.total_sol_deposited, SCALE, pool.total_fluidSOL_minted)
    } else {
        pool.exchange_rate as int
    }
}

/// The ledger with its exchange rate recomputed from its totals, or
/// `ArithmeticOverflow` where the scaled total does not fit in 64 bits.
pub open spec fn rate_outcome(pool: StakingPool) -> Result<StakingPool, ErrorCode> {
    if pool.total_fluidSOL_minted > 0 && pool.total_sol_deposited * SCALE > u64::MAX {
        Err(ErrorCode::ArithmeticOverflow)
    } else {
        Ok(StakingPool { exchange_rate: recomputed_rate(pool) as u64, ..pool })
    }
}

/// The protocol's share of `rewards`: `rewards * protocol_fee_bps / 10000`,
/// rounded down.
pub open spec fn protocol_fee_on(pool: StakingPool, rewards: u64) -> int {
    mul_div_floor(rewards, pool.protocol_fee_bps as u64, BPS_DENOMINATOR)
}

/// The ledger after `rewards` have come in and before the rate is
/// recomputed: the protocol's share joins the protocol fees, the rest joins
/// the staked balance and the deposited total.
pub open spec fn rewards_credited(
    pool: StakingPool,
    rewards: u64,
) -> Result<StakingPool, ErrorCode> {
    let fee = protocol_fee_on(pool, rewards);
    let user = rewards - fee;
    if rewards * pool.protocol_fee_bps > u64::MAX {
        Err(ErrorCode::ArithmeticOverflow)
    } else if fee > rewards {
        Err(ErrorCode::ArithmeticUnderflow)
    } else if pool.staked_sol_balance + user > u64::MAX || pool.protocol_fees_earned + fee
        > u64::MAX || pool.total_sol_deposited + user > u64::MAX {
        Err(ErrorCode::ArithmeticOverflow)
    } else {
        Ok(
            StakingPool {
                staked_sol_balance: (pool.staked_sol_balance + user) as u64,
                protocol_fees_earned: (pool.protocol_fees_earned + fee) as u64,
                total_sol_deposited: (pool.total_sol_deposited + user) as u64,
                ..pool
            },
        )
    }
}

/// What rewards of `rewards` do to the ledger: they are credited, then the
/// exchange rate is recomputed; or why they cannot be taken.
pub open spec fn accrual_outcome(
    pool: StakingPool,
    rewards: u64,
) -> Result<StakingPool, ErrorCode> {
    match rewards_credited(pool, rewards) {
        Ok(credited) => rate_outcome(credited),
        Err(e) => Err(e),
    }
}

/// What harvesting a validator does, when its delegation is observed to hold
/// `observed`: the ledger and the validator's record, or why the harvest is
/// rejected.
///
/// What the delegation holds above the validator's delegated total is the
/// reward. It is accrued to the pool, and the record takes the observed
/// balance and the epoch. With nothing above, nothing changes.
pub open spec fn harvest_outcome(
    pool: StakingPool,
    validator: ValidatorInfo,
    caller: Identity,
    validator_index: u8,
    observed: u64,
    epoch: u64,
) -> Result<(StakingPool, ValidatorInfo), ErrorCode> {
    if caller != pool.authority {
        Err(ErrorCode::Unauthorized)
    } else if validator_index >= pool.validator_count {
        Err(ErrorCode::InvalidValidatorIndex)
    } else if observed <= validator.total_delegated {
        Ok((pool, validator))
    } else {
        match accrual_outcome(pool, (observed - validator.total_delegated) as u64) {
            Ok(accrued) => Ok(
                (
                    accrued,
                    ValidatorInfo {
                        total_delegated: observed,
                        last_update_epoch: epoch,
                        ..validator
                    },
                ),
            ),
            Err(e) => Err(e),
        }
    }
}

/// What a pool-wide reward update of `total_rewards` does: the ledger, or why
/// the update is rejected.
pub open spec fn update_outcome(
    pool: StakingPool,
    caller: Identity,
    total_rewards: u64,
) -> Result<StakingPool, ErrorCode> {
    if caller != pool.authority {
        Err(ErrorCode::Unauthorized)
    } else if total_rewards == 0 {
        Err(ErrorCode::InvalidAmount)
    } else {
        accrual_outcome(pool, total_rewards)
    }
}

/// Recomputes the exchange rate from the ledger's totals.
///
/// While no receipt tokens are in circulation the rate stays as it is. On an
/// error nothing changes.
pub fn recompute_exchange_rate(pool: &mut StakingPool) -> (r: Result<(), ErrorCode>)
    ensures
        match rate_outcome(*old(pool)) {
            Ok(next) => r is Ok && *final(pool) == next,
            Err(e) => r == Err::<(), ErrorCode>(e) && *final(pool) == *old(pool),
        },
        old(pool).total_fluidSOL_minted == 0 ==> r is Ok && *final(pool) == *old(pool),
        old(pool).is_balanced() ==> final(pool).is_balanced(),
        final(pool).total_fluidSOL_minted > 0 && r is Ok ==> final(pool).is_backed(),
        old(pool).is_backed() ==> final(pool).is_backed(),
        old(pool).is_backed() ==> final(pool).exchange_rate >= old(pool).exchange_rate,
{
    if pool.total_fluidSOL_minted > 0 {
        let rate: u64 = mul_div(pool.total_sol_deposited, SCALE, pool.total_fluidSOL_minted)?;
        proof {
            lemma_recomputed_rate_is_backed(*pool);
        }
        pool.exchange_rate = rate;
    }
    Ok(())
}

/// Takes `rewards` into the ledger: credits them, then recomputes the
/// exchange rate. On an error nothing changes.
pub fn accrue_rewards(pool: &mut StakingPool, rewards: u64) -> (r: Result<(), ErrorCode>)
    ensures
        match accrual_outcome(*old(pool), rewards) {
            Ok(next) => r is Ok && *final(pool) == next,
            Err(e) => r == Err::<(), ErrorCode>(e) && *final(pool) == *old(pool),
        },
        old(pool).is_balanced() ==> final(pool).is_balanced(),
        old(pool).is_backed() ==> final(pool).is_backed(),
        old(pool).is_backed() ==> final(pool).exchange_rate >= old(pool).exchange_rate,
        old(pool).well_formed() ==> final(pool).well_formed(),
{
    let fee: u64 = mul_div(rewards, pool.protocol_fee_bps as u64, BPS_DENOMINATOR)?;
    let user: u64 = sub_checked(rewards, fee)?;
    let mut next: StakingPool = *pool;
    next.staked_sol_balance = add_checked(pool.staked_sol_balance, user)?;
    next.protocol_fees_earned = add_checked(pool.protocol_fees_earned, fee)?;
    next.total_sol_deposited = add_checked(pool.total_sol_deposited, user)?;
    proof {
        if pool.is_backed() {
            lemma_credit_keeps_backing(*pool, rewards);
        }
    }
    recompute_exchange_rate(&mut next)?;
    *pool = next;
    Ok(())
}

/// Harvests the rewards of the validator with index `validator_index`, in
/// the epoch `current_epoch`.
///
/// `ctx.stake_account_balance` is what the validator's delegation is observed
/// to hold and `ctx.validator_info` is the validator's record. With nothing
/// above the delegated total the harvest succeeds and changes nothing, so
/// that it can be repeated safely. A rejected harvest changes nothing. The
/// exchange rate of a ledger whose receipt tokens are covered never falls.
pub fn harvest_rewards(
    ctx: &mut HarvestRewards,
    validator_index: u8,
    current_epoch: u64,
) -> (r: Result<(), ErrorCode>)
    ensures
        final(ctx).authority == old(ctx).authority,
        final(ctx).stake_account_balance == old(ctx).stake_account_balance,
        match harvest_outcome(
            old(ctx).pool,
            old(ctx).validator_info,
            old(ctx).authority,
            validator_index,
            old(ctx).stake_account_balance,
            current_epoch,
        ) {
            Ok((pool, validator)) => {
                &&& r is Ok
                &&& final(ctx).pool == pool
                &&& final(ctx).validator_info == validator
            },
            Err(e) => r == Err::<(), ErrorCode>(e) && *final(ctx) == *old(ctx),
        },
        old(ctx).pool.is_backed() ==> final(ctx).pool.exchange_rate
            >= old(ctx).pool.exchange_rate,
        old(ctx).validator_info.well_formed() ==> final(ctx).validator_info.well_formed(),
        old(ctx).pool.is_balanced() ==> final(ctx).pool.is_balanced(),
        old(ctx).pool.well_formed() ==> final(ctx).pool.well_formed(),
{
    if !(ctx.authority == ctx.pool.authority) {
        return Err(ErrorCode::Unauthorized);
    }
    if validator_index >= ctx.pool.validator_count {
        return Err(ErrorCode::InvalidValidatorIndex);
    }
    if ctx.stake_account_balance > ctx.validator_info.total_delegated {
        let rewards_earned: u64 = sub_checked(
            ctx.stake_account_balance,
            ctx.validator_info.total_delegated,
        )?;
        let mut pool: StakingPool = ctx.pool;
        accrue_rewards(&mut pool, rewards_earned)?;
        ctx.pool = pool;
        ctx.validator_info.total_delegated = ctx.stake_account_balance;
        ctx.validator_info.last_update_epoch = current_epoch;
    }
    Ok(())
}

/// Takes rewards of `total_rewards_earned`, summed over all validators by the
/// caller, into the ledger.
///
/// A rejected update changes nothing. The exchange rate of a ledger whose
/// receipt tokens are covered never falls. Nothing keeps a reward from being
/// counted both here and by [`harvest_rewards`]: that is for the caller to
/// see to.
pub fn update_rewards(
    ctx: &mut UpdateRewards,
    total_rewards_earned: u64,
) -> (r: Result<(), ErrorCode>)
    ensures
        final(ctx).authority == old(ctx).authority,
        match update_outcome(old(ctx).pool, old(ctx).authority, total_rewards_earned) {
            Ok(pool) => r is Ok && final(ctx).pool == pool,
            Err(e) => r == Err::<(), ErrorCode>(e) && *final(ctx) == *old(ctx),
        },
        old(ctx).pool.is_backed() ==> final(ctx).pool.exchange_rate
            >= old(ctx).pool.exchange_rate,
        old(ctx).pool.is_balanced() ==> final(ctx).pool.is_balanced(),
        old(ctx).pool.well_formed() ==> final(ctx).pool.well_formed(),
{
    if !(ctx.authority == ctx.pool.authority) {
        return Err(ErrorCode::Unauthorized);
    }
    if total_rewards_earned == 0 {
        return Err(ErrorCode::InvalidAmount);
    }
    let mut pool: StakingPool = ctx.pool;
    accrue_rewards(&mut pool, total_rewards_earned)?;
    ctx.pool = pool;
    Ok(())
}

/// Crediting rewards leaves the receipt tokens covered: the deposits grow
/// and the receipt tokens do not.
pub proof fn lemma_credit_keeps_backing(pool: StakingPool, rewards: u64)
    requires
        pool.is_backed(),
    ensures
        rewards_credited(pool, rewards) matches Ok(credited) ==> credited.is_backed(),
{
    if let Ok(credited) = rewards_credited(pool, rewards) {
        let rate = pool.exchange_rate as int;
        let supply = pool.total_fluidSOL_minted as int;
        let before = pool.total_sol_deposited as int;
        let after = credited.total_sol_deposited as int;
        let s = SCALE as int;
        assert(rate * supply <= after * s) by (nonlinear_arith)
            requires
                rate * supply <= before * s,
                before <= after,
                0 <= s,
        ;
    }
}

/// Rewards never lower the exchange rate of a ledger whose receipt tokens
/// are covered, and leave them covered.
pub proof fn lemma_rewards_never_lower_rate(pool: StakingPool, rewards: u64)
    requires
        pool.is_backed(),
    ensures
        accrual_outcome(pool, rewards) matches Ok(next) ==> {
            &&& next.is_backed()
            &&& next.exchange_rate >= pool.exchange_rate
        },
{
    lemma_credit_keeps_backing(pool, rewards);
    if let Ok(credited) = rewards_credited(pool, rewards) {
        if credited.total_fluidSOL_minted > 0 {
            lemma_recomputed_rate_is_backed(credited);
        }
    }
}

/// Rewards that come into a well-formed ledger leave it well formed.
pub proof fn lemma_rewards_keep_well_formed(pool: StakingPool, rewards: u64)
    requires
        pool.well_formed(),
    ensures
        accrual_outcome(pool, rewards) matches Ok(next) ==> next.well_formed(),
{
    lemma_rewards_never_lower_rate(pool, rewards);
}

/// A harvest that has just succeeded finds nothing more when it is repeated
/// on the same observed balance: the second harvest changes nothing.
pub proof fn lemma_harvest_is_idempotent(
    pool: StakingPool,
    validator: ValidatorInfo,
    caller: Identity,
    validator_index: u8,
    observed: u64,
    epoch: u64,
    later_epoch: u64,
)
    ensures
        harvest_outcome(pool, validator, caller, validator_index, observed, epoch) matches Ok(
            (next_pool, next_validator),
        ) ==> harvest_outcome(
            next_pool,
            next_validator,
            caller,
            validator_index,
            observed,
            later_epoch,
        ) == Ok::<(StakingPool, ValidatorInfo), ErrorCode>((next_pool, next_validator)),
{
}

/// The recomputed rate covers the receipt tokens, and is no lower than any
/// rate that did.
pub proof fn lemma_recomputed_rate_is_backed(pool: StakingPool)
    requires
        pool.total_fluidSOL_minted > 0,
    ensures
        recomputed_rate(pool) * pool.total_fluidSOL_minted <= pool.total_sol_deposited * SCALE,
        pool.is_backed() ==> recomputed_rate(pool) >= pool.exchange_rate,
{
    let total = pool.total_sol_deposited as int;
    let supply = pool.total_fluidSOL_minted as int;
    let s = SCALE as int;
    assert(0 <= total * s) by (nonlinear_arith)
        requires
            0 <= total,
            0 <= s,
    ;
    lemma_floor_times_divisor(total * s, supply);
    vstd::arithmetic::mul::lemma_mul_is_commutative(supply, (total * s) / supply);
    if pool.is_backed() {
        lemma_bounded_by_floor(pool.exchange_rate as int, total * s, supply);
    }
}

} // verus!
