//! Rebalancing: holding the liquid reserve to its target share of the pool.

use vstd::prelude::*;
use crate::error::ErrorCode;
use crate::identity::Identity;
use crate::math::{add_checked, mul_div};
use crate::state::StakingPool;

verus! {

/// The accounts of [`rebalance_pool`].
#[derive(Clone, Copy, Debug, PartialEq, Eq)]
pub struct RebalancePool {
    /// The caller.
    pub authority: Identity,
    /// The pool ledger.
    pub pool: StakingPool,
}

/// What a rebalance found and did.
#[derive(Clone, Copy, Debug, PartialEq, Eq)]
pub struct RebalanceReport {
    /// The share of the pool that was liquid, in percent, rounded down; zero
    /// for an empty pool.
    pub current_reserve_ratio: u64,
    /// The reserve that the target ratio asks for.
    pub target_reserve: u64,
    /// By how much the reserve was below its target.
    pub shortfall: u64,
    /// How much was moved from the stake to the reserve: the shortfall, or
    /// nothing where the stake does not hold that much.
    pub unstaked: u64,
    /// By how much the reserve is above its target. Nothing is moved on that
    /// account: the surplus is there to be delegated.
    pub surplus: u64,
}

/// What the pool holds: reserve and stake together.
pub open spec fn pool_balance(pool: StakingPool) -> int {
    pool.liquid_reserve + pool.staked_sol_balance
}

/// The share of the pool that is liquid, in percent, rounded down; zero for
/// an empty pool.
pub open spec fn reserve_ratio(pool: StakingPool) -> int {
    if pool_balance(pool) > 0 {
        (pool.liquid_reserve * 100) / pool_balance(pool)
    } else {
        0
    }
}

/// The reserve that the target ratio asks for: that share of what the pool
/// holds, rounded down.
pub open spec fn target_reserve(pool: StakingPool) -> int {
    (pool_balance(pool) * pool.target_reserve_ratio) / 100
}

/// Whether every step of a rebalance can be computed in 64 bits.
pub open spec fn rebalance_fits(pool: StakingPool) -> bool {
    &&& pool_balance(pool) <= u64::MAX
    &&& pool_balance(pool) > 0 ==> pool.liquid_reserve * 100 <= u64::MAX
    &&& pool_balance(pool) * pool.target_reserve_ratio <= u64::MAX
}

/// By how much the reserve is below its target.
pub open spec fn reserve_shortfall(pool: StakingPool) -> int {
    if pool.liquid_reserve < target_reserve(pool) {
        target_reserve(pool) - pool.liquid_reserve
    } else {
        0
    }
}

/// By how much the reserve is above its target.
pub open spec fn reserve_surplus(pool: StakingPool) -> int {
    if pool.liquid_reserve > target_reserve(pool) {
        pool.liquid_reserve - target_reserve(pool)
    } else {
        0
    }
}

/// What a rebalance moves from the stake to the reserve: the shortfall, or
/// nothing where the stake does not hold that much.
pub open spec fn rebalance_unstakes(pool: StakingPool) -> int {
    if reserve_shortfall(pool) <= pool.staked_sol_balance {
        reserve_shortfall(pool)
    } else {
        0
    }
}

/// What a rebalance does: the ledger and the report, or why the rebalance is
/// rejected.
pub open spec fn rebalance_outcome(
    pool: StakingPool,
    caller: Identity,
) -> Result<(StakingPool, RebalanceReport), ErrorCode> {
    if caller != pool.authority {
        Err(ErrorCode::Unauthorized)
    } else if !rebalance_fits(pool) {
        Err(ErrorCode::ArithmeticOverflow)
    } else {
        Ok(
            (
                StakingPool {
                    staked_sol_balance: (pool.staked_sol_balance - rebalance_unstakes(pool)) as u64,
                    liquid_reserve: (pool.liquid_reserve + rebalance_unstakes(pool)) as u64,
                    ..pool
                },
                RebalanceReport {
                    current_reserve_ratio: reserve_ratio(pool) as u64,
                    target_reserve: target_reserve(pool) as u64,
                    shortfall: reserve_shortfall(pool) as u64,
                    unstaked: rebalance_unstakes(pool) as u64,
                    surplus: reserve_surplus(pool) as u64,
                },
            ),
        )
    }
}

/// Brings the liquid reserve up to its target.
///
/// Where the reserve is below its target, the shortfall moves from the stake
/// to the reserve at once, as a settled unstake. Where it is above, nothing
/// moves and the surplus is reported. A rejected rebalance changes nothing.
/// With a target ratio of at most one hundred percent the reserve is at its
/// target or above it afterwards.
pub fn rebalance_pool(ctx: &mut RebalancePool) -> (r: Result<RebalanceReport, ErrorCode>)
    ensures
        final(ctx).authority == old(ctx).authority,
        match rebalance_outcome(old(ctx).pool, old(ctx).authority) {
            Ok((pool, report)) => {
                &&& r == Ok::<RebalanceReport, ErrorCode>(report)
                &&& final(ctx).pool == pool
            },
            Err(e) => r == Err::<RebalanceReport, ErrorCode>(e) && *final(ctx) == *old(ctx),
        },
        old(ctx).authority == old(ctx).pool.authority && rebalance_fits(old(ctx).pool)
            ==> r is Ok,
        pool_balance(final(ctx).pool) == pool_balance(old(ctx).pool),
        r matches Ok(report) ==> {
            old(ctx).pool.target_reserve_ratio <= 100 ==> final(ctx).pool.liquid_reserve
                >= report.target_reserve
        },
        final(ctx).pool.exchange_rate == old(ctx).pool.exchange_rate,
        old(ctx).pool.is_balanced() ==> final(ctx).pool.is_balanced(),
        old(ctx).pool.well_formed() ==> final(ctx).pool.well_formed(),
{
    if !(ctx.authority == ctx.pool.authority) {
        return Err(ErrorCode::Unauthorized);
    }
    let liquid: u64 = ctx.pool.liquid_reserve;
    let staked: u64 = ctx.pool.staked_sol_balance;
    let total_balance: u64 = add_checked(liquid, staked)?;
    let current_reserve_ratio: u64 = if total_balance > 0 {
        mul_div(liquid, 100, total_balance)?
    } else {
        0
    };
    let target: u64 = mul_div(total_balance, ctx.pool.target_reserve_ratio as u64, 100)?;
    proof {
        if ctx.pool.target_reserve_ratio <= 100 {
            lemma_share_within_whole(total_balance as int, ctx.pool.target_reserve_ratio as int);
        }
    }
    let mut shortfall: u64 = 0;
    let mut unstaked: u64 = 0;
    let mut surplus: u64 = 0;
    if liquid < target {
        shortfall = target - liquid;
        if shortfall <= staked {
            ctx.pool.staked_sol_balance = staked - shortfall;
            ctx.pool.liquid_reserve = target;
            unstaked = shortfall;
        }
    } else if liquid > target {
        surplus = liquid - target;
    }
    Ok(
        RebalanceReport {
            current_reserve_ratio,
            target_reserve: target,
            shortfall,
            unstaked,
            surplus,
        },
    )
}

/// A share of at most one hundred percent is at most the whole.
pub proof fn lemma_share_within_whole(whole: int, percent: int)
    requires
        0 <= whole,
        0 <= percent <= 100,
    ensures
        0 <= (whole * percent) / 100 <= whole,
{
    assert(0 <= whole * percent <= whole * 100) by (nonlinear_arith)
        requires
            0 <= whole,
            0 <= percent <= 100,
    ;
    vstd::arithmetic::div_mod::lemma_div_is_ordered(whole * percent, whole * 100, 100);
    vstd::arithmetic::div_mod::lemma_div_is_ordered(0, whole * percent, 100);
}

} // verus!
