//! Paying the accrued protocol fees out to the pool authority.

use vstd::prelude::*;
use crate::error::ErrorCode;
use crate::identity::Identity;
use crate::math::sub_checked;
use crate::state::StakingPool;

verus! {

/// The accounts of [`withdraw_protocol_fees`].
#[derive(Clone, Copy, Debug, PartialEq, Eq)]
pub struct WithdrawProtocolFees {
    /// The caller, who is paid the fees.
    pub authority: Identity,
    /// The pool ledger.
    pub pool: StakingPool,
}

/// What paying out `amount` of the protocol fees does: the ledger, or why the
/// payment is rejected.
pub open spec fn fee_withdrawal_outcome(
    pool: StakingPool,
    caller: Identity,
    amount: u64,
) -> Result<StakingPool, ErrorCode> {
    if caller != pool.authority {
        Err(ErrorCode::Unauthorized)
    } else if amount > pool.protocol_fees_earned {
        Err(ErrorCode::InsufficientFunds)
    } else {
        Ok(
            StakingPool {
                protocol_fees_earned: (pool.protocol_fees_earned - amount) as u64,
                ..pool
            },
        )
    }
}

/// Takes `amount` out of the accrued protocol fees, for the pool authority.
///
/// The caller pays the amount out of the pool's custody and commits the new
/// ledger only once that has succeeded. The fees are no part of the deposits,
/// so nothing else in the ledger changes. A rejected payment changes nothing.
pub fn withdraw_protocol_fees(
    ctx: &mut WithdrawProtocolFees,
    amount: u64,
) -> (r: Result<(), ErrorCode>)
    ensures
        final(ctx).authority == old(ctx).authority,
        match fee_withdrawal_outcome(old(ctx).pool, old(ctx).authority, amount) {
            Ok(pool) => r is Ok && final(ctx).pool == pool,
            Err(e) => r == Err::<(), ErrorCode>(e) && *final(ctx) == *old(ctx),
        },
        final(ctx).pool.exchange_rate == old(ctx).pool.exchange_rate,
        old(ctx).pool.is_balanced() ==> final(ctx).pool.is_balanced(),
        old(ctx).pool.well_formed() ==> final(ctx).pool.well_formed(),
{
    if !(ctx.authority == ctx.pool.authority) {
        return Err(ErrorCode::Unauthorized);
    }
    if amount > ctx.pool.protocol_fees_earned {
        return Err(ErrorCode::InsufficientFunds);
    }
    let fees: u64 = sub_checked(ctx.pool.protocol_fees_earned, amount)?;
    ctx.pool.protocol_fees_earned = fees;
    Ok(())
}

} // verus!
