//! Deposits and instant withdrawals: the base asset against receipt tokens,
//! at the exchange rate of the moment.
//!
//! Neither moves the rate: both are computed at the rate that they find.

use vstd::prelude::*;
use crate::error::ErrorCode;
use crate::identity::Identity;
use crate::math::{
    add_checked, sub_checked, mul_div, mul_div_fits, mul_div_floor, lemma_floor_times_divisor,
    SCALE, BPS_DENOMINATOR,
};
use crate::state::StakingPool;

verus! {

/// The smallest deposit that is taken: a thousandth of a whole unit.
pub const MIN_DEPOSIT: u64 = 1_000_000;

/// The fee on an instant withdrawal, in basis points of the gross amount.
pub const WITHDRAWAL_FEE_BPS: u64 = 30;

/// The accounts of [`deposit_sol`].
#[derive(Clone, Copy, Debug, PartialEq, Eq)]
pub struct DepositSol {
    /// The depositor, who pays the deposit and gets the receipt tokens.
    pub user: Identity,
    /// The pool ledger.
    pub pool: StakingPool,
}

/// The accounts of [`withdraw_sol`].
#[derive(Clone, Copy, Debug, PartialEq, Eq)]
pub struct WithdrawSol {
    /// The holder, whose receipt tokens are burnt and who is paid out.
    pub user: Identity,
    /// The pool ledger.
    pub pool: StakingPool,
}

/// The receipt tokens that a deposit of `amount` buys: `amount * SCALE /
/// exchange_rate`, rounded down, so that the pool never mints too much.
pub open spec fn receipt_for_deposit(pool: StakingPool, amount: u64) -> int {
    mul_div_floor(amount, SCALE, pool.exchange_rate)
}

/// Whether every step of a deposit of `amount` can be computed in 64 bits.
pub open spec fn deposit_fits(pool: StakingPool, amount: u64) -> bool {
    &&& mul_div_fits(amount, SCALE, pool.exchange_rate)
    &&& pool.total_sol_deposited + amount <= u64::MAX
    &&& pool.total_fluidSOL_minted + receipt_for_deposit(pool, amount) <= u64::MAX
    &&& pool.liquid_reserve + amount <= u64::MAX
}

/// What a deposit of `amount` does: the ledger and the receipt tokens to
/// mint, or why the deposit is rejected.
///
/// The deposit joins the deposited total and the liquid reserve, never the
/// stake; the receipt tokens join the minted total.
pub open spec fn deposit_outcome(
    pool: StakingPool,
    amount: u64,
) -> Result<(StakingPool, u64), ErrorCode> {
    if amount == 0 {
        Err(ErrorCode::InvalidAmount)
    } else if amount < MIN_DEPOSIT {
        Err(ErrorCode::MinimumDeposit)
    } else if !deposit_fits(pool, amount) {
        Err(ErrorCode::ArithmeticOverflow)
    } else {
        Ok(
            (
                StakingPool {
                    total_sol_deposited: (pool.total_sol_deposited + amount) as u64,
                    total_fluidSOL_minted: (pool.total_fluidSOL_minted
                        + receipt_for_deposit(pool, amount)) as u64,
                    liquid_reserve: (pool.liquid_reserve + amount) as u64,
                    ..pool
                },
                receipt_for_deposit(pool, amount) as u64,
            ),
        )
    }
}

/// The gross value of `receipt_amount` receipt tokens: `receipt_amount *
/// exchange_rate / SCALE`, rounded down.
pub open spec fn gross_for_receipt(pool: StakingPool, receipt_amount: u64) -> int {
    mul_div_floor(receipt_amount, pool.exchange_rate, SCALE)
}

/// The fee on an instant withdrawal of `gross`: 0.3 %, rounded down.
pub open spec fn withdrawal_fee(gross: int) -> int {
    gross * WITHDRAWAL_FEE_BPS / (BPS_DENOMINATOR as int)
}

/// What an instant withdrawal of `receipt_amount` receipt tokens does: the
/// ledger and the net amount to pay out, or why the withdrawal is rejected.
///
/// The gross value leaves the deposited total and the liquid reserve, the
/// receipt tokens leave the minted total, and the fee, which is taken from
/// what the holder is paid, joins the protocol fees.
pub open spec fn withdraw_outcome(
    pool: StakingPool,
    receipt_amount: u64,
) -> Result<(StakingPool, u64), ErrorCode> {
    let gross = gross_for_receipt(pool, receipt_amount);
    let fee = withdrawal_fee(gross);
    if receipt_amount == 0 {
        Err(ErrorCode::InvalidAmount)
    } else if receipt_amount * pool.exchange_rate > u64::MAX {
        Err(ErrorCode::ArithmeticOverflow)
    } else if gross > pool.liquid_reserve {
        Err(ErrorCode::InsufficientLiquidity)
    } else if gross > pool.total_sol_deposited || receipt_amount > pool.total_fluidSOL_minted {
        Err(ErrorCode::ArithmeticUnderflow)
    } else if pool.protocol_fees_earned + fee > u64::MAX {
        Err(ErrorCode::ArithmeticOverflow)
    } else {
        Ok(
            (
                StakingPool {
                    total_sol_deposited: (pool.total_sol_deposited - gross) as u64,
                    total_fluidSOL_minted: (pool.total_fluidSOL_minted - receipt_amount) as u64,
                    liquid_reserve: (pool.liquid_reserve - gross) as u64,
                    protocol_fees_earned: (pool.protocol_fees_earned + fee) as u64,
                    ..pool
                },
                (gross - fee) as u64,
            ),
        )
    }
}

/// Takes a deposit of `sol_amount` and returns the receipt tokens to mint to
/// the depositor.
///
/// The caller moves the deposit into the pool's custody and mints the receipt
/// tokens, and commits the new ledger only once both have succeeded. A
/// rejected deposit changes nothing.
pub fn deposit_sol(ctx: &mut DepositSol, sol_amount: u64) -> (r: Result<u64, ErrorCode>)
    ensures
        final(ctx).user == old(ctx).user,
        match deposit_outcome(old(ctx).pool, sol_amount) {
            Ok((pool, minted)) => r == Ok::<u64, ErrorCode>(minted) && final(ctx).pool == pool,
            Err(e) => r == Err::<u64, ErrorCode>(e) && *final(ctx) == *old(ctx),
        },
        r matches Ok(minted) ==> {
            &&& minted == (sol_amount * SCALE) / (old(ctx).pool.exchange_rate as int)
            &&& final(ctx).pool.total_sol_deposited == old(ctx).pool.total_sol_deposited
                + sol_amount
            &&& final(ctx).pool.total_fluidSOL_minted == old(ctx).pool.total_fluidSOL_minted
                + minted
            &&& final(ctx).pool.liquid_reserve == old(ctx).pool.liquid_reserve + sol_amount
        },
        final(ctx).pool.exchange_rate == old(ctx).pool.exchange_rate,
        old(ctx).pool.is_balanced() ==> final(ctx).pool.is_balanced(),
        old(ctx).pool.well_formed() ==> final(ctx).pool.well_formed(),
{
    if sol_amount == 0 {
        return Err(ErrorCode::InvalidAmount);
    }
    if sol_amount < MIN_DEPOSIT {
        return Err(ErrorCode::MinimumDeposit);
    }
    let minted: u64 = mul_div(sol_amount, SCALE, ctx.pool.exchange_rate)?;
    let total: u64 = add_checked(ctx.pool.total_sol_deposited, sol_amount)?;
    let supply: u64 = add_checked(ctx.pool.total_fluidSOL_minted, minted)?;
    let reserve: u64 = add_checked(ctx.pool.liquid_reserve, sol_amount)?;
    proof {
        if ctx.pool.is_backed() {
            lemma_deposit_keeps_backing(ctx.pool, sol_amount);
        }
    }
    ctx.pool.total_sol_deposited = total;
    ctx.pool.total_fluidSOL_minted = supply;
    ctx.pool.liquid_reserve = reserve;
    Ok(minted)
}

/// Redeems `fluidSOL_amount` receipt tokens from the liquid reserve and
/// returns the net amount to pay to the holder.
///
/// The caller burns the receipt tokens and pays the net amount out of the
/// pool's custody, and commits the new ledger only once both have succeeded.
/// A withdrawal whose gross value exceeds the liquid reserve is rejected with
/// `InsufficientLiquidity`: there is no partial or delayed withdrawal. A
/// rejected withdrawal changes nothing.
#[allow(non_snake_case)]
pub fn withdraw_sol(ctx: &mut WithdrawSol, fluidSOL_amount: u64) -> (r: Result<u64, ErrorCode>)
    ensures
        final(ctx).user == old(ctx).user,
        match withdraw_outcome(old(ctx).pool, fluidSOL_amount) {
            Ok((pool, net)) => r == Ok::<u64, ErrorCode>(net) && final(ctx).pool == pool,
            Err(e) => r == Err::<u64, ErrorCode>(e) && *final(ctx) == *old(ctx),
        },
        r matches Ok(net) ==> {
            let gross = (fluidSOL_amount * old(ctx).pool.exchange_rate) / (SCALE as int);
            &&& net == gross - (gross * 30) / 10000
            &&& gross <= old(ctx).pool.liquid_reserve
        },
        ({
            let product = fluidSOL_amount * old(ctx).pool.exchange_rate;
            &&& fluidSOL_amount > 0
            &&& product <= u64::MAX
            &&& product / (SCALE as int) > old(ctx).pool.liquid_reserve
        }) ==> r == Err::<u64, ErrorCode>(ErrorCode::InsufficientLiquidity),
        ({
            let product = fluidSOL_amount * old(ctx).pool.exchange_rate;
            let gross = product / (SCALE as int);
            &&& fluidSOL_amount > 0
            &&& product <= u64::MAX
            &&& gross <= old(ctx).pool.liquid_reserve
            &&& gross <= old(ctx).pool.total_sol_deposited
            &&& fluidSOL_amount <= old(ctx).pool.total_fluidSOL_minted
            &&& old(ctx).pool.protocol_fees_earned + withdrawal_fee(gross) <= u64::MAX
        }) ==> r is Ok,
        final(ctx).pool.exchange_rate == old(ctx).pool.exchange_rate,
        old(ctx).pool.is_balanced() ==> final(ctx).pool.is_balanced(),
        old(ctx).pool.well_formed() ==> final(ctx).pool.well_formed(),
{
    if fluidSOL_amount == 0 {
        return Err(ErrorCode::InvalidAmount);
    }
    let gross: u64 = mul_div(fluidSOL_amount, ctx.pool.exchange_rate, SCALE)?;
    if gross > ctx.pool.liquid_reserve {
        return Err(ErrorCode::InsufficientLiquidity);
    }
    let fee: u64 = mul_div(gross, WITHDRAWAL_FEE_BPS, BPS_DENOMINATOR)?;
    proof {
        lemma_fee_within_gross(gross as int);
    }
    let net: u64 = sub_checked(gross, fee)?;
    let total: u64 = sub_checked(ctx.pool.total_sol_deposited, gross)?;
    let supply: u64 = sub_checked(ctx.pool.total_fluidSOL_minted, fluidSOL_amount)?;
    let reserve: u64 = sub_checked(ctx.pool.liquid_reserve, gross)?;
    let fees: u64 = add_checked(ctx.pool.protocol_fees_earned, fee)?;
    proof {
        if ctx.pool.is_backed() {
            lemma_withdrawal_keeps_backing(ctx.pool, fluidSOL_amount);
        }
    }
    ctx.pool.total_sol_deposited = total;
    ctx.pool.total_fluidSOL_minted = supply;
    ctx.pool.liquid_reserve = reserve;
    ctx.pool.protocol_fees_earned = fees;
    Ok(net)
}

/// A deposit into a well-formed ledger leaves it well formed.
pub proof fn lemma_deposit_keeps_well_formed(pool: StakingPool, amount: u64)
    requires
        pool.well_formed(),
    ensures
        deposit_outcome(pool, amount) matches Ok((next, _)) ==> next.well_formed(),
{
    if deposit_outcome(pool, amount) is Ok {
        lemma_deposit_keeps_backing(pool, amount);
    }
}

/// A withdrawal from a well-formed ledger leaves it well formed.
pub proof fn lemma_withdrawal_keeps_well_formed(pool: StakingPool, receipt_amount: u64)
    requires
        pool.well_formed(),
    ensures
        withdraw_outcome(pool, receipt_amount) matches Ok((next, _)) ==> next.well_formed(),
{
    if withdraw_outcome(pool, receipt_amount) is Ok {
        lemma_withdrawal_keeps_backing(pool, receipt_amount);
        lemma_fee_within_gross(gross_for_receipt(pool, receipt_amount));
    }
}

/// The withdrawal fee is never more than the gross amount.
pub proof fn lemma_fee_within_gross(gross: int)
    requires
        0 <= gross,
    ensures
        0 <= withdrawal_fee(gross) <= gross,
{
    assert(0 <= gross * 30 / 10000 <= gross);
}

/// A deposit leaves the receipt tokens covered: what it mints is worth no
/// more, at the rate, than what it brings.
pub proof fn lemma_deposit_keeps_backing(pool: StakingPool, amount: u64)
    requires
        pool.is_backed(),
        pool.exchange_rate > 0,
    ensures
        pool.exchange_rate * (pool.total_fluidSOL_minted + receipt_for_deposit(pool, amount))
            <= (pool.total_sol_deposited + amount) * SCALE,
{
    let rate = pool.exchange_rate as int;
    let minted = receipt_for_deposit(pool, amount);
    let supply = pool.total_fluidSOL_minted as int;
    let total = pool.total_sol_deposited as int;
    let a = amount as int;
    let s = SCALE as int;
    assert(0 <= a * s) by (nonlinear_arith)
        requires
            0 <= a,
            0 <= s,
    ;
    lemma_floor_times_divisor(a * s, rate);
    assert(rate * (supply + minted) <= (total + a) * s) by (nonlinear_arith)
        requires
            rate * supply <= total * s,
            rate * minted <= a * s,
    ;
}

/// A withdrawal leaves the receipt tokens covered: what it pays out is worth
/// no more, at the rate, than what it burns.
pub proof fn lemma_withdrawal_keeps_backing(pool: StakingPool, receipt_amount: u64)
    requires
        pool.is_backed(),
        receipt_amount <= pool.total_fluidSOL_minted,
        gross_for_receipt(pool, receipt_amount) <= pool.total_sol_deposited,
    ensures
        pool.exchange_rate * (pool.total_fluidSOL_minted - receipt_amount)
            <= (pool.total_sol_deposited - gross_for_receipt(pool, receipt_amount)) * SCALE,
{
    let rate = pool.exchange_rate as int;
    let gross = gross_for_receipt(pool, receipt_amount);
    let supply = pool.total_fluidSOL_minted as int;
    let total = pool.total_sol_deposited as int;
    let r = receipt_amount as int;
    let s = SCALE as int;
    assert(0 <= r * rate) by (nonlinear_arith)
        requires
            0 <= r,
            0 <= rate,
    ;
    lemma_floor_times_divisor(r * rate, s);
    assert(rate * (supply - r) <= (total - gross) * s) by (nonlinear_arith)
        requires
            rate * supply <= total * s,
            s * gross <= r * rate,
    ;
}

} // verus!
