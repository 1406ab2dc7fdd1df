//! The pool ledger and the validator records, with what holds of them
//! between operations.

use vstd::prelude::*;
use crate::identity::Identity;
use crate::error::ErrorCode;
use crate::math::{SCALE, BPS_DENOMINATOR};

verus! {

/// The most validators that the registry takes.
pub const MAX_VALIDATORS: u8 = 10;

/// The share of the pool that is kept liquid, in percent, in a new pool.
pub const DEFAULT_RESERVE_RATIO: u8 = 30;

/// The share of validator rewards that the protocol keeps, in basis points,
/// in a new pool.
pub const DEFAULT_PROTOCOL_FEE_BPS: u16 = 1000;

/// The score that a validator starts with, which is also the highest.
pub const FULL_PERFORMANCE_SCORE: u8 = 100;

/// The pool ledger: one per deployment.
#[allow(non_snake_case)]
#[derive(Clone, Copy, Debug, PartialEq, Eq)]
pub struct StakingPool {
    /// Who may perform the privileged operations.
    pub authority: Identity,
    /// The value that backs the receipt tokens. Protocol fees are not part of
    /// it.
    pub total_sol_deposited: u64,
    /// The receipt tokens in circulation.
    pub total_fluidSOL_minted: u64,
    /// The value of one whole receipt token, scaled by [`SCALE`].
    pub exchange_rate: u64,
    /// The part of the deposits that is delegated to validators.
    pub staked_sol_balance: u64,
    /// The part of the deposits that is held for instant withdrawals.
    pub liquid_reserve: u64,
    /// The fees that the protocol has earned and not yet withdrawn.
    pub protocol_fees_earned: u64,
    /// The bump seed of the address under which the ledger is stored.
    pub bump: u8,
    /// The number of validators that have been registered.
    pub validator_count: u8,
    /// The share of the deposits to keep liquid, in percent.
    pub target_reserve_ratio: u8,
    /// The share of validator rewards that the protocol keeps, in basis
    /// points.
    pub protocol_fee_bps: u16,
}

/// The pool's bookkeeping for one validator.
#[derive(Clone, Copy, Debug, PartialEq, Eq)]
pub struct ValidatorInfo {
    /// The validator's vote account.
    pub vote_account: Identity,
    /// The share of the delegated stake that this validator should get, in
    /// percent. The shares of all validators need not add up to one hundred.
    pub allocation_percentage: u8,
    /// The value that the pool's books attribute to this validator.
    pub total_delegated: u64,
    /// The epoch in which this record was last brought up to date.
    pub last_update_epoch: u64,
    /// A score from 0 to 100. No operation changes it.
    pub performance_score: u8,
    /// Whether the validator may be delegated to.
    pub is_active: bool,
}

impl StakingPool {
    /// The deposits are split between stake and reserve with nothing left
    /// over.
    pub open spec fn is_balanced(self) -> bool {
        self.staked_sol_balance + self.liquid_reserve == self.total_sol_deposited
    }

    /// The receipt tokens in circulation, valued at the exchange rate, are
    /// covered by the deposits.
    pub open spec fn is_backed(self) -> bool {
        self.exchange_rate * self.total_fluidSOL_minted <= self.total_sol_deposited * SCALE
    }

    /// What holds of the ledger of a new pool and after every operation on a
    /// ledger of which it held before.
    pub open spec fn well_formed(self) -> bool {
        &&& self.is_balanced()
        &&& self.is_backed()
        &&& self.exchange_rate >= SCALE
        &&& self.validator_count <= MAX_VALIDATORS
        &&& self.target_reserve_ratio <= 100
        &&& self.protocol_fee_bps <= BPS_DENOMINATOR
    }
}

impl ValidatorInfo {
    /// The percentage and the score are at most one hundred.
    pub open spec fn well_formed(self) -> bool {
        &&& self.allocation_percentage <= 100
        &&& self.performance_score <= FULL_PERFORMANCE_SCORE
    }
}

/// The ledger of a new pool: a rate of one, nothing deposited, minted, staked
/// or earned, no validators, and the default reserve ratio and protocol fee.
pub open spec fn fresh_pool(authority: Identity, bump: u8) -> StakingPool {
    StakingPool {
        authority,
        total_sol_deposited: 0,
        total_fluidSOL_minted: 0,
        exchange_rate: SCALE,
        staked_sol_balance: 0,
        liquid_reserve: 0,
        protocol_fees_earned: 0,
        bump,
        validator_count: 0,
        target_reserve_ratio: DEFAULT_RESERVE_RATIO,
        protocol_fee_bps: DEFAULT_PROTOCOL_FEE_BPS,
    }
}

/// The accounts of [`initialize_pool`].
#[derive(Clone, Copy, Debug, PartialEq, Eq)]
pub struct InitializePool {
    /// The caller, who becomes the pool authority.
    pub authority: Identity,
    /// The ledger to set up.
    pub pool: StakingPool,
}

/// Sets up the ledger of a new pool, with the caller as its authority and
/// `bump` as the bump seed of its address.
///
/// Whatever the ledger held before is overwritten: that a pool is set up only
/// once is for the keeper of the storage to see to.
pub fn initialize_pool(ctx: &mut InitializePool, bump: u8) -> (r: Result<(), ErrorCode>)
    ensures
        r is Ok,
        final(ctx).authority == old(ctx).authority,
        final(ctx).pool == fresh_pool(old(ctx).authority, bump),
        final(ctx).pool.well_formed(),
{
    ctx.pool = StakingPool {
        authority: ctx.authority,
        total_sol_deposited: 0,
        total_fluidSOL_minted: 0,
        exchange_rate: SCALE,
        staked_sol_balance: 0,
        liquid_reserve: 0,
        protocol_fees_earned: 0,
        bump,
        validator_count: 0,
        target_reserve_ratio: DEFAULT_RESERVE_RATIO,
        protocol_fee_bps: DEFAULT_PROTOCOL_FEE_BPS,
    };
    Ok(())
}

} // verus!
