use liquid_staking::{
    add_validator, stake_to_validator, AddValidator, ErrorCode, Identity, StakeToValidator,
    StakingPool, ValidatorInfo, FULL_PERFORMANCE_SCORE, MAX_VALIDATORS,
};

fn key(tag: u8) -> Identity {
    Identity::new([tag; 32])
}

fn pool_with(staked: u64, liquid: u64, validator_count: u8) -> StakingPool {
    StakingPool {
        authority: key(1),
        total_sol_deposited: staked.wrapping_add(liquid),
        total_fluidSOL_minted: 0,
        exchange_rate: 1_000_000_000,
        staked_sol_balance: staked,
        liquid_reserve: liquid,
        protocol_fees_earned: 0,
        bump: 255,
        validator_count,
        target_reserve_ratio: 30,
        protocol_fee_bps: 1000,
    }
}

fn validator(total_delegated: u64, is_active: bool) -> ValidatorInfo {
    ValidatorInfo {
        vote_account: key(50),
        allocation_percentage: 40,
        total_delegated,
        last_update_epoch: 3,
        performance_score: 100,
        is_active,
    }
}

fn stale_record() -> ValidatorInfo {
    ValidatorInfo {
        vote_account: key(0),
        allocation_percentage: 7,
        total_delegated: 8,
        last_update_epoch: 9,
        performance_score: 10,
        is_active: false,
    }
}

#[test]
fn registry_constants_have_their_values() {
    assert_eq!(MAX_VALIDATORS, 10);
    assert_eq!(FULL_PERFORMANCE_SCORE, 100);
}

#[test]
fn add_validator_writes_a_fresh_record() {
    let mut ctx = AddValidator {
        authority: key(1),
        pool: pool_with(0, 0, 3),
        validator_info: stale_record(),
    };
    assert_eq!(add_validator(&mut ctx, key(60), 25, 412), Ok(()));
    assert_eq!(
        ctx.validator_info,
        ValidatorInfo {
            vote_account: key(60),
            allocation_percentage: 25,
            total_delegated: 0,
            last_update_epoch: 412,
            performance_score: 100,
            is_active: true,
        }
    );
    assert_eq!(ctx.pool, pool_with(0, 0, 4));
    assert_eq!(ctx.authority, key(1));
}

#[test]
fn add_validator_by_a_stranger_is_unauthorized() {
    let before = AddValidator {
        authority: key(2),
        pool: pool_with(0, 0, 3),
        validator_info: stale_record(),
    };
    let mut ctx = before;
    assert_eq!(add_validator(&mut ctx, key(60), 25, 412), Err(ErrorCode::Unauthorized));
    assert_eq!(ctx, before);
}

#[test]
fn identities_differ_by_a_single_byte() {
    let mut bytes = [1u8; 32];
    bytes[31] = 2;
    let near = Identity::new(bytes);
    assert!(near != key(1));
    assert!(key(1) == Identity::new([1u8; 32]));
    assert_eq!(near.bytes, bytes);
    let before = AddValidator {
        authority: near,
        pool: pool_with(0, 0, 3),
        validator_info: stale_record(),
    };
    let mut ctx = before;
    assert_eq!(add_validator(&mut ctx, key(60), 25, 412), Err(ErrorCode::Unauthorized));
    assert_eq!(ctx, before);
}

#[test]
fn add_validator_with_an_allocation_above_one_hundred_is_rejected() {
    let before = AddValidator {
        authority: key(1),
        pool: pool_with(0, 0, 3),
        validator_info: stale_record(),
    };
    let mut ctx = before;
    assert_eq!(add_validator(&mut ctx, key(60), 101, 412), Err(ErrorCode::InvalidAllocation));
    assert_eq!(ctx, before);
    assert_eq!(add_validator(&mut ctx, key(60), 255, 412), Err(ErrorCode::InvalidAllocation));
    assert_eq!(ctx, before);
    assert_eq!(add_validator(&mut ctx, key(60), 100, 412), Ok(()));
    assert_eq!(ctx.validator_info.allocation_percentage, 100);
    assert_eq!(add_validator(&mut ctx, key(61), 0, 412), Ok(()));
    assert_eq!(ctx.validator_info.allocation_percentage, 0);
    assert_eq!(ctx.pool.validator_count, 5);
}

#[test]
fn add_validator_checks_the_caller_before_the_allocation_and_the_allocation_before_the_count() {
    let mut ctx = AddValidator {
        authority: key(2),
        pool: pool_with(0, 0, 10),
        validator_info: stale_record(),
    };
    assert_eq!(add_validator(&mut ctx, key(60), 101, 412), Err(ErrorCode::Unauthorized));
    ctx.authority = key(1);
    assert_eq!(add_validator(&mut ctx, key(60), 101, 412), Err(ErrorCode::InvalidAllocation));
    assert_eq!(add_validator(&mut ctx, key(60), 100, 412), Err(ErrorCode::TooManyValidators));
}

#[test]
fn add_validator_takes_the_tenth_and_a_duplicate() {
    let mut ctx = AddValidator {
        authority: key(1),
        pool: pool_with(0, 0, 8),
        validator_info: stale_record(),
    };
    assert_eq!(add_validator(&mut ctx, key(60), 10, 1), Ok(()));
    assert_eq!(add_validator(&mut ctx, key(60), 10, 1), Ok(()));
    assert_eq!(ctx.pool.validator_count, 10);
    assert_eq!(add_validator(&mut ctx, key(60), 10, 1), Err(ErrorCode::TooManyValidators));
    assert_eq!(ctx.pool.validator_count, 10);
}

#[test]
fn add_validator_to_an_overfull_registry_is_rejected() {
    let before = AddValidator {
        authority: key(1),
        pool: pool_with(0, 0, 255),
        validator_info: stale_record(),
    };
    let mut ctx = before;
    assert_eq!(add_validator(&mut ctx, key(60), 10, 1), Err(ErrorCode::TooManyValidators));
    assert_eq!(ctx, before);
}

#[test]
fn stake_moves_reserve_to_stake() {
    let mut ctx = StakeToValidator {
        authority: key(1),
        pool: pool_with(100, 1_000, 1),
        validator_info: validator(100, true),
    };
    assert_eq!(stake_to_validator(&mut ctx, 400, 1, 77), Ok(()));
    assert_eq!(ctx.pool, pool_with(500, 600, 1));
    assert_eq!(
        ctx.validator_info,
        ValidatorInfo {
            vote_account: key(50),
            allocation_percentage: 40,
            total_delegated: 500,
            last_update_epoch: 77,
            performance_score: 100,
            is_active: true,
        }
    );
    assert_eq!(ctx.authority, key(1));
}

#[test]
fn stake_of_the_whole_reserve_and_of_nothing() {
    let mut ctx = StakeToValidator {
        authority: key(1),
        pool: pool_with(0, 1_000, 1),
        validator_info: validator(0, true),
    };
    assert_eq!(stake_to_validator(&mut ctx, 1_000, 9, 77), Ok(()));
    assert_eq!(ctx.pool, pool_with(1_000, 0, 1));
    assert_eq!(ctx.validator_info.total_delegated, 1_000);
    assert_eq!(stake_to_validator(&mut ctx, 0, 9, 78), Ok(()));
    assert_eq!(ctx.pool, pool_with(1_000, 0, 1));
    assert_eq!(ctx.validator_info.total_delegated, 1_000);
    assert_eq!(ctx.validator_info.last_update_epoch, 78);
}

#[test]
fn stake_by_a_stranger_is_unauthorized() {
    let before = StakeToValidator {
        authority: key(3),
        pool: pool_with(100, 1_000, 1),
        validator_info: validator(100, true),
    };
    let mut ctx = before;
    assert_eq!(stake_to_validator(&mut ctx, 400, 1, 77), Err(ErrorCode::Unauthorized));
    assert_eq!(ctx, before);
}

#[test]
fn stake_beyond_the_reserve_is_rejected() {
    let before = StakeToValidator {
        authority: key(1),
        pool: pool_with(100, 1_000, 1),
        validator_info: validator(100, true),
    };
    let mut ctx = before;
    assert_eq!(stake_to_validator(&mut ctx, 1_001, 1, 77), Err(ErrorCode::InsufficientLiquidity));
    assert_eq!(ctx, before);
}

#[test]
fn stake_into_any_slot_is_taken() {
    let slots: [u64; 4] = [0, 1, 2, u64::MAX];
    for slot in slots {
        let mut ctx = StakeToValidator {
            authority: key(1),
            pool: pool_with(100, 1_000, 1),
            validator_info: validator(100, true),
        };
        assert_eq!(stake_to_validator(&mut ctx, 400, slot, 77), Ok(()));
        assert_eq!(ctx.pool, pool_with(500, 600, 1));
        assert_eq!(ctx.validator_info.total_delegated, 500);
        assert_eq!(ctx.validator_info.last_update_epoch, 77);
    }
}

#[test]
fn stake_to_an_inactive_validator_is_rejected() {
    let before = StakeToValidator {
        authority: key(1),
        pool: pool_with(100, 1_000, 1),
        validator_info: validator(100, false),
    };
    let mut ctx = before;
    assert_eq!(stake_to_validator(&mut ctx, 400, 1, 77), Err(ErrorCode::ValidatorInactive));
    assert_eq!(ctx, before);
}

#[test]
fn stake_checks_in_order() {
    let mut ctx = StakeToValidator {
        authority: key(3),
        pool: pool_with(100, 1_000, 1),
        validator_info: validator(100, false),
    };
    assert_eq!(stake_to_validator(&mut ctx, 1_001, 0, 77), Err(ErrorCode::Unauthorized));
    ctx.authority = key(1);
    assert_eq!(stake_to_validator(&mut ctx, 1_001, 0, 77), Err(ErrorCode::InsufficientLiquidity));
    assert_eq!(stake_to_validator(&mut ctx, 1_000, 0, 77), Err(ErrorCode::ValidatorInactive));
    ctx.validator_info.is_active = true;
    assert_eq!(stake_to_validator(&mut ctx, 1_000, 0, 77), Ok(()));
    assert_eq!(ctx.pool, pool_with(1_100, 0, 1));
}

#[test]
fn stake_that_overflows_is_rejected() {
    let before = StakeToValidator {
        authority: key(1),
        pool: pool_with(u64::MAX - 10, 1_000, 1),
        validator_info: validator(100, true),
    };
    let mut ctx = before;
    assert_eq!(stake_to_validator(&mut ctx, 11, 1, 77), Err(ErrorCode::ArithmeticOverflow));
    assert_eq!(ctx, before);

    let before = StakeToValidator {
        authority: key(1),
        pool: pool_with(100, 1_000, 1),
        validator_info: validator(u64::MAX - 10, true),
    };
    let mut ctx = before;
    assert_eq!(stake_to_validator(&mut ctx, 11, 1, 77), Err(ErrorCode::ArithmeticOverflow));
    assert_eq!(ctx, before);
    assert_eq!(stake_to_validator(&mut ctx, 10, 1, 77), Ok(()));
    assert_eq!(ctx.validator_info.total_delegated, u64::MAX);
}
