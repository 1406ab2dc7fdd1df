use liquid_staking::{
    add_validator, deposit_sol, harvest_rewards, initialize_pool, rebalance_pool,
    stake_to_validator, update_rewards, withdraw_protocol_fees, withdraw_sol, AddValidator,
    DepositSol, ErrorCode, HarvestRewards, Identity, InitializePool, RebalancePool,
    StakeToValidator, StakingPool, UpdateRewards, ValidatorInfo, WithdrawProtocolFees,
    WithdrawSol,
};

fn key(tag: u8) -> Identity {
    Identity::new([tag; 32])
}

fn blank_pool() -> StakingPool {
    StakingPool {
        authority: key(0),
        total_sol_deposited: 77,
        total_fluidSOL_minted: 78,
        exchange_rate: 79,
        staked_sol_balance: 80,
        liquid_reserve: 81,
        protocol_fees_earned: 82,
        bump: 83,
        validator_count: 84,
        target_reserve_ratio: 85,
        protocol_fee_bps: 86,
    }
}

fn new_pool(authority: Identity) -> StakingPool {
    let mut ctx = InitializePool { authority, pool: blank_pool() };
    assert_eq!(initialize_pool(&mut ctx, 254), Ok(()));
    ctx.pool
}

fn blank_validator() -> ValidatorInfo {
    ValidatorInfo {
        vote_account: key(0),
        allocation_percentage: 0,
        total_delegated: 0,
        last_update_epoch: 0,
        performance_score: 0,
        is_active: false,
    }
}

fn balanced(pool: &StakingPool) -> bool {
    pool.staked_sol_balance as u128 + pool.liquid_reserve as u128
        == pool.total_sol_deposited as u128
}

#[test]
fn initialize_pool_sets_every_field() {
    let pool = new_pool(key(1));
    assert_eq!(
        pool,
        StakingPool {
            authority: key(1),
            total_sol_deposited: 0,
            total_fluidSOL_minted: 0,
            exchange_rate: 1_000_000_000,
            staked_sol_balance: 0,
            liquid_reserve: 0,
            protocol_fees_earned: 0,
            bump: 254,
            validator_count: 0,
            target_reserve_ratio: 30,
            protocol_fee_bps: 1000,
        }
    );
}

#[test]
fn deposit_then_withdraw_half() {
    let pool = new_pool(key(1));
    assert_eq!(pool.exchange_rate, 1_000_000_000);

    let mut deposit = DepositSol { user: key(2), pool };
    assert_eq!(deposit_sol(&mut deposit, 1_000_000_000), Ok(1_000_000_000));
    assert_eq!(deposit.pool.liquid_reserve, 1_000_000_000);
    assert_eq!(deposit.pool.total_sol_deposited, 1_000_000_000);
    assert_eq!(deposit.pool.total_fluidSOL_minted, 1_000_000_000);
    assert_eq!(deposit.user, key(2));

    let mut withdraw = WithdrawSol { user: key(2), pool: deposit.pool };
    assert_eq!(withdraw_sol(&mut withdraw, 500_000_000), Ok(498_500_000));
    assert_eq!(withdraw.pool.total_sol_deposited, 500_000_000);
    assert_eq!(withdraw.pool.liquid_reserve, 500_000_000);
    assert_eq!(withdraw.pool.protocol_fees_earned, 1_500_000);
    assert_eq!(withdraw.pool.total_fluidSOL_minted, 500_000_000);
    assert_eq!(withdraw.pool.exchange_rate, 1_000_000_000);
    assert_eq!(withdraw.pool.staked_sol_balance, 0);
}

#[test]
fn update_rewards_raises_the_rate() {
    let mut pool = new_pool(key(1));
    pool.total_sol_deposited = 1_000_000_000;
    pool.total_fluidSOL_minted = 1_000_000_000;
    pool.liquid_reserve = 1_000_000_000;
    assert_eq!(pool.protocol_fee_bps, 1000);

    let mut ctx = UpdateRewards { authority: key(1), pool };
    assert_eq!(update_rewards(&mut ctx, 100_000_000), Ok(()));
    assert_eq!(ctx.pool.protocol_fees_earned, 10_000_000);
    assert_eq!(ctx.pool.total_sol_deposited, 1_090_000_000);
    assert_eq!(ctx.pool.staked_sol_balance, 90_000_000);
    assert_eq!(ctx.pool.exchange_rate, 1_090_000_000);
    assert_eq!(ctx.pool.total_fluidSOL_minted, 1_000_000_000);
    assert_eq!(ctx.pool.liquid_reserve, 1_000_000_000);
}

#[test]
fn eleventh_validator_is_rejected() {
    let mut pool = new_pool(key(1));
    for i in 0..10u8 {
        let mut ctx = AddValidator { authority: key(1), pool, validator_info: blank_validator() };
        assert_eq!(add_validator(&mut ctx, key(100 + i), 10, 5), Ok(()));
        assert_eq!(ctx.pool.validator_count, i + 1);
        pool = ctx.pool;
    }
    let before = AddValidator { authority: key(1), pool, validator_info: blank_validator() };
    let mut ctx = before;
    assert_eq!(add_validator(&mut ctx, key(111), 10, 5), Err(ErrorCode::TooManyValidators));
    assert_eq!(ctx.pool.validator_count, 10);
    assert_eq!(ctx, before);
}

#[test]
fn rate_is_fixed_over_deposits_and_withdrawals() {
    let mut pool = new_pool(key(1));
    pool.total_sol_deposited = 3_000_000_000;
    pool.total_fluidSOL_minted = 2_000_000_000;
    pool.liquid_reserve = 3_000_000_000;
    pool.exchange_rate = 1_500_000_000;

    let deposits: [u64; 4] = [1_000_000, 7_777_777, 2_500_000_000, 1_000_001];
    let withdrawals: [u64; 4] = [1, 333_333, 1_000_000_000, 5_000_000_000_000];
    for i in 0..4 {
        let mut d = DepositSol { user: key(2), pool };
        let minted = deposit_sol(&mut d, deposits[i]).unwrap();
        assert_eq!(minted as u128, deposits[i] as u128 * 1_000_000_000 / 1_500_000_000);
        assert_eq!(d.pool.exchange_rate, 1_500_000_000);
        assert!(balanced(&d.pool));
        pool = d.pool;

        let mut w = WithdrawSol { user: key(2), pool };
        let _ = withdraw_sol(&mut w, withdrawals[i]);
        assert_eq!(w.pool.exchange_rate, 1_500_000_000);
        assert!(balanced(&w.pool));
        pool = w.pool;
    }
    assert_eq!(pool.exchange_rate, 1_500_000_000);
}

#[test]
fn balance_holds_after_every_operation() {
    let authority = key(1);
    let mut pool = new_pool(authority);
    assert!(balanced(&pool));

    let mut d = DepositSol { user: key(2), pool };
    deposit_sol(&mut d, 10_000_000_000).unwrap();
    pool = d.pool;
    assert!(balanced(&pool));

    let mut a = AddValidator { authority, pool, validator_info: blank_validator() };
    add_validator(&mut a, key(9), 50, 3).unwrap();
    pool = a.pool;
    let mut validator = a.validator_info;
    assert!(balanced(&pool));

    let mut s = StakeToValidator { authority, pool, validator_info: validator };
    stake_to_validator(&mut s, 9_000_000_000, 1, 4).unwrap();
    pool = s.pool;
    validator = s.validator_info;
    assert!(balanced(&pool));
    assert_eq!(pool.staked_sol_balance, 9_000_000_000);
    assert_eq!(pool.liquid_reserve, 1_000_000_000);

    let mut h = HarvestRewards {
        authority,
        pool,
        validator_info: validator,
        stake_account_balance: 9_100_000_000,
    };
    harvest_rewards(&mut h, 0, 5).unwrap();
    pool = h.pool;
    assert!(balanced(&pool));
    assert_eq!(pool.total_sol_deposited, 10_090_000_000);

    let mut u = UpdateRewards { authority, pool };
    update_rewards(&mut u, 1_000).unwrap();
    pool = u.pool;
    assert!(balanced(&pool));

    let mut r = RebalancePool { authority, pool };
    let report = rebalance_pool(&mut r).unwrap();
    pool = r.pool;
    assert!(balanced(&pool));
    assert_eq!(report.unstaked, report.shortfall);
    assert!(pool.liquid_reserve >= report.target_reserve);

    let mut w = WithdrawSol { user: key(2), pool };
    withdraw_sol(&mut w, 1_000_000_000).unwrap();
    pool = w.pool;
    assert!(balanced(&pool));

    let mut f = WithdrawProtocolFees { authority, pool };
    withdraw_protocol_fees(&mut f, 1).unwrap();
    pool = f.pool;
    assert!(balanced(&pool));
    assert!(pool.exchange_rate >= 1_000_000_000);
}

#[test]
fn deposit_and_redeem_at_once_gives_back_no_more() {
    let rates: [u64; 4] = [1_000_000_000, 1_000_000_007, 1_499_999_999, 3_333_333_333];
    let amounts: [u64; 4] = [1_000_000, 1_000_001, 999_999_999, 12_345_678_901];
    for rate in rates {
        for amount in amounts {
            let mut pool = new_pool(key(1));
            pool.exchange_rate = rate;
            let mut d = DepositSol { user: key(2), pool };
            let minted = deposit_sol(&mut d, amount).unwrap();
            let mut w = WithdrawSol { user: key(2), pool: d.pool };
            let net = withdraw_sol(&mut w, minted).unwrap();
            let gross = net + w.pool.protocol_fees_earned;
            assert!(gross <= amount);
            assert_eq!(w.pool.total_sol_deposited, amount - gross);
            assert_eq!(w.pool.total_fluidSOL_minted, 0);
        }
    }
}

#[test]
fn second_rebalance_moves_nothing() {
    let mut pool = new_pool(key(1));
    pool.total_sol_deposited = 1_000_003;
    pool.staked_sol_balance = 900_002;
    pool.liquid_reserve = 100_001;
    let mut ctx = RebalancePool { authority: key(1), pool };
    let first = rebalance_pool(&mut ctx).unwrap();
    assert_eq!(first.target_reserve, 300_000);
    assert_eq!(first.unstaked, 199_999);
    let settled = ctx;
    let second = rebalance_pool(&mut ctx).unwrap();
    assert_eq!(second.unstaked, 0);
    assert_eq!(second.shortfall, 0);
    assert_eq!(second.surplus, 0);
    assert_eq!(ctx, settled);
}

#[test]
fn rewards_may_lower_the_rate_of_an_uncovered_ledger() {
    // receipt tokens with nothing behind them: the rate claims more than the
    // deposits hold
    let mut pool = new_pool(key(1));
    pool.total_fluidSOL_minted = 1_000_000_000;
    let mut ctx = UpdateRewards { authority: key(1), pool };
    assert_eq!(update_rewards(&mut ctx, 100), Ok(()));
    assert_eq!(ctx.pool.total_sol_deposited, 90);
    assert_eq!(ctx.pool.exchange_rate, 90);
}
