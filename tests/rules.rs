use bert_staking_sc::admin::{AdminSetPoolConfig, AdminWithdrawToken, InitializePool, WithdrawSource};
use bert_staking_sc::claim::{ClaimPositionNft, ClaimPositionToken};
use bert_staking_sc::math::{calculate_unlock_time, calculate_yield};
use bert_staking_sc::stake::{StakeNFT, StakeToken};
use bert_staking_sc::state::{
    Address, Config, Pool, PoolConfigArgs, PositionStatus, PositionType, PositionV4,
    UserAccountV3, UserPoolStatsAccount,
};
use bert_staking_sc::StakingError;

fn addr(n: u128) -> Address {
    Address { hi: 0, lo: n }
}

fn admin() -> Address {
    addr(1)
}

fn alice() -> Address {
    addr(2)
}

fn bob() -> Address {
    addr(3)
}

fn config() -> Config {
    Config {
        id: 1,
        authority: admin(),
        mint: addr(10),
        collection: addr(11),
        vault: addr(12),
        authority_vault: addr(13),
        nfts_vault: addr(14),
        admin_withdraw_destination: addr(15),
        pool_count: 1,
        max_cap: 0,
        nft_value_in_tokens: 1_000,
        nfts_limit_per_user: 2,
        total_staked_amount: 0,
        total_nfts_staked: 0,
    }
}

fn pool() -> Pool {
    Pool {
        config: addr(100),
        index: 0,
        lock_period_days: 7,
        yield_rate: 500,
        max_nfts_cap: 3,
        max_tokens_cap: 10_000,
        max_value_cap: 20_000,
        is_paused: false,
        total_nfts_staked: 0,
        total_tokens_staked: 0,
        lifetime_nfts_staked: 0,
        lifetime_tokens_staked: 0,
        lifetime_claimed_yield: 0,
    }
}

fn user() -> UserAccountV3 {
    UserAccountV3 {
        config: addr(100),
        total_staked_token_amount: 0,
        total_staked_nfts: 0,
        total_staked_value: 0,
        total_claimed_yield: 0,
    }
}

fn stake_token_ctx() -> StakeToken {
    StakeToken {
        owner: alice(),
        config: config(),
        pool: pool(),
        pool_key: addr(200),
        user_account: user(),
        user_pool_stats: UserPoolStatsAccount::empty(alice(), addr(200)),
        mint: addr(10),
    }
}

fn stake_nft_ctx() -> StakeNFT {
    StakeNFT {
        owner: alice(),
        config: config(),
        pool: pool(),
        pool_key: addr(200),
        user_account: user(),
        user_pool_stats: UserPoolStatsAccount::empty(alice(), addr(200)),
        asset: addr(77),
    }
}

fn open_token_position(amount: u64) -> PositionV4 {
    PositionV4 {
        owner: alice(),
        pool: addr(200),
        deposit_time: 1_000,
        amount,
        position_type: PositionType::Token,
        unlock_time: 2_000,
        status: PositionStatus::Unclaimed,
        asset: addr(10),
        id: 1,
        last_claimed_at: 1_000,
    }
}

fn claim_token_ctx(amount: u64) -> ClaimPositionToken {
    let mut ctx = ClaimPositionToken {
        owner: alice(),
        config: config(),
        pool: pool(),
        pool_key: addr(200),
        user_account: user(),
        user_pool_stats: UserPoolStatsAccount::empty(alice(), addr(200)),
        position: open_token_position(amount),
        authority_vault_balance: 1_000_000,
    };
    ctx.config.total_staked_amount = amount;
    ctx.pool.total_tokens_staked = amount;
    ctx.user_account.total_staked_token_amount = amount;
    ctx.user_account.total_staked_value = amount;
    ctx.user_pool_stats.tokens_staked = amount;
    ctx.user_pool_stats.total_value = amount;
    ctx
}

fn claim_nft_ctx() -> ClaimPositionNft {
    let t = claim_token_ctx(1_000);
    let mut ctx = ClaimPositionNft {
        owner: t.owner,
        config: t.config,
        pool: t.pool,
        pool_key: t.pool_key,
        user_account: t.user_account,
        user_pool_stats: t.user_pool_stats,
        position: t.position,
        authority_vault_balance: t.authority_vault_balance,
    };
    ctx.position.position_type = PositionType::NFT;
    ctx.config.total_nfts_staked = 1;
    ctx.pool.total_nfts_staked = 1;
    ctx.user_account.total_staked_nfts = 1;
    ctx.user_pool_stats.nfts_staked = 1;
    ctx
}

#[test]
fn yield_five_percent_of_a_million() {
    assert_eq!(calculate_yield(1_000_000, 500), Ok(50_000));
}

#[test]
fn yield_rounds_toward_zero() {
    assert_eq!(calculate_yield(7, 1), Ok(0));
    assert_eq!(calculate_yield(19_999, 1), Ok(1));
    assert_eq!(calculate_yield(0, 10_000), Ok(0));
}

#[test]
fn yield_widens_before_dividing() {
    // The product passes 64 bits, the quotient does not.
    assert_eq!(calculate_yield(u64::MAX, 10_000), Ok(u64::MAX));
    assert_eq!(calculate_yield(u64::MAX, 5_000), Ok(u64::MAX / 2));
}

#[test]
fn yield_too_large_overflows() {
    assert_eq!(calculate_yield(u64::MAX, 10_001), Err(StakingError::ArithmeticOverflow));
}

#[test]
fn unlock_time_adds_whole_days() {
    assert_eq!(calculate_unlock_time(1_000, 7), Ok(1_000 + 7 * 86_400));
    assert_eq!(calculate_unlock_time(-5, 0), Ok(-5));
    assert_eq!(calculate_unlock_time(i64::MAX - 10, 1), Err(StakingError::ArithmeticOverflow));
}

#[test]
fn stake_zero_is_invalid() {
    let mut ctx = stake_token_ctx();
    assert_eq!(ctx.stake_token(1, 0, 1_000), Err(StakingError::InvalidAmount));
}

#[test]
fn stake_into_paused_pool_fails() {
    let mut ctx = stake_token_ctx();
    ctx.pool.is_paused = true;
    assert_eq!(ctx.stake_token(1, 10, 1_000), Err(StakingError::PoolAlreadyPaused));
    let mut nft = stake_nft_ctx();
    nft.pool.is_paused = true;
    assert_eq!(nft.stake_nft(1, 1_000), Err(StakingError::PoolAlreadyPaused));
}

#[test]
fn stake_past_user_token_cap_fails_without_changes() {
    let mut ctx = stake_token_ctx();
    ctx.user_pool_stats.tokens_staked = 9_000;
    let before = ctx;
    assert_eq!(ctx.stake_token(1, 1_001, 1_000), Err(StakingError::UserTokensLimitCapReached));
    assert_eq!(ctx, before);
}

#[test]
fn stake_up_to_user_token_cap_succeeds() {
    let mut ctx = stake_token_ctx();
    ctx.user_pool_stats.tokens_staked = 9_000;
    ctx.pool.total_tokens_staked = 9_000;
    assert!(ctx.stake_token(1, 1_000, 1_000).is_ok());
    assert_eq!(ctx.user_pool_stats.tokens_staked, 10_000);
}

#[test]
fn stake_past_pool_value_cap_fails() {
    let mut ctx = stake_token_ctx();
    ctx.pool.total_tokens_staked = 15_000;
    ctx.pool.total_nfts_staked = 4;
    let before = ctx;
    assert_eq!(ctx.stake_token(1, 1_001, 1_000), Err(StakingError::PoolValueLimitReached));
    assert_eq!(ctx, before);
    assert!(ctx.stake_token(1, 1_000, 1_000).is_ok());
    assert_eq!(ctx.pool.total_tokens_staked, 16_000);
}

#[test]
fn stake_overflowing_a_counter_fails() {
    let mut ctx = stake_token_ctx();
    ctx.pool.max_tokens_cap = u64::MAX;
    ctx.pool.max_value_cap = u64::MAX;
    ctx.config.total_staked_amount = u64::MAX - 5;
    let before = ctx;
    assert_eq!(ctx.stake_token(1, 6, 1_000), Err(StakingError::ArithmeticOverflow));
    assert_eq!(ctx, before);
}

#[test]
fn stake_with_unlock_time_out_of_range_fails() {
    let mut ctx = stake_token_ctx();
    assert_eq!(ctx.stake_token(1, 10, i64::MAX - 100), Err(StakingError::ArithmeticOverflow));
}

#[test]
fn stake_nft_past_pool_nft_cap_fails() {
    let mut ctx = stake_nft_ctx();
    ctx.user_pool_stats.nfts_staked = 3;
    assert_eq!(ctx.stake_nft(1, 1_000), Err(StakingError::NftLimitReached));
}

#[test]
fn stake_nft_past_user_value_cap_fails() {
    let mut ctx = stake_nft_ctx();
    ctx.user_pool_stats.total_value = 9_500;
    assert_eq!(ctx.stake_nft(1, 1_000), Err(StakingError::UserTokensLimitCapReached));
}

#[test]
fn stake_nft_past_global_limit_fails() {
    let mut ctx = stake_nft_ctx();
    ctx.user_account.total_staked_nfts = 2;
    let before = ctx;
    assert_eq!(ctx.stake_nft(1, 1_000), Err(StakingError::GlobalNftLimitReached));
    assert_eq!(ctx, before);
}

#[test]
fn claim_before_unlock_is_locked_for_anyone() {
    let mut ctx = claim_token_ctx(1_000);
    let before = ctx;
    assert_eq!(ctx.claim_token(1_999), Err(StakingError::PositionLocked));
    assert_eq!(ctx, before);
    ctx.owner = bob();
    assert_eq!(ctx.claim_token(1_999), Err(StakingError::PositionLocked));
    let mut nft = claim_nft_ctx();
    nft.owner = bob();
    assert_eq!(nft.claim_nft(1_500), Err(StakingError::PositionLocked));
}

#[test]
fn claim_by_someone_else_is_unauthorized() {
    let mut ctx = claim_token_ctx(1_000);
    ctx.owner = bob();
    assert_eq!(ctx.claim_token(2_000), Err(StakingError::Unauthorized));
}

#[test]
fn claim_of_wrong_kind_or_pool_fails() {
    let mut ctx = claim_token_ctx(1_000);
    ctx.position.position_type = PositionType::NFT;
    assert_eq!(ctx.claim_token(2_000), Err(StakingError::InvalidPositionType));
    let mut ctx = claim_token_ctx(1_000);
    ctx.pool_key = addr(201);
    assert_eq!(ctx.claim_token(2_000), Err(StakingError::InvalidPositionType));
    let mut nft = claim_nft_ctx();
    nft.position.position_type = PositionType::Token;
    assert_eq!(nft.claim_nft(2_000), Err(StakingError::InvalidPositionType));
}

#[test]
fn claim_with_short_yield_reserve_fails() {
    let mut ctx = claim_token_ctx(1_000);
    ctx.authority_vault_balance = 49;
    let before = ctx;
    assert_eq!(ctx.claim_token(2_000), Err(StakingError::InsufficientYieldFunds));
    assert_eq!(ctx, before);
    ctx.authority_vault_balance = 50;
    assert_eq!(ctx.claim_token(2_000).map(|p| p.yield_amount), Ok(50));
}

#[test]
fn claim_with_inconsistent_totals_underflows() {
    let mut ctx = claim_token_ctx(1_000);
    ctx.pool.total_tokens_staked = 999;
    let before = ctx;
    assert_eq!(ctx.claim_token(2_000), Err(StakingError::ArithmeticOverflow));
    assert_eq!(ctx, before);
    let mut nft = claim_nft_ctx();
    nft.user_account.total_staked_nfts = 0;
    assert_eq!(nft.claim_nft(2_000), Err(StakingError::ArithmeticOverflow));
}

#[test]
fn claim_with_unpayable_yield_overflows() {
    let mut ctx = claim_token_ctx(u64::MAX);
    ctx.pool.yield_rate = 20_000;
    assert_eq!(ctx.claim_token(2_000), Err(StakingError::ArithmeticOverflow));
}

#[test]
fn claim_nft_twice_fails() {
    let mut nft = claim_nft_ctx();
    assert!(nft.claim_nft(2_000).is_ok());
    assert_eq!(nft.position.status, PositionStatus::Claimed);
    assert_eq!(nft.claim_nft(3_000), Err(StakingError::PositionAlreadyClaimed));
}

fn admin_ctx(paused: bool) -> AdminSetPoolConfig {
    let mut p = pool();
    p.is_paused = paused;
    p.total_tokens_staked = 4_000;
    p.total_nfts_staked = 2;
    p.lifetime_tokens_staked = 9_000;
    p.lifetime_nfts_staked = 5;
    p.lifetime_claimed_yield = 123;
    AdminSetPoolConfig { authority: admin(), config: config(), pool: p }
}

fn new_terms() -> PoolConfigArgs {
    PoolConfigArgs {
        lock_period_days: 30,
        yield_rate: 800,
        max_nfts_cap: 9,
        max_tokens_cap: 99_000,
        max_value_cap: 199_000,
    }
}

#[test]
fn reconfigure_active_pool_fails() {
    let mut ctx = admin_ctx(false);
    let before = ctx;
    assert_eq!(ctx.admin_set_pool_config(new_terms()), Err(StakingError::InvalidPoolPauseState));
    assert_eq!(ctx, before);
}

#[test]
fn reconfigure_paused_pool_keeps_totals() {
    let mut ctx = admin_ctx(true);
    assert_eq!(ctx.admin_set_pool_config(new_terms()), Ok(()));
    assert_eq!(ctx.pool.yield_rate, 800);
    assert_eq!(ctx.pool.lock_period_days, 30);
    assert_eq!(ctx.pool.max_value_cap, 199_000);
    assert_eq!(ctx.pool.total_tokens_staked, 4_000);
    assert_eq!(ctx.pool.total_nfts_staked, 2);
    assert_eq!(ctx.pool.lifetime_tokens_staked, 9_000);
    assert_eq!(ctx.pool.lifetime_nfts_staked, 5);
    assert_eq!(ctx.pool.lifetime_claimed_yield, 123);
    assert!(ctx.pool.is_paused);
}

#[test]
fn pool_admin_needs_the_administrator() {
    let mut ctx = admin_ctx(true);
    ctx.authority = bob();
    assert_eq!(ctx.admin_set_pool_config(new_terms()), Err(StakingError::Unauthorized));
    assert_eq!(ctx.admin_activate_pool(), Err(StakingError::Unauthorized));
    assert_eq!(ctx.admin_pause_pool(), Err(StakingError::Unauthorized));
}

fn withdraw_ctx() -> AdminWithdrawToken {
    let mut c = config();
    c.total_staked_amount = 100_000;
    AdminWithdrawToken {
        authority: admin(),
        config: c,
        authority_vault_balance: 5_000,
        vault_balance: 120_000,
    }
}

#[test]
fn withdraw_from_vault_limited_to_surplus() {
    let ctx = withdraw_ctx();
    assert_eq!(ctx.admin_withdraw_token(20_000, WithdrawSource::PrincipalVault), Ok(()));
    assert_eq!(
        ctx.admin_withdraw_token(20_001, WithdrawSource::PrincipalVault),
        Err(StakingError::WithdrawExceedsSurplus)
    );
}

#[test]
fn withdraw_from_underfunded_vault_fails() {
    let mut ctx = withdraw_ctx();
    ctx.vault_balance = 90_000;
    assert_eq!(
        ctx.admin_withdraw_token(0, WithdrawSource::PrincipalVault),
        Err(StakingError::WithdrawExceedsSurplus)
    );
}

#[test]
fn withdraw_from_yield_reserve() {
    let mut ctx = withdraw_ctx();
    assert_eq!(ctx.admin_withdraw_token(5_000, WithdrawSource::YieldReserve), Ok(()));
    assert_eq!(
        ctx.admin_withdraw_token(5_001, WithdrawSource::YieldReserve),
        Err(StakingError::InsufficientYieldFunds)
    );
    ctx.config.authority_vault = Address::zero();
    assert_eq!(
        ctx.admin_withdraw_token(1, WithdrawSource::YieldReserve),
        Err(StakingError::AuthorityVaultNotInitialized)
    );
    ctx.authority = bob();
    assert_eq!(
        ctx.admin_withdraw_token(1, WithdrawSource::PrincipalVault),
        Err(StakingError::Unauthorized)
    );
}

#[test]
fn pool_creation_takes_next_index() {
    let mut ctx = InitializePool { authority: admin(), config: config(), config_key: addr(100) };
    assert_eq!(ctx.initialize(2, 7, 500, 3, 10, 10), Err(StakingError::InvalidPoolIndex));
    let created = ctx.initialize(1, 30, 800, 3, 10, 20).unwrap();
    assert_eq!(created.index, 1);
    assert_eq!(created.config, addr(100));
    assert_eq!(created.lock_period_days, 30);
    assert_eq!(created.max_value_cap, 20);
    assert!(!created.is_paused);
    assert_eq!(created.total_tokens_staked, 0);
    assert_eq!(ctx.config.pool_count, 2);
}

#[test]
fn pool_creation_stops_at_the_limit() {
    let mut c = config();
    c.pool_count = bert_staking_sc::admin::MAX_POOLS;
    let mut ctx = InitializePool { authority: admin(), config: c, config_key: addr(100) };
    let before = ctx;
    assert_eq!(
        ctx.initialize(c.pool_count, 7, 500, 3, 10, 10),
        Err(StakingError::PoolLimitReached)
    );
    assert_eq!(ctx, before);
    ctx.authority = bob();
    assert_eq!(ctx.initialize(0, 7, 500, 3, 10, 10), Err(StakingError::Unauthorized));
}
