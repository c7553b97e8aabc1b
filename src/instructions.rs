//! The ledger's instructions, one per operation a client can ask for.
use vstd::prelude::*;
use crate::admin::{
    activate_pool_spec, initialize_auth_vault_spec, initialize_pool_spec, pause_pool_spec,
    set_pool_config_spec, withdraw_error, AdminSetPoolConfig, AdminWithdrawToken,
    InitializeAuthVault, InitializePool, WithdrawSource,
};
use crate::claim::{
    claim_nft_spec, claim_token_spec, ClaimPayout, ClaimPositionNft, ClaimPositionToken,
};
use crate::error::StakingError;
use crate::setup::{new_config, Initialize, InitializeUser};
use crate::stake::{stake_nft_spec, stake_token_spec, StakeNFT, StakeToken};
use crate::state::{Config, Pool, PoolConfigArgs, PositionV4, UserAccountV3};

verus! {

/// Creates the ledger's global record.
pub fn initialize(
    ctx: &Initialize,
    id: u64,
    max_cap: u64,
    nft_value_in_tokens: u64,
    nfts_limit_per_user: u8,
) -> (r: Config)
    ensures
        r == new_config(*ctx, id, max_cap, nft_value_in_tokens, nfts_limit_per_user),
{
    ctx.initialize(id, max_cap, nft_value_in_tokens, nfts_limit_per_user)
}

/// Binds the yield reserve, once.
pub fn initialize_auth_vault(ctx: &mut InitializeAuthVault) -> (r: Result<(), StakingError>)
    ensures
        (*final(ctx), r) == initialize_auth_vault_spec(*old(ctx)),
{
    ctx.initialize_auth_vault()
}

/// Creates a participant's record.
pub fn initiate_user(ctx: &InitializeUser) -> (r: UserAccountV3)
    ensures
        r == (UserAccountV3 {
            config: ctx.config_key,
            total_staked_token_amount: 0,
            total_staked_nfts: 0,
            total_staked_value: 0,
            total_claimed_yield: 0,
        }),
{
    ctx.initialize_user()
}

/// Creates the next pool.
pub fn initialize_pool(
    ctx: &mut InitializePool,
    index: u32,
    lock_period_days: u16,
    yield_rate: u64,
    max_nfts_cap: u32,
    max_tokens_cap: u64,
    max_value_cap: u64,
) -> (r: Result<Pool, StakingError>)
    ensures
        (*final(ctx), r) == initialize_pool_spec(
            *old(ctx),
            index,
            lock_period_days,
            yield_rate,
            max_nfts_cap,
            max_tokens_cap,
            max_value_cap,
        ),
{
    ctx.initialize(index, lock_period_days, yield_rate, max_nfts_cap, max_tokens_cap, max_value_cap)
}

/// Stakes a collectible at time `now`.
pub fn stake_nft(ctx: &mut StakeNFT, id: u64, now: i64) -> (r: Result<PositionV4, StakingError>)
    ensures
        (*final(ctx), r) == stake_nft_spec(*old(ctx), id, now),
{
    ctx.stake_nft(id, now)
}

/// Stakes `amount` tokens at time `now`.
pub fn stake_token(ctx: &mut StakeToken, id: u64, amount: u64, now: i64) -> (r: Result<
    PositionV4,
    StakingError,
>)
    ensures
        (*final(ctx), r) == stake_token_spec(*old(ctx), id, amount, now),
{
    ctx.stake_token(id, amount, now)
}

/// Claims a collectible position at time `now`.
pub fn claim_position_nft(ctx: &mut ClaimPositionNft, now: i64) -> (r: Result<
    ClaimPayout,
    StakingError,
>)
    ensures
        (*final(ctx), r) == claim_nft_spec(*old(ctx), now),
{
    ctx.claim_nft(now)
}

/// Claims a token position at time `now`.
pub fn claim_position_token(ctx: &mut ClaimPositionToken, now: i64) -> (r: Result<
    ClaimPayout,
    StakingError,
>)
    ensures
        (*final(ctx), r) == claim_token_spec(*old(ctx), now),
{
    ctx.claim_token(now)
}

/// Pauses a pool.
pub fn admin_pause_pool(ctx: &mut AdminSetPoolConfig) -> (r: Result<(), StakingError>)
    ensures
        (*final(ctx), r) == pause_pool_spec(*old(ctx)),
{
    ctx.admin_pause_pool()
}

/// Reactivates a pool.
pub fn admin_activate_pool(ctx: &mut AdminSetPoolConfig) -> (r: Result<(), StakingError>)
    ensures
        (*final(ctx), r) == activate_pool_spec(*old(ctx)),
{
    ctx.admin_activate_pool()
}

/// Decides an administrative withdrawal.
pub fn admin_withdraw_tokens(ctx: &AdminWithdrawToken, amount: u64, source: WithdrawSource) -> (r:
    Result<(), StakingError>)
    ensures
        match withdraw_error(*ctx, amount, source) {
            Some(e) => r == Err::<(), StakingError>(e),
            None => r is Ok,
        },
{
    ctx.admin_withdraw_token(amount, source)
}

/// Gives a paused pool new terms.
pub fn admin_set_pool_config(ctx: &mut AdminSetPoolConfig, config_params: PoolConfigArgs) -> (r:
    Result<(), StakingError>)
    ensures
        (*final(ctx), r) == set_pool_config_spec(*old(ctx), config_params),
{
    ctx.admin_set_pool_config(config_params)
}

} // verus!
