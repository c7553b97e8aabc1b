//! Staking tokens and collectibles into a pool.
use vstd::prelude::*;
use crate::error::StakingError;
use crate::math::{calculate_unlock_time, unlock_time_of};
use crate::state::{
    Address, Config, Pool, PositionStatus, PositionType, PositionV4, UserAccountV3,
    UserPoolStatsAccount,
};

verus! {

/// The records a token stake reads and updates.
#[derive(Clone, Copy, Debug, PartialEq, Eq, Structural)]
pub struct StakeToken {
    /// The staker.
    pub owner: Address,
    pub config: Config,
    pub pool: Pool,
    /// The pool's own identity.
    pub pool_key: Address,
    /// The staker's totals across pools.
    pub user_account: UserAccountV3,
    /// The staker's totals in this pool (all zero on a first stake there).
    pub user_pool_stats: UserPoolStatsAccount,
    /// The token being staked.
    pub mint: Address,
}

/// The records a collectible stake reads and updates.
#[derive(Clone, Copy, Debug, PartialEq, Eq, Structural)]
pub struct StakeNFT {
    pub owner: Address,
    pub config: Config,
    pub pool: Pool,
    pub pool_key: Address,
    pub user_account: UserAccountV3,
    pub user_pool_stats: UserPoolStatsAccount,
    /// The collectible being staked.
    pub asset: Address,
}

/// The combined value a pool would hold with `tokens` more tokens staked.
pub open spec fn pool_value_with(pool: Pool, nft_value: u64, tokens: int) -> int {
    pool.total_tokens_staked + tokens + pool.total_nfts_staked * nft_value
}

/// Every counter a token stake of `amount` raises stays in range, and so
/// does the unlock time.
pub open spec fn token_stake_fits(ctx: StakeToken, amount: u64, now: i64) -> bool {
    &&& ctx.user_pool_stats.total_value + amount <= u64::MAX
    &&& ctx.user_account.total_staked_value + amount <= u64::MAX
    &&& ctx.user_account.total_staked_token_amount + amount <= u64::MAX
    &&& ctx.pool.lifetime_tokens_staked + amount <= u64::MAX
    &&& ctx.config.total_staked_amount + amount <= u64::MAX
    &&& unlock_time_of(now as int, ctx.pool.lock_period_days as int) <= i64::MAX
}

/// Why a token stake is refused, if it is.
pub open spec fn token_stake_error(ctx: StakeToken, amount: u64, now: i64) -> Option<StakingError> {
    if amount == 0 {
        Some(StakingError::InvalidAmount)
    } else if ctx.pool.is_paused {
        Some(StakingError::PoolAlreadyPaused)
    } else if ctx.user_pool_stats.tokens_staked + amount > ctx.pool.max_tokens_cap {
        Some(StakingError::UserTokensLimitCapReached)
    } else if pool_value_with(ctx.pool, ctx.config.nft_value_in_tokens, amount as int)
        > ctx.pool.max_value_cap {
        Some(StakingError::PoolValueLimitReached)
    } else if !token_stake_fits(ctx, amount, now) {
        Some(StakingError::ArithmeticOverflow)
    } else {
        None
    }
}

/// The records after an accepted token stake of `amount`.
pub open spec fn token_staked(ctx: StakeToken, amount: u64) -> StakeToken {
    StakeToken {
        config: Config {
            total_staked_amount: (ctx.config.total_staked_amount + amount) as u64,
            ..ctx.config
        },
        pool: Pool {
            total_tokens_staked: (ctx.pool.total_tokens_staked + amount) as u64,
            lifetime_tokens_staked: (ctx.pool.lifetime_tokens_staked + amount) as u64,
            ..ctx.pool
        },
        user_account: UserAccountV3 {
            total_staked_token_amount: (ctx.user_account.total_staked_token_amount
                + amount) as u64,
            total_staked_value: (ctx.user_account.total_staked_value + amount) as u64,
            ..ctx.user_account
        },
        user_pool_stats: UserPoolStatsAccount {
            user: ctx.owner,
            pool: ctx.pool_key,
            tokens_staked: (ctx.user_pool_stats.tokens_staked + amount) as u64,
            total_value: (ctx.user_pool_stats.total_value + amount) as u64,
            ..ctx.user_pool_stats
        },
        ..ctx
    }
}

/// The position an accepted token stake creates.
pub open spec fn token_position(ctx: StakeToken, id: u64, amount: u64, now: i64) -> PositionV4 {
    PositionV4 {
        owner: ctx.owner,
        pool: ctx.pool_key,
        deposit_time: now,
        amount,
        position_type: PositionType::Token,
        unlock_time: unlock_time_of(now as int, ctx.pool.lock_period_days as int) as i64,
        status: PositionStatus::Unclaimed,
        asset: ctx.mint,
        id,
        last_claimed_at: now,
    }
}

/// A token stake: the records afterwards and what the caller gets back.
pub open spec fn stake_token_spec(ctx: StakeToken, id: u64, amount: u64, now: i64) -> (
    StakeToken,
    Result<PositionV4, StakingError>,
) {
    match token_stake_error(ctx, amount, now) {
        Some(e) => (ctx, Err(e)),
        None => (token_staked(ctx, amount), Ok(token_position(ctx, id, amount, now))),
    }
}

impl StakeToken {
    /// Stakes `amount` tokens at time `now` into a new position with
    /// discriminator `id`.
    ///
    /// On success the caller moves `amount` tokens from the staker into the
    /// vault and stores the returned position; on failure nothing changed.
    pub fn stake_token(&mut self, id: u64, amount: u64, now: i64) -> (r: Result<
        PositionV4,
        StakingError,
    >)
        ensures
            (*final(self), r) == stake_token_spec(*old(self), id, amount, now),
    {
        if amount == 0 {
            return Err(StakingError::InvalidAmount);
        }
        if self.pool.is_paused {
            return Err(StakingError::PoolAlreadyPaused);
        }
        if self.user_pool_stats.tokens_staked as u128 + amount as u128
            > self.pool.max_tokens_cap as u128 {
            return Err(StakingError::UserTokensLimitCapReached);
        }
        assert(self.pool.total_nfts_staked * self.config.nft_value_in_tokens <= u32::MAX as int
            * u64::MAX as int) by (nonlinear_arith)
            requires
                self.pool.total_nfts_staked <= u32::MAX,
                self.config.nft_value_in_tokens <= u64::MAX,
        ;
        let nft_value: u128 = (self.pool.total_nfts_staked as u128)
            * (self.config.nft_value_in_tokens as u128);
        if self.pool.total_tokens_staked as u128 + amount as u128 + nft_value
            > self.pool.max_value_cap as u128 {
            return Err(StakingError::PoolValueLimitReached);
        }
        if self.user_pool_stats.total_value > u64::MAX - amount
            || self.user_account.total_staked_value > u64::MAX - amount
            || self.user_account.total_staked_token_amount > u64::MAX - amount
            || self.pool.lifetime_tokens_staked > u64::MAX - amount
            || self.config.total_staked_amount > u64::MAX - amount {
            return Err(StakingError::ArithmeticOverflow);
        }
        let unlock_time = match calculate_unlock_time(now, self.pool.lock_period_days) {
            Ok(t) => t,
            Err(e) => return Err(e),
        };

        self.config.total_staked_amount = self.config.total_staked_amount + amount;
        self.pool.total_tokens_staked = self.pool.total_tokens_staked + amount;
        self.pool.lifetime_tokens_staked = self.pool.lifetime_tokens_staked + amount;
        self.user_account.total_staked_token_amount =
            self.user_account.total_staked_token_amount + amount;
        self.user_account.total_staked_value = self.user_account.total_staked_value + amount;
        self.user_pool_stats.user = self.owner;
        self.user_pool_stats.pool = self.pool_key;
        self.user_pool_stats.tokens_staked = self.user_pool_stats.tokens_staked + amount;
        self.user_pool_stats.total_value = self.user_pool_stats.total_value + amount;

        Ok(
            PositionV4 {
                owner: self.owner,
                pool: self.pool_key,
                deposit_time: now,
                amount,
                position_type: PositionType::Token,
                unlock_time,
                status: PositionStatus::Unclaimed,
                asset: self.mint,
                id,
                last_claimed_at: now,
            },
        )
    }
}

/// Every counter a collectible stake raises stays in range, and so does the
/// unlock time.
pub open spec fn nft_stake_fits(ctx: StakeNFT, now: i64) -> bool {
    let v = ctx.config.nft_value_in_tokens;
    &&& ctx.user_account.total_staked_value + v <= u64::MAX
    &&& ctx.config.total_staked_amount + v <= u64::MAX
    &&& ctx.config.total_nfts_staked + 1 <= u64::MAX
    &&& ctx.pool.total_nfts_staked + 1 <= u32::MAX
    &&& ctx.pool.lifetime_nfts_staked + 1 <= u32::MAX
    &&& unlock_time_of(now as int, ctx.pool.lock_period_days as int) <= i64::MAX
}

/// Why a collectible stake is refused, if it is.
pub open spec fn nft_stake_error(ctx: StakeNFT, now: i64) -> Option<StakingError> {
    if ctx.pool.is_paused {
        Some(StakingError::PoolAlreadyPaused)
    } else if ctx.user_pool_stats.nfts_staked + 1 > ctx.pool.max_nfts_cap {
        Some(StakingError::NftLimitReached)
    } else if ctx.user_pool_stats.total_value + ctx.config.nft_value_in_tokens
        > ctx.pool.max_tokens_cap {
        Some(StakingError::UserTokensLimitCapReached)
    } else if ctx.user_account.total_staked_nfts + 1 > ctx.config.nfts_limit_per_user {
        Some(StakingError::GlobalNftLimitReached)
    } else if !nft_stake_fits(ctx, now) {
        Some(StakingError::ArithmeticOverflow)
    } else {
        None
    }
}

/// The records after an accepted collectible stake.
pub open spec fn nft_staked(ctx: StakeNFT) -> StakeNFT {
    let v = ctx.config.nft_value_in_tokens;
    StakeNFT {
        config: Config {
            total_staked_amount: (ctx.config.total_staked_amount + v) as u64,
            total_nfts_staked: (ctx.config.total_nfts_staked + 1) as u64,
            ..ctx.config
        },
        pool: Pool {
            total_nfts_staked: (ctx.pool.total_nfts_staked + 1) as u32,
            lifetime_nfts_staked: (ctx.pool.lifetime_nfts_staked + 1) as u32,
            ..ctx.pool
        },
        user_account: UserAccountV3 {
            total_staked_nfts: (ctx.user_account.total_staked_nfts + 1) as u32,
            total_staked_value: (ctx.user_account.total_staked_value + v) as u64,
            ..ctx.user_account
        },
        user_pool_stats: UserPoolStatsAccount {
            user: ctx.owner,
            pool: ctx.pool_key,
            nfts_staked: (ctx.user_pool_stats.nfts_staked + 1) as u32,
            total_value: (ctx.user_pool_stats.total_value + v) as u64,
            ..ctx.user_pool_stats
        },
        ..ctx
    }
}

/// The position an accepted collectible stake creates: its principal is the
/// ledger's fixed value of one collectible.
pub open spec fn nft_position(ctx: StakeNFT, id: u64, now: i64) -> PositionV4 {
    PositionV4 {
        owner: ctx.owner,
        pool: ctx.pool_key,
        deposit_time: now,
        amount: ctx.config.nft_value_in_tokens,
        position_type: PositionType::NFT,
        unlock_time: unlock_time_of(now as int, ctx.pool.lock_period_days as int) as i64,
        status: PositionStatus::Unclaimed,
        asset: ctx.asset,
        id,
        last_claimed_at: now,
    }
}

/// A collectible stake: the records afterwards and what the caller gets back.
pub open spec fn stake_nft_spec(ctx: StakeNFT, id: u64, now: i64) -> (
    StakeNFT,
    Result<PositionV4, StakingError>,
) {
    match nft_stake_error(ctx, now) {
        Some(e) => (ctx, Err(e)),
        None => (nft_staked(ctx), Ok(nft_position(ctx, id, now))),
    }
}

impl StakeNFT {
    /// Stakes the collectible `asset` at time `now` into a new position with
    /// discriminator `id`.
    ///
    /// On success the caller moves the collectible into the ledger's custody
    /// and stores the returned position; on failure nothing changed.
    pub fn stake_nft(&mut self, id: u64, now: i64) -> (r: Result<PositionV4, StakingError>)
        ensures
            (*final(self), r) == stake_nft_spec(*old(self), id, now),
    {
        let v = self.config.nft_value_in_tokens;
        if self.pool.is_paused {
            return Err(StakingError::PoolAlreadyPaused);
        }
        if self.user_pool_stats.nfts_staked as u64 + 1 > self.pool.max_nfts_cap as u64 {
            return Err(StakingError::NftLimitReached);
        }
        if self.user_pool_stats.total_value as u128 + v as u128
            > self.pool.max_tokens_cap as u128 {
            return Err(StakingError::UserTokensLimitCapReached);
        }
        if self.user_account.total_staked_nfts as u64 + 1
            > self.config.nfts_limit_per_user as u64 {
            return Err(StakingError::GlobalNftLimitReached);
        }
        if self.user_account.total_staked_value > u64::MAX - v
            || self.config.total_staked_amount > u64::MAX - v
            || self.config.total_nfts_staked == u64::MAX
            || self.pool.total_nfts_staked == u32::MAX
            || self.pool.lifetime_nfts_staked == u32::MAX {
            return Err(StakingError::ArithmeticOverflow);
        }
        let unlock_time = match calculate_unlock_time(now, self.pool.lock_period_days) {
            Ok(t) => t,
            Err(e) => return Err(e),
        };

        self.config.total_staked_amount = self.config.total_staked_amount + v;
        self.config.total_nfts_staked = self.config.total_nfts_staked + 1;
        self.pool.total_nfts_staked = self.pool.total_nfts_staked + 1;
        self.pool.lifetime_nfts_staked = self.pool.lifetime_nfts_staked + 1;
        self.user_account.total_staked_nfts = self.user_account.total_staked_nfts + 1;
        self.user_account.total_staked_value = self.user_account.total_staked_value + v;
        self.user_pool_stats.user = self.owner;
        self.user_pool_stats.pool = self.pool_key;
        self.user_pool_stats.nfts_staked = self.user_pool_stats.nfts_staked + 1;
        self.user_pool_stats.total_value = self.user_pool_stats.total_value + v;

        Ok(
            PositionV4 {
                owner: self.owner,
                pool: self.pool_key,
                deposit_time: now,
                amount: v,
                position_type: PositionType::NFT,
                unlock_time,
                status: PositionStatus::Unclaimed,
                asset: self.asset,
                id,
                last_claimed_at: now,
            },
        )
    }
}

} // verus!
