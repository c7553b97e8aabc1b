//! Claiming a position back once its lock has expired.
use vstd::prelude::*;
use crate::error::StakingError;
use crate::math::{calculate_yield, yield_of};
use crate::state::{
    Address, Config, Pool, PositionStatus, PositionType, PositionV4, UserAccountV3,
    UserPoolStatsAccount,
};

verus! {

/// What an accepted claim pays the owner.
#[derive(Clone, Copy, Debug, PartialEq, Eq, Structural)]
pub struct ClaimPayout {
    /// Principal returned: tokens from the vault, or the collectible's value
    /// (the collectible itself comes back from custody).
    pub principal: u64,
    /// Yield paid from the yield reserve.
    pub yield_amount: u64,
}

/// The records a token claim reads and updates.
#[derive(Clone, Copy, Debug, PartialEq, Eq, Structural)]
pub struct ClaimPositionToken {
    /// The caller.
    pub owner: Address,
    pub config: Config,
    pub pool: Pool,
    /// The pool's own identity.
    pub pool_key: Address,
    pub user_account: UserAccountV3,
    pub user_pool_stats: UserPoolStatsAccount,
    pub position: PositionV4,
    /// Balance of the yield reserve.
    pub authority_vault_balance: u64,
}

/// The records a collectible claim reads and updates.
#[derive(Clone, Copy, Debug, PartialEq, Eq, Structural)]
pub struct ClaimPositionNft {
    pub owner: Address,
    pub config: Config,
    pub pool: Pool,
    pub pool_key: Address,
    pub user_account: UserAccountV3,
    pub user_pool_stats: UserPoolStatsAccount,
    pub position: PositionV4,
    pub authority_vault_balance: u64,
}

/// The checks every claim makes before any arithmetic, in order: the
/// position is still open, its lock has expired (whoever asks), the caller
/// owns it, it belongs to this pool and it is of the expected kind.
pub open spec fn claim_access_error(
    position: PositionV4,
    caller: Address,
    pool_key: Address,
    kind: PositionType,
    now: i64,
) -> Option<StakingError> {
    if position.status == PositionStatus::Claimed {
        Some(StakingError::PositionAlreadyClaimed)
    } else if now < position.unlock_time {
        Some(StakingError::PositionLocked)
    } else if position.owner != caller {
        Some(StakingError::Unauthorized)
    } else if position.pool != pool_key || position.position_type != kind {
        Some(StakingError::InvalidPositionType)
    } else {
        None
    }
}

/// The yield a claim pays on `position` in `pool`.
pub open spec fn claim_yield(position: PositionV4, pool: Pool) -> int {
    yield_of(position.amount as int, pool.yield_rate as int)
}

/// The position once claimed at `now`.
pub open spec fn claimed_position(position: PositionV4, now: i64) -> PositionV4 {
    PositionV4 { status: PositionStatus::Claimed, last_claimed_at: now, ..position }
}

/// Every counter a token claim lowers stays at or above zero, and every
/// counter it raises stays in range.
pub open spec fn token_claim_fits(ctx: ClaimPositionToken) -> bool {
    let p = ctx.position.amount;
    let y = claim_yield(ctx.position, ctx.pool);
    &&& ctx.config.total_staked_amount >= p
    &&& ctx.pool.total_tokens_staked >= p
    &&& ctx.pool.lifetime_claimed_yield + y <= u64::MAX
    &&& ctx.user_pool_stats.tokens_staked >= p
    &&& ctx.user_pool_stats.total_value >= p
    &&& ctx.user_pool_stats.claimed_yield + y <= u64::MAX
    &&& ctx.user_account.total_staked_token_amount >= p
    &&& ctx.user_account.total_staked_value >= p
    &&& ctx.user_account.total_claimed_yield + y <= u64::MAX
}

/// Why a token claim at `now` is refused, if it is.
pub open spec fn token_claim_error(ctx: ClaimPositionToken, now: i64) -> Option<StakingError> {
    let access = claim_access_error(
        ctx.position,
        ctx.owner,
        ctx.pool_key,
        PositionType::Token,
        now,
    );
    if access is Some {
        access
    } else if claim_yield(ctx.position, ctx.pool) > u64::MAX {
        Some(StakingError::ArithmeticOverflow)
    } else if ctx.authority_vault_balance < claim_yield(ctx.position, ctx.pool) {
        Some(StakingError::InsufficientYieldFunds)
    } else if !token_claim_fits(ctx) {
        Some(StakingError::ArithmeticOverflow)
    } else {
        None
    }
}

/// The records after an accepted token claim at `now`.
pub open spec fn token_claimed(ctx: ClaimPositionToken, now: i64) -> ClaimPositionToken {
    let p = ctx.position.amount;
    let y = claim_yield(ctx.position, ctx.pool);
    ClaimPositionToken {
        config: Config {
            total_staked_amount: (ctx.config.total_staked_amount - p) as u64,
            ..ctx.config
        },
        pool: Pool {
            total_tokens_staked: (ctx.pool.total_tokens_staked - p) as u64,
            lifetime_claimed_yield: (ctx.pool.lifetime_claimed_yield + y) as u64,
            ..ctx.pool
        },
        user_account: UserAccountV3 {
            total_staked_token_amount: (ctx.user_account.total_staked_token_amount - p) as u64,
            total_staked_value: (ctx.user_account.total_staked_value - p) as u64,
            total_claimed_yield: (ctx.user_account.total_claimed_yield + y) as u64,
            ..ctx.user_account
        },
        user_pool_stats: UserPoolStatsAccount {
            tokens_staked: (ctx.user_pool_stats.tokens_staked - p) as u64,
            total_value: (ctx.user_pool_stats.total_value - p) as u64,
            claimed_yield: (ctx.user_pool_stats.claimed_yield + y) as u64,
            ..ctx.user_pool_stats
        },
        position: claimed_position(ctx.position, now),
        ..ctx
    }
}

/// A token claim: the records afterwards and what is paid out.
pub open spec fn claim_token_spec(ctx: ClaimPositionToken, now: i64) -> (
    ClaimPositionToken,
    Result<ClaimPayout, StakingError>,
) {
    match token_claim_error(ctx, now) {
        Some(e) => (ctx, Err(e)),
        None => (
            token_claimed(ctx, now),
            Ok(
                ClaimPayout {
                    principal: ctx.position.amount,
                    yield_amount: claim_yield(ctx.position, ctx.pool) as u64,
                },
            ),
        ),
    }
}

/// The access checks of a claim, in the order `claim_access_error` states.
fn check_claim_access(
    position: &PositionV4,
    caller: &Address,
    pool_key: &Address,
    kind: PositionType,
    now: i64,
) -> (r: Result<(), StakingError>)
    ensures
        match claim_access_error(*position, *caller, *pool_key, kind, now) {
            Some(e) => r == Err::<(), StakingError>(e),
            None => r is Ok,
        },
{
    if position.status == PositionStatus::Claimed {
        Err(StakingError::PositionAlreadyClaimed)
    } else if now < position.unlock_time {
        Err(StakingError::PositionLocked)
    } else if position.owner != *caller {
        Err(StakingError::Unauthorized)
    } else if position.pool != *pool_key || position.position_type != kind {
        Err(StakingError::InvalidPositionType)
    } else {
        Ok(())
    }
}

impl ClaimPositionToken {
    /// Claims the position at time `now`: marks it claimed and takes its
    /// principal out of every total.
    ///
    /// On success the caller returns the principal from the vault and pays
    /// the yield from the yield reserve; on failure nothing changed.
    pub fn claim_token(&mut self, now: i64) -> (r: Result<ClaimPayout, StakingError>)
        ensures
            (*final(self), r) == claim_token_spec(*old(self), now),
    {
        match check_claim_access(
            &self.position,
            &self.owner,
            &self.pool_key,
            PositionType::Token,
            now,
        ) {
            Ok(()) => {},
            Err(e) => return Err(e),
        }
        let p = self.position.amount;
        let y = match calculate_yield(p, self.pool.yield_rate) {
            Ok(y) => y,
            Err(e) => return Err(e),
        };
        if self.authority_vault_balance < y {
            return Err(StakingError::InsufficientYieldFunds);
        }
        if self.config.total_staked_amount < p || self.pool.total_tokens_staked < p
            || self.pool.lifetime_claimed_yield > u64::MAX - y
            || self.user_pool_stats.tokens_staked < p || self.user_pool_stats.total_value < p
            || self.user_pool_stats.claimed_yield > u64::MAX - y
            || self.user_account.total_staked_token_amount < p
            || self.user_account.total_staked_value < p
            || self.user_account.total_claimed_yield > u64::MAX - y {
            return Err(StakingError::ArithmeticOverflow);
        }

        self.position.status = PositionStatus::Claimed;
        self.position.last_claimed_at = now;
        self.config.total_staked_amount = self.config.total_staked_amount - p;
        self.pool.total_tokens_staked = self.pool.total_tokens_staked - p;
        self.pool.lifetime_claimed_yield = self.pool.lifetime_claimed_yield + y;
        self.user_pool_stats.tokens_staked = self.user_pool_stats.tokens_staked - p;
        self.user_pool_stats.total_value = self.user_pool_stats.total_value - p;
        self.user_pool_stats.claimed_yield = self.user_pool_stats.claimed_yield + y;
        self.user_account.total_staked_token_amount =
            self.user_account.total_staked_token_amount - p;
        self.user_account.total_staked_value = self.user_account.total_staked_value - p;
        self.user_account.total_claimed_yield = self.user_account.total_claimed_yield + y;

        Ok(ClaimPayout { principal: p, yield_amount: y })
    }
}

/// Every counter a collectible claim lowers stays at or above zero, and
/// every counter it raises stays in range.
pub open spec fn nft_claim_fits(ctx: ClaimPositionNft) -> bool {
    let p = ctx.position.amount;
    let y = claim_yield(ctx.position, ctx.pool);
    &&& ctx.config.total_staked_amount >= p
    &&& ctx.config.total_nfts_staked >= 1
    &&& ctx.pool.total_nfts_staked >= 1
    &&& ctx.pool.lifetime_claimed_yield + y <= u64::MAX
    &&& ctx.user_pool_stats.nfts_staked >= 1
    &&& ctx.user_pool_stats.total_value >= p
    &&& ctx.user_pool_stats.claimed_yield + y <= u64::MAX
    &&& ctx.user_account.total_staked_nfts >= 1
    &&& ctx.user_account.total_staked_value >= p
    &&& ctx.user_account.total_claimed_yield + y <= u64::MAX
}

/// Why a collectible claim at `now` is refused, if it is.
pub open spec fn nft_claim_error(ctx: ClaimPositionNft, now: i64) -> Option<StakingError> {
    let access = claim_access_error(
        ctx.position,
        ctx.owner,
        ctx.pool_key,
        PositionType::NFT,
        now,
    );
    if access is Some {
        access
    } else if claim_yield(ctx.position, ctx.pool) > u64::MAX {
        Some(StakingError::ArithmeticOverflow)
    } else if ctx.authority_vault_balance < claim_yield(ctx.position, ctx.pool) {
        Some(StakingError::InsufficientYieldFunds)
    } else if !nft_claim_fits(ctx) {
        Some(StakingError::ArithmeticOverflow)
    } else {
        None
    }
}

/// The records after an accepted collectible claim at `now`.
pub open spec fn nft_claimed(ctx: ClaimPositionNft, now: i64) -> ClaimPositionNft {
    let p = ctx.position.amount;
    let y = claim_yield(ctx.position, ctx.pool);
    ClaimPositionNft {
        config: Config {
            total_staked_amount: (ctx.config.total_staked_amount - p) as u64,
            total_nfts_staked: (ctx.config.total_nfts_staked - 1) as u64,
            ..ctx.config
        },
        pool: Pool {
            total_nfts_staked: (ctx.pool.total_nfts_staked - 1) as u32,
            lifetime_claimed_yield: (ctx.pool.lifetime_claimed_yield + y) as u64,
            ..ctx.pool
        },
        user_account: UserAccountV3 {
            total_staked_nfts: (ctx.user_account.total_staked_nfts - 1) as u32,
            total_staked_value: (ctx.user_account.total_staked_value - p) as u64,
            total_claimed_yield: (ctx.user_account.total_claimed_yield + y) as u64,
            ..ctx.user_account
        },
        user_pool_stats: UserPoolStatsAccount {
            nfts_staked: (ctx.user_pool_stats.nfts_staked - 1) as u32,
            total_value: (ctx.user_pool_stats.total_value - p) as u64,
            claimed_yield: (ctx.user_pool_stats.claimed_yield + y) as u64,
            ..ctx.user_pool_stats
        },
        position: claimed_position(ctx.position, now),
        ..ctx
    }
}

/// A collectible claim: the records afterwards and what is paid out.
pub open spec fn claim_nft_spec(ctx: ClaimPositionNft, now: i64) -> (
    ClaimPositionNft,
    Result<ClaimPayout, StakingError>,
) {
    match nft_claim_error(ctx, now) {
        Some(e) => (ctx, Err(e)),
        None => (
            nft_claimed(ctx, now),
            Ok(
                ClaimPayout {
                    principal: ctx.position.amount,
                    yield_amount: claim_yield(ctx.position, ctx.pool) as u64,
                },
            ),
        ),
    }
}

impl ClaimPositionNft {
    /// Claims the collectible position at time `now`: marks it claimed and
    /// takes it out of every total.
    ///
    /// On success the caller returns the collectible from custody and pays
    /// the yield from the yield reserve; on failure nothing changed.
    pub fn claim_nft(&mut self, now: i64) -> (r: Result<ClaimPayout, StakingError>)
        ensures
            (*final(self), r) == claim_nft_spec(*old(self), now),
    {
        match check_claim_access(
            &self.position,
            &self.owner,
            &self.pool_key,
            PositionType::NFT,
            now,
        ) {
            Ok(()) => {},
            Err(e) => return Err(e),
        }
        let p = self.position.amount;
        let y = match calculate_yield(p, self.pool.yield_rate) {
            Ok(y) => y,
            Err(e) => return Err(e),
        };
        if self.authority_vault_balance < y {
            return Err(StakingError::InsufficientYieldFunds);
        }
        if self.config.total_staked_amount < p || self.config.total_nfts_staked == 0
            || self.pool.total_nfts_staked == 0
            || self.pool.lifetime_claimed_yield > u64::MAX - y
            || self.user_pool_stats.nfts_staked == 0 || self.user_pool_stats.total_value < p
            || self.user_pool_stats.claimed_yield > u64::MAX - y
            || self.user_account.total_staked_nfts == 0
            || self.user_account.total_staked_value < p
            || self.user_account.total_claimed_yield > u64::MAX - y {
            return Err(StakingError::ArithmeticOverflow);
        }

        self.position.status = PositionStatus::Claimed;
        self.position.last_claimed_at = now;
        self.config.total_staked_amount = self.config.total_staked_amount - p;
        self.config.total_nfts_staked = self.config.total_nfts_staked - 1;
        self.pool.total_nfts_staked = self.pool.total_nfts_staked - 1;
        self.pool.lifetime_claimed_yield = self.pool.lifetime_claimed_yield + y;
        self.user_pool_stats.nfts_staked = self.user_pool_stats.nfts_staked - 1;
        self.user_pool_stats.total_value = self.user_pool_stats.total_value - p;
        self.user_pool_stats.claimed_yield = self.user_pool_stats.claimed_yield + y;
        self.user_account.total_staked_nfts = self.user_account.total_staked_nfts - 1;
        self.user_account.total_staked_value = self.user_account.total_staked_value - p;
        self.user_account.total_claimed_yield = self.user_account.total_claimed_yield + y;

        Ok(ClaimPayout { principal: p, yield_amount: y })
    }
}

} // verus!
