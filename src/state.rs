//! The ledger's records.
use vstd::prelude::*;

verus! {

/// A 32-byte account identity, held as two 128-bit words.
#[derive(Clone, Copy, Debug, PartialEq, Eq, Structural)]
pub struct Address {
    pub hi: u128,
    pub lo: u128,
}

/// The all-zero identity, which marks an unset reference.
pub open spec fn zero_address() -> Address {
    Address { hi: 0, lo: 0 }
}

impl Address {
    /// The all-zero identity.
    pub fn zero() -> (r: Address)
        ensures
            r == zero_address(),
    {
        Address { hi: 0, lo: 0 }
    }

    /// Whether this is the all-zero identity.
    pub fn is_zero(&self) -> (r: bool)
        ensures
            r == (*self == zero_address()),
    {
        self.hi == 0 && self.lo == 0
    }
}

/// New terms for a pool.
#[derive(Clone, Copy, Debug, PartialEq, Eq, Structural)]
pub struct PoolConfigArgs {
    /// Lock period in days.
    pub lock_period_days: u16,
    /// Yield rate in basis points.
    pub yield_rate: u64,
    /// Collectibles one user may hold staked in the pool.
    pub max_nfts_cap: u32,
    /// Value one user may hold staked in the pool.
    pub max_tokens_cap: u64,
    /// Combined value (tokens and collectibles) the pool may hold.
    pub max_value_cap: u64,
}

/// The ledger's global record.
#[derive(Clone, Copy, Debug, PartialEq, Eq, Structural)]
pub struct Config {
    pub id: u64,
    /// The administrator.
    pub authority: Address,
    /// The accepted fungible token.
    pub mint: Address,
    /// The accepted collection of collectibles.
    pub collection: Address,
    /// The vault that holds staked principal.
    pub vault: Address,
    /// The yield reserve; zero until bound.
    pub authority_vault: Address,
    /// Custody of staked collectibles.
    pub nfts_vault: Address,
    /// Where administrative withdrawals go.
    pub admin_withdraw_destination: Address,
    /// Number of pools created so far.
    pub pool_count: u32,
    /// Staking cap recorded when the ledger is created.
    pub max_cap: u64,
    /// Token value that one staked collectible counts for.
    pub nft_value_in_tokens: u64,
    /// Collectibles one user may hold staked across all pools.
    pub nfts_limit_per_user: u8,
    /// Principal of all unclaimed positions.
    pub total_staked_amount: u64,
    /// Collectibles of all unclaimed positions.
    pub total_nfts_staked: u64,
}

/// One lock tier.
#[derive(Clone, Copy, Debug, PartialEq, Eq, Structural)]
pub struct Pool {
    /// The ledger this pool belongs to.
    pub config: Address,
    pub index: u32,
    pub lock_period_days: u16,
    /// Yield rate in basis points (500 is 5%).
    pub yield_rate: u64,
    pub max_nfts_cap: u32,
    pub max_tokens_cap: u64,
    pub max_value_cap: u64,
    pub is_paused: bool,
    pub total_nfts_staked: u32,
    pub total_tokens_staked: u64,
    pub lifetime_nfts_staked: u32,
    pub lifetime_tokens_staked: u64,
    pub lifetime_claimed_yield: u64,
}

/// What a position holds.
#[derive(Clone, Copy, Debug, PartialEq, Eq, Structural)]
pub enum PositionType {
    NFT,
    Token,
}

/// Lifecycle of a position; `Claimed` is final.
#[derive(Clone, Copy, Debug, PartialEq, Eq, Structural)]
pub enum PositionStatus {
    Unclaimed,
    Claimed,
}

/// The record of one stake.
#[derive(Clone, Copy, Debug, PartialEq, Eq, Structural)]
pub struct PositionV4 {
    pub owner: Address,
    pub pool: Address,
    /// When the stake was made (unix seconds).
    pub deposit_time: i64,
    /// Tokens staked, or the value of the staked collectible.
    pub amount: u64,
    pub position_type: PositionType,
    /// From when the position can be claimed (unix seconds).
    pub unlock_time: i64,
    pub status: PositionStatus,
    /// The token mint, or the staked collectible.
    pub asset: Address,
    /// The owner's discriminator for this position.
    pub id: u64,
    pub last_claimed_at: i64,
}

/// One participant's totals across all pools.
#[derive(Clone, Copy, Debug, PartialEq, Eq, Structural)]
pub struct UserAccountV3 {
    pub config: Address,
    pub total_staked_token_amount: u64,
    pub total_staked_nfts: u32,
    /// Tokens plus collectible value.
    pub total_staked_value: u64,
    pub total_claimed_yield: u64,
}

/// One participant's totals in one pool.
#[derive(Clone, Copy, Debug, PartialEq, Eq, Structural)]
pub struct UserPoolStatsAccount {
    pub user: Address,
    pub pool: Address,
    pub tokens_staked: u64,
    pub nfts_staked: u32,
    /// Tokens plus collectible value.
    pub total_value: u64,
    pub claimed_yield: u64,
}

impl UserPoolStatsAccount {
    /// The totals of a user who has not staked in the pool yet.
    pub fn empty(user: Address, pool: Address) -> (r: UserPoolStatsAccount)
        ensures
            r == (UserPoolStatsAccount {
                user,
                pool,
                tokens_staked: 0,
                nfts_staked: 0,
                total_value: 0,
                claimed_yield: 0,
            }),
    {
        UserPoolStatsAccount {
            user,
            pool,
            tokens_staked: 0,
            nfts_staked: 0,
            total_value: 0,
            claimed_yield: 0,
        }
    }
}

} // verus!
