//! The administrator's operations: pools, the yield reserve, withdrawals.
use vstd::prelude::*;
use crate::error::StakingError;
use crate::state::{zero_address, Address, Config, Pool, PoolConfigArgs};

verus! {

/// Most pools one ledger holds.
pub const MAX_POOLS: u32 = 4;

/// The records a pool's administration reads and updates.
#[derive(Clone, Copy, Debug, PartialEq, Eq, Structural)]
pub struct AdminSetPoolConfig {
    /// The caller.
    pub authority: Address,
    pub config: Config,
    pub pool: Pool,
}

/// Pausing: refused to anyone but the administrator, and on a paused pool.
pub open spec fn pause_pool_spec(ctx: AdminSetPoolConfig) -> (
    AdminSetPoolConfig,
    Result<(), StakingError>,
) {
    if ctx.authority != ctx.config.authority {
        (ctx, Err(StakingError::Unauthorized))
    } else if ctx.pool.is_paused {
        (ctx, Err(StakingError::PoolAlreadyPaused))
    } else {
        (AdminSetPoolConfig { pool: Pool { is_paused: true, ..ctx.pool }, ..ctx }, Ok(()))
    }
}

/// Activating: refused to anyone but the administrator, and on an active pool.
pub open spec fn activate_pool_spec(ctx: AdminSetPoolConfig) -> (
    AdminSetPoolConfig,
    Result<(), StakingError>,
) {
    if ctx.authority != ctx.config.authority {
        (ctx, Err(StakingError::Unauthorized))
    } else if !ctx.pool.is_paused {
        (ctx, Err(StakingError::PoolAlreadyActive))
    } else {
        (AdminSetPoolConfig { pool: Pool { is_paused: false, ..ctx.pool }, ..ctx }, Ok(()))
    }
}

/// `pool` with the terms of `args`; its totals and state are kept.
pub open spec fn with_terms(pool: Pool, args: PoolConfigArgs) -> Pool {
    Pool {
        lock_period_days: args.lock_period_days,
        yield_rate: args.yield_rate,
        max_nfts_cap: args.max_nfts_cap,
        max_tokens_cap: args.max_tokens_cap,
        max_value_cap: args.max_value_cap,
        ..pool
    }
}

/// Reconfiguring: refused to anyone but the administrator, and on an active
/// pool, so that terms never change under positions being made.
pub open spec fn set_pool_config_spec(ctx: AdminSetPoolConfig, args: PoolConfigArgs) -> (
    AdminSetPoolConfig,
    Result<(), StakingError>,
) {
    if ctx.authority != ctx.config.authority {
        (ctx, Err(StakingError::Unauthorized))
    } else if !ctx.pool.is_paused {
        (ctx, Err(StakingError::InvalidPoolPauseState))
    } else {
        (AdminSetPoolConfig { pool: with_terms(ctx.pool, args), ..ctx }, Ok(()))
    }
}

impl AdminSetPoolConfig {
    /// Pauses an active pool.
    pub fn admin_pause_pool(&mut self) -> (r: Result<(), StakingError>)
        ensures
            (*final(self), r) == pause_pool_spec(*old(self)),
    {
        if self.authority != self.config.authority {
            return Err(StakingError::Unauthorized);
        }
        if self.pool.is_paused {
            return Err(StakingError::PoolAlreadyPaused);
        }
        self.pool.is_paused = true;
        Ok(())
    }

    /// Reactivates a paused pool.
    pub fn admin_activate_pool(&mut self) -> (r: Result<(), StakingError>)
        ensures
            (*final(self), r) == activate_pool_spec(*old(self)),
    {
        if self.authority != self.config.authority {
            return Err(StakingError::Unauthorized);
        }
        if !self.pool.is_paused {
            return Err(StakingError::PoolAlreadyActive);
        }
        self.pool.is_paused = false;
        Ok(())
    }

    /// Gives a paused pool new terms.
    pub fn admin_set_pool_config(&mut self, pool_config_args: PoolConfigArgs) -> (r: Result<
        (),
        StakingError,
    >)
        ensures
            (*final(self), r) == set_pool_config_spec(*old(self), pool_config_args),
    {
        if self.authority != self.config.authority {
            return Err(StakingError::Unauthorized);
        }
        if !self.pool.is_paused {
            return Err(StakingError::InvalidPoolPauseState);
        }
        self.pool.max_tokens_cap = pool_config_args.max_tokens_cap;
        self.pool.max_nfts_cap = pool_config_args.max_nfts_cap;
        self.pool.max_value_cap = pool_config_args.max_value_cap;
        self.pool.yield_rate = pool_config_args.yield_rate;
        self.pool.lock_period_days = pool_config_args.lock_period_days;
        Ok(())
    }
}

/// Which balance an administrative withdrawal draws on.
#[derive(Clone, Copy, Debug, PartialEq, Eq, Structural)]
pub enum WithdrawSource {
    /// The yield reserve: all of its balance is the administrator's.
    YieldReserve,
    /// The principal vault: only what it holds beyond staked principal.
    PrincipalVault,
}

/// The records an administrative withdrawal reads.
#[derive(Clone, Copy, Debug, PartialEq, Eq, Structural)]
pub struct AdminWithdrawToken {
    /// The caller.
    pub authority: Address,
    pub config: Config,
    /// Balance of the yield reserve.
    pub authority_vault_balance: u64,
    /// Balance of the principal vault.
    pub vault_balance: u64,
}

/// What the principal vault holds beyond the principal owed to stakers
/// (negative when it holds less).
pub open spec fn vault_surplus(ctx: AdminWithdrawToken) -> int {
    ctx.vault_balance - ctx.config.total_staked_amount
}

/// Why a withdrawal of `amount` from `source` is refused, if it is.
pub open spec fn withdraw_error(
    ctx: AdminWithdrawToken,
    amount: u64,
    source: WithdrawSource,
) -> Option<StakingError> {
    if ctx.authority != ctx.config.authority {
        Some(StakingError::Unauthorized)
    } else {
        match source {
            WithdrawSource::YieldReserve => {
                if ctx.config.authority_vault == zero_address() {
                    Some(StakingError::AuthorityVaultNotInitialized)
                } else if amount > ctx.authority_vault_balance {
                    Some(StakingError::InsufficientYieldFunds)
                } else {
                    None
                }
            },
            WithdrawSource::PrincipalVault => {
                if amount > vault_surplus(ctx) {
                    Some(StakingError::WithdrawExceedsSurplus)
                } else {
                    None
                }
            },
        }
    }
}

impl AdminWithdrawToken {
    /// Decides whether the administrator may move `amount` out of `source`.
    ///
    /// On success the caller makes the transfer to the withdrawal
    /// destination. Principal owed to stakers can never be withdrawn.
    pub fn admin_withdraw_token(&self, amount: u64, source: WithdrawSource) -> (r: Result<
        (),
        StakingError,
    >)
        ensures
            match withdraw_error(*self, amount, source) {
                Some(e) => r == Err::<(), StakingError>(e),
                None => r is Ok,
            },
    {
        if self.authority != self.config.authority {
            return Err(StakingError::Unauthorized);
        }
        match source {
            WithdrawSource::YieldReserve => {
                if self.config.authority_vault.is_zero() {
                    Err(StakingError::AuthorityVaultNotInitialized)
                } else if amount > self.authority_vault_balance {
                    Err(StakingError::InsufficientYieldFunds)
                } else {
                    Ok(())
                }
            },
            WithdrawSource::PrincipalVault => {
                if self.vault_balance < self.config.total_staked_amount || amount
                    > self.vault_balance - self.config.total_staked_amount {
                    Err(StakingError::WithdrawExceedsSurplus)
                } else {
                    Ok(())
                }
            },
        }
    }
}

/// The records that creating a pool reads and updates.
#[derive(Clone, Copy, Debug, PartialEq, Eq, Structural)]
pub struct InitializePool {
    /// The caller.
    pub authority: Address,
    pub config: Config,
    /// The ledger's own identity.
    pub config_key: Address,
}

/// A fresh, active pool with the given terms and no stakes.
pub open spec fn new_pool(
    config_key: Address,
    index: u32,
    lock_period_days: u16,
    yield_rate: u64,
    max_nfts_cap: u32,
    max_tokens_cap: u64,
    max_value_cap: u64,
) -> Pool {
    Pool {
        config: config_key,
        index,
        lock_period_days,
        yield_rate,
        max_nfts_cap,
        max_tokens_cap,
        max_value_cap,
        is_paused: false,
        total_nfts_staked: 0,
        total_tokens_staked: 0,
        lifetime_nfts_staked: 0,
        lifetime_tokens_staked: 0,
        lifetime_claimed_yield: 0,
    }
}

/// Creating a pool: only the administrator may, while the ledger has room,
/// and only under the next free index.
pub open spec fn initialize_pool_spec(
    ctx: InitializePool,
    index: u32,
    lock_period_days: u16,
    yield_rate: u64,
    max_nfts_cap: u32,
    max_tokens_cap: u64,
    max_value_cap: u64,
) -> (InitializePool, Result<Pool, StakingError>) {
    if ctx.authority != ctx.config.authority {
        (ctx, Err(StakingError::Unauthorized))
    } else if ctx.config.pool_count >= MAX_POOLS {
        (ctx, Err(StakingError::PoolLimitReached))
    } else if index != ctx.config.pool_count {
        (ctx, Err(StakingError::InvalidPoolIndex))
    } else {
        (
            InitializePool {
                config: Config { pool_count: (ctx.config.pool_count + 1) as u32, ..ctx.config },
                ..ctx
            },
            Ok(
                new_pool(
                    ctx.config_key,
                    index,
                    lock_period_days,
                    yield_rate,
                    max_nfts_cap,
                    max_tokens_cap,
                    max_value_cap,
                ),
            ),
        )
    }
}

impl InitializePool {
    /// Creates the pool numbered `index` with the given terms and counts it
    /// in the ledger.
    pub fn initialize(
        &mut self,
        index: u32,
        lock_period_days: u16,
        yield_rate: u64,
        max_nfts_cap: u32,
        max_tokens_cap: u64,
        max_value_cap: u64,
    ) -> (r: Result<Pool, StakingError>)
        ensures
            (*final(self), r) == initialize_pool_spec(
                *old(self),
                index,
                lock_period_days,
                yield_rate,
                max_nfts_cap,
                max_tokens_cap,
                max_value_cap,
            ),
    {
        if self.authority != self.config.authority {
            return Err(StakingError::Unauthorized);
        }
        if self.config.pool_count >= MAX_POOLS {
            return Err(StakingError::PoolLimitReached);
        }
        if index != self.config.pool_count {
            return Err(StakingError::InvalidPoolIndex);
        }
        self.config.pool_count = self.config.pool_count + 1;
        Ok(
            Pool {
                config: self.config_key,
                index,
                lock_period_days,
                yield_rate,
                max_nfts_cap,
                max_tokens_cap,
                max_value_cap,
                is_paused: false,
                total_nfts_staked: 0,
                total_tokens_staked: 0,
                lifetime_nfts_staked: 0,
                lifetime_tokens_staked: 0,
                lifetime_claimed_yield: 0,
            },
        )
    }
}

/// The records that binding the yield reserve reads and updates.
#[derive(Clone, Copy, Debug, PartialEq, Eq, Structural)]
pub struct InitializeAuthVault {
    /// The caller.
    pub authority: Address,
    pub config: Config,
    /// The reserve to bind.
    pub authority_vault: Address,
}

/// Binding the yield reserve: only the administrator may, and only once.
pub open spec fn initialize_auth_vault_spec(ctx: InitializeAuthVault) -> (
    InitializeAuthVault,
    Result<(), StakingError>,
) {
    if ctx.authority != ctx.config.authority {
        (ctx, Err(StakingError::Unauthorized))
    } else if ctx.config.authority_vault != zero_address() {
        (ctx, Err(StakingError::AuthorityVaultAlreadyInitialized))
    } else {
        (
            InitializeAuthVault {
                config: Config { authority_vault: ctx.authority_vault, ..ctx.config },
                ..ctx
            },
            Ok(()),
        )
    }
}

impl InitializeAuthVault {
    /// Binds the yield reserve to the ledger.
    pub fn initialize_auth_vault(&mut self) -> (r: Result<(), StakingError>)
        ensures
            (*final(self), r) == initialize_auth_vault_spec(*old(self)),
    {
        if self.authority != self.config.authority {
            return Err(StakingError::Unauthorized);
        }
        if !self.config.authority_vault.is_zero() {
            return Err(StakingError::AuthorityVaultAlreadyInitialized);
        }
        self.config.authority_vault = self.authority_vault;
        Ok(())
    }
}

} // verus!
