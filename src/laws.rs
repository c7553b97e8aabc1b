//! Properties that hold across the ledger's operations.
use vstd::prelude::*;
use crate::admin::{
    initialize_auth_vault_spec, set_pool_config_spec, withdraw_error, AdminSetPoolConfig,
    AdminWithdrawToken, InitializeAuthVault, WithdrawSource,
};
use crate::claim::{
    claim_nft_spec, claim_token_spec, ClaimPayout, ClaimPositionNft, ClaimPositionToken,
};
use crate::error::StakingError;
use crate::setup::{new_config, Initialize};
use crate::stake::{stake_nft_spec, stake_token_spec, StakeNFT, StakeToken};
use crate::state::{
    zero_address, Address, Config, Pool, PoolConfigArgs, PositionStatus, PositionType, PositionV4,
    UserAccountV3, UserPoolStatsAccount,
};

verus! {

/// Which positions a running total covers.
pub enum Scope {
    /// Every position of the ledger.
    All,
    /// The positions in one pool.
    InPool(Address),
    /// The positions of one owner.
    OwnedBy(Address),
    /// The positions of one owner in one pool.
    OwnedInPool(Address, Address),
}

/// What a running total adds up over the unclaimed positions it covers.
pub enum Measure {
    /// Principal of both kinds.
    Value,
    /// Principal of token positions.
    Tokens,
    /// Number of collectible positions.
    Nfts,
}

/// Whether `scope` covers `p`.
pub open spec fn covers(scope: Scope, p: PositionV4) -> bool {
    match scope {
        Scope::All => true,
        Scope::InPool(pool) => p.pool == pool,
        Scope::OwnedBy(owner) => p.owner == owner,
        Scope::OwnedInPool(owner, pool) => p.owner == owner && p.pool == pool,
    }
}

/// What `p` adds to a running total: nothing once it is claimed.
pub open spec fn contribution(p: PositionV4, scope: Scope, measure: Measure) -> int {
    if p.status == PositionStatus::Claimed || !covers(scope, p) {
        0
    } else {
        match measure {
            Measure::Value => p.amount as int,
            Measure::Tokens => if p.position_type == PositionType::Token {
                p.amount as int
            } else {
                0
            },
            Measure::Nfts => if p.position_type == PositionType::NFT {
                1
            } else {
                0
            },
        }
    }
}

/// The running total that `scope` and `measure` select, over `positions`.
pub open spec fn total_over(positions: Seq<PositionV4>, scope: Scope, measure: Measure) -> int
    decreases positions.len(),
{
    if positions.len() == 0 {
        0
    } else {
        total_over(positions.drop_last(), scope, measure) + contribution(
            positions.last(),
            scope,
            measure,
        )
    }
}

/// The principal of all unclaimed positions in `positions`.
pub open spec fn unclaimed_principal(positions: Seq<PositionV4>) -> int {
    total_over(positions, Scope::All, Measure::Value)
}

/// Every running total that the records of one operation hold equals the
/// total it stands for over `positions`: the ledger's, the pool's, the
/// owner's and the owner's in that pool.
pub open spec fn totals_match(
    config: Config,
    pool: Pool,
    pool_key: Address,
    owner: Address,
    user: UserAccountV3,
    stats: UserPoolStatsAccount,
    positions: Seq<PositionV4>,
) -> bool {
    &&& config.total_staked_amount == total_over(positions, Scope::All, Measure::Value)
    &&& config.total_nfts_staked == total_over(positions, Scope::All, Measure::Nfts)
    &&& pool.total_tokens_staked == total_over(positions, Scope::InPool(pool_key), Measure::Tokens)
    &&& pool.total_nfts_staked == total_over(positions, Scope::InPool(pool_key), Measure::Nfts)
    &&& user.total_staked_token_amount == total_over(
        positions,
        Scope::OwnedBy(owner),
        Measure::Tokens,
    )
    &&& user.total_staked_nfts == total_over(positions, Scope::OwnedBy(owner), Measure::Nfts)
    &&& user.total_staked_value == total_over(positions, Scope::OwnedBy(owner), Measure::Value)
    &&& stats.tokens_staked == total_over(
        positions,
        Scope::OwnedInPool(owner, pool_key),
        Measure::Tokens,
    )
    &&& stats.nfts_staked == total_over(
        positions,
        Scope::OwnedInPool(owner, pool_key),
        Measure::Nfts,
    )
    &&& stats.total_value == total_over(
        positions,
        Scope::OwnedInPool(owner, pool_key),
        Measure::Value,
    )
}

proof fn lemma_total_over_push(positions: Seq<PositionV4>, p: PositionV4)
    ensures
        forall|scope: Scope, measure: Measure|
            #[trigger] total_over(positions.push(p), scope, measure) == total_over(
                positions,
                scope,
                measure,
            ) + contribution(p, scope, measure),
{
    assert(positions.push(p).drop_last() =~= positions);
}

proof fn lemma_total_over_update(
    positions: Seq<PositionV4>,
    i: int,
    p: PositionV4,
    scope: Scope,
    measure: Measure,
)
    requires
        0 <= i < positions.len(),
    ensures
        total_over(positions.update(i, p), scope, measure) == total_over(positions, scope, measure)
            - contribution(positions[i], scope, measure) + contribution(p, scope, measure),
    decreases positions.len(),
{
    let updated = positions.update(i, p);
    if i == positions.len() - 1 {
        assert(updated.drop_last() =~= positions.drop_last());
    } else {
        lemma_total_over_update(positions.drop_last(), i, p, scope, measure);
        assert(updated.drop_last() =~= positions.drop_last().update(i, p));
    }
}

proof fn lemma_total_over_update_all(positions: Seq<PositionV4>, i: int, p: PositionV4)
    requires
        0 <= i < positions.len(),
    ensures
        forall|scope: Scope, measure: Measure|
            #[trigger] total_over(positions.update(i, p), scope, measure) == total_over(
                positions,
                scope,
                measure,
            ) - contribution(positions[i], scope, measure) + contribution(p, scope, measure),
{
    assert forall|scope: Scope, measure: Measure|
        #[trigger] total_over(positions.update(i, p), scope, measure) == total_over(
            positions,
            scope,
            measure,
        ) - contribution(positions[i], scope, measure) + contribution(p, scope, measure) by {
        lemma_total_over_update(positions, i, p, scope, measure);
    }
}

/// A new ledger owes nothing: its staked total is the principal of an empty
/// set of positions.
pub proof fn lemma_new_ledger_total_matches(
    ctx: Initialize,
    id: u64,
    max_cap: u64,
    nft_value_in_tokens: u64,
    nfts_limit_per_user: u8,
)
    ensures
        new_config(ctx, id, max_cap, nft_value_in_tokens, nfts_limit_per_user).total_staked_amount
            == unclaimed_principal(Seq::<PositionV4>::empty()),
{
}

/// A token stake keeps the ledger's staked total equal to the principal of
/// the unclaimed positions: an accepted stake adds its new position to both,
/// a refused one changes neither.
pub proof fn lemma_stake_token_keeps_total(
    ctx: StakeToken,
    id: u64,
    amount: u64,
    now: i64,
    positions: Seq<PositionV4>,
)
    requires
        ctx.config.total_staked_amount == unclaimed_principal(positions),
    ensures
        ({
            let (after, r) = stake_token_spec(ctx, id, amount, now);
            match r {
                Ok(p) => after.config.total_staked_amount == unclaimed_principal(positions.push(p)),
                Err(_) => after.config.total_staked_amount == unclaimed_principal(positions),
            }
        }),
{
    let (after, r) = stake_token_spec(ctx, id, amount, now);
    if let Ok(p) = r {
        lemma_total_over_push(positions, p);
    }
}

/// A collectible stake keeps the ledger's staked total equal to the
/// principal of the unclaimed positions.
pub proof fn lemma_stake_nft_keeps_total(
    ctx: StakeNFT,
    id: u64,
    now: i64,
    positions: Seq<PositionV4>,
)
    requires
        ctx.config.total_staked_amount == unclaimed_principal(positions),
    ensures
        ({
            let (after, r) = stake_nft_spec(ctx, id, now);
            match r {
                Ok(p) => after.config.total_staked_amount == unclaimed_principal(positions.push(p)),
                Err(_) => after.config.total_staked_amount == unclaimed_principal(positions),
            }
        }),
{
    let (after, r) = stake_nft_spec(ctx, id, now);
    if let Ok(p) = r {
        lemma_total_over_push(positions, p);
    }
}

/// A token claim of the position stored at `i` keeps the ledger's staked
/// total equal to the principal of the unclaimed positions, once the
/// position is stored back as the claim left it.
pub proof fn lemma_claim_token_keeps_total(
    ctx: ClaimPositionToken,
    now: i64,
    positions: Seq<PositionV4>,
    i: int,
)
    requires
        0 <= i < positions.len(),
        positions[i] == ctx.position,
        ctx.config.total_staked_amount == unclaimed_principal(positions),
    ensures
        ({
            let (after, r) = claim_token_spec(ctx, now);
            after.config.total_staked_amount == unclaimed_principal(
                positions.update(i, after.position),
            )
        }),
{
    let (after, r) = claim_token_spec(ctx, now);
    lemma_total_over_update_all(positions, i, after.position);
}

/// A collectible claim of the position stored at `i` keeps the ledger's
/// staked total equal to the principal of the unclaimed positions.
pub proof fn lemma_claim_nft_keeps_total(
    ctx: ClaimPositionNft,
    now: i64,
    positions: Seq<PositionV4>,
    i: int,
)
    requires
        0 <= i < positions.len(),
        positions[i] == ctx.position,
        ctx.config.total_staked_amount == unclaimed_principal(positions),
    ensures
        ({
            let (after, r) = claim_nft_spec(ctx, now);
            after.config.total_staked_amount == unclaimed_principal(
                positions.update(i, after.position),
            )
        }),
{
    let (after, r) = claim_nft_spec(ctx, now);
    lemma_total_over_update_all(positions, i, after.position);
}

/// A token claim changes a position's status only from unclaimed to
/// claimed, and a claimed position stays exactly as it was.
pub proof fn lemma_claim_token_status_monotonic(ctx: ClaimPositionToken, now: i64)
    ensures
        ({
            let (after, r) = claim_token_spec(ctx, now);
            &&& after.position.status != ctx.position.status ==> ctx.position.status
                == PositionStatus::Unclaimed && after.position.status == PositionStatus::Claimed
            &&& r is Ok ==> after.position.status == PositionStatus::Claimed
            &&& ctx.position.status == PositionStatus::Claimed ==> after.position == ctx.position
        }),
{
}

/// A collectible claim changes a position's status only from unclaimed to
/// claimed, and a claimed position stays exactly as it was.
pub proof fn lemma_claim_nft_status_monotonic(ctx: ClaimPositionNft, now: i64)
    ensures
        ({
            let (after, r) = claim_nft_spec(ctx, now);
            &&& after.position.status != ctx.position.status ==> ctx.position.status
                == PositionStatus::Unclaimed && after.position.status == PositionStatus::Claimed
            &&& r is Ok ==> after.position.status == PositionStatus::Claimed
            &&& ctx.position.status == PositionStatus::Claimed ==> after.position == ctx.position
        }),
{
}

/// Claiming a token position a second time fails as already claimed, at
/// any time and whoever asks.
pub proof fn lemma_claim_token_twice_fails(ctx: ClaimPositionToken, now: i64, again: ClaimPositionToken, later: i64)
    requires
        claim_token_spec(ctx, now).1 is Ok,
        again.position == claim_token_spec(ctx, now).0.position,
    ensures
        claim_token_spec(again, later) == (again, Err::<ClaimPayout, StakingError>(
            StakingError::PositionAlreadyClaimed,
        )),
{
}

/// Claiming a collectible position a second time fails as already claimed,
/// at any time and whoever asks.
pub proof fn lemma_claim_nft_twice_fails(ctx: ClaimPositionNft, now: i64, again: ClaimPositionNft, later: i64)
    requires
        claim_nft_spec(ctx, now).1 is Ok,
        again.position == claim_nft_spec(ctx, now).0.position,
    ensures
        claim_nft_spec(again, later) == (again, Err::<ClaimPayout, StakingError>(
            StakingError::PositionAlreadyClaimed,
        )),
{
}

/// Claiming an open token position before its unlock time fails as locked,
/// whoever asks, and changes nothing.
pub proof fn lemma_claim_token_before_unlock_locked(ctx: ClaimPositionToken, now: i64)
    requires
        ctx.position.status == PositionStatus::Unclaimed,
        now < ctx.position.unlock_time,
    ensures
        claim_token_spec(ctx, now) == (ctx, Err::<ClaimPayout, StakingError>(
            StakingError::PositionLocked,
        )),
{
}

/// Claiming an open collectible position before its unlock time fails as
/// locked, whoever asks, and changes nothing.
pub proof fn lemma_claim_nft_before_unlock_locked(ctx: ClaimPositionNft, now: i64)
    requires
        ctx.position.status == PositionStatus::Unclaimed,
        now < ctx.position.unlock_time,
    ensures
        claim_nft_spec(ctx, now) == (ctx, Err::<ClaimPayout, StakingError>(
            StakingError::PositionLocked,
        )),
{
}

/// A token stake that would take the caller's tokens in the pool past the
/// pool's per-user cap fails and leaves every record as it was.
pub proof fn lemma_stake_past_token_cap_fails(ctx: StakeToken, id: u64, amount: u64, now: i64)
    requires
        ctx.user_pool_stats.tokens_staked + amount > ctx.pool.max_tokens_cap,
    ensures
        stake_token_spec(ctx, id, amount, now).1 is Err,
        stake_token_spec(ctx, id, amount, now).0 == ctx,
{
}

/// Reconfiguring an active pool fails and changes nothing; reconfiguring a
/// paused pool, by the administrator, succeeds and leaves its state and
/// running totals as they were.
pub proof fn lemma_reconfigure_only_when_paused(ctx: AdminSetPoolConfig, args: PoolConfigArgs)
    ensures
        !ctx.pool.is_paused ==> set_pool_config_spec(ctx, args) == (ctx, Err::<(), StakingError>(
            if ctx.authority != ctx.config.authority {
                StakingError::Unauthorized
            } else {
                StakingError::InvalidPoolPauseState
            },
        )),
        ctx.pool.is_paused && ctx.authority == ctx.config.authority ==> ({
            let (after, r) = set_pool_config_spec(ctx, args);
            &&& r is Ok
            &&& after.config == ctx.config
            &&& after.pool.is_paused == ctx.pool.is_paused
            &&& after.pool.total_nfts_staked == ctx.pool.total_nfts_staked
            &&& after.pool.total_tokens_staked == ctx.pool.total_tokens_staked
            &&& after.pool.lifetime_nfts_staked == ctx.pool.lifetime_nfts_staked
            &&& after.pool.lifetime_tokens_staked == ctx.pool.lifetime_tokens_staked
            &&& after.pool.lifetime_claimed_yield == ctx.pool.lifetime_claimed_yield
        }),
{
}

/// Withdrawing from the principal vault more than it holds beyond the staked
/// principal fails, however large the vault's balance.
pub proof fn lemma_withdraw_never_reaches_principal(ctx: AdminWithdrawToken, amount: u64)
    requires
        amount > ctx.vault_balance - ctx.config.total_staked_amount,
    ensures
        withdraw_error(ctx, amount, WithdrawSource::PrincipalVault) is Some,
{
}

/// A token stake keeps every running total it touches equal to the total
/// it stands for: an accepted stake adds its new position to the set.
pub proof fn lemma_stake_token_keeps_all_totals(
    ctx: StakeToken,
    id: u64,
    amount: u64,
    now: i64,
    positions: Seq<PositionV4>,
)
    requires
        totals_match(
            ctx.config,
            ctx.pool,
            ctx.pool_key,
            ctx.owner,
            ctx.user_account,
            ctx.user_pool_stats,
            positions,
        ),
    ensures
        ({
            let (after, r) = stake_token_spec(ctx, id, amount, now);
            let now_positions = match r {
                Ok(p) => positions.push(p),
                Err(_) => positions,
            };
            totals_match(
                after.config,
                after.pool,
                after.pool_key,
                after.owner,
                after.user_account,
                after.user_pool_stats,
                now_positions,
            )
        }),
{
    let (after, r) = stake_token_spec(ctx, id, amount, now);
    if let Ok(p) = r {
        lemma_total_over_push(positions, p);
    }
}

/// A collectible stake keeps every running total it touches equal to the
/// total it stands for.
pub proof fn lemma_stake_nft_keeps_all_totals(
    ctx: StakeNFT,
    id: u64,
    now: i64,
    positions: Seq<PositionV4>,
)
    requires
        totals_match(
            ctx.config,
            ctx.pool,
            ctx.pool_key,
            ctx.owner,
            ctx.user_account,
            ctx.user_pool_stats,
            positions,
        ),
    ensures
        ({
            let (after, r) = stake_nft_spec(ctx, id, now);
            let now_positions = match r {
                Ok(p) => positions.push(p),
                Err(_) => positions,
            };
            totals_match(
                after.config,
                after.pool,
                after.pool_key,
                after.owner,
                after.user_account,
                after.user_pool_stats,
                now_positions,
            )
        }),
{
    let (after, r) = stake_nft_spec(ctx, id, now);
    if let Ok(p) = r {
        lemma_total_over_push(positions, p);
    }
}

/// A token claim of the position stored at `i` keeps every running total it
/// touches equal to the total it stands for, once the position is stored
/// back as the claim left it.
pub proof fn lemma_claim_token_keeps_all_totals(
    ctx: ClaimPositionToken,
    now: i64,
    positions: Seq<PositionV4>,
    i: int,
)
    requires
        0 <= i < positions.len(),
        positions[i] == ctx.position,
        totals_match(
            ctx.config,
            ctx.pool,
            ctx.pool_key,
            ctx.owner,
            ctx.user_account,
            ctx.user_pool_stats,
            positions,
        ),
    ensures
        ({
            let (after, r) = claim_token_spec(ctx, now);
            totals_match(
                after.config,
                after.pool,
                after.pool_key,
                after.owner,
                after.user_account,
                after.user_pool_stats,
                positions.update(i, after.position),
            )
        }),
{
    let (after, r) = claim_token_spec(ctx, now);
    lemma_total_over_update_all(positions, i, after.position);
}

/// A collectible claim of the position stored at `i` keeps every running
/// total it touches equal to the total it stands for.
pub proof fn lemma_claim_nft_keeps_all_totals(
    ctx: ClaimPositionNft,
    now: i64,
    positions: Seq<PositionV4>,
    i: int,
)
    requires
        0 <= i < positions.len(),
        positions[i] == ctx.position,
        totals_match(
            ctx.config,
            ctx.pool,
            ctx.pool_key,
            ctx.owner,
            ctx.user_account,
            ctx.user_pool_stats,
            positions,
        ),
    ensures
        ({
            let (after, r) = claim_nft_spec(ctx, now);
            totals_match(
                after.config,
                after.pool,
                after.pool_key,
                after.owner,
                after.user_account,
                after.user_pool_stats,
                positions.update(i, after.position),
            )
        }),
{
    let (after, r) = claim_nft_spec(ctx, now);
    lemma_total_over_update_all(positions, i, after.position);
}

/// Binding the yield reserve is final: once a non-zero reserve is bound,
/// every later attempt fails and leaves the records as they are.
pub proof fn lemma_auth_vault_binds_once(ctx: InitializeAuthVault, again: InitializeAuthVault)
    requires
        initialize_auth_vault_spec(ctx).1 is Ok,
        ctx.authority_vault != zero_address(),
        again.config == initialize_auth_vault_spec(ctx).0.config,
    ensures
        initialize_auth_vault_spec(again).0 == again,
        initialize_auth_vault_spec(again).1 is Err,
{
}

/// One stake or claim, made against the ledger's current global record.
///
/// A stake's records are its context with the ledger's record in place of
/// whatever the context held; a claim also takes its position from the
/// ledger's positions, at `index`.
pub enum LedgerStep {
    StakeToken { ctx: StakeToken, id: u64, amount: u64, now: i64 },
    StakeNft { ctx: StakeNFT, id: u64, now: i64 },
    ClaimToken { ctx: ClaimPositionToken, index: u64, now: i64 },
    ClaimNft { ctx: ClaimPositionNft, index: u64, now: i64 },
}

/// The global record and positions after `step`. A claim of a position
/// that does not exist changes nothing.
pub open spec fn apply_step(config: Config, positions: Seq<PositionV4>, step: LedgerStep) -> (
    Config,
    Seq<PositionV4>,
) {
    match step {
        LedgerStep::StakeToken { ctx, id, amount, now } => {
            let (after, r) = stake_token_spec(StakeToken { config, ..ctx }, id, amount, now);
            match r {
                Ok(p) => (after.config, positions.push(p)),
                Err(_) => (after.config, positions),
            }
        },
        LedgerStep::StakeNft { ctx, id, now } => {
            let (after, r) = stake_nft_spec(StakeNFT { config, ..ctx }, id, now);
            match r {
                Ok(p) => (after.config, positions.push(p)),
                Err(_) => (after.config, positions),
            }
        },
        LedgerStep::ClaimToken { ctx, index, now } => {
            if index < positions.len() {
                let (after, r) = claim_token_spec(
                    ClaimPositionToken { config, position: positions[index as int], ..ctx },
                    now,
                );
                (after.config, positions.update(index as int, after.position))
            } else {
                (config, positions)
            }
        },
        LedgerStep::ClaimNft { ctx, index, now } => {
            if index < positions.len() {
                let (after, r) = claim_nft_spec(
                    ClaimPositionNft { config, position: positions[index as int], ..ctx },
                    now,
                );
                (after.config, positions.update(index as int, after.position))
            } else {
                (config, positions)
            }
        },
    }
}

/// The global record and positions after `steps`, in order.
pub open spec fn replay(config: Config, positions: Seq<PositionV4>, steps: Seq<LedgerStep>) -> (
    Config,
    Seq<PositionV4>,
)
    decreases steps.len(),
{
    if steps.len() == 0 {
        (config, positions)
    } else {
        let (c, ps) = replay(config, positions, steps.drop_last());
        apply_step(c, ps, steps.last())
    }
}

/// After any sequence of stakes and claims on a new ledger, its staked
/// total is the principal of its unclaimed positions.
pub proof fn lemma_total_is_unclaimed_principal(
    init: Initialize,
    id: u64,
    max_cap: u64,
    nft_value_in_tokens: u64,
    nfts_limit_per_user: u8,
    steps: Seq<LedgerStep>,
)
    ensures
        ({
            let start = new_config(init, id, max_cap, nft_value_in_tokens, nfts_limit_per_user);
            let (config, positions) = replay(start, Seq::empty(), steps);
            config.total_staked_amount == unclaimed_principal(positions)
        }),
{
    let start = new_config(init, id, max_cap, nft_value_in_tokens, nfts_limit_per_user);
    lemma_replay_keeps_total(start, Seq::empty(), steps);
}

/// A staked total that matches the unclaimed principal still matches it
/// after any sequence of stakes and claims.
pub proof fn lemma_replay_keeps_total(
    config: Config,
    positions: Seq<PositionV4>,
    steps: Seq<LedgerStep>,
)
    requires
        config.total_staked_amount == unclaimed_principal(positions),
    ensures
        ({
            let (c, ps) = replay(config, positions, steps);
            c.total_staked_amount == unclaimed_principal(ps)
        }),
    decreases steps.len(),
{
    if steps.len() > 0 {
        lemma_replay_keeps_total(config, positions, steps.drop_last());
        let (c, ps) = replay(config, positions, steps.drop_last());
        match steps.last() {
            LedgerStep::StakeToken { ctx, id, amount, now } => {
                lemma_stake_token_keeps_total(StakeToken { config: c, ..ctx }, id, amount, now, ps);
            },
            LedgerStep::StakeNft { ctx, id, now } => {
                lemma_stake_nft_keeps_total(StakeNFT { config: c, ..ctx }, id, now, ps);
            },
            LedgerStep::ClaimToken { ctx, index, now } => {
                if index < ps.len() {
                    lemma_claim_token_keeps_total(
                        ClaimPositionToken { config: c, position: ps[index as int], ..ctx },
                        now,
                        ps,
                        index as int,
                    );
                }
            },
            LedgerStep::ClaimNft { ctx, index, now } => {
                if index < ps.len() {
                    lemma_claim_nft_keeps_total(
                        ClaimPositionNft { config: c, position: ps[index as int], ..ctx },
                        now,
                        ps,
                        index as int,
                    );
                }
            },
        }
    }
}

} // verus!
