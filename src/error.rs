use vstd::prelude::*;

verus! {

/// Why a ledger operation was refused.
///
/// Every refusal leaves all records untouched.
#[derive(Clone, Copy, Debug, PartialEq, Eq, Structural)]
pub enum StakingError {
    /// The position's lock has not expired yet.
    PositionLocked,
    /// The caller's collectible count in this pool would pass the pool's cap.
    NftLimitReached,
    /// The caller's collectible count across all pools would pass the ledger's limit.
    GlobalNftLimitReached,
    /// A token stake of zero.
    InvalidAmount,
    /// A counter would leave the range of its type.
    ArithmeticOverflow,
    /// The position is of the other kind, or belongs to another pool.
    InvalidPositionType,
    /// The caller's value in this pool would pass the pool's per-user cap.
    UserTokensLimitCapReached,
    /// The pool is paused (staking, or pausing it again).
    PoolAlreadyPaused,
    /// The pool is already active.
    PoolAlreadyActive,
    /// Pool terms can only change while the pool is paused.
    InvalidPoolPauseState,
    /// The yield reserve cannot cover the payment.
    InsufficientYieldFunds,
    /// The yield reserve is bound already.
    AuthorityVaultAlreadyInitialized,
    /// No yield reserve is bound yet.
    AuthorityVaultNotInitialized,
    /// The caller is not the administrator, or not the position's owner.
    Unauthorized,
    /// The pool's combined value would pass its cap.
    PoolValueLimitReached,
    /// The position was claimed already.
    PositionAlreadyClaimed,
    /// A new pool must take the next free index.
    InvalidPoolIndex,
    /// The ledger holds as many pools as it can.
    PoolLimitReached,
    /// The withdrawal would reach into principal owed to stakers.
    WithdrawExceedsSurplus,
}

} // verus!
