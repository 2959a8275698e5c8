use vstd::prelude::*;

verus! {

/// Every way an operation of the platform can be refused.
///
/// All of them are local validation failures: the operation that returns one
/// has left the records it was given as they were.
#[derive(Clone, Copy, Debug, PartialEq, Eq, Structural)]
pub enum PlatformError {
    CustomError,
    /// A checked arithmetic step left the range of its integer type.
    MathOverflow,
    UnsupportedOracle,
    /// The oracle record is too short or does not decode.
    InvalidOracleAccount,
    InvalidOracleState,
    /// The price was published longer ago than the custody allows.
    StaleOraclePrice,
    /// The oracle reported a negative price.
    InvalidOraclePrice,
    InvalidEnvironment,
    InvalidPlatformState,
    InvalidPoolState,
    InvalidCustodyState,
    InvalidMarketState,
    /// A virtual custody was asked to lock or unlock funds.
    InvalidCollateralCustody,
    InvalidPositionState,
    InvalidDispensingCustody,
    InvalidPerpetualsConfig,
    InvalidPoolConfig,
    InvalidCustodyConfig,
    InvalidBasketState,
    InsufficientAmountReturned,
    MaxPriceSlippage,
    /// The position is over the maintenance leverage bound.
    MaxLeverage,
    /// The position would start over the initial leverage bound.
    MaxInitLeverage,
    MinLeverage,
    CustodyAmountLimit,
    PositionAmountLimit,
    TokenRatioOutOfRange,
    UnsupportedToken,
    UnsupportedCustody,
    UnsupportedPool,
    UnsupportedMarket,
    InstructionNotAllowed,
    /// Locking would take the custody over its utilization cap.
    MaxUtilization,
    CloseOnlyMode,
    /// The collateral left in the position would be under the minimum.
    MinCollateral,
    PermissionlessOracleMissingSignature,
    PermissionlessOracleMalformedEd25519Data,
    PermissionlessOracleSignerMismatch,
    PermissionlessOracleMessageMismatch,
    /// Two prices with different exponents were combined.
    ExponentMismatch,
    CloseRatio,
    InsufficientStakeAmount,
    InvalidFeeDeltas,
    InvalidFeeDistributionCustody,
    InvalidCollection,
    InvalidOwner,
    InvalidAccess,
    TokenStakeAccountMismatch,
    /// The basket already holds a deposit for as many pools as it may.
    MaxDepostsReached,
    InvalidStopLossPrice,
    InvalidTakeProfitPrice,
    ExposureLimitExceeded,
    MaxStopLossOrders,
    MaxTakeProfitOrders,
    MaxOpenOrder,
    InvalidOrder,
    InvalidLimitPrice,
    MinReserve,
    MaxWithdrawTokenRequest,
    InvalidRewardDistribution,
    LpPriceOutOfBounds,
    InsufficientRebateReserves,
    /// A custody balance is too small for the move asked of it.
    InsufficientFunds,
    /// A position field would overflow or underflow.
    MathError,
    /// The basket holds no position in the market.
    PositionNotFound,
    /// More size was taken out than the position holds.
    InsufficientPositionSize,
    /// More collateral was taken out than the position holds.
    InsufficientCollateral,
    /// More locked funds were released than the position holds.
    InsufficientLockedAmount,
    /// The position would be left under the minimum initial leverage.
    MinInitLeverage,
}

} // verus!
