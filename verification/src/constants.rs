use vstd::prelude::*;

verus! {

/// Most pools a basket can hold a deposit for.
pub const MAX_POOLS: u8 = 10;

/// Most custodies a pool can hold.
pub const MAX_CUSTODIES: u8 = 10;

/// Most markets a pool can hold, and most positions a basket can hold.
pub const MAX_MARKETS: u8 = 20;

/// Decimals of a leverage or a fee in basis points.
pub const BPS_DECIMALS: u8 = 4;

/// One, in basis points.
pub const BPS_POWER: u128 = 10_000;

/// Decimals of every USD amount.
pub const USD_DECIMALS: u8 = 6;

/// One USD, as a USD amount.
pub const USD_POWER: u128 = 1_000_000;

/// Decimals of the liquidity token.
pub const LP_DECIMALS: u8 = 6;

/// One liquidity token, in its smallest unit.
pub const LP_POWER: u128 = 1_000_000;

/// Decimals of a rate, such as a fee or a utilization.
pub const RATE_DECIMALS: u8 = 9;

/// One, as a rate.
pub const RATE_POWER: u128 = 1_000_000_000;

/// Decimals of the collateral token.
pub const COLLATERAL_DECIMALS: u8 = 6;

/// Seconds after which the collateral price is stale.
pub const COLLATERAL_PRICE_MAX_AGE: i64 = 600;

} // verus!
