use vstd::prelude::*;
use crate::constants::{COLLATERAL_DECIMALS, COLLATERAL_PRICE_MAX_AGE};
use crate::error::PlatformError;
use crate::oracle::{OraclePrice, PriceFeed};
use crate::pool::{age_limit, fee_value, price_age_limit, Pool};
use crate::position::saturating_add_u64;

verus! {

/// What the three oracles of a trade last published: that of the traded
/// token, that of the token that is locked behind the position, and that of the
/// collateral token.
#[derive(Clone, Copy, Debug, PartialEq, Eq, Structural)]
pub struct OracleFeeds {
    pub target: PriceFeed,
    pub lock: PriceFeed,
    pub collateral: PriceFeed,
}

/// The three prices of a trade, each found fresh.
#[derive(Clone, Copy, Debug, PartialEq, Eq, Structural)]
pub struct Prices {
    pub entry: OraclePrice,
    pub lock: OraclePrice,
    pub collateral: OraclePrice,
}

/// What an order comes to at the prices of the moment.
#[derive(Clone, Copy, Debug, PartialEq, Eq, Structural)]
pub struct Quote {
    /// The size in USD.
    pub size_usd: u64,
    /// The trade fee on the size, in USD.
    pub fee_usd: u64,
    /// The collateral in USD, after the fee.
    pub collateral_usd: u64,
    /// The amount of the lock token that backs size and collateral.
    pub lock_amount: u64,
}

/// The prices of a trade at `curtime`: the target price must be no older
/// than the target custody accepts, the lock price no older than the lock
/// custody accepts, the collateral price no older than
/// `COLLATERAL_PRICE_MAX_AGE`. The first feed that is stale or negative decides
/// the error.
pub open spec fn read_prices(
    feeds: OracleFeeds,
    target_max_age: u64,
    lock_max_age: u64,
    curtime: i64,
) -> Result<Prices, PlatformError> {
    match OraclePrice::from_feed_spec(feeds.target, curtime, price_age_limit(target_max_age)) {
        Err(e) => Err(e),
        Ok(entry) => match OraclePrice::from_feed_spec(
            feeds.lock,
            curtime,
            price_age_limit(lock_max_age),
        ) {
            Err(e) => Err(e),
            Ok(lock) => match OraclePrice::from_feed_spec(
                feeds.collateral,
                curtime,
                COLLATERAL_PRICE_MAX_AGE,
            ) {
                Err(e) => Err(e),
                Ok(collateral) => Ok(Prices { entry, lock, collateral }),
            },
        },
    }
}

/// Checks the three feeds of a trade and gives their prices.
pub fn get_prices(feeds: &OracleFeeds, target_max_age: u64, lock_max_age: u64, curtime: i64) -> (r:
    Result<Prices, PlatformError>)
    ensures
        r == read_prices(*feeds, target_max_age, lock_max_age, curtime),
{
    let entry = match OraclePrice::from_feed(&feeds.target, curtime, age_limit(target_max_age)) {
        Ok(v) => v,
        Err(e) => {
            return Err(e);
        },
    };
    let lock = match OraclePrice::from_feed(&feeds.lock, curtime, age_limit(lock_max_age)) {
        Ok(v) => v,
        Err(e) => {
            return Err(e);
        },
    };
    let collateral = match OraclePrice::from_feed(
        &feeds.collateral,
        curtime,
        COLLATERAL_PRICE_MAX_AGE,
    ) {
        Ok(v) => v,
        Err(e) => {
            return Err(e);
        },
    };
    Ok(Prices { entry, lock, collateral })
}

/// What an order that adds size and collateral comes to.
///
/// The size is worth `size_usd` at the entry price; the fee is the trade fee
/// on that; the collateral is worth its USD value at the collateral price less
/// the fee (`MathOverflow` when the fee is the larger); the amount to lock is
/// what size and collateral together buy of the lock token.
pub open spec fn quote_increase(
    prices: Prices,
    target_decimals: u8,
    lock_decimals: u8,
    trade_fee: u64,
    collateral_amount: u64,
    size_amount: u64,
) -> Result<Quote, PlatformError> {
    match prices.entry.asset_amount_usd(size_amount, target_decimals) {
        Err(e) => Err(e),
        Ok(size_usd) => match fee_value(trade_fee, size_usd) {
            Err(e) => Err(e),
            Ok(fee_usd) => match prices.collateral.asset_amount_usd(
                collateral_amount,
                COLLATERAL_DECIMALS,
            ) {
                Err(e) => Err(e),
                Ok(gross) => if gross < fee_usd {
                    Err(PlatformError::MathOverflow)
                } else {
                    match prices.lock.token_amount(
                        saturating_add_u64(size_usd, (gross - fee_usd) as u64),
                        lock_decimals,
                    ) {
                        Err(e) => Err(e),
                        Ok(lock_amount) => Ok(
                            Quote {
                                size_usd,
                                fee_usd,
                                collateral_usd: (gross - fee_usd) as u64,
                                lock_amount,
                            },
                        ),
                    }
                },
            },
        },
    }
}

/// What an order that takes out size and collateral comes to: as for one that
/// adds them, but without a fee.
pub open spec fn quote_decrease(
    prices: Prices,
    target_decimals: u8,
    lock_decimals: u8,
    collateral_amount: u64,
    size_amount: u64,
) -> Result<Quote, PlatformError> {
    match prices.entry.asset_amount_usd(size_amount, target_decimals) {
        Err(e) => Err(e),
        Ok(size_usd) => match prices.collateral.asset_amount_usd(
            collateral_amount,
            COLLATERAL_DECIMALS,
        ) {
            Err(e) => Err(e),
            Ok(collateral_usd) => match prices.lock.token_amount(
                saturating_add_u64(size_usd, collateral_usd),
                lock_decimals,
            ) {
                Err(e) => Err(e),
                Ok(lock_amount) => Ok(Quote { size_usd, fee_usd: 0, collateral_usd, lock_amount }),
            },
        },
    }
}

/// Prices an order that adds size and collateral.
pub fn get_increase_quote(
    pool: &Pool,
    prices: &Prices,
    target_decimals: u8,
    lock_decimals: u8,
    trade_fee: u64,
    collateral_amount: u64,
    size_amount: u64,
) -> (r: Result<Quote, PlatformError>)
    ensures
        r == quote_increase(
            *prices,
            target_decimals,
            lock_decimals,
            trade_fee,
            collateral_amount,
            size_amount,
        ),
{
    let size_usd = match prices.entry.get_asset_amount_usd(size_amount, target_decimals) {
        Ok(v) => v,
        Err(e) => {
            return Err(e);
        },
    };
    let fee_usd = match pool.get_fee_value(trade_fee, size_usd) {
        Ok(v) => v,
        Err(e) => {
            return Err(e);
        },
    };
    let gross = match prices.collateral.get_asset_amount_usd(
        collateral_amount,
        COLLATERAL_DECIMALS,
    ) {
        Ok(v) => v,
        Err(e) => {
            return Err(e);
        },
    };
    if gross < fee_usd {
        return Err(PlatformError::MathOverflow);
    }
    let collateral_usd = gross - fee_usd;
    let lock_amount = match prices.lock.get_token_amount(
        size_usd.saturating_add(collateral_usd),
        lock_decimals,
    ) {
        Ok(v) => v,
        Err(e) => {
            return Err(e);
        },
    };
    Ok(Quote { size_usd, fee_usd, collateral_usd, lock_amount })
}

/// Prices an order that takes out size and collateral.
pub fn get_decrease_quote(
    prices: &Prices,
    target_decimals: u8,
    lock_decimals: u8,
    collateral_amount: u64,
    size_amount: u64,
) -> (r: Result<Quote, PlatformError>)
    ensures
        r == quote_decrease(
            *prices,
            target_decimals,
            lock_decimals,
            collateral_amount,
            size_amount,
        ),
{
    let size_usd = match prices.entry.get_asset_amount_usd(size_amount, target_decimals) {
        Ok(v) => v,
        Err(e) => {
            return Err(e);
        },
    };
    let collateral_usd = match prices.collateral.get_asset_amount_usd(
        collateral_amount,
        COLLATERAL_DECIMALS,
    ) {
        Ok(v) => v,
        Err(e) => {
            return Err(e);
        },
    };
    let lock_amount = match prices.lock.get_token_amount(
        size_usd.saturating_add(collateral_usd),
        lock_decimals,
    ) {
        Ok(v) => v,
        Err(e) => {
            return Err(e);
        },
    };
    Ok(Quote { size_usd, fee_usd: 0, collateral_usd, lock_amount })
}

} // verus!
