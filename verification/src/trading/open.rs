use vstd::prelude::*;
use crate::address::Address;
use crate::basket::{deposit_amount_of, deposits_after_withdrawal, Basket, PositionMeta};
use crate::constants::MAX_MARKETS;
use crate::custody::Custody;
use crate::error::PlatformError;
use crate::market::Market;
use crate::pool::Pool;
use crate::position::Position;
use crate::trading::funds::{fund_position, fund_spec, CustodyBalances};
use crate::trading::quote::{
    get_increase_quote,
    get_prices,
    quote_increase,
    read_prices,
    OracleFeeds,
    Prices,
    Quote,
};

verus! {

/// What opening a position leaves behind: the position, the market with it
/// added, and the balances of the two custodies.
#[derive(Clone, Copy, Debug, PartialEq, Eq)]
pub struct OpenOutcome {
    pub position: Position,
    pub market: Market,
    pub balances: CustodyBalances,
}

/// The position that an order opens at `curtime`.
pub open spec fn opened_position(
    prices: Prices,
    quote: Quote,
    target_decimals: u8,
    size_amount: u64,
    curtime: i64,
) -> Position {
    Position {
        open_time: curtime,
        entry_price: prices.entry,
        size_amount,
        size_usd: quote.size_usd,
        locked_amount: quote.lock_amount,
        collateral_usd: quote.collateral_usd,
        size_decimals: target_decimals,
        locked_decimals: target_decimals,
    }
}

/// What opening a position comes to, or why it is refused.
///
/// In this order: the basket must have at least `collateral_amount` parked
/// against the pool and room for one more position (`InvalidBasketState`); the
/// three prices must be fresh; the order is priced; the leverage of the new
/// position must not pass the initial bound of the target custody
/// (`MaxInitLeverage`); the market takes the position; the custodies take the
/// collateral and lock the funds.
pub open spec fn open_position_spec(
    basket: Basket,
    pool_key: Address,
    market: Market,
    target: Custody,
    lock: Custody,
    collateral: Custody,
    shared: bool,
    feeds: OracleFeeds,
    curtime: i64,
    collateral_amount: u64,
    size_amount: u64,
) -> Result<OpenOutcome, PlatformError> {
    if deposit_amount_of(basket.deposits@, pool_key) < collateral_amount {
        Err(PlatformError::InvalidBasketState)
    } else if basket.positions@.len() >= MAX_MARKETS {
        Err(PlatformError::InvalidBasketState)
    } else {
        match read_prices(feeds, target.max_price_age, lock.max_price_age, curtime) {
            Err(e) => Err(e),
            Ok(prices) => match quote_increase(
                prices,
                target.decimals,
                lock.decimals,
                target.trade_fee,
                collateral_amount,
                size_amount,
            ) {
                Err(e) => Err(e),
                Ok(quote) => {
                    let position = opened_position(
                        prices,
                        quote,
                        target.decimals,
                        size_amount,
                        curtime,
                    );
                    match position.leverage_and_margin(
                        market.side,
                        prices.entry,
                        curtime,
                        target.margin_params.virtual_delay,
                        true,
                        quote.fee_usd,
                    ) {
                        Err(e) => Err(e),
                        Ok((leverage, margin)) => if leverage
                            > target.margin_params.max_init_leverage {
                            Err(PlatformError::MaxInitLeverage)
                        } else {
                            match market.add_spec(position) {
                                Err(e) => Err(e),
                                Ok(after) => match fund_spec(
                                    lock,
                                    collateral,
                                    shared,
                                    collateral_amount,
                                    quote.lock_amount,
                                ) {
                                    Err(e) => Err(e),
                                    Ok(balances) => Ok(
                                        OpenOutcome { position, market: after, balances },
                                    ),
                                },
                            }
                        },
                    }
                },
            },
        }
    }
}

/// Opens a position in `market` for the owner of `basket`, paid for from what
/// the basket has parked against the pool.
///
/// `target_custody` is the custody of the traded token, `lock_custody` the one
/// whose funds back the position, `collateral_custody` the one that holds the
/// collateral; `shared_custody` says that the last two are one custody, of which
/// `collateral_custody` is then a second copy that leaves with the same
/// balances. On an error nothing has changed.
pub fn open_position(
    basket: &mut Basket,
    pool: &Pool,
    pool_key: &Address,
    market_key: &Address,
    market: &mut Market,
    target_custody: &Custody,
    lock_custody: &mut Custody,
    collateral_custody: &mut Custody,
    shared_custody: bool,
    feeds: &OracleFeeds,
    curtime: i64,
    collateral_amount: u64,
    size_amount: u64,
) -> (r: Result<Position, PlatformError>)
    ensures
        match open_position_spec(
            *old(basket),
            *pool_key,
            *old(market),
            *target_custody,
            *old(lock_custody),
            *old(collateral_custody),
            shared_custody,
            *feeds,
            curtime,
            collateral_amount,
            size_amount,
        ) {
            Ok(outcome) => {
                &&& r == Ok::<Position, PlatformError>(outcome.position)
                &&& final(basket).positions@ ==
                    old(basket).positions@.push(
                        PositionMeta { market: *market_key, position: outcome.position },
                    )
                &&& final(basket).deposits@ ==
                    deposits_after_withdrawal(
                        old(basket).deposits@,
                        *pool_key,
                        collateral_amount,
                    )
                &&& *final(market) == outcome.market
                &&& *final(lock_custody) ==
                    (Custody { assets: outcome.balances.lock, ..*old(lock_custody) })
                &&& *final(collateral_custody) ==
                    (Custody {
                        assets: outcome.balances.collateral,
                        ..*old(collateral_custody)
                    })
            },
            Err(e) => {
                &&& r == Err::<Position, PlatformError>(e)
                &&& *final(basket) == *old(basket)
                &&& *final(market) == *old(market)
                &&& *final(lock_custody) == *old(lock_custody)
                &&& *final(collateral_custody) == *old(collateral_custody)
            },
        },
        old(basket).within_limits() ==> final(basket).within_limits(),
{
    if basket.get_deposit_amount(pool_key) < collateral_amount {
        return Err(PlatformError::InvalidBasketState);
    }
    if basket.positions.len() >= MAX_MARKETS as usize {
        return Err(PlatformError::InvalidBasketState);
    }
    let prices = match get_prices(
        feeds,
        target_custody.max_price_age,
        lock_custody.max_price_age,
        curtime,
    ) {
        Ok(v) => v,
        Err(e) => {
            return Err(e);
        },
    };
    let quote = match get_increase_quote(
        pool,
        &prices,
        target_custody.decimals,
        lock_custody.decimals,
        target_custody.trade_fee,
        collateral_amount,
        size_amount,
    ) {
        Ok(v) => v,
        Err(e) => {
            return Err(e);
        },
    };
    let position = Position {
        open_time: curtime,
        entry_price: prices.entry,
        size_amount,
        size_usd: quote.size_usd,
        locked_amount: quote.lock_amount,
        collateral_usd: quote.collateral_usd,
        size_decimals: target_custody.decimals,
        locked_decimals: target_custody.decimals,
    };
    let leverage = match position.get_leverage_and_margin(
        market.side,
        &prices.entry,
        curtime,
        target_custody.margin_params.virtual_delay,
        true,
        quote.fee_usd,
    ) {
        Ok(v) => v.0,
        Err(e) => {
            return Err(e);
        },
    };
    if leverage > target_custody.margin_params.max_init_leverage as u128 {
        return Err(PlatformError::MaxInitLeverage);
    }
    let market_before = *market;
    match market.add_position(&position) {
        Ok(()) => {},
        Err(e) => {
            return Err(e);
        },
    }
    match fund_position(
        lock_custody,
        collateral_custody,
        shared_custody,
        collateral_amount,
        quote.lock_amount,
    ) {
        Ok(()) => {},
        Err(e) => {
            *market = market_before;
            return Err(e);
        },
    }
    basket.positions.push(PositionMeta { market: *market_key, position });
    basket.process_withdrawal(*pool_key, collateral_amount);
    Ok(position)
}

} // verus!
