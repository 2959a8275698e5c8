use vstd::prelude::*;
use crate::address::Address;
use crate::basket::{deposits_after_deposit, has_room_for, position_index_of, Basket, PositionMeta};
use crate::constants::{COLLATERAL_DECIMALS, COLLATERAL_PRICE_MAX_AGE};
use crate::custody::Custody;
use crate::error::PlatformError;
use crate::market::Market;
use crate::oracle::{OraclePrice, PriceFeed};
use crate::pool::{age_limit, fee_value, price_age_limit, Pool};
use crate::position::{Position, Side};
use crate::trading::funds::{release_position, release_spec, CustodyBalances};

verus! {

/// What closing a position leaves behind: the position that was closed, its
/// leverage and margin at the exit price, what the trader gets back, the
/// market, and the balances of the two custodies.
#[derive(Clone, Copy, Debug, PartialEq, Eq)]
pub struct CloseOutcome {
    pub position: Position,
    pub leverage: u128,
    pub margin_usd: u64,
    pub settle_amount: u64,
    pub market: Market,
    pub balances: CustodyBalances,
}

/// What the caller learns of a closed or liquidated position.
#[derive(Clone, Copy, Debug, PartialEq, Eq, Structural)]
pub struct Settlement {
    pub position: Position,
    pub leverage: u128,
    pub margin_usd: u64,
    pub settle_amount: u64,
}

/// The positions of a basket with the one at `index` taken out: the last
/// position takes its place.
pub open spec fn positions_without(positions: Seq<PositionMeta>, index: int) -> Seq<PositionMeta>
    recommends
        0 <= index < positions.len(),
{
    positions.update(index, positions.last()).drop_last()
}

/// The position that the basket holds open in the market, with its index, or
/// `InvalidPositionState` when it holds none or one without size.
pub open spec fn open_position_of(positions: Seq<PositionMeta>, market_key: Address) -> Result<
    (int, Position),
    PlatformError,
> {
    match position_index_of(positions, market_key) {
        None => Err(PlatformError::InvalidPositionState),
        Some(index) => if positions[index].position.size_amount == 0 {
            Err(PlatformError::InvalidPositionState)
        } else {
            Ok((index, positions[index].position))
        },
    }
}

/// Leverage and margin of a position that is marked at the target price, with
/// the trade fee on its size as unsettled fee and the delay of the lock custody.
pub open spec fn marked_leverage(
    position: Position,
    side: Side,
    target: Custody,
    lock: Custody,
    target_feed: PriceFeed,
    curtime: i64,
) -> Result<(u128, u64), PlatformError> {
    match OraclePrice::from_feed_spec(target_feed, curtime, price_age_limit(target.max_price_age)) {
        Err(e) => Err(e),
        Ok(price) => match fee_value(target.trade_fee, position.size_usd) {
            Err(e) => Err(e),
            Ok(fee) => position.leverage_and_margin(
                side,
                price,
                curtime,
                lock.margin_params.virtual_delay,
                false,
                fee,
            ),
        },
    }
}

/// What closing a position comes to, or why it is refused.
///
/// In this order: the basket must hold an open position in the market
/// (`InvalidPositionState`) and have room for a deposit against the pool
/// (`MaxDepostsReached`); the target price must be fresh; the leverage of the
/// position at that price must not pass the maintenance bound of the target
/// custody (`MaxLeverage`: such a position can only be liquidated); the
/// collateral price must be fresh; the margin is turned into collateral
/// tokens; the market gives the position up; the custodies release the locked
/// funds and set the trader's tokens aside.
pub open spec fn close_position_spec(
    basket: Basket,
    pool_key: Address,
    market_key: Address,
    market: Market,
    target: Custody,
    lock: Custody,
    collateral: Custody,
    shared: bool,
    target_feed: PriceFeed,
    collateral_feed: PriceFeed,
    curtime: i64,
) -> Result<CloseOutcome, PlatformError> {
    match open_position_of(basket.positions@, market_key) {
        Err(e) => Err(e),
        Ok((index, position)) => match if has_room_for(basket.deposits@, pool_key) {
            marked_leverage(position, market.side, target, lock, target_feed, curtime)
        } else {
            Err(PlatformError::MaxDepostsReached)
        } {
            Err(e) => Err(e),
            Ok((leverage, margin_usd)) => if leverage > target.margin_params.max_leverage {
                Err(PlatformError::MaxLeverage)
            } else {
                match OraclePrice::from_feed_spec(
                    collateral_feed,
                    curtime,
                    COLLATERAL_PRICE_MAX_AGE,
                ) {
                    Err(e) => Err(e),
                    Ok(collateral_price) => match collateral_price.token_amount(
                        margin_usd,
                        COLLATERAL_DECIMALS,
                    ) {
                        Err(e) => Err(e),
                        Ok(settle_amount) => match market.remove_spec(position) {
                            Err(e) => Err(e),
                            Ok(after) => match release_spec(
                                lock,
                                collateral,
                                shared,
                                position.locked_amount,
                                settle_amount,
                            ) {
                                Err(e) => Err(e),
                                Ok(balances) => Ok(
                                    CloseOutcome {
                                        position,
                                        leverage,
                                        margin_usd,
                                        settle_amount,
                                        market: after,
                                        balances,
                                    },
                                ),
                            },
                        },
                    },
                }
            },
        },
    }
}

/// What liquidating a position comes to, or why it is refused.
///
/// In this order: the basket must hold an open position in the market
/// (`InvalidPositionState`); the target price must be fresh; the leverage of
/// the position at that price must pass the maintenance bound of the lock
/// custody (`MaxLeverage` when it does not); the market gives the position up;
/// the lock custody releases the locked funds. Nothing goes back to the
/// trader.
pub open spec fn liquidate_position_spec(
    basket: Basket,
    market_key: Address,
    market: Market,
    target: Custody,
    lock: Custody,
    target_feed: PriceFeed,
    curtime: i64,
) -> Result<CloseOutcome, PlatformError> {
    match open_position_of(basket.positions@, market_key) {
        Err(e) => Err(e),
        Ok((index, position)) => match marked_leverage(
            position,
            market.side,
            target,
            lock,
            target_feed,
            curtime,
        ) {
            Err(e) => Err(e),
            Ok((leverage, margin_usd)) => if leverage <= lock.margin_params.max_leverage {
                Err(PlatformError::MaxLeverage)
            } else {
                match market.remove_spec(position) {
                    Err(e) => Err(e),
                    Ok(after) => match lock.unlock_spec(position.locked_amount) {
                        Err(e) => Err(e),
                        Ok(unlocked) => Ok(
                            CloseOutcome {
                                position,
                                leverage,
                                margin_usd,
                                settle_amount: 0,
                                market: after,
                                balances: CustodyBalances { lock: unlocked, collateral: unlocked },
                            },
                        ),
                    },
                }
            },
        },
    }
}

/// Finds the open position that the basket holds in the market.
fn find_open_position(basket: &Basket, market_key: &Address) -> (r: Result<
    (usize, Position),
    PlatformError,
>)
    ensures
        match r {
            Ok((index, position)) => open_position_of(basket.positions@, *market_key) == Ok::<
                (int, Position),
                PlatformError,
            >((index as int, position)) && index < basket.positions@.len(),
            Err(e) => open_position_of(basket.positions@, *market_key) == Err::<
                (int, Position),
                PlatformError,
            >(e),
        },
{
    let index = match basket.get_position_index(market_key) {
        Some(v) => v,
        None => {
            return Err(PlatformError::InvalidPositionState);
        },
    };
    let position = basket.positions[index].position;
    if !position.is_open() {
        return Err(PlatformError::InvalidPositionState);
    }
    Ok((index, position))
}

/// Marks a position at the target price.
fn mark_position(
    pool: &Pool,
    position: &Position,
    side: Side,
    target_custody: &Custody,
    lock_custody: &Custody,
    target_feed: &PriceFeed,
    curtime: i64,
) -> (r: Result<(u128, u64), PlatformError>)
    ensures
        r == marked_leverage(
            *position,
            side,
            *target_custody,
            *lock_custody,
            *target_feed,
            curtime,
        ),
{
    let price = match OraclePrice::from_feed(
        target_feed,
        curtime,
        age_limit(target_custody.max_price_age),
    ) {
        Ok(v) => v,
        Err(e) => {
            return Err(e);
        },
    };
    let fee = match pool.get_fee_value(target_custody.trade_fee, position.size_usd) {
        Ok(v) => v,
        Err(e) => {
            return Err(e);
        },
    };
    position.get_leverage_and_margin(
        side,
        &price,
        curtime,
        lock_custody.margin_params.virtual_delay,
        false,
        fee,
    )
}

/// Closes the position that the basket holds in `market` at the current
/// price and parks what is left of its margin against the pool. On an error
/// nothing has changed.
pub fn close_position(
    basket: &mut Basket,
    pool: &Pool,
    pool_key: &Address,
    market_key: &Address,
    market: &mut Market,
    target_custody: &Custody,
    lock_custody: &mut Custody,
    collateral_custody: &mut Custody,
    shared_custody: bool,
    target_feed: &PriceFeed,
    collateral_feed: &PriceFeed,
    curtime: i64,
) -> (r: Result<Settlement, PlatformError>)
    ensures
        match close_position_spec(
            *old(basket),
            *pool_key,
            *market_key,
            *old(market),
            *target_custody,
            *old(lock_custody),
            *old(collateral_custody),
            shared_custody,
            *target_feed,
            *collateral_feed,
            curtime,
        ) {
            Ok(outcome) => {
                &&& r ==
                    Ok::<Settlement, PlatformError>(
                        Settlement {
                            position: outcome.position,
                            leverage: outcome.leverage,
                            margin_usd: outcome.margin_usd,
                            settle_amount: outcome.settle_amount,
                        },
                    )
                &&& open_position_of(old(basket).positions@, *market_key) is Ok
                &&& final(basket).positions@ ==
                    positions_without(
                        old(basket).positions@,
                        open_position_of(old(basket).positions@, *market_key)->Ok_0.0,
                    )
                &&& final(basket).deposits@ ==
                    deposits_after_deposit(
                        old(basket).deposits@,
                        *pool_key,
                        outcome.settle_amount,
                    )
                &&& *final(market) == outcome.market
                &&& *final(lock_custody) ==
                    (Custody { assets: outcome.balances.lock, ..*old(lock_custody) })
                &&& *final(collateral_custody) ==
                    (Custody {
                        assets: outcome.balances.collateral,
                        ..*old(collateral_custody)
                    })
            },
            Err(e) => {
                &&& r == Err::<Settlement, PlatformError>(e)
                &&& *final(basket) == *old(basket)
                &&& *final(market) == *old(market)
                &&& *final(lock_custody) == *old(lock_custody)
                &&& *final(collateral_custody) == *old(collateral_custody)
            },
        },
        old(basket).within_limits() ==> final(basket).within_limits(),
{
    let (index, position) = match find_open_position(basket, market_key) {
        Ok(v) => v,
        Err(e) => {
            return Err(e);
        },
    };
    if !basket.has_room_for_deposit(pool_key) {
        return Err(PlatformError::MaxDepostsReached);
    }
    let (leverage, margin_usd) = match mark_position(
        pool,
        &position,
        market.side,
        target_custody,
        lock_custody,
        target_feed,
        curtime,
    ) {
        Ok(v) => v,
        Err(e) => {
            return Err(e);
        },
    };
    if leverage > target_custody.margin_params.max_leverage as u128 {
        return Err(PlatformError::MaxLeverage);
    }
    let collateral_price = match OraclePrice::from_feed(
        collateral_feed,
        curtime,
        COLLATERAL_PRICE_MAX_AGE,
    ) {
        Ok(v) => v,
        Err(e) => {
            return Err(e);
        },
    };
    let settle_amount = match collateral_price.get_token_amount(margin_usd, COLLATERAL_DECIMALS) {
        Ok(v) => v,
        Err(e) => {
            return Err(e);
        },
    };
    let market_before = *market;
    match market.remove_position(&position) {
        Ok(()) => {},
        Err(e) => {
            return Err(e);
        },
    }
    match release_position(
        lock_custody,
        collateral_custody,
        shared_custody,
        position.locked_amount,
        settle_amount,
    ) {
        Ok(()) => {},
        Err(e) => {
            *market = market_before;
            return Err(e);
        },
    }
    basket.process_deposit(*pool_key, settle_amount);
    basket.positions.swap_remove(index);
    Ok(Settlement { position, leverage, margin_usd, settle_amount })
}

/// Liquidates the position that the basket holds in `market`, which is
/// allowed only once its leverage has passed the maintenance bound. The
/// position is dropped and its locked funds are released. On an error nothing
/// has changed.
pub fn liquidate_position(
    basket: &mut Basket,
    pool: &Pool,
    market_key: &Address,
    market: &mut Market,
    target_custody: &Custody,
    lock_custody: &mut Custody,
    target_feed: &PriceFeed,
    curtime: i64,
) -> (r: Result<Settlement, PlatformError>)
    ensures
        match liquidate_position_spec(
            *old(basket),
            *market_key,
            *old(market),
            *target_custody,
            *old(lock_custody),
            *target_feed,
            curtime,
        ) {
            Ok(outcome) => {
                &&& r ==
                    Ok::<Settlement, PlatformError>(
                        Settlement {
                            position: outcome.position,
                            leverage: outcome.leverage,
                            margin_usd: outcome.margin_usd,
                            settle_amount: 0,
                        },
                    )
                &&& open_position_of(old(basket).positions@, *market_key) is Ok
                &&& final(basket).positions@ ==
                    positions_without(
                        old(basket).positions@,
                        open_position_of(old(basket).positions@, *market_key)->Ok_0.0,
                    )
                &&& final(basket).deposits == old(basket).deposits
                &&& *final(market) == outcome.market
                &&& *final(lock_custody) ==
                    (Custody { assets: outcome.balances.lock, ..*old(lock_custody) })
            },
            Err(e) => {
                &&& r == Err::<Settlement, PlatformError>(e)
                &&& *final(basket) == *old(basket)
                &&& *final(market) == *old(market)
                &&& *final(lock_custody) == *old(lock_custody)
            },
        },
        old(basket).within_limits() ==> final(basket).within_limits(),
{
    let (index, position) = match find_open_position(basket, market_key) {
        Ok(v) => v,
        Err(e) => {
            return Err(e);
        },
    };
    let (leverage, margin_usd) = match mark_position(
        pool,
        &position,
        market.side,
        target_custody,
        lock_custody,
        target_feed,
        curtime,
    ) {
        Ok(v) => v,
        Err(e) => {
            return Err(e);
        },
    };
    if leverage <= lock_custody.margin_params.max_leverage as u128 {
        return Err(PlatformError::MaxLeverage);
    }
    let market_before = *market;
    match market.remove_position(&position) {
        Ok(()) => {},
        Err(e) => {
            return Err(e);
        },
    }
    match lock_custody.unlock_funds(position.locked_amount) {
        Ok(()) => {},
        Err(e) => {
            *market = market_before;
            return Err(e);
        },
    }
    basket.positions.swap_remove(index);
    Ok(Settlement { position, leverage, margin_usd, settle_amount: 0 })
}

} // verus!
