use vstd::prelude::*;
use crate::address::Address;
use crate::basket::{
    deposit_amount_of,
    deposits_after_deposit,
    deposits_after_withdrawal,
    has_room_for,
    position_index_of,
    Basket,
    PositionMeta,
};
use crate::custody::Custody;
use crate::error::PlatformError;
use crate::market::Market;
use crate::oracle::OraclePrice;
use crate::pool::Pool;
use crate::position::{Position, Side};
use crate::trading::funds::{
    fund_position,
    fund_spec,
    release_position,
    release_spec,
    CustodyBalances,
};
use crate::trading::quote::{
    get_decrease_quote,
    get_increase_quote,
    get_prices,
    quote_decrease,
    quote_increase,
    read_prices,
    OracleFeeds,
    Quote,
};

verus! {

/// What resizing a position leaves behind: what the order came to, the
/// position as it now stands with its leverage, the market, and the balances of
/// the two custodies.
#[derive(Clone, Copy, Debug, PartialEq, Eq)]
pub struct AdjustOutcome {
    pub quote: Quote,
    pub position: Position,
    pub leverage: u128,
    pub market: Market,
    pub balances: CustodyBalances,
}

/// What the caller learns of a resized position.
#[derive(Clone, Copy, Debug, PartialEq, Eq, Structural)]
pub struct Adjustment {
    pub quote: Quote,
    pub position: Position,
    pub leverage: u128,
}

/// The positions of a basket with the first one in `market_key` replaced by
/// `position`; unchanged where there is none.
pub open spec fn positions_with(
    positions: Seq<PositionMeta>,
    market_key: Address,
    position: Position,
) -> Seq<PositionMeta> {
    match position_index_of(positions, market_key) {
        Some(index) => positions.update(
            index,
            PositionMeta { market: positions[index].market, position },
        ),
        None => positions,
    }
}

/// The position grown by an order, or `MathError` when a field does not fit.
pub open spec fn increased_position(position: Position, quote: Quote, size_amount: u64) -> Result<
    Position,
    PlatformError,
> {
    if position.size_amount + size_amount > u64::MAX || position.size_usd + quote.size_usd
        > u64::MAX || position.locked_amount + quote.lock_amount > u64::MAX
        || position.collateral_usd + quote.collateral_usd > u64::MAX {
        Err(PlatformError::MathError)
    } else {
        Ok(
            Position {
                size_amount: (position.size_amount + size_amount) as u64,
                size_usd: (position.size_usd + quote.size_usd) as u64,
                locked_amount: (position.locked_amount + quote.lock_amount) as u64,
                collateral_usd: (position.collateral_usd + quote.collateral_usd) as u64,
                ..position
            },
        )
    }
}

/// The position shrunk by an order.
///
/// `InsufficientPositionSize`, `InsufficientCollateral` or
/// `InsufficientLockedAmount` when the order takes out more size, collateral or
/// locked funds than the position holds, in this order; `MathError` when it
/// takes out more USD size.
pub open spec fn decreased_position(position: Position, quote: Quote, size_amount: u64) -> Result<
    Position,
    PlatformError,
> {
    if position.size_amount < size_amount {
        Err(PlatformError::InsufficientPositionSize)
    } else if position.collateral_usd < quote.collateral_usd {
        Err(PlatformError::InsufficientCollateral)
    } else if position.locked_amount < quote.lock_amount {
        Err(PlatformError::InsufficientLockedAmount)
    } else if position.size_usd < quote.size_usd {
        Err(PlatformError::MathError)
    } else {
        Ok(
            Position {
                size_amount: (position.size_amount - size_amount) as u64,
                size_usd: (position.size_usd - quote.size_usd) as u64,
                locked_amount: (position.locked_amount - quote.lock_amount) as u64,
                collateral_usd: (position.collateral_usd - quote.collateral_usd) as u64,
                ..position
            },
        )
    }
}

/// The market with its sums grown by an order, or `MathOverflow` when one
/// does not fit. The count and the entry price stay.
pub open spec fn market_increase(market: Market, quote: Quote, size_amount: u64) -> Result<
    Market,
    PlatformError,
> {
    match increased_position(market.collective_position, quote, size_amount) {
        Err(_) => Err(PlatformError::MathOverflow),
        Ok(sum) => Ok(Market { collective_position: sum, ..market }),
    }
}

/// The market with its sums shrunk by an order, or `MathOverflow` when one
/// would pass below zero. The count and the entry price stay.
pub open spec fn market_decrease(market: Market, quote: Quote, size_amount: u64) -> Result<
    Market,
    PlatformError,
> {
    let sum = market.collective_position;
    if sum.size_amount < size_amount || sum.size_usd < quote.size_usd || sum.locked_amount
        < quote.lock_amount || sum.collateral_usd < quote.collateral_usd {
        Err(PlatformError::MathOverflow)
    } else {
        Ok(
            Market {
                collective_position: Position {
                    size_amount: (sum.size_amount - size_amount) as u64,
                    size_usd: (sum.size_usd - quote.size_usd) as u64,
                    locked_amount: (sum.locked_amount - quote.lock_amount) as u64,
                    collateral_usd: (sum.collateral_usd - quote.collateral_usd) as u64,
                    ..sum
                },
                ..market
            },
        )
    }
}

/// Grows a position by an order.
fn grow_position(position: &Position, quote: &Quote, size_amount: u64) -> (r: Result<
    Position,
    PlatformError,
>)
    ensures
        r == increased_position(*position, *quote, size_amount),
{
    let size = match position.size_amount.checked_add(size_amount) {
        Some(v) => v,
        None => {
            return Err(PlatformError::MathError);
        },
    };
    let size_usd = match position.size_usd.checked_add(quote.size_usd) {
        Some(v) => v,
        None => {
            return Err(PlatformError::MathError);
        },
    };
    let locked_amount = match position.locked_amount.checked_add(quote.lock_amount) {
        Some(v) => v,
        None => {
            return Err(PlatformError::MathError);
        },
    };
    let collateral_usd = match position.collateral_usd.checked_add(quote.collateral_usd) {
        Some(v) => v,
        None => {
            return Err(PlatformError::MathError);
        },
    };
    Ok(
        Position {
            open_time: position.open_time,
            entry_price: position.entry_price,
            size_amount: size,
            size_usd,
            locked_amount,
            collateral_usd,
            size_decimals: position.size_decimals,
            locked_decimals: position.locked_decimals,
        },
    )
}

/// Shrinks a position by an order.
fn shrink_position(position: &Position, quote: &Quote, size_amount: u64) -> (r: Result<
    Position,
    PlatformError,
>)
    ensures
        r == decreased_position(*position, *quote, size_amount),
{
    if position.size_amount < size_amount {
        return Err(PlatformError::InsufficientPositionSize);
    }
    if position.collateral_usd < quote.collateral_usd {
        return Err(PlatformError::InsufficientCollateral);
    }
    if position.locked_amount < quote.lock_amount {
        return Err(PlatformError::InsufficientLockedAmount);
    }
    if position.size_usd < quote.size_usd {
        return Err(PlatformError::MathError);
    }
    Ok(
        Position {
            open_time: position.open_time,
            entry_price: position.entry_price,
            size_amount: position.size_amount - size_amount,
            size_usd: position.size_usd - quote.size_usd,
            locked_amount: position.locked_amount - quote.lock_amount,
            collateral_usd: position.collateral_usd - quote.collateral_usd,
            size_decimals: position.size_decimals,
            locked_decimals: position.locked_decimals,
        },
    )
}

/// A position grown by an order, with its leverage and the market whose sums
/// have grown with it, or why the order is refused: the position must take the
/// order (`MathError`), its leverage at the entry price must not pass the
/// initial bound of the target custody (`MaxInitLeverage`), and the sums of the
/// market must take the order (`MathOverflow`).
pub open spec fn grown_and_bounded(
    position: Position,
    quote: Quote,
    size_amount: u64,
    market: Market,
    entry_price: OraclePrice,
    curtime: i64,
    target: Custody,
) -> Result<(Position, u128, Market), PlatformError> {
    match increased_position(position, quote, size_amount) {
        Err(e) => Err(e),
        Ok(grown) => match grown.leverage_and_margin(
            market.side,
            entry_price,
            curtime,
            target.margin_params.virtual_delay,
            true,
            quote.fee_usd,
        ) {
            Err(e) => Err(e),
            Ok((leverage, margin)) => if leverage > target.margin_params.max_init_leverage {
                Err(PlatformError::MaxInitLeverage)
            } else {
                match market_increase(market, quote, size_amount) {
                    Err(e) => Err(e),
                    Ok(after) => Ok((grown, leverage, after)),
                }
            },
        },
    }
}

/// Grows a position and the sums of its market by an order and checks the
/// leverage that comes of it.
fn grow_and_check(
    position: &Position,
    quote: &Quote,
    size_amount: u64,
    market: &Market,
    entry_price: &OraclePrice,
    curtime: i64,
    target_custody: &Custody,
) -> (r: Result<(Position, u128, Market), PlatformError>)
    ensures
        r == grown_and_bounded(
            *position,
            *quote,
            size_amount,
            *market,
            *entry_price,
            curtime,
            *target_custody,
        ),
{
    let grown = match grow_position(position, quote, size_amount) {
        Ok(v) => v,
        Err(e) => {
            return Err(e);
        },
    };
    let leverage = match grown.get_leverage_and_margin(
        market.side,
        entry_price,
        curtime,
        target_custody.margin_params.virtual_delay,
        true,
        quote.fee_usd,
    ) {
        Ok(v) => v.0,
        Err(e) => {
            return Err(e);
        },
    };
    if leverage > target_custody.margin_params.max_init_leverage as u128 {
        return Err(PlatformError::MaxInitLeverage);
    }
    let sum = match grow_position(&market.collective_position, quote, size_amount) {
        Ok(v) => v,
        Err(_) => {
            return Err(PlatformError::MathOverflow);
        },
    };
    let mut after = *market;
    after.collective_position = sum;
    Ok((grown, leverage, after))
}

/// What adding size and collateral to a position comes to, or why it is
/// refused.
///
/// In this order: the basket must have at least `collateral_amount` parked
/// against the pool (`InvalidBasketState`); the three prices must be fresh; the
/// order is priced; the basket must hold a position in the market
/// (`PositionNotFound`) and it must be open (`InvalidBasketState`); the
/// custodies take the collateral and lock the funds; the position grows
/// (`MathError`); its leverage must not pass the initial bound of the target
/// custody (`MaxInitLeverage`); the sums of the market grow.
pub open spec fn add_collateral_spec(
    basket: Basket,
    pool_key: Address,
    market_key: Address,
    market: Market,
    target: Custody,
    lock: Custody,
    collateral: Custody,
    shared: bool,
    feeds: OracleFeeds,
    curtime: i64,
    collateral_amount: u64,
    size_amount: u64,
) -> Result<AdjustOutcome, PlatformError> {
    if deposit_amount_of(basket.deposits@, pool_key) < collateral_amount {
        Err(PlatformError::InvalidBasketState)
    } else {
        match read_prices(feeds, target.max_price_age, lock.max_price_age, curtime) {
            Err(e) => Err(e),
            Ok(prices) => match quote_increase(
                prices,
                target.decimals,
                lock.decimals,
                target.trade_fee,
                collateral_amount,
                size_amount,
            ) {
                Err(e) => Err(e),
                Ok(quote) => match position_index_of(basket.positions@, market_key) {
                    None => Err(PlatformError::PositionNotFound),
                    Some(index) => if basket.positions@[index].position.size_amount == 0 {
                        Err(PlatformError::InvalidBasketState)
                    } else {
                        match fund_spec(
                            lock,
                            collateral,
                            shared,
                            collateral_amount,
                            quote.lock_amount,
                        ) {
                            Err(e) => Err(e),
                            Ok(balances) => match grown_and_bounded(
                                basket.positions@[index].position,
                                quote,
                                size_amount,
                                market,
                                prices.entry,
                                curtime,
                                target,
                            ) {
                                Err(e) => Err(e),
                                Ok((position, leverage, after)) => Ok(
                                    AdjustOutcome {
                                        quote,
                                        position,
                                        leverage,
                                        market: after,
                                        balances,
                                    },
                                ),
                            },
                        }
                    },
                },
            },
        }
    }
}

/// The leverage that a shrunk position must show, or why it is refused.
///
/// A position that is left without size has no leverage to show and passes
/// with zero. Otherwise its collateral must not be under the minimum of the
/// target custody (`MinCollateral`) and its leverage not under the minimum
/// initial leverage (`MinInitLeverage`).
pub open spec fn remaining_leverage(
    position: Position,
    side: Side,
    entry_price: OraclePrice,
    curtime: i64,
    target: Custody,
) -> Result<u128, PlatformError> {
    if position.size_amount == 0 {
        Ok(0)
    } else if position.collateral_usd < target.margin_params.min_collateral_usd {
        Err(PlatformError::MinCollateral)
    } else {
        match position.leverage_and_margin(
            side,
            entry_price,
            curtime,
            target.margin_params.virtual_delay,
            true,
            0,
        ) {
            Err(e) => Err(e),
            Ok((leverage, margin)) => if leverage < target.margin_params.min_init_leverage {
                Err(PlatformError::MinInitLeverage)
            } else {
                Ok(leverage)
            },
        }
    }
}

/// What taking size and collateral out of a position comes to, or why it is
/// refused.
///
/// In this order: the three prices must be fresh; the order is priced without
/// a fee; the basket must hold a position in the market (`PositionNotFound`),
/// it must be open (`InvalidBasketState`) and the basket must have room for a
/// deposit against the pool (`MaxDepostsReached`); the position shrinks; what
/// is left must keep the minimum collateral and the minimum initial leverage;
/// the custodies release the funds and set `collateral_amount` aside; the sums
/// of the market shrink.
pub open spec fn remove_collateral_spec(
    basket: Basket,
    pool_key: Address,
    market_key: Address,
    market: Market,
    target: Custody,
    lock: Custody,
    collateral: Custody,
    shared: bool,
    feeds: OracleFeeds,
    curtime: i64,
    collateral_amount: u64,
    size_amount: u64,
) -> Result<AdjustOutcome, PlatformError> {
    match read_prices(feeds, target.max_price_age, lock.max_price_age, curtime) {
        Err(e) => Err(e),
        Ok(prices) => match quote_decrease(
            prices,
            target.decimals,
            lock.decimals,
            collateral_amount,
            size_amount,
        ) {
            Err(e) => Err(e),
            Ok(quote) => match position_index_of(basket.positions@, market_key) {
                None => Err(PlatformError::PositionNotFound),
                Some(index) => if basket.positions@[index].position.size_amount == 0 {
                    Err(PlatformError::InvalidBasketState)
                } else if !has_room_for(basket.deposits@, pool_key) {
                    Err(PlatformError::MaxDepostsReached)
                } else {
                    match decreased_position(
                        basket.positions@[index].position,
                        quote,
                        size_amount,
                    ) {
                        Err(e) => Err(e),
                        Ok(position) => match remaining_leverage(
                            position,
                            market.side,
                            prices.entry,
                            curtime,
                            target,
                        ) {
                            Err(e) => Err(e),
                            Ok(leverage) => match release_spec(
                                lock,
                                collateral,
                                shared,
                                quote.lock_amount,
                                collateral_amount,
                            ) {
                                Err(e) => Err(e),
                                Ok(balances) => match market_decrease(market, quote, size_amount) {
                                    Err(e) => Err(e),
                                    Ok(after) => Ok(
                                        AdjustOutcome {
                                            quote,
                                            position,
                                            leverage,
                                            market: after,
                                            balances,
                                        },
                                    ),
                                },
                            },
                        },
                    }
                },
            },
        },
    }
}

/// Adds size and collateral to the position that the basket holds in
/// `market`, paid for from what the basket has parked against the pool. On an
/// error nothing has changed.
pub fn process_add_collateral_to_position(
    basket: &mut Basket,
    pool: &Pool,
    pool_key: &Address,
    market_key: &Address,
    market: &mut Market,
    target_custody: &Custody,
    lock_custody: &mut Custody,
    collateral_custody: &mut Custody,
    shared_custody: bool,
    feeds: &OracleFeeds,
    curtime: i64,
    collateral_amount: u64,
    size_amount: u64,
) -> (r: Result<Adjustment, PlatformError>)
    ensures
        match add_collateral_spec(
            *old(basket),
            *pool_key,
            *market_key,
            *old(market),
            *target_custody,
            *old(lock_custody),
            *old(collateral_custody),
            shared_custody,
            *feeds,
            curtime,
            collateral_amount,
            size_amount,
        ) {
            Ok(outcome) => {
                &&& r ==
                    Ok::<Adjustment, PlatformError>(
                        Adjustment {
                            quote: outcome.quote,
                            position: outcome.position,
                            leverage: outcome.leverage,
                        },
                    )
                &&& final(basket).positions@ ==
                    positions_with(old(basket).positions@, *market_key, outcome.position)
                &&& final(basket).deposits@ ==
                    deposits_after_withdrawal(
                        old(basket).deposits@,
                        *pool_key,
                        collateral_amount,
                    )
                &&& *final(market) == outcome.market
                &&& *final(lock_custody) ==
                    (Custody { assets: outcome.balances.lock, ..*old(lock_custody) })
                &&& *final(collateral_custody) ==
                    (Custody {
                        assets: outcome.balances.collateral,
                        ..*old(collateral_custody)
                    })
            },
            Err(e) => {
                &&& r == Err::<Adjustment, PlatformError>(e)
                &&& *final(basket) == *old(basket)
                &&& *final(market) == *old(market)
                &&& *final(lock_custody) == *old(lock_custody)
                &&& *final(collateral_custody) == *old(collateral_custody)
            },
        },
        old(basket).within_limits() ==> final(basket).within_limits(),
{
    if basket.get_deposit_amount(pool_key) < collateral_amount {
        return Err(PlatformError::InvalidBasketState);
    }
    let prices = match get_prices(
        feeds,
        target_custody.max_price_age,
        lock_custody.max_price_age,
        curtime,
    ) {
        Ok(v) => v,
        Err(e) => {
            return Err(e);
        },
    };
    let quote = match get_increase_quote(
        pool,
        &prices,
        target_custody.decimals,
        lock_custody.decimals,
        target_custody.trade_fee,
        collateral_amount,
        size_amount,
    ) {
        Ok(v) => v,
        Err(e) => {
            return Err(e);
        },
    };
    let index = match basket.get_position_index(market_key) {
        Some(v) => v,
        None => {
            return Err(PlatformError::PositionNotFound);
        },
    };
    let held = basket.positions[index];
    if !held.position.is_open() {
        return Err(PlatformError::InvalidBasketState);
    }
    let lock_before = lock_custody.assets;
    let collateral_before = collateral_custody.assets;
    match fund_position(
        lock_custody,
        collateral_custody,
        shared_custody,
        collateral_amount,
        quote.lock_amount,
    ) {
        Ok(()) => {},
        Err(e) => {
            return Err(e);
        },
    }
    let (position, leverage, after) = match grow_and_check(
        &held.position,
        &quote,
        size_amount,
        market,
        &prices.entry,
        curtime,
        target_custody,
    ) {
        Ok(v) => v,
        Err(e) => {
            lock_custody.assets = lock_before;
            collateral_custody.assets = collateral_before;
            return Err(e);
        },
    };
    *market = after;
    basket.positions.set(index, PositionMeta { market: held.market, position });
    basket.process_withdrawal(*pool_key, collateral_amount);
    Ok(Adjustment { quote, position, leverage })
}

/// Checks what is left of a shrunk position and gives its leverage.
fn check_remaining(
    position: &Position,
    side: Side,
    entry_price: &OraclePrice,
    curtime: i64,
    target_custody: &Custody,
) -> (r: Result<u128, PlatformError>)
    ensures
        r == remaining_leverage(*position, side, *entry_price, curtime, *target_custody),
{
    if !position.is_open() {
        return Ok(0);
    }
    if position.collateral_usd < target_custody.margin_params.min_collateral_usd as u64 {
        return Err(PlatformError::MinCollateral);
    }
    let leverage = match position.get_leverage_and_margin(
        side,
        entry_price,
        curtime,
        target_custody.margin_params.virtual_delay,
        true,
        0,
    ) {
        Ok(v) => v.0,
        Err(e) => {
            return Err(e);
        },
    };
    if leverage < target_custody.margin_params.min_init_leverage as u128 {
        return Err(PlatformError::MinInitLeverage);
    }
    Ok(leverage)
}

/// Takes size and collateral out of the position that the basket holds in
/// `market` and parks the collateral against the pool again. On an error
/// nothing has changed.
pub fn remove_collateral_from_position(
    basket: &mut Basket,
    pool_key: &Address,
    market_key: &Address,
    market: &mut Market,
    target_custody: &Custody,
    lock_custody: &mut Custody,
    collateral_custody: &mut Custody,
    shared_custody: bool,
    feeds: &OracleFeeds,
    curtime: i64,
    collateral_amount: u64,
    size_amount: u64,
) -> (r: Result<Adjustment, PlatformError>)
    ensures
        match remove_collateral_spec(
            *old(basket),
            *pool_key,
            *market_key,
            *old(market),
            *target_custody,
            *old(lock_custody),
            *old(collateral_custody),
            shared_custody,
            *feeds,
            curtime,
            collateral_amount,
            size_amount,
        ) {
            Ok(outcome) => {
                &&& r ==
                    Ok::<Adjustment, PlatformError>(
                        Adjustment {
                            quote: outcome.quote,
                            position: outcome.position,
                            leverage: outcome.leverage,
                        },
                    )
                &&& final(basket).positions@ ==
                    positions_with(old(basket).positions@, *market_key, outcome.position)
                &&& final(basket).deposits@ ==
                    deposits_after_deposit(
                        old(basket).deposits@,
                        *pool_key,
                        collateral_amount,
                    )
                &&& *final(market) == outcome.market
                &&& *final(lock_custody) ==
                    (Custody { assets: outcome.balances.lock, ..*old(lock_custody) })
                &&& *final(collateral_custody) ==
                    (Custody {
                        assets: outcome.balances.collateral,
                        ..*old(collateral_custody)
                    })
            },
            Err(e) => {
                &&& r == Err::<Adjustment, PlatformError>(e)
                &&& *final(basket) == *old(basket)
                &&& *final(market) == *old(market)
                &&& *final(lock_custody) == *old(lock_custody)
                &&& *final(collateral_custody) == *old(collateral_custody)
            },
        },
        old(basket).within_limits() ==> final(basket).within_limits(),
{
    let prices = match get_prices(
        feeds,
        target_custody.max_price_age,
        lock_custody.max_price_age,
        curtime,
    ) {
        Ok(v) => v,
        Err(e) => {
            return Err(e);
        },
    };
    let quote = match get_decrease_quote(
        &prices,
        target_custody.decimals,
        lock_custody.decimals,
        collateral_amount,
        size_amount,
    ) {
        Ok(v) => v,
        Err(e) => {
            return Err(e);
        },
    };
    let index = match basket.get_position_index(market_key) {
        Some(v) => v,
        None => {
            return Err(PlatformError::PositionNotFound);
        },
    };
    let held = basket.positions[index];
    if !held.position.is_open() {
        return Err(PlatformError::InvalidBasketState);
    }
    if !basket.has_room_for_deposit(pool_key) {
        return Err(PlatformError::MaxDepostsReached);
    }
    let position = match shrink_position(&held.position, &quote, size_amount) {
        Ok(v) => v,
        Err(e) => {
            return Err(e);
        },
    };
    let leverage = match check_remaining(
        &position,
        market.side,
        &prices.entry,
        curtime,
        target_custody,
    ) {
        Ok(v) => v,
        Err(e) => {
            return Err(e);
        },
    };
    let lock_before = lock_custody.assets;
    let collateral_before = collateral_custody.assets;
    match release_position(
        lock_custody,
        collateral_custody,
        shared_custody,
        quote.lock_amount,
        collateral_amount,
    ) {
        Ok(()) => {},
        Err(e) => {
            return Err(e);
        },
    }
    let sum = market.collective_position;
    if sum.size_amount < size_amount || sum.size_usd < quote.size_usd || sum.locked_amount
        < quote.lock_amount || sum.collateral_usd < quote.collateral_usd {
        lock_custody.assets = lock_before;
        collateral_custody.assets = collateral_before;
        return Err(PlatformError::MathOverflow);
    }
    market.collective_position = Position {
        open_time: sum.open_time,
        entry_price: sum.entry_price,
        size_amount: sum.size_amount - size_amount,
        size_usd: sum.size_usd - quote.size_usd,
        locked_amount: sum.locked_amount - quote.lock_amount,
        collateral_usd: sum.collateral_usd - quote.collateral_usd,
        size_decimals: sum.size_decimals,
        locked_decimals: sum.locked_decimals,
    };
    basket.positions.set(index, PositionMeta { market: held.market, position });
    basket.process_deposit(*pool_key, collateral_amount);
    Ok(Adjustment { quote, position, leverage })
}

} // verus!
