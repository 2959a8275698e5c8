use vstd::prelude::*;
use crate::address::Address;
use crate::basket::{deposit_amount_of, has_room_for, position_index_of, Basket};
use crate::constants::{COLLATERAL_PRICE_MAX_AGE, MAX_MARKETS};
use crate::custody::Custody;
use crate::error::PlatformError;
use crate::market::Market;
use crate::pool::{
    lemma_mark_custodies_stops, mark_custodies, price_age_limit, CustodyAccount, MarketAccount,
    OracleAccount, Pool, Snapshot,
};
use crate::trading::adjust::{decreased_position, remove_collateral_spec, AdjustOutcome};
use crate::trading::open::{open_position_spec, OpenOutcome};
use crate::trading::quote::{quote_decrease, read_prices, OracleFeeds, Prices};
use crate::math::{lemma_pow10_bounds, lemma_pow_monotonic, lemma_pow_positive, pow10};
use crate::oracle::{OraclePrice, ORACLE_MAX_PRICE};
use crate::position::{leverage_of, Position, Side};

verus! {

/// One move on the balances of a custody.
#[derive(Clone, Copy, Debug, PartialEq, Eq, Structural)]
pub enum LedgerOp {
    Lock(u64),
    Unlock(u64),
    ReservedToOwned(u64),
    OwnedToReserved(u64),
}

impl Custody {
    /// The custody after one move; a move that is refused leaves it as it was.
    pub open spec fn after_op(self, op: LedgerOp) -> Custody {
        let moved = match op {
            LedgerOp::Lock(amount) => self.lock_spec(amount),
            LedgerOp::Unlock(amount) => self.unlock_spec(amount),
            LedgerOp::ReservedToOwned(amount) => self.reserved_to_owned_spec(amount),
            LedgerOp::OwnedToReserved(amount) => self.owned_to_reserved_spec(amount),
        };
        match moved {
            Ok(assets) => Custody { assets, ..self },
            Err(_) => self,
        }
    }

    /// The custody after a run of moves, made in order.
    pub open spec fn after_ops(self, ops: Seq<LedgerOp>) -> Custody
        decreases ops.len(),
    {
        if ops.len() == 0 {
            self
        } else {
            self.after_ops(ops.drop_last()).after_op(ops.last())
        }
    }

    /// Whether no move of the run gives away owned funds that are locked: each
    /// move from owned to reserved that goes through takes no more than is owned
    /// and not locked at that point.
    pub open spec fn spares_locked(self, ops: Seq<LedgerOp>) -> bool
        decreases ops.len(),
    {
        if ops.len() == 0 {
            true
        } else {
            let before = self.after_ops(ops.drop_last());
            self.spares_locked(ops.drop_last()) && match ops.last() {
                LedgerOp::OwnedToReserved(amount) => amount > before.assets.owned
                    || before.assets.locked + amount <= before.assets.owned,
                _ => true,
            }
        }
    }
}

/// A custody in which no more is locked than is owned stays so through every
/// run of locks, unlocks and moves between reserved and owned, as long as no
/// move from owned to reserved gives away funds that are locked.
pub proof fn law_locked_never_exceeds_owned(custody: Custody, ops: Seq<LedgerOp>)
    requires
        custody.assets.covered(),
        custody.spares_locked(ops),
    ensures
        custody.after_ops(ops).assets.covered(),
        forall|n: int|
            0 <= n <= ops.len() ==> (#[trigger] custody.after_ops(ops.take(n))).assets.covered(),
    decreases ops.len(),
{
    if ops.len() > 0 {
        let head = ops.drop_last();
        law_locked_never_exceeds_owned(custody, head);
        assert forall|n: int| 0 <= n <= ops.len() implies (#[trigger] custody.after_ops(
            ops.take(n),
        )).assets.covered() by {
            if n == ops.len() {
                assert(ops.take(n) =~= ops);
            } else {
                assert(ops.take(n) =~= head.take(n));
            }
        }
    } else {
        assert forall|n: int| 0 <= n <= ops.len() implies (#[trigger] custody.after_ops(
            ops.take(n),
        )).assets.covered() by {
            assert(ops.take(n) =~= ops);
        }
    }
}

/// One move, whichever it is and whether it goes through or not, leaves the
/// sum of what is owned and what is reserved as it was.
pub proof fn law_move_conserves_funds(custody: Custody, op: LedgerOp)
    ensures
        custody.after_op(op).assets.owned + custody.after_op(op).assets.reserved
            == custody.assets.owned + custody.assets.reserved,
{
}

/// What is owned and what is reserved add up to the same through every run of
/// moves.
pub proof fn law_moves_conserve_funds(custody: Custody, ops: Seq<LedgerOp>)
    ensures
        custody.after_ops(ops).assets.owned + custody.after_ops(ops).assets.reserved
            == custody.assets.owned + custody.assets.reserved,
    decreases ops.len(),
{
    if ops.len() > 0 {
        law_moves_conserve_funds(custody, ops.drop_last());
    }
}

/// Moving an amount from reserved to owned and back leaves the balances as
/// they were.
pub proof fn law_reserve_round_trip(custody: Custody, amount: u64)
    requires
        custody.reserved_to_owned_spec(amount) is Ok,
    ensures
        custody.after_op(LedgerOp::ReservedToOwned(amount)).after_op(
            LedgerOp::OwnedToReserved(amount),
        ) == custody,
{
}

/// Normalizing a price brings its mantissa down to `ORACLE_MAX_PRICE` or less;
/// the mantissa never grows and the exponent never shrinks.
pub proof fn law_normalize_bounds_mantissa(price: OraclePrice)
    ensures
        match price.normalize_spec() {
            Ok(normal) => {
                &&& normal.price <= ORACLE_MAX_PRICE
                &&& normal.price <= price.price
                &&& normal.exponent >= price.exponent
            },
            Err(_) => true,
        },
    decreases price.price,
{
    if price.price > ORACLE_MAX_PRICE && price.exponent < i32::MAX {
        law_normalize_bounds_mantissa(
            OraclePrice { price: price.price / 10, exponent: (price.exponent + 1) as i32 },
        );
    }
}

/// Raising the exponent of a price and lowering it again gives the price
/// back, when the mantissa lost no digit on the way up.
pub proof fn law_scale_up_and_back(price: OraclePrice, target: i32)
    requires
        target >= price.exponent,
        price.scale_spec(target) is Ok,
        price.price as int % pow10((target - price.exponent) as nat) as int == 0,
    ensures
        price.scale_spec(target)->Ok_0.scale_spec(price.exponent) == Ok::<
            OraclePrice,
            PlatformError,
        >(price),
{
    if target > price.exponent {
        let power = pow10((target - price.exponent) as nat) as int;
        lemma_pow_positive(10, (target - price.exponent) as nat);
        let scaled = price.scale_spec(target)->Ok_0;
        assert(scaled.price == price.price as int / power);
        assert((price.price as int / power) * power == price.price) by (nonlinear_arith)
            requires
                power > 0,
                price.price as int % power == 0,
        ;
        assert(scaled.exponent == target);
        assert(price.exponent - target == -(target - price.exponent));
    }
}

/// Lowering the exponent of a price and raising it again gives the price
/// back.
pub proof fn law_scale_down_and_back(price: OraclePrice, target: i32)
    requires
        target <= price.exponent,
        price.scale_spec(target) is Ok,
    ensures
        price.scale_spec(target)->Ok_0.scale_spec(price.exponent) == Ok::<
            OraclePrice,
            PlatformError,
        >(price),
{
    if target < price.exponent {
        let power = pow10((price.exponent - target) as nat) as int;
        lemma_pow_positive(10, (price.exponent - target) as nat);
        let scaled = price.scale_spec(target)->Ok_0;
        assert(-(target - price.exponent) == price.exponent - target);
        if price.exponent - target >= 20 {
            lemma_pow10_bounds();
            lemma_pow_monotonic(10, 20, (price.exponent - target) as nat);
        }
        assert(scaled.price == price.price * power);
        assert((price.price * power) / power == price.price) by (nonlinear_arith)
            requires
                power > 0,
        ;
    }
}

/// Adding a position to a market that holds others and taking it off again
/// leaves the market as it was, provided the market's entry price was the
/// average of its sums.
pub proof fn law_add_then_remove_restores(market: Market, position: Position)
    requires
        market.open_positions >= 1,
        market.is_averaged(),
        market.add_spec(position) is Ok,
    ensures
        market.add_spec(position)->Ok_0.remove_spec(position) == Ok::<Market, PlatformError>(
            market,
        ),
{
}

/// Adding a position to an empty market and taking it off again leaves the
/// market empty, with nothing kept but the decimals of the position.
pub proof fn law_sole_position_leaves_empty(market: Market, position: Position)
    requires
        market.open_positions == 0,
        market.add_spec(position) is Ok,
    ensures
        market.add_spec(position)->Ok_0.remove_spec(position) == Ok::<Market, PlatformError>(
            Market {
                open_positions: 0,
                collective_position: Position {
                    size_decimals: position.size_decimals,
                    locked_decimals: position.locked_decimals,
                    ..Position::empty()
                },
                ..market
            },
        ),
{
}

/// With the margin fixed, a larger size never has a smaller leverage.
pub proof fn law_leverage_grows_with_size(size_a: u64, size_b: u64, margin_usd: u64)
    requires
        size_a <= size_b,
    ensures
        leverage_of(size_a, margin_usd) <= leverage_of(size_b, margin_usd),
{
    if margin_usd > 0 {
        lemma_leverage_in_range(size_a, margin_usd);
        lemma_leverage_in_range(size_b, margin_usd);
        assert((size_a * 10_000) / (margin_usd as int) <= (size_b * 10_000) / (margin_usd as int))
            by (nonlinear_arith)
            requires
                0 <= size_a <= size_b,
                margin_usd > 0,
        ;
    }
}

/// With the size fixed, a larger margin never has a larger leverage.
pub proof fn law_leverage_shrinks_with_margin(size_usd: u64, margin_a: u64, margin_b: u64)
    requires
        margin_a <= margin_b,
    ensures
        leverage_of(size_usd, margin_a) >= leverage_of(size_usd, margin_b),
{
    if margin_b > 0 {
        lemma_leverage_in_range(size_usd, margin_b);
    }
    if margin_a > 0 {
        lemma_leverage_in_range(size_usd, margin_a);
        assert((size_usd * 10_000) / (margin_a as int) >= (size_usd * 10_000) / (margin_b as int))
            by (nonlinear_arith)
            requires
                0 <= size_usd,
                0 < margin_a <= margin_b,
        ;
    }
}

/// How a position is marked: the side of its market, the price and the time
/// of the marking, the delay on profit, whether it is being opened or resized,
/// and the fees not yet settled.
pub struct Marking {
    pub side: Side,
    pub target_price: OraclePrice,
    pub curtime: i64,
    pub delay: i64,
    pub initial: bool,
    pub unsettled_fees: u64,
}

impl Position {
    /// Leverage and margin of the position under a marking.
    pub open spec fn marked(self, marking: Marking) -> Result<(u128, u64), PlatformError> {
        self.leverage_and_margin(
            marking.side,
            marking.target_price,
            marking.curtime,
            marking.delay,
            marking.initial,
            marking.unsettled_fees,
        )
    }
}

/// Of two markings of positions of one size, the one that finds the larger
/// margin never finds the larger leverage, whatever else differs between the
/// positions and between the markings; a marking that finds no margin finds
/// the largest leverage there is.
pub proof fn law_leverage_follows_margin(
    first: Position,
    first_marking: Marking,
    second: Position,
    second_marking: Marking,
)
    requires
        first.size_usd == second.size_usd,
        first.marked(first_marking) is Ok,
        second.marked(second_marking) is Ok,
        first.marked(first_marking)->Ok_0.1 <= second.marked(second_marking)->Ok_0.1,
    ensures
        first.marked(first_marking)->Ok_0.0 >= second.marked(second_marking)->Ok_0.0,
        first.marked(first_marking)->Ok_0.1 == 0 ==> first.marked(first_marking)->Ok_0.0
            == u128::MAX,
{
    law_leverage_shrinks_with_margin(
        first.size_usd,
        first.marked(first_marking)->Ok_0.1,
        second.marked(second_marking)->Ok_0.1,
    );
}

/// The leverage over a positive margin is the plain quotient: it fits in 128
/// bits.
pub proof fn lemma_leverage_in_range(size_usd: u64, margin_usd: u64)
    requires
        margin_usd > 0,
    ensures
        leverage_of(size_usd, margin_usd) == (size_usd * 10_000) / (margin_usd as int),
        leverage_of(size_usd, margin_usd) <= size_usd * 10_000,
{
    assert(0 <= (size_usd * 10_000) / (margin_usd as int) <= size_usd * 10_000)
        by (nonlinear_arith)
        requires
            0 <= size_usd,
            margin_usd > 0,
    ;
}

/// Whether one of the three feeds of a trade is too old at `curtime` and no
/// feed that is read before it is negative: the target feed is read first, then
/// the lock feed, then the collateral feed.
pub open spec fn stale_feed_comes_first(
    feeds: OracleFeeds,
    target_max_age: u64,
    lock_max_age: u64,
    curtime: i64,
) -> bool {
    let target_stale = feeds.target.is_stale(curtime, price_age_limit(target_max_age));
    let lock_stale = feeds.lock.is_stale(curtime, price_age_limit(lock_max_age));
    let collateral_stale = feeds.collateral.is_stale(curtime, COLLATERAL_PRICE_MAX_AGE);
    target_stale || (feeds.target.price >= 0 && (lock_stale || (feeds.lock.price >= 0
        && collateral_stale)))
}

/// A trade whose prices include a stale one gets no prices at all, and is
/// told that the price is stale unless a negative price was read before the
/// stale one.
pub proof fn law_stale_feed_gives_no_prices(
    feeds: OracleFeeds,
    target_max_age: u64,
    lock_max_age: u64,
    curtime: i64,
)
    ensures
        feeds.target.is_stale(curtime, price_age_limit(target_max_age)) || feeds.lock.is_stale(
            curtime,
            price_age_limit(lock_max_age),
        ) || feeds.collateral.is_stale(curtime, COLLATERAL_PRICE_MAX_AGE) ==> read_prices(
            feeds,
            target_max_age,
            lock_max_age,
            curtime,
        ) is Err,
        stale_feed_comes_first(feeds, target_max_age, lock_max_age, curtime) ==> read_prices(
            feeds,
            target_max_age,
            lock_max_age,
            curtime,
        ) == Err::<Prices, PlatformError>(PlatformError::StaleOraclePrice),
{
}

/// A position is not opened at a stale price: once the basket has the
/// collateral parked and room for the position, an order whose feeds include a
/// stale one is refused, with `StaleOraclePrice` unless a negative price was
/// read before the stale one.
pub proof fn law_stale_price_opens_nothing(
    basket: Basket,
    pool_key: Address,
    market: Market,
    target: Custody,
    lock: Custody,
    collateral: Custody,
    shared: bool,
    feeds: OracleFeeds,
    curtime: i64,
    collateral_amount: u64,
    size_amount: u64,
)
    requires
        deposit_amount_of(basket.deposits@, pool_key) >= collateral_amount,
        basket.positions@.len() < MAX_MARKETS,
        stale_feed_comes_first(feeds, target.max_price_age, lock.max_price_age, curtime),
    ensures
        open_position_spec(
            basket,
            pool_key,
            market,
            target,
            lock,
            collateral,
            shared,
            feeds,
            curtime,
            collateral_amount,
            size_amount,
        ) == Err::<OpenOutcome, PlatformError>(
            PlatformError::StaleOraclePrice,
        ),
{
    law_stale_feed_gives_no_prices(feeds, target.max_price_age, lock.max_price_age, curtime);
}

/// What an order to take size and collateral out would leave of the position
/// that the basket holds in the market: `None` where a price is not fresh, the
/// order cannot be priced, the basket holds no open position there, or the
/// position cannot give what is asked.
pub open spec fn left_after_removal(
    basket: Basket,
    market_key: Address,
    target: Custody,
    lock: Custody,
    feeds: OracleFeeds,
    curtime: i64,
    collateral_amount: u64,
    size_amount: u64,
) -> Option<Position> {
    match read_prices(feeds, target.max_price_age, lock.max_price_age, curtime) {
        Err(_) => None,
        Ok(prices) => match quote_decrease(
            prices,
            target.decimals,
            lock.decimals,
            collateral_amount,
            size_amount,
        ) {
            Err(_) => None,
            Ok(quote) => match position_index_of(basket.positions@, market_key) {
                None => None,
                Some(index) => if basket.positions@[index].position.size_amount == 0 {
                    None
                } else {
                    match decreased_position(
                        basket.positions@[index].position,
                        quote,
                        size_amount,
                    ) {
                        Ok(left) => Some(left),
                        Err(_) => None,
                    }
                },
            },
        },
    }
}

/// Collateral cannot be taken out below the minimum: an order that is priced
/// at fresh prices, that the position can give, and that leaves it with size
/// but with less collateral than the target custody asks for, is refused with
/// `MinCollateral`.
pub proof fn law_removal_keeps_minimum_collateral(
    basket: Basket,
    pool_key: Address,
    market_key: Address,
    market: Market,
    target: Custody,
    lock: Custody,
    collateral: Custody,
    shared: bool,
    feeds: OracleFeeds,
    curtime: i64,
    collateral_amount: u64,
    size_amount: u64,
    left: Position,
)
    requires
        has_room_for(basket.deposits@, pool_key),
        left_after_removal(
            basket,
            market_key,
            target,
            lock,
            feeds,
            curtime,
            collateral_amount,
            size_amount,
        ) == Some(left),
        left.size_amount > 0,
        left.collateral_usd < target.margin_params.min_collateral_usd,
    ensures
        remove_collateral_spec(
            basket,
            pool_key,
            market_key,
            market,
            target,
            lock,
            collateral,
            shared,
            feeds,
            curtime,
            collateral_amount,
            size_amount,
        ) == Err::<AdjustOutcome, PlatformError>(
            PlatformError::MinCollateral,
        ),
{
}

/// A pool is not valued at a stale price: when the valuation is due and the
/// price of one of the pool's custodies is too old for that custody, the
/// valuation fails; it fails with `StaleOraclePrice` where the custodies before
/// that one were counted and the accounts of that one are the right ones.
pub proof fn law_stale_price_values_nothing(
    pool: Pool,
    custodies: Seq<CustodyAccount>,
    oracles: Seq<OracleAccount>,
    markets: Seq<MarketAccount>,
    curtime: i64,
    index: int,
)
    requires
        pool.is_due(curtime),
        0 <= index < pool.custodies@.len(),
        index < custodies.len(),
        index < oracles.len(),
        oracles[index].feed.is_stale(
            curtime,
            price_age_limit(custodies[index].custody.max_price_age),
        ),
    ensures
        pool.refreshed(custodies, oracles, markets, curtime) is Err,
        mark_custodies(pool.custodies@, custodies, oracles, markets, curtime, index as nat) is Ok
            && custodies[index].key == pool.custodies@[index] && oracles[index].key
            == custodies[index].custody.oracle ==> pool.refreshed(
            custodies,
            oracles,
            markets,
            curtime,
        ) == Err::<Snapshot, PlatformError>(PlatformError::StaleOraclePrice),
{
    let through = mark_custodies(
        pool.custodies@,
        custodies,
        oracles,
        markets,
        curtime,
        (index + 1) as nat,
    );
    assert(through is Err);
    lemma_mark_custodies_stops(
        pool.custodies@,
        custodies,
        oracles,
        markets,
        curtime,
        (index + 1) as nat,
        pool.custodies@.len(),
    );
}

} // verus!
