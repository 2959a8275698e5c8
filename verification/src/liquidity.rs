use vstd::prelude::*;
use crate::custody::{Assets, Custody};
use crate::error::PlatformError;
use crate::math::{checked_as_u64, fit_u64};
use crate::oracle::{OraclePrice, PriceFeed};
use crate::pool::{
    age_limit, fee_value, price_age_limit, CustodyAccount, MarketAccount, OracleAccount, Pool,
    Snapshot,
};
use crate::position::{saturating_add_u64, saturating_sub_u64};

verus! {

/// What adding or removing liquidity leaves behind: the pool's valuation, what
/// the custody owns, what the liquidity was worth in USD, and what goes to the
/// provider (liquidity tokens when adding, custody tokens when removing).
#[derive(Clone, Copy, Debug, PartialEq, Eq, Structural)]
pub struct LiquidityOutcome {
    pub snapshot: Snapshot,
    pub owned: u64,
    pub amount_usd: u64,
    pub payout: u64,
}

/// The liquidity tokens that `amount_usd` of new liquidity earns: as many as
/// the USD amount for a pool without equity, else the share of the supply that
/// the amount is of the equity, rounded down. `MathOverflow` when that does not
/// fit in 64 bits.
pub open spec fn lp_amount_for(amount_usd: u64, lp_supply: u64, equity_usd: u64) -> Result<
    u64,
    PlatformError,
> {
    if equity_usd == 0 {
        Ok(amount_usd)
    } else {
        fit_u64((amount_usd * lp_supply) / (equity_usd as int))
    }
}

/// The USD that `lp_amount` liquidity tokens stand for: the share of the
/// equity that they are of the supply, rounded down. `MathOverflow` without a
/// supply or when the amount does not fit in 64 bits.
pub open spec fn usd_for_lp(lp_amount: u64, lp_supply: u64, equity_usd: u64) -> Result<
    u64,
    PlatformError,
> {
    if lp_supply == 0 {
        Err(PlatformError::MathOverflow)
    } else {
        fit_u64((equity_usd * lp_amount) / (lp_supply as int))
    }
}

/// What adding `amount` tokens of liquidity to a custody comes to.
///
/// The pool is valued anew where that is due. The fee is the custody's
/// liquidity fee on the amount; amount and fee together are valued at the
/// custody's price, which must be fresh; that USD amount earns liquidity
/// tokens and is added to what the pool owns and to its equity, and the amount
/// is added to what the custody owns, each stopping at the top of its range.
pub open spec fn add_liquidity_spec(
    pool: Pool,
    custody: Custody,
    feed: PriceFeed,
    lp_supply: u64,
    custodies: Seq<CustodyAccount>,
    oracles: Seq<OracleAccount>,
    markets: Seq<MarketAccount>,
    curtime: i64,
    amount: u64,
) -> Result<LiquidityOutcome, PlatformError> {
    match pool.refreshed(custodies, oracles, markets, curtime) {
        Err(e) => Err(e),
        Ok(snapshot) => match fee_value(custody.lp_fee, amount) {
            Err(e) => Err(e),
            Ok(fee) => match OraclePrice::from_feed_spec(
                feed,
                curtime,
                price_age_limit(custody.max_price_age),
            ) {
                Err(e) => Err(e),
                Ok(price) => match price.asset_amount_usd(
                    saturating_add_u64(amount, fee),
                    custody.decimals,
                ) {
                    Err(e) => Err(e),
                    Ok(amount_usd) => match lp_amount_for(
                        amount_usd,
                        lp_supply,
                        snapshot.equity_usd,
                    ) {
                        Err(e) => Err(e),
                        Ok(payout) => Ok(
                            LiquidityOutcome {
                                snapshot: Snapshot {
                                    raw_aum_usd: saturating_add_u64(
                                        snapshot.raw_aum_usd,
                                        amount_usd,
                                    ),
                                    equity_usd: saturating_add_u64(snapshot.equity_usd, amount_usd),
                                    last_updated_at: snapshot.last_updated_at,
                                },
                                owned: saturating_add_u64(custody.assets.owned, amount),
                                amount_usd,
                                payout,
                            },
                        ),
                    },
                },
            },
        },
    }
}

/// What giving back `amount` liquidity tokens against a custody comes to.
///
/// The pool is valued anew where that is due. The tokens stand for a share of
/// the equity in USD; that buys custody tokens at the custody's price, which
/// must be fresh; the provider gets them less the custody's liquidity fee. The
/// USD amount is taken off what the pool owns and off its equity, and `amount`
/// off what the custody owns, each stopping at zero.
pub open spec fn remove_liquidity_spec(
    pool: Pool,
    custody: Custody,
    feed: PriceFeed,
    lp_supply: u64,
    custodies: Seq<CustodyAccount>,
    oracles: Seq<OracleAccount>,
    markets: Seq<MarketAccount>,
    curtime: i64,
    amount: u64,
) -> Result<LiquidityOutcome, PlatformError> {
    match pool.refreshed(custodies, oracles, markets, curtime) {
        Err(e) => Err(e),
        Ok(snapshot) => match usd_for_lp(amount, lp_supply, snapshot.equity_usd) {
            Err(e) => Err(e),
            Ok(amount_usd) => match OraclePrice::from_feed_spec(
                feed,
                curtime,
                price_age_limit(custody.max_price_age),
            ) {
                Err(e) => Err(e),
                Ok(price) => match price.token_amount(amount_usd, custody.decimals) {
                    Err(e) => Err(e),
                    Ok(gross) => match fee_value(custody.lp_fee, gross) {
                        Err(e) => Err(e),
                        Ok(fee) => Ok(
                            LiquidityOutcome {
                                snapshot: Snapshot {
                                    raw_aum_usd: saturating_sub_u64(
                                        snapshot.raw_aum_usd,
                                        amount_usd,
                                    ),
                                    equity_usd: saturating_sub_u64(snapshot.equity_usd, amount_usd),
                                    last_updated_at: snapshot.last_updated_at,
                                },
                                owned: saturating_sub_u64(custody.assets.owned, amount),
                                amount_usd,
                                payout: saturating_sub_u64(gross, fee),
                            },
                        ),
                    },
                },
            },
        },
    }
}

/// Computes the liquidity tokens that new liquidity earns.
pub fn get_lp_amount(amount_usd: u64, lp_supply: u64, equity_usd: u64) -> (r: Result<
    u64,
    PlatformError,
>)
    ensures
        r == lp_amount_for(amount_usd, lp_supply, equity_usd),
{
    if equity_usd == 0 {
        return Ok(amount_usd);
    }
    assert(0 <= amount_usd * lp_supply <= 0xFFFF_FFFF_FFFF_FFFF * 0xFFFF_FFFF_FFFF_FFFF)
        by (nonlinear_arith)
        requires
            0 <= amount_usd <= 0xFFFF_FFFF_FFFF_FFFF,
            0 <= lp_supply <= 0xFFFF_FFFF_FFFF_FFFF,
    ;
    let product: u128 = (amount_usd as u128) * (lp_supply as u128);
    checked_as_u64(product / (equity_usd as u128))
}

/// Computes the USD that liquidity tokens stand for.
pub fn get_usd_for_lp(lp_amount: u64, lp_supply: u64, equity_usd: u64) -> (r: Result<
    u64,
    PlatformError,
>)
    ensures
        r == usd_for_lp(lp_amount, lp_supply, equity_usd),
{
    if lp_supply == 0 {
        return Err(PlatformError::MathOverflow);
    }
    assert(0 <= equity_usd * lp_amount <= 0xFFFF_FFFF_FFFF_FFFF * 0xFFFF_FFFF_FFFF_FFFF)
        by (nonlinear_arith)
        requires
            0 <= equity_usd <= 0xFFFF_FFFF_FFFF_FFFF,
            0 <= lp_amount <= 0xFFFF_FFFF_FFFF_FFFF,
    ;
    let product: u128 = (equity_usd as u128) * (lp_amount as u128);
    checked_as_u64(product / (lp_supply as u128))
}

/// Adds `amount` tokens of liquidity to a custody of the pool and gives the
/// liquidity tokens to mint for the provider. On an error nothing has changed.
pub fn add_liquidity(
    pool: &mut Pool,
    custody: &mut Custody,
    feed: &PriceFeed,
    lp_supply: u64,
    custodies: &Vec<CustodyAccount>,
    oracles: &Vec<OracleAccount>,
    markets: &Vec<MarketAccount>,
    curtime: i64,
    amount: u64,
) -> (r: Result<u64, PlatformError>)
    ensures
        match add_liquidity_spec(
            *old(pool),
            *old(custody),
            *feed,
            lp_supply,
            custodies@,
            oracles@,
            markets@,
            curtime,
            amount,
        ) {
            Ok(outcome) => {
                &&& r == Ok::<u64, PlatformError>(outcome.payout)
                &&& *final(pool) == old(pool).with_snapshot(outcome.snapshot)
                &&& *final(custody) ==
                    (Custody {
                        assets: Assets { owned: outcome.owned, ..old(custody).assets },
                        ..*old(custody)
                    })
            },
            Err(e) => {
                &&& r == Err::<u64, PlatformError>(e)
                &&& *final(pool) == *old(pool)
                &&& *final(custody) == *old(custody)
            },
        },
{
    let raw_before = pool.raw_aum_usd;
    let equity_before = pool.equity_usd;
    let time_before = pool.last_updated_at;
    match pool.update_aum(custodies, oracles, markets, curtime) {
        Ok(_) => {},
        Err(e) => {
            return Err(e);
        },
    }
    let fee = match pool.get_fee_value(custody.lp_fee, amount) {
        Ok(v) => v,
        Err(e) => {
            pool.raw_aum_usd = raw_before;
            pool.equity_usd = equity_before;
            pool.last_updated_at = time_before;
            return Err(e);
        },
    };
    let price = match OraclePrice::from_feed(feed, curtime, age_limit(custody.max_price_age)) {
        Ok(v) => v,
        Err(e) => {
            pool.raw_aum_usd = raw_before;
            pool.equity_usd = equity_before;
            pool.last_updated_at = time_before;
            return Err(e);
        },
    };
    let valued = amount.saturating_add(fee);
    let amount_usd = match price.get_asset_amount_usd(valued, custody.decimals) {
        Ok(v) => v,
        Err(e) => {
            pool.raw_aum_usd = raw_before;
            pool.equity_usd = equity_before;
            pool.last_updated_at = time_before;
            return Err(e);
        },
    };
    let payout = match get_lp_amount(amount_usd, lp_supply, pool.equity_usd) {
        Ok(v) => v,
        Err(e) => {
            pool.raw_aum_usd = raw_before;
            pool.equity_usd = equity_before;
            pool.last_updated_at = time_before;
            return Err(e);
        },
    };
    pool.raw_aum_usd = pool.raw_aum_usd.saturating_add(amount_usd);
    pool.equity_usd = pool.equity_usd.saturating_add(amount_usd);
    custody.assets.owned = custody.assets.owned.saturating_add(amount);
    Ok(payout)
}

/// Takes back `amount` liquidity tokens against a custody of the pool and
/// gives the custody tokens to pay out to the provider. On an error nothing has
/// changed.
pub fn remove_liquidity(
    pool: &mut Pool,
    custody: &mut Custody,
    feed: &PriceFeed,
    lp_supply: u64,
    custodies: &Vec<CustodyAccount>,
    oracles: &Vec<OracleAccount>,
    markets: &Vec<MarketAccount>,
    curtime: i64,
    amount: u64,
) -> (r: Result<u64, PlatformError>)
    ensures
        match remove_liquidity_spec(
            *old(pool),
            *old(custody),
            *feed,
            lp_supply,
            custodies@,
            oracles@,
            markets@,
            curtime,
            amount,
        ) {
            Ok(outcome) => {
                &&& r == Ok::<u64, PlatformError>(outcome.payout)
                &&& *final(pool) == old(pool).with_snapshot(outcome.snapshot)
                &&& *final(custody) ==
                    (Custody {
                        assets: Assets { owned: outcome.owned, ..old(custody).assets },
                        ..*old(custody)
                    })
            },
            Err(e) => {
                &&& r == Err::<u64, PlatformError>(e)
                &&& *final(pool) == *old(pool)
                &&& *final(custody) == *old(custody)
            },
        },
{
    let raw_before = pool.raw_aum_usd;
    let equity_before = pool.equity_usd;
    let time_before = pool.last_updated_at;
    match pool.update_aum(custodies, oracles, markets, curtime) {
        Ok(_) => {},
        Err(e) => {
            return Err(e);
        },
    }
    let amount_usd = match get_usd_for_lp(amount, lp_supply, pool.equity_usd) {
        Ok(v) => v,
        Err(e) => {
            pool.raw_aum_usd = raw_before;
            pool.equity_usd = equity_before;
            pool.last_updated_at = time_before;
            return Err(e);
        },
    };
    let price = match OraclePrice::from_feed(feed, curtime, age_limit(custody.max_price_age)) {
        Ok(v) => v,
        Err(e) => {
            pool.raw_aum_usd = raw_before;
            pool.equity_usd = equity_before;
            pool.last_updated_at = time_before;
            return Err(e);
        },
    };
    let gross = match price.get_token_amount(amount_usd, custody.decimals) {
        Ok(v) => v,
        Err(e) => {
            pool.raw_aum_usd = raw_before;
            pool.equity_usd = equity_before;
            pool.last_updated_at = time_before;
            return Err(e);
        },
    };
    let fee = match pool.get_fee_value(custody.lp_fee, gross) {
        Ok(v) => v,
        Err(e) => {
            pool.raw_aum_usd = raw_before;
            pool.equity_usd = equity_before;
            pool.last_updated_at = time_before;
            return Err(e);
        },
    };
    pool.raw_aum_usd = pool.raw_aum_usd.saturating_sub(amount_usd);
    pool.equity_usd = pool.equity_usd.saturating_sub(amount_usd);
    custody.assets.owned = custody.assets.owned.saturating_sub(amount);
    Ok(gross.saturating_sub(fee))
}

} // verus!
