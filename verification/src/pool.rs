use vstd::prelude::*;
use crate::address::Address;
use crate::constants::RATE_POWER;
use crate::custody::Custody;
use crate::error::PlatformError;
use crate::market::Market;
use crate::math::{
    ceil_div, checked_as_u64, checked_ceil_div, fit_u64, saturating_sub_i64,
    saturating_sub_i64_spec,
};
use crate::oracle::{OraclePrice, PriceFeed};
use crate::position::{saturating_add_u64, saturating_sub_u64};

verus! {

/// A pool of custodies and the markets they back, with its last valuation.
///
/// `raw_aum_usd` is what the custodies own, in USD; `equity_usd` is that plus
/// what the traders are losing less what they are winning; `last_updated_at`
/// is when both were last computed.
#[derive(Clone, Debug, PartialEq, Eq)]
pub struct Pool {
    pub id: u8,
    pub custody_count: u8,
    pub staleness_threshold: u8,
    pub max_aum_usd: u64,
    pub buffer: u64,
    pub raw_aum_usd: u64,
    pub equity_usd: u64,
    pub last_updated_at: i64,
    pub collateral_oracle: Address,
    pub custodies: Vec<Address>,
    pub markets: Vec<Address>,
}

impl Default for Pool {
    fn default() -> (r: Pool)
        ensures
            r.id == 0,
            r.custody_count == 0,
            r.staleness_threshold == 0,
            r.max_aum_usd == 0,
            r.buffer == 0,
            r.raw_aum_usd == 0,
            r.equity_usd == 0,
            r.last_updated_at == 0,
            r.collateral_oracle.is_zero(),
            r.custodies@.len() == 0,
            r.markets@.len() == 0,
    {
        Pool {
            id: 0,
            custody_count: 0,
            staleness_threshold: 0,
            max_aum_usd: 0,
            buffer: 0,
            raw_aum_usd: 0,
            equity_usd: 0,
            last_updated_at: 0,
            collateral_oracle: Address::default(),
            custodies: Vec::new(),
            markets: Vec::new(),
        }
    }
}

/// A custody as the ledger holds it, under its key.
#[derive(Clone, Debug, PartialEq, Eq)]
pub struct CustodyAccount {
    pub key: Address,
    pub custody: Custody,
}

/// What an oracle last published, under the key of its account.
#[derive(Clone, Copy, Debug, PartialEq, Eq)]
pub struct OracleAccount {
    pub key: Address,
    pub feed: PriceFeed,
}

/// A market as the ledger holds it, under its key.
#[derive(Clone, Copy, Debug, PartialEq, Eq)]
pub struct MarketAccount {
    pub key: Address,
    pub market: Market,
}

/// The valuation that a pool carries: what its custodies own in USD, its
/// equity, and when both were computed.
#[derive(Clone, Copy, Debug, PartialEq, Eq, Structural)]
pub struct Snapshot {
    pub raw_aum_usd: u64,
    pub equity_usd: u64,
    pub last_updated_at: i64,
}

/// The running sums of a valuation: what the custodies own, what the pool is
/// winning (the traders' losses) and what it is losing (their profits).
#[derive(Clone, Copy, Debug, PartialEq, Eq, Structural)]
pub struct Valuation {
    pub aum: u64,
    pub profit: u64,
    pub loss: u64,
}

/// The longest age of a price that a custody accepts, in seconds.
pub open spec fn price_age_limit(max_price_age: u64) -> i64 {
    if max_price_age > i64::MAX {
        i64::MAX
    } else {
        max_price_age as i64
    }
}

/// Gives the longest age of a price that a custody accepts as a time.
pub fn age_limit(max_price_age: u64) -> (r: i64)
    ensures
        r == price_age_limit(max_price_age),
{
    if max_price_age > i64::MAX as u64 {
        i64::MAX
    } else {
        max_price_age as i64
    }
}

/// The fee on `amount` at the rate `fee`, rounded up; nothing when either is
/// zero, `MathOverflow` when it does not fit in 64 bits.
pub open spec fn fee_value(fee: u64, amount: u64) -> Result<u64, PlatformError> {
    if fee == 0 || amount == 0 {
        Ok(0)
    } else {
        fit_u64(ceil_div(amount * fee, RATE_POWER as int))
    }
}

/// The index of the first market account under `key` at or after `from`.
pub open spec fn find_market(markets: Seq<MarketAccount>, key: Address, from: int) -> Option<int>
    decreases markets.len() - from,
{
    if from < 0 || from >= markets.len() {
        None
    } else if markets[from].key == key {
        Some(from)
    } else {
        find_market(markets, key, from + 1)
    }
}

/// The valuation with one more market marked at `price`.
///
/// The market is the first account under `key` (`InvalidMarketState` without
/// one). What its summed position loses is the pool's profit and what it wins
/// is the pool's loss; `MathOverflow` when a sum does not fit.
pub open spec fn mark_market(
    so_far: Valuation,
    custody: Custody,
    price: OraclePrice,
    markets: Seq<MarketAccount>,
    curtime: i64,
    key: Address,
) -> Result<Valuation, PlatformError> {
    match find_market(markets, key, 0) {
        None => Err(PlatformError::InvalidMarketState),
        Some(index) => match markets[index].market.collective_position.pnl_usd(
            markets[index].market.side,
            price,
            curtime,
            custody.margin_params.virtual_delay,
        ) {
            Err(e) => Err(e),
            Ok((profit, loss)) => if so_far.profit + loss > u64::MAX || so_far.loss + profit
                > u64::MAX {
                Err(PlatformError::MathOverflow)
            } else {
                Ok(
                    Valuation {
                        aum: so_far.aum,
                        profit: (so_far.profit + loss) as u64,
                        loss: (so_far.loss + profit) as u64,
                    },
                )
            },
        },
    }
}

/// The valuation with the first `count` markets of the custody marked, in
/// the order in which the custody lists them.
pub open spec fn mark_markets(
    so_far: Valuation,
    custody: Custody,
    price: OraclePrice,
    markets: Seq<MarketAccount>,
    curtime: i64,
    count: nat,
) -> Result<Valuation, PlatformError>
    decreases count,
{
    if count == 0 {
        Ok(so_far)
    } else {
        match mark_markets(so_far, custody, price, markets, curtime, (count - 1) as nat) {
            Err(e) => Err(e),
            Ok(valuation) => mark_market(
                valuation,
                custody,
                price,
                markets,
                curtime,
                custody.supported_markets@[count - 1],
            ),
        }
    }
}

/// The valuation with one more custody counted.
///
/// The custody account at `index` must be the one the pool names
/// (`InvalidCustodyState`) and the oracle account at `index` the one the
/// custody names (`InvalidOracleAccount`). The price must be fresh for the
/// custody. What the custody owns is added in USD, then all its markets are
/// marked at that price.
pub open spec fn mark_custody(
    so_far: Valuation,
    key: Address,
    custodies: Seq<CustodyAccount>,
    oracles: Seq<OracleAccount>,
    markets: Seq<MarketAccount>,
    curtime: i64,
    index: int,
) -> Result<Valuation, PlatformError> {
    if index >= custodies.len() || custodies[index].key != key {
        Err(PlatformError::InvalidCustodyState)
    } else if index >= oracles.len() || oracles[index].key != custodies[index].custody.oracle {
        Err(PlatformError::InvalidOracleAccount)
    } else {
        let custody = custodies[index].custody;
        match OraclePrice::from_feed_spec(
            oracles[index].feed,
            curtime,
            price_age_limit(custody.max_price_age),
        ) {
            Err(e) => Err(e),
            Ok(price) => match price.asset_amount_usd(custody.assets.owned, custody.decimals) {
                Err(e) => Err(e),
                Ok(usd) => if so_far.aum + usd > u64::MAX {
                    Err(PlatformError::MathOverflow)
                } else {
                    mark_markets(
                        Valuation {
                            aum: (so_far.aum + usd) as u64,
                            profit: so_far.profit,
                            loss: so_far.loss,
                        },
                        custody,
                        price,
                        markets,
                        curtime,
                        custody.supported_markets@.len(),
                    )
                },
            },
        }
    }
}

/// The valuation over the first `count` custodies that the pool names.
pub open spec fn mark_custodies(
    keys: Seq<Address>,
    custodies: Seq<CustodyAccount>,
    oracles: Seq<OracleAccount>,
    markets: Seq<MarketAccount>,
    curtime: i64,
    count: nat,
) -> Result<Valuation, PlatformError>
    decreases count,
{
    if count == 0 {
        Ok(Valuation { aum: 0, profit: 0, loss: 0 })
    } else {
        match mark_custodies(keys, custodies, oracles, markets, curtime, (count - 1) as nat) {
            Err(e) => Err(e),
            Ok(valuation) => mark_custody(
                valuation,
                keys[count - 1],
                custodies,
                oracles,
                markets,
                curtime,
                count - 1,
            ),
        }
    }
}

/// The equity that a valuation comes to: what is owned plus the pool's
/// profit less its loss, each step held inside the range of `u64`.
pub open spec fn equity_of(valuation: Valuation) -> u64 {
    saturating_sub_u64(saturating_add_u64(valuation.aum, valuation.profit), valuation.loss)
}

/// Finds the first market account under `key`.
fn locate_market(markets: &Vec<MarketAccount>, key: &Address) -> (r: Option<usize>)
    ensures
        match r {
            Some(index) => {
                &&& find_market(markets@, *key, 0) == Some(index as int)
                &&& index < markets@.len()
            },
            None => find_market(markets@, *key, 0) is None,
        },
{
    let mut i: usize = 0;
    while i < markets.len()
        invariant
            i <= markets@.len(),
            find_market(markets@, *key, 0) == find_market(markets@, *key, i as int),
        decreases markets@.len() - i,
    {
        if markets[i].key.equals(key) {
            return Some(i);
        }
        i = i + 1;
    }
    None
}

impl Pool {
    /// The valuation of the whole pool at `curtime`.
    pub open spec fn valuation(
        self,
        custodies: Seq<CustodyAccount>,
        oracles: Seq<OracleAccount>,
        markets: Seq<MarketAccount>,
        curtime: i64,
    ) -> Result<Valuation, PlatformError> {
        mark_custodies(self.custodies@, custodies, oracles, markets, curtime, self.custodies@.len())
    }

    /// Whether the last valuation is at least `staleness_threshold` seconds
    /// old at `curtime`.
    pub open spec fn is_due(self, curtime: i64) -> bool {
        saturating_sub_i64_spec(curtime, self.last_updated_at)
            >= self.staleness_threshold
    }

    /// The valuation that the pool carries.
    pub open spec fn snapshot(self) -> Snapshot {
        Snapshot {
            raw_aum_usd: self.raw_aum_usd,
            equity_usd: self.equity_usd,
            last_updated_at: self.last_updated_at,
        }
    }

    /// The pool with another valuation.
    pub open spec fn with_snapshot(self, snapshot: Snapshot) -> Pool {
        Pool {
            raw_aum_usd: snapshot.raw_aum_usd,
            equity_usd: snapshot.equity_usd,
            last_updated_at: snapshot.last_updated_at,
            ..self
        }
    }

    /// The valuation of the pool once it has been looked at at `curtime`: a
    /// new one where the old one is due, else the old one.
    pub open spec fn refreshed(
        self,
        custodies: Seq<CustodyAccount>,
        oracles: Seq<OracleAccount>,
        markets: Seq<MarketAccount>,
        curtime: i64,
    ) -> Result<Snapshot, PlatformError> {
        if self.is_due(curtime) {
            match self.valuation(custodies, oracles, markets, curtime) {
                Err(e) => Err(e),
                Ok(valuation) => Ok(
                    Snapshot {
                        raw_aum_usd: valuation.aum,
                        equity_usd: equity_of(valuation),
                        last_updated_at: curtime,
                    },
                ),
            }
        } else {
            Ok(self.snapshot())
        }
    }

    /// Whether the valuation of the pool is due at `curtime`.
    pub fn is_due_at(&self, curtime: i64) -> (r: bool)
        ensures
            r == self.is_due(curtime),
    {
        saturating_sub_i64(curtime, self.last_updated_at) >= self.staleness_threshold as i64
    }

    /// Computes the fee on `amount` at the rate `fee`.
    pub fn get_fee_value(&self, fee: u64, amount: u64) -> (r: Result<u64, PlatformError>)
        ensures
            r == fee_value(fee, amount),
    {
        if fee == 0 || amount == 0 {
            return Ok(0);
        }
        assert(0 <= amount * fee <= 0xFFFF_FFFF_FFFF_FFFF * 0xFFFF_FFFF_FFFF_FFFF)
            by (nonlinear_arith)
            requires
                0 <= amount <= 0xFFFF_FFFF_FFFF_FFFF,
                0 <= fee <= 0xFFFF_FFFF_FFFF_FFFF,
        ;
        let product: u128 = (amount as u128) * (fee as u128);
        match checked_ceil_div(product, RATE_POWER) {
            Ok(v) => checked_as_u64(v),
            Err(e) => Err(e),
        }
    }

    /// Marks the pool to market where its valuation is at least
    /// `staleness_threshold` seconds old, and leaves it alone otherwise.
    ///
    /// A valuation that is due values what every custody owns at its oracle's
    /// price, marks every market of every custody at that price, and records
    /// what is owned, the equity and the time. Either way the pair of what is
    /// owned and the equity that the pool then carries is returned.
    ///
    /// `custodies` and `oracles` hold the accounts of the pool's custodies and
    /// of their oracles, in the pool's order; `markets` holds the accounts of
    /// the markets, in any order. On an error the pool is as it was.
    pub fn update_aum(
        &mut self,
        custodies: &Vec<CustodyAccount>,
        oracles: &Vec<OracleAccount>,
        markets: &Vec<MarketAccount>,
        curtime: i64,
    ) -> (r: Result<(u64, u64), PlatformError>)
        ensures
            match old(self).refreshed(custodies@, oracles@, markets@, curtime) {
                Ok(snapshot) => {
                    &&& r == Ok::<(u64, u64), PlatformError>(
                        (snapshot.raw_aum_usd, snapshot.equity_usd),
                    )
                    &&& *final(self) == old(self).with_snapshot(snapshot)
                },
                Err(e) => {
                    &&& r == Err::<(u64, u64), PlatformError>(e)
                    &&& *final(self) == *old(self)
                },
            },
            !old(self).is_due(curtime) ==> {
                &&& *final(self) == *old(self)
                &&& r == Ok::<(u64, u64), PlatformError>(
                    (old(self).raw_aum_usd, old(self).equity_usd),
                )
            },
            r is Ok && old(self).is_due(curtime) ==> final(self).last_updated_at == curtime,
    {
        if !self.is_due_at(curtime) {
            return Ok((self.raw_aum_usd, self.equity_usd));
        }
        let mut totals = Valuation { aum: 0, profit: 0, loss: 0 };
        let mut cid: usize = 0;
        while cid < self.custodies.len()
            invariant
                *self == *old(self),
                self.is_due(curtime),
                cid <= self.custodies@.len(),
                mark_custodies(self.custodies@, custodies@, oracles@, markets@, curtime, cid as nat)
                    == Ok::<Valuation, PlatformError>(totals),
            decreases self.custodies@.len() - cid,
        {
            let key = &self.custodies[cid];
            match value_custody(totals, key, custodies, oracles, markets, curtime, cid) {
                Ok(v) => {
                    totals = v;
                },
                Err(e) => {
                    proof {
                        lemma_mark_custodies_stops(
                            self.custodies@,
                            custodies@,
                            oracles@,
                            markets@,
                            curtime,
                            (cid + 1) as nat,
                            self.custodies@.len(),
                        );
                    }
                    return Err(e);
                },
            }
            cid = cid + 1;
        }
        let equity = totals.aum.saturating_add(totals.profit).saturating_sub(totals.loss);
        self.raw_aum_usd = totals.aum;
        self.equity_usd = equity;
        self.last_updated_at = curtime;
        Ok((totals.aum, equity))
    }
}

/// Once marking a market has failed, marking more markets fails the same way.
pub proof fn lemma_mark_markets_stops(
    so_far: Valuation,
    custody: Custody,
    price: OraclePrice,
    markets: Seq<MarketAccount>,
    curtime: i64,
    at: nat,
    count: nat,
)
    requires
        at <= count,
        mark_markets(so_far, custody, price, markets, curtime, at) is Err,
    ensures
        mark_markets(so_far, custody, price, markets, curtime, count) == mark_markets(
            so_far,
            custody,
            price,
            markets,
            curtime,
            at,
        ),
    decreases count,
{
    if at < count {
        lemma_mark_markets_stops(so_far, custody, price, markets, curtime, at, (count - 1) as nat);
    }
}

/// Once counting a custody has failed, counting more custodies fails the same
/// way.
pub proof fn lemma_mark_custodies_stops(
    keys: Seq<Address>,
    custodies: Seq<CustodyAccount>,
    oracles: Seq<OracleAccount>,
    markets: Seq<MarketAccount>,
    curtime: i64,
    at: nat,
    count: nat,
)
    requires
        at <= count,
        mark_custodies(keys, custodies, oracles, markets, curtime, at) is Err,
    ensures
        mark_custodies(keys, custodies, oracles, markets, curtime, count) == mark_custodies(
            keys,
            custodies,
            oracles,
            markets,
            curtime,
            at,
        ),
    decreases count,
{
    if at < count {
        lemma_mark_custodies_stops(
            keys,
            custodies,
            oracles,
            markets,
            curtime,
            at,
            (count - 1) as nat,
        );
    }
}

/// Marks one market of a custody at `price`.
fn value_market(
    so_far: Valuation,
    custody: &Custody,
    price: &OraclePrice,
    markets: &Vec<MarketAccount>,
    curtime: i64,
    key: &Address,
) -> (r: Result<Valuation, PlatformError>)
    ensures
        r == mark_market(so_far, *custody, *price, markets@, curtime, *key),
{
    let index = match locate_market(markets, key) {
        Some(v) => v,
        None => {
            return Err(PlatformError::InvalidMarketState);
        },
    };
    let market = &markets[index].market;
    let (cp_profit, cp_loss) = match market.collective_position.get_pnl_usd(
        market.side,
        price,
        curtime,
        custody.margin_params.virtual_delay,
    ) {
        Ok(v) => v,
        Err(e) => {
            return Err(e);
        },
    };
    let profit = match so_far.profit.checked_add(cp_loss) {
        Some(v) => v,
        None => {
            return Err(PlatformError::MathOverflow);
        },
    };
    let loss = match so_far.loss.checked_add(cp_profit) {
        Some(v) => v,
        None => {
            return Err(PlatformError::MathOverflow);
        },
    };
    Ok(Valuation { aum: so_far.aum, profit, loss })
}

/// Counts one custody of the pool and marks its markets.
fn value_custody(
    so_far: Valuation,
    key: &Address,
    custodies: &Vec<CustodyAccount>,
    oracles: &Vec<OracleAccount>,
    markets: &Vec<MarketAccount>,
    curtime: i64,
    index: usize,
) -> (r: Result<Valuation, PlatformError>)
    ensures
        r == mark_custody(so_far, *key, custodies@, oracles@, markets@, curtime, index as int),
{
    if index >= custodies.len() || !custodies[index].key.equals(key) {
        return Err(PlatformError::InvalidCustodyState);
    }
    let custody = &custodies[index].custody;
    if index >= oracles.len() || !oracles[index].key.equals(&custody.oracle) {
        return Err(PlatformError::InvalidOracleAccount);
    }
    let price = match OraclePrice::from_feed(
        &oracles[index].feed,
        curtime,
        age_limit(custody.max_price_age),
    ) {
        Ok(v) => v,
        Err(e) => {
            return Err(e);
        },
    };
    let usd = match price.get_asset_amount_usd(custody.assets.owned, custody.decimals) {
        Ok(v) => v,
        Err(e) => {
            return Err(e);
        },
    };
    let aum = match so_far.aum.checked_add(usd) {
        Some(v) => v,
        None => {
            return Err(PlatformError::MathOverflow);
        },
    };
    let start = Valuation { aum, profit: so_far.profit, loss: so_far.loss };
    let mut totals = start;
    let mut k: usize = 0;
    while k < custody.supported_markets.len()
        invariant
            k <= custody.supported_markets@.len(),
            mark_custody(so_far, *key, custodies@, oracles@, markets@, curtime, index as int)
                == mark_markets(
                start,
                *custody,
                price,
                markets@,
                curtime,
                custody.supported_markets@.len(),
            ),
            mark_markets(start, *custody, price, markets@, curtime, k as nat) == Ok::<
                Valuation,
                PlatformError,
            >(totals),
        decreases custody.supported_markets@.len() - k,
    {
        let market_key = &custody.supported_markets[k];
        match value_market(totals, custody, &price, markets, curtime, market_key) {
            Ok(v) => {
                totals = v;
            },
            Err(e) => {
                proof {
                    lemma_mark_markets_stops(
                        start,
                        *custody,
                        price,
                        markets@,
                        curtime,
                        (k + 1) as nat,
                        custody.supported_markets@.len(),
                    );
                }
                return Err(e);
            },
        }
        k = k + 1;
    }
    Ok(totals)
}

} // verus!
