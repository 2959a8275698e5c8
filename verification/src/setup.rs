use vstd::prelude::*;
use crate::address::Address;
use crate::basket::Basket;
use crate::constants::{MAX_CUSTODIES, MAX_MARKETS};
use crate::custody::{Assets, Custody, MarginParams};
use crate::error::PlatformError;
use crate::market::Market;
use crate::platform::{Permissions, Platform};
use crate::pool::Pool;
use crate::position::{Position, Side};

verus! {

/// Whether `key` is among `keys`.
pub fn contains_key(keys: &Vec<Address>, key: &Address) -> (r: bool)
    ensures
        r == keys@.contains(*key),
{
    let mut i: usize = 0;
    while i < keys.len()
        invariant
            i <= keys@.len(),
            forall|j: int| 0 <= j < i ==> keys@[j] != *key,
        decreases keys@.len() - i,
    {
        if keys[i].equals(key) {
            return true;
        }
        i = i + 1;
    }
    false
}

/// Sets up the platform for its administrator.
pub fn initialize(version: u8, permissions: Permissions, admin: Address) -> (r: Platform)
    ensures
        r == (Platform { version, pool_count: 0, permissions, admin }),
{
    Platform::initialize(version, permissions, admin)
}

/// Sets up the next pool of the platform: empty, and not yet valued.
///
/// `InvalidPoolState` when `pool_id` is not the number of pools so far or the
/// platform cannot count one more; the platform is then as it was.
pub fn initialize_pool(
    platform: &mut Platform,
    pool_id: u8,
    max_aum_usd: u64,
    buffer: u64,
    collateral_oracle: Address,
) -> (r: Result<Pool, PlatformError>)
    ensures
        pool_id == old(platform).pool_count && pool_id < u8::MAX ==> {
            &&& r is Ok
            &&& *final(platform) == (Platform { pool_count: (pool_id + 1) as u8, ..*old(platform) })
            &&& r->Ok_0.id == pool_id
            &&& r->Ok_0.custody_count == 0
            &&& r->Ok_0.staleness_threshold == 0
            &&& r->Ok_0.max_aum_usd == max_aum_usd
            &&& r->Ok_0.buffer == buffer
            &&& r->Ok_0.raw_aum_usd == 0
            &&& r->Ok_0.equity_usd == 0
            &&& r->Ok_0.last_updated_at == 0
            &&& r->Ok_0.collateral_oracle == collateral_oracle
            &&& r->Ok_0.custodies@.len() == 0
            &&& r->Ok_0.markets@.len() == 0
        },
        !(pool_id == old(platform).pool_count && pool_id < u8::MAX) ==> {
            &&& r is Err
            &&& r->Err_0 == PlatformError::InvalidPoolState
            &&& *final(platform) == *old(platform)
        },
{
    match platform.register_pool(pool_id) {
        Ok(()) => {},
        Err(e) => {
            return Err(e);
        },
    }
    Ok(
        Pool {
            id: pool_id,
            custody_count: 0,
            staleness_threshold: 0,
            max_aum_usd,
            buffer,
            raw_aum_usd: 0,
            equity_usd: 0,
            last_updated_at: 0,
            collateral_oracle,
            custodies: Vec::new(),
            markets: Vec::new(),
        },
    )
}

/// What a new custody is told about itself.
#[derive(Clone, Copy, Debug, PartialEq, Eq)]
pub struct CustodyParams {
    pub id: u8,
    pub decimals: u8,
    pub stablecoin: bool,
    pub is_virtual: bool,
    pub permissions: Permissions,
    pub token_mint: Address,
    pub token_account: Address,
    pub oracle: Address,
    pub max_price_age: u64,
    pub margin_params: MarginParams,
}

/// Why a pool refuses a new custody under `custody_key`, if it does:
/// `InvalidPoolState` when it is full, `InvalidCustodyState` when it holds the
/// key already.
pub open spec fn custody_refusal(pool: Pool, custody_key: Address) -> Option<PlatformError> {
    if pool.custodies@.len() >= MAX_CUSTODIES {
        Some(PlatformError::InvalidPoolState)
    } else if pool.custodies@.contains(custody_key) {
        Some(PlatformError::InvalidCustodyState)
    } else {
        None
    }
}

/// Sets up a custody and adds it to the pool: without fees, without balances
/// and without markets. On an error the pool is as it was.
pub fn initialize_custody(pool: &mut Pool, custody_key: Address, params: CustodyParams) -> (r:
    Result<Custody, PlatformError>)
    ensures
        match custody_refusal(*old(pool), custody_key) {
            None => {
                &&& r is Ok
                &&& final(pool).custodies@ == old(pool).custodies@.push(custody_key)
                &&& final(pool).custody_count == old(pool).custodies@.len() + 1
                &&& *final(pool) == (Pool {
                    custodies: final(pool).custodies,
                    custody_count: final(pool).custody_count,
                    ..*old(pool)
                })
                &&& r->Ok_0.id == params.id
                &&& r->Ok_0.decimals == params.decimals
                &&& r->Ok_0.stablecoin == params.stablecoin
                &&& r->Ok_0.is_virtual == params.is_virtual
                &&& r->Ok_0.permissions == params.permissions
                &&& r->Ok_0.token_mint == params.token_mint
                &&& r->Ok_0.token_account == params.token_account
                &&& r->Ok_0.oracle == params.oracle
                &&& r->Ok_0.max_price_age == params.max_price_age
                &&& r->Ok_0.trade_fee == 0
                &&& r->Ok_0.lp_fee == 0
                &&& r->Ok_0.margin_params == params.margin_params
                &&& r->Ok_0.assets == (Assets { owned: 0, locked: 0, reserved: 0 })
                &&& r->Ok_0.supported_markets@.len() == 0
            },
            Some(e) => {
                &&& r is Err
                &&& r->Err_0 == e
                &&& *final(pool) == *old(pool)
            },
        },
{
    if pool.custodies.len() >= MAX_CUSTODIES as usize {
        return Err(PlatformError::InvalidPoolState);
    }
    if contains_key(&pool.custodies, &custody_key) {
        return Err(PlatformError::InvalidCustodyState);
    }
    pool.custodies.push(custody_key);
    pool.custody_count = pool.custodies.len() as u8;
    Ok(
        Custody {
            id: params.id,
            decimals: params.decimals,
            stablecoin: params.stablecoin,
            is_virtual: params.is_virtual,
            permissions: params.permissions,
            token_mint: params.token_mint,
            token_account: params.token_account,
            oracle: params.oracle,
            max_price_age: params.max_price_age,
            trade_fee: 0,
            lp_fee: 0,
            margin_params: params.margin_params,
            assets: Assets { owned: 0, locked: 0, reserved: 0 },
            supported_markets: Vec::new(),
        },
    )
}

/// Why a pool refuses a new market between two custodies, if it does:
/// `InvalidCustodyState` when one of the custodies is not the pool's,
/// `InvalidMarketState` when the pool is full.
pub open spec fn market_refusal(pool: Pool, target_key: Address, lock_key: Address) -> Option<
    PlatformError,
> {
    if !pool.custodies@.contains(target_key) || !pool.custodies@.contains(lock_key) {
        Some(PlatformError::InvalidCustodyState)
    } else if pool.markets@.len() >= MAX_MARKETS {
        Some(PlatformError::InvalidMarketState)
    } else {
        None
    }
}

/// Sets up a market without positions and adds it to the pool and to the
/// markets that its target custody backs. On an error nothing has changed.
pub fn initialize_market(
    pool: &mut Pool,
    target_custody: &mut Custody,
    market_key: Address,
    target_key: Address,
    lock_key: Address,
    market_id: u8,
    side: Side,
    is_virtual: bool,
    permissions: Permissions,
) -> (r: Result<Market, PlatformError>)
    ensures
        match market_refusal(*old(pool), target_key, lock_key) {
            None => {
                &&& r == Ok::<Market, PlatformError>(
                    Market {
                        id: market_id,
                        side,
                        is_virtual,
                        permissions,
                        target_custody: target_key,
                        lock_custody: lock_key,
                        open_positions: 0,
                        collective_position: Position::empty(),
                    },
                )
                &&& final(pool).markets@ == old(pool).markets@.push(market_key)
                &&& *final(pool) == (Pool { markets: final(pool).markets, ..*old(pool) })
                &&& final(target_custody).supported_markets@
                    == old(target_custody).supported_markets@.push(market_key)
                &&& *final(target_custody) == (Custody {
                    supported_markets: final(target_custody).supported_markets,
                    ..*old(target_custody)
                })
            },
            Some(e) => {
                &&& r == Err::<Market, PlatformError>(e)
                &&& *final(pool) == *old(pool)
                &&& *final(target_custody) == *old(target_custody)
            },
        },
{
    if !contains_key(&pool.custodies, &target_key) || !contains_key(&pool.custodies, &lock_key) {
        return Err(PlatformError::InvalidCustodyState);
    }
    if pool.markets.len() >= MAX_MARKETS as usize {
        return Err(PlatformError::InvalidMarketState);
    }
    let market = Market::new(market_id, side, is_virtual, permissions, target_key, lock_key);
    pool.markets.push(market_key);
    target_custody.supported_markets.push(market_key);
    Ok(market)
}

/// Sets up the empty basket of a new trader.
pub fn initialize_basket() -> (r: Basket)
    ensures
        r.deposits@.len() == 0,
        r.positions@.len() == 0,
{
    Basket::new()
}

} // verus!
