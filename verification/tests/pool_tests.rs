use magic_trade::address::Address;
use magic_trade::custody::{Assets, Custody, MarginParams};
use magic_trade::error::PlatformError;
use magic_trade::market::Market;
use magic_trade::oracle::{OraclePrice, PriceFeed};
use magic_trade::platform::Permissions;
use magic_trade::pool::{age_limit, CustodyAccount, MarketAccount, OracleAccount, Pool};
use magic_trade::position::{Position, Side};

fn addr(tag: u8) -> Address {
    Address::new([tag; 32])
}

fn permissions() -> Permissions {
    Permissions {
        liquidity_add: true,
        liquidity_remove: true,
        trade_init: true,
        trade_maint: true,
        trade_liquidation: true,
    }
}

fn margin_params() -> MarginParams {
    MarginParams {
        trade_fee_bps: 0,
        trade_spread_min: 0,
        trade_spread_max: 0,
        min_init_leverage: 11_000,
        max_init_leverage: 1_000_000,
        max_leverage: 5_000_000,
        max_utilization: 0,
        min_collateral_usd: 10_000_000,
        virtual_delay: 0,
        max_position_size_usd: 0,
        max_exposure_usd: 0,
    }
}

fn custody(decimals: u8, owned: u64, locked: u64, reserved: u64) -> Custody {
    Custody {
        id: 0,
        decimals,
        stablecoin: false,
        is_virtual: false,
        permissions: permissions(),
        token_mint: addr(0xA0),
        token_account: addr(0xA1),
        oracle: addr(0xA2),
        max_price_age: 60,
        trade_fee: 0,
        lp_fee: 0,
        margin_params: margin_params(),
        assets: Assets { owned, locked, reserved },
        supported_markets: Vec::new(),
    }
}

fn pool(custodies: Vec<Address>) -> Pool {
    Pool {
        id: 0,
        custody_count: custodies.len() as u8,
        staleness_threshold: 30,
        max_aum_usd: 0,
        buffer: 0,
        raw_aum_usd: 1,
        equity_usd: 2,
        last_updated_at: 3,
        collateral_oracle: addr(0xC0),
        custodies,
        markets: Vec::new(),
    }
}

fn market(side: Side, entry: u64, size_amount: u64, size_usd: u64) -> Market {
    let mut m = Market::new(0, side, false, permissions(), addr(0x10), addr(0x10));
    m.open_positions = 1;
    m.collective_position = Position {
        open_time: 100,
        entry_price: OraclePrice::new(entry, 0),
        size_amount,
        size_usd,
        locked_amount: 0,
        collateral_usd: 0,
        size_decimals: 6,
        locked_decimals: 6,
    };
    m
}

fn feed(price: i64) -> PriceFeed {
    PriceFeed { price, exponent: 0, publish_time: 1_000 }
}

/// A pool with one custody that owns 10 tokens and backs the given markets.
fn world(
    markets: Vec<(u8, Market)>,
) -> (Pool, Vec<CustodyAccount>, Vec<OracleAccount>, Vec<MarketAccount>) {
    let mut c = custody(6, 10_000_000, 0, 0);
    c.oracle = addr(0x20);
    for (tag, _) in markets.iter() {
        c.supported_markets.push(addr(*tag));
    }
    let accounts: Vec<MarketAccount> =
        markets.into_iter().map(|(tag, market)| MarketAccount { key: addr(tag), market }).collect();
    (
        pool(vec![addr(0x10)]),
        vec![CustodyAccount { key: addr(0x10), custody: c }],
        vec![OracleAccount { key: addr(0x20), feed: feed(150) }],
        accounts,
    )
}

#[test]
fn fee_is_rounded_up() {
    let p = pool(Vec::new());
    // 0.1% of 1_000_000
    assert_eq!(p.get_fee_value(1_000_000, 1_000_000), Ok(1_000));
    assert_eq!(p.get_fee_value(1_000_000, 1_000_001), Ok(1_001));
    assert_eq!(p.get_fee_value(1, 1), Ok(1));
    assert_eq!(p.get_fee_value(1_000_000_000, 12_345), Ok(12_345));
}

#[test]
fn no_fee_on_nothing() {
    let p = pool(Vec::new());
    assert_eq!(p.get_fee_value(0, 1_000_000), Ok(0));
    assert_eq!(p.get_fee_value(1_000_000, 0), Ok(0));
}

#[test]
fn fee_overflows() {
    let p = pool(Vec::new());
    assert_eq!(p.get_fee_value(u64::MAX, u64::MAX), Err(PlatformError::MathOverflow));
    assert_eq!(p.get_fee_value(1_000_000_000, u64::MAX), Ok(u64::MAX));
    assert_eq!(p.get_fee_value(1_000_000_001, u64::MAX), Err(PlatformError::MathOverflow));
}

#[test]
fn age_limit_clamps() {
    assert_eq!(age_limit(600), 600);
    assert_eq!(age_limit(u64::MAX), i64::MAX);
}

#[test]
fn a_pool_without_custodies_is_worth_nothing() {
    let mut p = pool(Vec::new());
    assert_eq!(p.update_aum(&Vec::new(), &Vec::new(), &Vec::new(), 1_000), Ok((0, 0)));
    assert_eq!(p.raw_aum_usd, 0);
    assert_eq!(p.equity_usd, 0);
    assert_eq!(p.last_updated_at, 1_000);
}

#[test]
fn owned_funds_are_valued_at_the_oracle_price() {
    let (mut p, custodies, oracles, markets) = world(Vec::new());
    assert_eq!(
        p.update_aum(&custodies, &oracles, &markets, 1_010),
        Ok((1_500_000_000, 1_500_000_000))
    );
    assert_eq!(p.raw_aum_usd, 1_500_000_000);
    assert_eq!(p.equity_usd, 1_500_000_000);
    assert_eq!(p.last_updated_at, 1_010);
    assert_eq!(p.custodies, vec![addr(0x10)]);
}

#[test]
fn a_valuation_that_is_not_due_is_kept() {
    let (mut p, custodies, oracles, markets) = world(Vec::new());
    p.last_updated_at = 1_000;
    let before = p.clone();
    // 29 seconds old with a threshold of 30: nothing is looked at, not even
    // accounts that would fail.
    assert_eq!(p.update_aum(&custodies, &oracles, &markets, 1_029), Ok((1, 2)));
    assert_eq!(p, before);
    assert_eq!(p.update_aum(&Vec::new(), &Vec::new(), &Vec::new(), 1_029), Ok((1, 2)));
    assert_eq!(p, before);
    assert_eq!(
        p.update_aum(&custodies, &oracles, &markets, 1_030),
        Ok((1_500_000_000, 1_500_000_000))
    );
    assert_eq!(p.last_updated_at, 1_030);
}

#[test]
fn a_stale_custody_fails_a_due_valuation() {
    let (mut p, custodies, mut oracles, markets) = world(Vec::new());
    // Published 700 seconds ago for a custody that accepts 60.
    oracles[0].feed.publish_time = 1_000;
    let before = p.clone();
    assert_eq!(
        p.update_aum(&custodies, &oracles, &markets, 1_700),
        Err(PlatformError::StaleOraclePrice)
    );
    assert_eq!(p, before);
}

#[test]
fn a_default_pool_is_empty() {
    let p = Pool::default();
    assert_eq!(p.raw_aum_usd, 0);
    assert_eq!(p.equity_usd, 0);
    assert_eq!(p.last_updated_at, 0);
    assert_eq!(p.collateral_oracle, Address::default());
    assert!(p.custodies.is_empty());
    assert!(p.markets.is_empty());
    assert_eq!(Market::default().open_positions, 0);
    assert_eq!(Market::default().side, Side::Unset);
    assert_eq!(Market::default().collective_position, Position::default());
    assert_eq!(Market::default().target_custody, Address::new([0; 32]));
}

#[test]
fn trader_profit_is_pool_loss() {
    // A long of 2 tokens from 100 wins 100 USD at 150.
    let (mut p, custodies, oracles, markets) =
        world(vec![(0x30, market(Side::Long, 100, 2_000_000, 200_000_000))]);
    assert_eq!(
        p.update_aum(&custodies, &oracles, &markets, 1_010),
        Ok((1_500_000_000, 1_400_000_000))
    );
    assert_eq!(p.equity_usd, 1_400_000_000);
}

#[test]
fn trader_loss_is_pool_profit() {
    // A long of 1 token from 180 loses 30 USD at 150; a short of 1 token
    // from 200 wins 50 USD.
    let (mut p, custodies, oracles, markets) = world(vec![
        (0x30, market(Side::Long, 180, 1_000_000, 180_000_000)),
        (0x31, market(Side::Short, 200, 1_000_000, 200_000_000)),
    ]);
    assert_eq!(
        p.update_aum(&custodies, &oracles, &markets, 1_010),
        Ok((1_500_000_000, 1_480_000_000))
    );
}

#[test]
fn equity_stops_at_zero() {
    let (mut p, custodies, oracles, markets) =
        world(vec![(0x30, market(Side::Short, 1_000, 2_000_000, 2_000_000_000))]);
    assert_eq!(p.update_aum(&custodies, &oracles, &markets, 1_010), Ok((1_500_000_000, 0)));
}

#[test]
fn markets_are_found_by_key() {
    let (mut p, custodies, oracles, mut markets) =
        world(vec![(0x30, market(Side::Long, 100, 2_000_000, 200_000_000))]);
    markets.insert(0, MarketAccount { key: addr(0x77), market: market(Side::Long, 1, 1, 1) });
    markets.push(MarketAccount { key: addr(0x30), market: market(Side::Long, 1, 1, 1) });
    assert_eq!(
        p.update_aum(&custodies, &oracles, &markets, 1_010),
        Ok((1_500_000_000, 1_400_000_000))
    );
}

#[test]
fn a_missing_market_fails() {
    let (mut p, custodies, oracles, _) =
        world(vec![(0x30, market(Side::Long, 100, 2_000_000, 200_000_000))]);
    let before = p.clone();
    assert_eq!(
        p.update_aum(&custodies, &oracles, &Vec::new(), 1_010),
        Err(PlatformError::InvalidMarketState)
    );
    assert_eq!(p, before);
}

#[test]
fn a_wrong_custody_fails() {
    let (mut p, mut custodies, oracles, markets) = world(Vec::new());
    let before = p.clone();
    assert_eq!(
        p.update_aum(&Vec::new(), &oracles, &markets, 1_010),
        Err(PlatformError::InvalidCustodyState)
    );
    custodies[0].key = addr(0x11);
    assert_eq!(
        p.update_aum(&custodies, &oracles, &markets, 1_010),
        Err(PlatformError::InvalidCustodyState)
    );
    assert_eq!(p, before);
}

#[test]
fn a_wrong_oracle_fails() {
    let (mut p, custodies, mut oracles, markets) = world(Vec::new());
    assert_eq!(
        p.update_aum(&custodies, &Vec::new(), &markets, 1_010),
        Err(PlatformError::InvalidOracleAccount)
    );
    oracles[0].key = addr(0x21);
    assert_eq!(
        p.update_aum(&custodies, &oracles, &markets, 1_010),
        Err(PlatformError::InvalidOracleAccount)
    );
}

#[test]
fn a_stale_price_fails() {
    let (mut p, custodies, oracles, markets) = world(Vec::new());
    let before = p.clone();
    assert_eq!(p.update_aum(&custodies, &oracles, &markets, 1_060), Ok((1_500_000_000, 1_500_000_000)));
    let mut p = before.clone();
    assert_eq!(
        p.update_aum(&custodies, &oracles, &markets, 1_061),
        Err(PlatformError::StaleOraclePrice)
    );
    assert_eq!(p, before);
}

#[test]
fn two_custodies_add_up() {
    let mut first = custody(6, 10_000_000, 0, 0);
    first.oracle = addr(0x20);
    let mut second = custody(9, 3_000_000_000, 0, 0);
    second.oracle = addr(0x21);
    second.supported_markets.push(addr(0x30));
    let mut p = pool(vec![addr(0x10), addr(0x11)]);
    let custodies = vec![
        CustodyAccount { key: addr(0x10), custody: first },
        CustodyAccount { key: addr(0x11), custody: second },
    ];
    let oracles = vec![
        OracleAccount { key: addr(0x20), feed: feed(150) },
        OracleAccount { key: addr(0x21), feed: feed(70) },
    ];
    let markets = vec![MarketAccount {
        key: addr(0x30),
        market: market(Side::Long, 100, 2_000_000, 200_000_000),
    }];
    // 10 * 150 + 3 * 70 = 1710 owned; the long loses 60 at 70.
    assert_eq!(
        p.update_aum(&custodies, &oracles, &markets, 1_010),
        Ok((1_710_000_000, 1_770_000_000))
    );
    // The second custody fails: nothing is recorded.
    let before = p.clone();
    let oracles = vec![
        OracleAccount { key: addr(0x20), feed: feed(150) },
        OracleAccount { key: addr(0x21), feed: feed(-70) },
    ];
    assert_eq!(
        p.update_aum(&custodies, &oracles, &markets, 1_040),
        Err(PlatformError::InvalidOraclePrice)
    );
    assert_eq!(p, before);
}
