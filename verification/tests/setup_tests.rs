use magic_trade::address::Address;
use magic_trade::custody::{Assets, MarginParams};
use magic_trade::error::PlatformError;
use magic_trade::platform::{Permissions, Platform};
use magic_trade::position::{Position, Side};
use magic_trade::setup::{
    contains_key, initialize, initialize_basket, initialize_custody, initialize_market,
    initialize_pool, CustodyParams,
};

fn addr(tag: u8) -> Address {
    Address::new([tag; 32])
}

fn params(id: u8) -> CustodyParams {
    CustodyParams {
        id,
        decimals: 6,
        stablecoin: true,
        is_virtual: false,
        permissions: Permissions::default(),
        token_mint: addr(0xA0),
        token_account: addr(0xA1),
        oracle: addr(0xA2),
        max_price_age: 60,
        margin_params: MarginParams::default(),
    }
}

#[test]
fn the_platform_starts_without_pools() {
    let p = initialize(2, Permissions::default(), addr(9));
    assert_eq!(
        p,
        Platform { version: 2, pool_count: 0, permissions: Permissions::default(), admin: addr(9) }
    );
}

#[test]
fn pools_are_numbered_in_order() {
    let mut platform = initialize(1, Permissions::default(), addr(9));
    let pool = initialize_pool(&mut platform, 0, 1_000, 10, addr(0xC0)).unwrap();
    assert_eq!(platform.pool_count, 1);
    assert_eq!(pool.id, 0);
    assert_eq!(pool.custody_count, 0);
    assert_eq!(pool.max_aum_usd, 1_000);
    assert_eq!(pool.buffer, 10);
    assert_eq!(pool.raw_aum_usd, 0);
    assert_eq!(pool.equity_usd, 0);
    assert_eq!(pool.last_updated_at, 0);
    assert_eq!(pool.collateral_oracle, addr(0xC0));
    assert!(pool.custodies.is_empty());
    assert!(pool.markets.is_empty());
    assert_eq!(
        initialize_pool(&mut platform, 0, 0, 0, addr(0xC0)).err(),
        Some(PlatformError::InvalidPoolState)
    );
    assert_eq!(
        initialize_pool(&mut platform, 2, 0, 0, addr(0xC0)).err(),
        Some(PlatformError::InvalidPoolState)
    );
    assert_eq!(platform.pool_count, 1);
    assert!(initialize_pool(&mut platform, 1, 0, 0, addr(0xC0)).is_ok());
    assert_eq!(platform.pool_count, 2);
}

#[test]
fn the_pool_count_is_bounded() {
    let mut platform = initialize(1, Permissions::default(), addr(9));
    platform.pool_count = 255;
    assert_eq!(
        initialize_pool(&mut platform, 255, 0, 0, addr(0xC0)).err(),
        Some(PlatformError::InvalidPoolState)
    );
    assert_eq!(platform.pool_count, 255);
    assert_eq!(platform.register_pool(255), Err(PlatformError::InvalidPoolState));
}

#[test]
fn a_custody_joins_its_pool() {
    let mut platform = initialize(1, Permissions::default(), addr(9));
    let mut pool = initialize_pool(&mut platform, 0, 0, 0, addr(0xC0)).unwrap();
    let c = initialize_custody(&mut pool, addr(0x10), params(4)).unwrap();
    assert_eq!(pool.custodies, vec![addr(0x10)]);
    assert_eq!(pool.custody_count, 1);
    assert_eq!(c.id, 4);
    assert_eq!(c.decimals, 6);
    assert!(c.stablecoin);
    assert!(!c.is_virtual);
    assert_eq!(c.oracle, addr(0xA2));
    assert_eq!(c.token_mint, addr(0xA0));
    assert_eq!(c.token_account, addr(0xA1));
    assert_eq!(c.max_price_age, 60);
    assert_eq!(c.trade_fee, 0);
    assert_eq!(c.lp_fee, 0);
    assert_eq!(c.assets, Assets::default());
    assert!(c.supported_markets.is_empty());
    let before = pool.clone();
    assert_eq!(
        initialize_custody(&mut pool, addr(0x10), params(5)).err(),
        Some(PlatformError::InvalidCustodyState)
    );
    assert_eq!(pool, before);
}

#[test]
fn a_pool_holds_ten_custodies() {
    let mut platform = initialize(1, Permissions::default(), addr(9));
    let mut pool = initialize_pool(&mut platform, 0, 0, 0, addr(0xC0)).unwrap();
    for tag in 0..10u8 {
        assert!(initialize_custody(&mut pool, addr(tag), params(tag)).is_ok());
    }
    assert_eq!(pool.custody_count, 10);
    assert_eq!(
        initialize_custody(&mut pool, addr(10), params(10)).err(),
        Some(PlatformError::InvalidPoolState)
    );
    // A full pool is found before a key that is held already.
    assert_eq!(
        initialize_custody(&mut pool, addr(3), params(3)).err(),
        Some(PlatformError::InvalidPoolState)
    );
    assert_eq!(pool.custodies.len(), 10);
}

#[test]
fn a_market_joins_its_pool_and_its_target_custody() {
    let mut platform = initialize(1, Permissions::default(), addr(9));
    let mut pool = initialize_pool(&mut platform, 0, 0, 0, addr(0xC0)).unwrap();
    let mut target = initialize_custody(&mut pool, addr(0x10), params(0)).unwrap();
    let _lock = initialize_custody(&mut pool, addr(0x11), params(1)).unwrap();
    let m = initialize_market(
        &mut pool,
        &mut target,
        addr(0x30),
        addr(0x10),
        addr(0x11),
        7,
        Side::Short,
        true,
        Permissions::default(),
    )
    .unwrap();
    assert_eq!(m.id, 7);
    assert_eq!(m.side, Side::Short);
    assert!(m.is_virtual);
    assert_eq!(m.target_custody, addr(0x10));
    assert_eq!(m.lock_custody, addr(0x11));
    assert_eq!(m.open_positions, 0);
    assert_eq!(m.collective_position, Position::default());
    assert_eq!(pool.markets, vec![addr(0x30)]);
    assert_eq!(target.supported_markets, vec![addr(0x30)]);
    assert_eq!(pool.custodies, vec![addr(0x10), addr(0x11)]);
}

#[test]
fn a_market_needs_custodies_of_the_pool() {
    let mut platform = initialize(1, Permissions::default(), addr(9));
    let mut pool = initialize_pool(&mut platform, 0, 0, 0, addr(0xC0)).unwrap();
    let mut target = initialize_custody(&mut pool, addr(0x10), params(0)).unwrap();
    let (pool_before, target_before) = (pool.clone(), target.clone());
    for (t, l) in [(0x10u8, 0x12u8), (0x12, 0x10), (0x12, 0x13)] {
        let r = initialize_market(
            &mut pool,
            &mut target,
            addr(0x30),
            addr(t),
            addr(l),
            0,
            Side::Long,
            false,
            Permissions::default(),
        );
        assert_eq!(r, Err(PlatformError::InvalidCustodyState));
    }
    assert_eq!((&pool, &target), (&pool_before, &target_before));
}

#[test]
fn a_pool_holds_twenty_markets() {
    let mut platform = initialize(1, Permissions::default(), addr(9));
    let mut pool = initialize_pool(&mut platform, 0, 0, 0, addr(0xC0)).unwrap();
    let mut target = initialize_custody(&mut pool, addr(0x10), params(0)).unwrap();
    for tag in 0..20u8 {
        let r = initialize_market(
            &mut pool,
            &mut target,
            addr(100 + tag),
            addr(0x10),
            addr(0x10),
            tag,
            Side::Long,
            false,
            Permissions::default(),
        );
        assert!(r.is_ok());
    }
    let r = initialize_market(
        &mut pool,
        &mut target,
        addr(200),
        addr(0x10),
        addr(0x10),
        20,
        Side::Long,
        false,
        Permissions::default(),
    );
    assert_eq!(r, Err(PlatformError::InvalidMarketState));
    assert_eq!(pool.markets.len(), 20);
    assert_eq!(target.supported_markets.len(), 20);
}

#[test]
fn keys_are_looked_up() {
    let keys = vec![addr(1), addr(2), addr(3)];
    assert!(contains_key(&keys, &addr(1)));
    assert!(contains_key(&keys, &addr(3)));
    assert!(!contains_key(&keys, &addr(4)));
    assert!(!contains_key(&Vec::new(), &addr(1)));
}

#[test]
fn a_new_trader_has_an_empty_basket() {
    let b = initialize_basket();
    assert!(b.deposits.is_empty());
    assert!(b.positions.is_empty());
}
