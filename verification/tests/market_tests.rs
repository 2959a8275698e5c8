use magic_trade::address::Address;
use magic_trade::error::PlatformError;
use magic_trade::market::{compute_average_entry_price, Market};
use magic_trade::oracle::OraclePrice;
use magic_trade::platform::Permissions;
use magic_trade::position::{Position, Side};

fn addr(tag: u8) -> Address {
    Address::new([tag; 32])
}

fn market() -> Market {
    Market::new(3, Side::Long, false, Permissions::default(), addr(1), addr(2))
}

fn position(price: u64, exponent: i32, size_amount: u64, size_usd: u64, decimals: u8) -> Position {
    Position {
        open_time: 77,
        entry_price: OraclePrice::new(price, exponent),
        size_amount,
        size_usd,
        locked_amount: size_usd / 2,
        collateral_usd: size_usd / 10,
        size_decimals: decimals,
        locked_decimals: decimals,
    }
}

#[test]
fn a_new_market_is_empty() {
    let m = market();
    assert_eq!(m.id, 3);
    assert_eq!(m.side, Side::Long);
    assert_eq!(m.target_custody, addr(1));
    assert_eq!(m.lock_custody, addr(2));
    assert_eq!(m.open_positions, 0);
    assert_eq!(m.collective_position, Position::default());
}

#[test]
fn the_first_position_sets_the_entry_price() {
    let mut m = market();
    let p = position(100, 0, 6_000, 600_000_000_000, 0);
    assert_eq!(m.add_position(&p), Ok(()));
    assert_eq!(m.open_positions, 1);
    assert_eq!(m.collective_position.entry_price, OraclePrice::new(100, 0));
    assert_eq!(m.collective_position.size_amount, 6_000);
    assert_eq!(m.collective_position.size_usd, 600_000_000_000);
    assert_eq!(m.collective_position.locked_amount, 300_000_000_000);
    assert_eq!(m.collective_position.collateral_usd, 60_000_000_000);
    assert_eq!(m.collective_position.size_decimals, 0);
    assert_eq!(m.collective_position.open_time, 0);
}

#[test]
fn sizes_6000_at_100_and_4000_at_120_average_to_108() {
    let mut m = market();
    assert_eq!(m.add_position(&position(100, 0, 6_000, 600_000_000_000, 0)), Ok(()));
    assert_eq!(m.add_position(&position(120, 0, 4_000, 480_000_000_000, 0)), Ok(()));
    assert_eq!(m.open_positions, 2);
    assert_eq!(m.collective_position.size_amount, 10_000);
    assert_eq!(m.collective_position.size_usd, 1_080_000_000_000);
    assert_eq!(m.collective_position.entry_price, OraclePrice::new(108, 0));
}

#[test]
fn usd_sizes_6000_at_100_and_4000_at_120_average_to_107() {
    // 60 tokens and 33.333333 tokens of 6 decimals are worth 10_000 USD
    // together: 10_000 / 93.333333 = 107.14...
    let mut m = market();
    assert_eq!(m.add_position(&position(100, 0, 60_000_000, 6_000_000_000, 6)), Ok(()));
    assert_eq!(m.add_position(&position(120, 0, 33_333_333, 4_000_000_000, 6)), Ok(()));
    assert_eq!(m.collective_position.entry_price, OraclePrice::new(107, 0));
}

#[test]
fn the_average_keeps_the_exponent() {
    let mut m = market();
    assert_eq!(m.add_position(&position(10_000, -2, 6_000_000, 600_000_000, 6)), Ok(()));
    assert_eq!(m.add_position(&position(12_000, -2, 4_000_000, 480_000_000, 6)), Ok(()));
    assert_eq!(m.collective_position.entry_price, OraclePrice::new(10_800, -2));
    assert_eq!(compute_average_entry_price(1_080_000_000, 10_000_000, 6, -2), Ok(10_800));
    assert_eq!(compute_average_entry_price(1_080_000_000, 10_000_000, 6, 0), Ok(108));
    assert_eq!(compute_average_entry_price(1_080_000_000, 10_000_000, 6, 1), Ok(10));
}

#[test]
fn a_later_position_must_carry_the_exponent() {
    let mut m = market();
    assert_eq!(m.add_position(&position(100, 0, 6_000, 600_000_000_000, 0)), Ok(()));
    let before = m;
    assert_eq!(
        m.add_position(&position(12_000, -2, 4_000, 480_000_000_000, 0)),
        Err(PlatformError::ExponentMismatch)
    );
    assert_eq!(m, before);
}

#[test]
fn add_overflows() {
    let mut m = market();
    assert_eq!(m.add_position(&position(100, 0, u64::MAX, 10, 0)), Ok(()));
    let before = m;
    assert_eq!(m.add_position(&position(100, 0, 1, 10, 0)), Err(PlatformError::MathOverflow));
    assert_eq!(m, before);
    let mut m = market();
    m.open_positions = u64::MAX;
    assert_eq!(m.add_position(&position(100, 0, 1, 10, 0)), Err(PlatformError::MathOverflow));
}

#[test]
fn add_then_remove_restores_the_market() {
    let mut m = market();
    assert_eq!(m.add_position(&position(100, 0, 6_000, 600_000_000_000, 0)), Ok(()));
    assert_eq!(m.add_position(&position(120, 0, 4_000, 480_000_000_000, 0)), Ok(()));
    let before = m;
    let p = position(90, 0, 1_000, 90_000_000_000, 0);
    assert_eq!(m.add_position(&p), Ok(()));
    assert_eq!(m.open_positions, 3);
    assert_eq!(m.collective_position.entry_price, OraclePrice::new(106, 0));
    assert_eq!(m.remove_position(&p), Ok(()));
    assert_eq!(m, before);
}

#[test]
fn removing_the_only_position_empties_the_market() {
    let mut m = market();
    let p = position(100, -2, 6_000, 600_000_000_000, 9);
    assert_eq!(m.add_position(&p), Ok(()));
    assert_eq!(m.remove_position(&p), Ok(()));
    assert_eq!(m.open_positions, 0);
    let mut empty = Position::default();
    empty.size_decimals = 9;
    empty.locked_decimals = 9;
    assert_eq!(m.collective_position, empty);
    assert_eq!(m.side, Side::Long);
    assert_eq!(m.id, 3);
}

#[test]
fn a_market_left_with_one_position_keeps_the_average_of_its_sums() {
    // The position that stays was bought at 101 with a size worth 100.5 a
    // token: the sums, not its own price, decide.
    let mut m = market();
    let stays = position(101, 0, 2_000_000, 201_000_000, 6);
    let goes = position(99, 0, 1_000_000, 99_000_000, 6);
    assert_eq!(m.add_position(&stays), Ok(()));
    assert_eq!(m.collective_position.entry_price, OraclePrice::new(101, 0));
    assert_eq!(m.add_position(&goes), Ok(()));
    assert_eq!(m.collective_position.entry_price, OraclePrice::new(100, 0));
    assert_eq!(m.remove_position(&goes), Ok(()));
    assert_eq!(m.open_positions, 1);
    assert_eq!(m.collective_position.entry_price, OraclePrice::new(100, 0));
}

#[test]
fn nothing_can_be_removed_from_an_empty_market() {
    let mut m = market();
    assert_eq!(
        m.remove_position(&position(100, 0, 1, 10, 0)),
        Err(PlatformError::MathOverflow)
    );
    assert_eq!(m, market());
}

#[test]
fn remove_underflows() {
    let mut m = market();
    assert_eq!(m.add_position(&position(100, 0, 6_000, 600_000_000_000, 0)), Ok(()));
    assert_eq!(m.add_position(&position(120, 0, 4_000, 480_000_000_000, 0)), Ok(()));
    let before = m;
    assert_eq!(
        m.remove_position(&position(100, 0, 10_001, 10, 0)),
        Err(PlatformError::MathOverflow)
    );
    assert_eq!(m, before);
    // Taking off all the size of more than one position leaves nothing to
    // average over.
    assert_eq!(
        m.remove_position(&position(100, 0, 10_000, 1_080_000_000_000, 0)),
        Err(PlatformError::MathOverflow)
    );
    assert_eq!(m, before);
    assert_eq!(
        m.remove_position(&position(100, -1, 4_000, 480_000_000_000, 0)),
        Err(PlatformError::ExponentMismatch)
    );
    assert_eq!(m, before);
}

#[test]
fn average_entry_price_edges() {
    assert_eq!(compute_average_entry_price(100, 0, 6, 0), Err(PlatformError::MathOverflow));
    assert_eq!(compute_average_entry_price(0, 5, 6, 0), Ok(0));
    assert_eq!(
        compute_average_entry_price(1, 1, 255, i32::MIN),
        Err(PlatformError::MathOverflow)
    );
    assert_eq!(compute_average_entry_price(1, 1, 0, -45), Err(PlatformError::MathOverflow));
    assert_eq!(compute_average_entry_price(u64::MAX, 1, 0, -7), Err(PlatformError::MathOverflow));
    assert_eq!(compute_average_entry_price(u64::MAX, 10, 0, -7), Ok(u64::MAX));
}
