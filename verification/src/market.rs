use vstd::prelude::*;
use crate::address::Address;
use crate::constants::USD_DECIMALS;
use crate::error::PlatformError;
use crate::math::{checked_as_u64, fit_u64, scale_u128_spec, scale_u128_to_exponent};
use crate::oracle::OraclePrice;
use crate::platform::Permissions;
use crate::position::{Position, Side};

verus! {

/// One side of one instrument: the sum of the positions open on it.
///
/// `collective_position` holds the sums of the sizes, the collateral and the
/// locked funds of those positions, and as its entry price their average:
/// the summed USD size over the summed size.
#[derive(Clone, Copy, Debug, PartialEq, Eq)]
pub struct Market {
    pub id: u8,
    pub side: Side,
    pub is_virtual: bool,
    pub permissions: Permissions,
    pub target_custody: Address,
    pub lock_custody: Address,
    pub open_positions: u64,
    pub collective_position: Position,
}

/// The price at which `size_amount` units of a token with `size_decimals`
/// decimals are worth `size_usd`, as a mantissa for the exponent `exponent`,
/// rounded down.
///
/// The USD size is first counted in units of `10^(exponent - size_decimals)`
/// and then divided by the size. `MathOverflow` when that exponent does not fit
/// in 32 bits, when the rescaling fails, when the size is zero or when the
/// price does not fit in 64 bits.
pub open spec fn average_entry_price(
    size_usd: u64,
    size_amount: u64,
    size_decimals: u8,
    exponent: i32,
) -> Result<u64, PlatformError> {
    let target = exponent - size_decimals;
    if target < i32::MIN {
        Err(PlatformError::MathOverflow)
    } else {
        match scale_u128_spec(size_usd as u128, (-USD_DECIMALS) as i32, target as i32) {
            Err(e) => Err(e),
            Ok(scaled) => if size_amount == 0 {
                Err(PlatformError::MathOverflow)
            } else {
                fit_u64(scaled as int / size_amount as int)
            },
        }
    }
}

/// Computes the average entry price of a summed position.
pub fn compute_average_entry_price(
    size_usd: u64,
    size_amount: u64,
    size_decimals: u8,
    exponent: i32,
) -> (r: Result<u64, PlatformError>)
    ensures
        r == average_entry_price(size_usd, size_amount, size_decimals, exponent),
{
    let target = match exponent.checked_sub(size_decimals as i32) {
        Some(v) => v,
        None => {
            return Err(PlatformError::MathOverflow);
        },
    };
    let scaled = match scale_u128_to_exponent(size_usd as u128, -(USD_DECIMALS as i32), target) {
        Ok(v) => v,
        Err(e) => {
            return Err(e);
        },
    };
    if size_amount == 0 {
        return Err(PlatformError::MathOverflow);
    }
    checked_as_u64(scaled / (size_amount as u128))
}

impl Default for Market {
    fn default() -> (r: Market)
        ensures
            r.id == 0,
            r.side == Side::Unset,
            !r.is_virtual,
            r.permissions == (Permissions {
                liquidity_add: false,
                liquidity_remove: false,
                trade_init: false,
                trade_maint: false,
                trade_liquidation: false,
            }),
            r.target_custody.is_zero(),
            r.lock_custody.is_zero(),
            r.open_positions == 0,
            r.collective_position == Position::empty(),
    {
        Market {
            id: 0,
            side: Side::default(),
            is_virtual: false,
            permissions: Permissions::default(),
            target_custody: Address::default(),
            lock_custody: Address::default(),
            open_positions: 0,
            collective_position: Position::default(),
        }
    }
}

impl Market {
    /// A market with no position on it.
    pub fn new(
        id: u8,
        side: Side,
        is_virtual: bool,
        permissions: Permissions,
        target_custody: Address,
        lock_custody: Address,
    ) -> (r: Market)
        ensures
            r == (Market {
                id,
                side,
                is_virtual,
                permissions,
                target_custody,
                lock_custody,
                open_positions: 0,
                collective_position: Position::empty(),
            }),
    {
        Market {
            id,
            side,
            is_virtual,
            permissions,
            target_custody,
            lock_custody,
            open_positions: 0,
            collective_position: Position::default(),
        }
    }

    /// Whether the entry price of the summed position is the average of what
    /// the sums hold. A market with no position on it is always consistent.
    pub open spec fn is_averaged(self) -> bool {
        self.open_positions > 0 ==> average_entry_price(
            self.collective_position.size_usd,
            self.collective_position.size_amount,
            self.collective_position.size_decimals,
            self.collective_position.entry_price.exponent,
        ) == Ok::<u64, PlatformError>(self.collective_position.entry_price.price)
    }

    /// The market with one more position on it.
    ///
    /// The count and the four sums grow, `MathOverflow` when one of them does
    /// not fit. The first position gives the market its entry price and its
    /// decimals. A later one must carry the market's exponent
    /// (`ExponentMismatch`), and the entry price becomes the average over the
    /// new sums.
    pub open spec fn add_spec(self, position: Position) -> Result<Market, PlatformError> {
        let sum = self.collective_position;
        let size_amount = sum.size_amount + position.size_amount;
        let size_usd = sum.size_usd + position.size_usd;
        let collateral_usd = sum.collateral_usd + position.collateral_usd;
        let locked_amount = sum.locked_amount + position.locked_amount;
        if self.open_positions + 1 > u64::MAX || size_amount > u64::MAX || size_usd > u64::MAX
            || collateral_usd > u64::MAX || locked_amount > u64::MAX {
            Err(PlatformError::MathOverflow)
        } else if self.open_positions == 0 {
            Ok(
                Market {
                    open_positions: 1,
                    collective_position: Position {
                        open_time: sum.open_time,
                        entry_price: position.entry_price,
                        size_amount: size_amount as u64,
                        size_usd: size_usd as u64,
                        locked_amount: locked_amount as u64,
                        collateral_usd: collateral_usd as u64,
                        size_decimals: position.size_decimals,
                        locked_decimals: position.locked_decimals,
                    },
                    ..self
                },
            )
        } else if sum.entry_price.exponent != position.entry_price.exponent {
            Err(PlatformError::ExponentMismatch)
        } else {
            match average_entry_price(
                size_usd as u64,
                size_amount as u64,
                sum.size_decimals,
                sum.entry_price.exponent,
            ) {
                Err(e) => Err(e),
                Ok(price) => Ok(
                    Market {
                        open_positions: (self.open_positions + 1) as u64,
                        collective_position: Position {
                            open_time: sum.open_time,
                            entry_price: OraclePrice {
                                price,
                                exponent: sum.entry_price.exponent,
                            },
                            size_amount: size_amount as u64,
                            size_usd: size_usd as u64,
                            locked_amount: locked_amount as u64,
                            collateral_usd: collateral_usd as u64,
                            size_decimals: sum.size_decimals,
                            locked_decimals: sum.locked_decimals,
                        },
                        ..self
                    },
                ),
            }
        }
    }

    /// The market with one position taken off it.
    ///
    /// Taking off the only position leaves the market empty: no position, and a
    /// summed position that keeps nothing but its decimals. Otherwise the count
    /// and the four sums shrink, `MathOverflow` when one of them would pass
    /// below zero; the position must carry the market's exponent
    /// (`ExponentMismatch`), and the entry price becomes the average over the
    /// new sums.
    pub open spec fn remove_spec(self, position: Position) -> Result<Market, PlatformError> {
        let sum = self.collective_position;
        let size_amount = sum.size_amount - position.size_amount;
        let size_usd = sum.size_usd - position.size_usd;
        let collateral_usd = sum.collateral_usd - position.collateral_usd;
        let locked_amount = sum.locked_amount - position.locked_amount;
        if self.open_positions == 1 {
            Ok(
                Market {
                    open_positions: 0,
                    collective_position: Position {
                        size_decimals: sum.size_decimals,
                        locked_decimals: sum.locked_decimals,
                        ..Position::empty()
                    },
                    ..self
                },
            )
        } else if self.open_positions == 0 || collateral_usd < 0 || locked_amount < 0 || size_amount
            < 0 || size_usd < 0 {
            Err(PlatformError::MathOverflow)
        } else if sum.entry_price.exponent != position.entry_price.exponent {
            Err(PlatformError::ExponentMismatch)
        } else {
            match average_entry_price(
                size_usd as u64,
                size_amount as u64,
                sum.size_decimals,
                sum.entry_price.exponent,
            ) {
                Err(e) => Err(e),
                Ok(price) => Ok(
                    Market {
                        open_positions: (self.open_positions - 1) as u64,
                        collective_position: Position {
                            open_time: sum.open_time,
                            entry_price: OraclePrice {
                                price,
                                exponent: sum.entry_price.exponent,
                            },
                            size_amount: size_amount as u64,
                            size_usd: size_usd as u64,
                            locked_amount: locked_amount as u64,
                            collateral_usd: collateral_usd as u64,
                            size_decimals: sum.size_decimals,
                            locked_decimals: sum.locked_decimals,
                        },
                        ..self
                    },
                ),
            }
        }
    }

    /// Adds a position to the market. On an error the market is as it was.
    pub fn add_position(&mut self, position: &Position) -> (r: Result<(), PlatformError>)
        ensures
            match old(self).add_spec(*position) {
                Ok(market) => {
                    &&& r is Ok
                    &&& *final(self) == market
                },
                Err(e) => {
                    &&& r == Err::<(), PlatformError>(e)
                    &&& *final(self) == *old(self)
                },
            },
    {
        let sum = self.collective_position;
        let open_positions = match self.open_positions.checked_add(1) {
            Some(v) => v,
            None => {
                return Err(PlatformError::MathOverflow);
            },
        };
        let size_amount = match sum.size_amount.checked_add(position.size_amount) {
            Some(v) => v,
            None => {
                return Err(PlatformError::MathOverflow);
            },
        };
        let size_usd = match sum.size_usd.checked_add(position.size_usd) {
            Some(v) => v,
            None => {
                return Err(PlatformError::MathOverflow);
            },
        };
        let collateral_usd = match sum.collateral_usd.checked_add(position.collateral_usd) {
            Some(v) => v,
            None => {
                return Err(PlatformError::MathOverflow);
            },
        };
        let locked_amount = match sum.locked_amount.checked_add(position.locked_amount) {
            Some(v) => v,
            None => {
                return Err(PlatformError::MathOverflow);
            },
        };
        if open_positions > 1 {
            if sum.entry_price.exponent != position.entry_price.exponent {
                return Err(PlatformError::ExponentMismatch);
            }
            let price = match compute_average_entry_price(
                size_usd,
                size_amount,
                sum.size_decimals,
                sum.entry_price.exponent,
            ) {
                Ok(v) => v,
                Err(e) => {
                    return Err(e);
                },
            };
            self.open_positions = open_positions;
            self.collective_position = Position {
                open_time: sum.open_time,
                entry_price: OraclePrice { price, exponent: sum.entry_price.exponent },
                size_amount,
                size_usd,
                locked_amount,
                collateral_usd,
                size_decimals: sum.size_decimals,
                locked_decimals: sum.locked_decimals,
            };
        } else {
            self.open_positions = open_positions;
            self.collective_position = Position {
                open_time: sum.open_time,
                entry_price: position.entry_price,
                size_amount,
                size_usd,
                locked_amount,
                collateral_usd,
                size_decimals: position.size_decimals,
                locked_decimals: position.locked_decimals,
            };
        }
        Ok(())
    }

    /// Takes a position off the market. On an error the market is as it was.
    pub fn remove_position(&mut self, position: &Position) -> (r: Result<(), PlatformError>)
        ensures
            match old(self).remove_spec(*position) {
                Ok(market) => {
                    &&& r is Ok
                    &&& *final(self) == market
                },
                Err(e) => {
                    &&& r == Err::<(), PlatformError>(e)
                    &&& *final(self) == *old(self)
                },
            },
    {
        let sum = self.collective_position;
        if self.open_positions == 1 {
            self.open_positions = 0;
            self.collective_position = Position {
                open_time: 0,
                entry_price: OraclePrice { price: 0, exponent: 0 },
                size_amount: 0,
                size_usd: 0,
                locked_amount: 0,
                collateral_usd: 0,
                size_decimals: sum.size_decimals,
                locked_decimals: sum.locked_decimals,
            };
            return Ok(());
        }
        let open_positions = match self.open_positions.checked_sub(1) {
            Some(v) => v,
            None => {
                return Err(PlatformError::MathOverflow);
            },
        };
        let collateral_usd = match sum.collateral_usd.checked_sub(position.collateral_usd) {
            Some(v) => v,
            None => {
                return Err(PlatformError::MathOverflow);
            },
        };
        let locked_amount = match sum.locked_amount.checked_sub(position.locked_amount) {
            Some(v) => v,
            None => {
                return Err(PlatformError::MathOverflow);
            },
        };
        let size_amount = match sum.size_amount.checked_sub(position.size_amount) {
            Some(v) => v,
            None => {
                return Err(PlatformError::MathOverflow);
            },
        };
        let size_usd = match sum.size_usd.checked_sub(position.size_usd) {
            Some(v) => v,
            None => {
                return Err(PlatformError::MathOverflow);
            },
        };
        if sum.entry_price.exponent != position.entry_price.exponent {
            return Err(PlatformError::ExponentMismatch);
        }
        let price = match compute_average_entry_price(
            size_usd,
            size_amount,
            sum.size_decimals,
            sum.entry_price.exponent,
        ) {
            Ok(v) => v,
            Err(e) => {
                return Err(e);
            },
        };
        self.open_positions = open_positions;
        self.collective_position = Position {
            open_time: sum.open_time,
            entry_price: OraclePrice { price, exponent: sum.entry_price.exponent },
            size_amount,
            size_usd,
            locked_amount,
            collateral_usd,
            size_decimals: sum.size_decimals,
            locked_decimals: sum.locked_decimals,
        };
        Ok(())
    }
}

} // verus!
