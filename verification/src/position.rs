use vstd::prelude::*;
use crate::constants::BPS_POWER;
use crate::error::PlatformError;
use crate::math::fit_i64;
use crate::oracle::OraclePrice;

verus! {

/// The side of a market that a position is on.
#[derive(Clone, Copy, Debug, PartialEq, Eq, Structural)]
pub enum Side {
    /// No side has been chosen.
    Unset,
    Long,
    Short,
}

impl Default for Side {
    fn default() -> (r: Side)
        ensures
            r == Side::Unset,
    {
        Side::Unset
    }
}

/// One trader's exposure in one market, or the sum of all of them.
///
/// A position is open exactly while `size_amount` is positive.
#[derive(Clone, Copy, Debug, PartialEq, Eq, Structural)]
pub struct Position {
    pub open_time: i64,
    pub entry_price: OraclePrice,
    pub size_amount: u64,
    pub size_usd: u64,
    pub locked_amount: u64,
    pub collateral_usd: u64,
    pub size_decimals: u8,
    pub locked_decimals: u8,
}

impl Default for Position {
    fn default() -> (r: Position)
        ensures
            r == Position::empty(),
    {
        Position {
            open_time: 0,
            entry_price: OraclePrice { price: 0, exponent: 0 },
            size_amount: 0,
            size_usd: 0,
            locked_amount: 0,
            collateral_usd: 0,
            size_decimals: 0,
            locked_decimals: 0,
        }
    }
}

/// `a + b`, held at the top of the range.
pub open spec fn saturating_add_u64(a: u64, b: u64) -> u64 {
    if a + b > u64::MAX {
        u64::MAX
    } else {
        (a + b) as u64
    }
}

/// `a - b`, held at zero.
pub open spec fn saturating_sub_u64(a: u64, b: u64) -> u64 {
    if a - b < 0 {
        0
    } else {
        (a - b) as u64
    }
}

/// The leverage of `size_usd` over `margin_usd` in basis points, rounded down;
/// with no margin it is the largest number there is.
pub open spec fn leverage_of(size_usd: u64, margin_usd: u64) -> u128 {
    if margin_usd == 0 {
        u128::MAX
    } else {
        ((size_usd * BPS_POWER) / (margin_usd as int)) as u128
    }
}

/// Computes the leverage of `size_usd` over `margin_usd` in basis points.
pub fn compute_leverage(size_usd: u64, margin_usd: u64) -> (r: u128)
    ensures
        r == leverage_of(size_usd, margin_usd),
{
    if margin_usd == 0 {
        return u128::MAX;
    }
    assert(0 <= size_usd * 10_000 <= 0xFFFF_FFFF_FFFF_FFFF * 10_000) by (nonlinear_arith)
        requires
            0 <= size_usd <= 0xFFFF_FFFF_FFFF_FFFF,
    ;
    let scaled: u128 = (size_usd as u128) * BPS_POWER;
    scaled / (margin_usd as u128)
}

impl Position {
    /// The position with every field zero.
    pub open spec fn empty() -> Position {
        Position {
            open_time: 0,
            entry_price: OraclePrice::nil(),
            size_amount: 0,
            size_usd: 0,
            locked_amount: 0,
            collateral_usd: 0,
            size_decimals: 0,
            locked_decimals: 0,
        }
    }

    /// Whether the position holds any size.
    pub fn is_open(&self) -> (r: bool)
        ensures
            r == (self.size_amount > 0),
    {
        self.size_amount > 0
    }

    /// Whether the exit price is on the winning side of the entry price: above
    /// it for a long position, below it for any other.
    pub open spec fn in_profit(self, side: Side, exit_price: OraclePrice) -> bool {
        if side == Side::Long {
            exit_price.is_above(self.entry_price)
        } else {
            exit_price.is_below(self.entry_price)
        }
    }

    /// The distance between entry and exit price, as a pair of profit and
    /// loss of which at most one is not nil.
    ///
    /// On the winning side the distance is profit, and counts only once
    /// `curtime` is past `open_time + delay`; before that both are nil. On the
    /// other side it is loss at once. `MathOverflow` when `open_time + delay`
    /// does not fit, `ExponentMismatch` when a distance is taken between prices
    /// of different exponents.
    pub open spec fn price_diff(
        self,
        side: Side,
        exit_price: OraclePrice,
        curtime: i64,
        delay: i64,
    ) -> Result<(OraclePrice, OraclePrice), PlatformError> {
        let gain = if side == Side::Long {
            exit_price.sub_spec(self.entry_price)
        } else {
            self.entry_price.sub_spec(exit_price)
        };
        let drop = if side == Side::Long {
            self.entry_price.sub_spec(exit_price)
        } else {
            exit_price.sub_spec(self.entry_price)
        };
        if self.in_profit(side, exit_price) {
            match fit_i64(self.open_time + delay) {
                Err(e) => Err(e),
                Ok(matured) => if curtime > matured {
                    match gain {
                        Ok(diff) => Ok((diff, OraclePrice::nil())),
                        Err(e) => Err(e),
                    }
                } else {
                    Ok((OraclePrice::nil(), OraclePrice::nil()))
                },
            }
        } else {
            match drop {
                Ok(diff) => Ok((OraclePrice::nil(), diff)),
                Err(e) => Err(e),
            }
        }
    }

    /// Profit and loss in USD at `exit_price`.
    ///
    /// Both are zero for a position without `size_usd` or without an entry
    /// price. Otherwise the price distance, where there is one, is turned into
    /// USD over `size_amount`; a positive profit distance gives a profit and no
    /// loss, anything else a loss and no profit.
    pub open spec fn pnl_usd(
        self,
        side: Side,
        exit_price: OraclePrice,
        curtime: i64,
        delay: i64,
    ) -> Result<(u64, u64), PlatformError> {
        if self.size_usd == 0 || self.entry_price.price == 0 {
            Ok((0, 0))
        } else {
            match self.price_diff(side, exit_price, curtime, delay) {
                Err(e) => Err(e),
                Ok((profit, loss)) => if profit.price > 0 {
                    match profit.asset_amount_usd(self.size_amount, self.size_decimals) {
                        Ok(usd) => Ok((usd, 0)),
                        Err(e) => Err(e),
                    }
                } else {
                    match loss.asset_amount_usd(self.size_amount, self.size_decimals) {
                        Ok(usd) => Ok((0, usd)),
                        Err(e) => Err(e),
                    }
                },
            }
        }
    }

    /// Computes the profit and the loss of the position at `exit_price`, of
    /// which at most one is positive. Profit counts only after `delay` seconds
    /// have passed since the position was opened; loss counts at once.
    pub fn get_pnl_usd(&self, side: Side, exit_price: &OraclePrice, curtime: i64, delay: i64) -> (r:
        Result<(u64, u64), PlatformError>)
        ensures
            r == self.pnl_usd(side, *exit_price, curtime, delay),
            r is Ok ==> r->Ok_0.0 == 0 || r->Ok_0.1 == 0,
    {
        if self.size_usd == 0 || self.entry_price.price == 0 {
            return Ok((0, 0));
        }
        let nil = OraclePrice { price: 0, exponent: 0 };
        let is_long = match side {
            Side::Long => true,
            _ => false,
        };
        let winning = if is_long {
            exit_price.greater_than(&self.entry_price)
        } else {
            exit_price.less_than(&self.entry_price)
        };
        let profit: OraclePrice;
        let loss: OraclePrice;
        if winning {
            let matured = match self.open_time.checked_add(delay) {
                Some(t) => t,
                None => {
                    return Err(PlatformError::MathOverflow);
                },
            };
            if curtime > matured {
                let gain = if is_long {
                    exit_price.checked_sub(&self.entry_price)
                } else {
                    self.entry_price.checked_sub(exit_price)
                };
                match gain {
                    Ok(diff) => {
                        profit = diff;
                        loss = nil;
                    },
                    Err(e) => {
                        return Err(e);
                    },
                }
            } else {
                profit = nil;
                loss = nil;
            }
        } else {
            let drop = if is_long {
                self.entry_price.checked_sub(exit_price)
            } else {
                exit_price.checked_sub(&self.entry_price)
            };
            match drop {
                Ok(diff) => {
                    profit = nil;
                    loss = diff;
                },
                Err(e) => {
                    return Err(e);
                },
            }
        }
        if profit.price > 0 {
            match profit.get_asset_amount_usd(self.size_amount, self.size_decimals) {
                Ok(usd) => Ok((usd, 0)),
                Err(e) => Err(e),
            }
        } else {
            match loss.get_asset_amount_usd(self.size_amount, self.size_decimals) {
                Ok(usd) => Ok((0, usd)),
                Err(e) => Err(e),
            }
        }
    }

    /// The margin behind the position: the collateral alone when the position
    /// is being opened or resized, else the collateral plus profit, less loss
    /// and unsettled fees, each step held inside the range of `u64`.
    pub open spec fn margin_of(
        self,
        initial: bool,
        profit_usd: u64,
        loss_usd: u64,
        fees: u64,
    ) -> u64
        recommends
            loss_usd + fees <= u64::MAX,
    {
        if initial {
            self.collateral_usd
        } else {
            saturating_sub_u64(
                saturating_add_u64(self.collateral_usd, profit_usd),
                (loss_usd + fees) as u64,
            )
        }
    }

    /// Leverage in basis points and margin in USD at `target_price`.
    ///
    /// Profit and loss are taken at the target price, `MathOverflow` is
    /// returned when loss and fees together do not fit, and the leverage is that
    /// of `size_usd` over the margin: the largest number there is when no margin
    /// is left, and so for every position without collateral that is not in
    /// profit.
    pub open spec fn leverage_and_margin(
        self,
        side: Side,
        target_price: OraclePrice,
        curtime: i64,
        delay: i64,
        initial: bool,
        unsettled_fees: u64,
    ) -> Result<(u128, u64), PlatformError> {
        match self.pnl_usd(side, target_price, curtime, delay) {
            Err(e) => Err(e),
            Ok((profit_usd, loss_usd)) => if loss_usd + unsettled_fees > u64::MAX {
                Err(PlatformError::MathOverflow)
            } else {
                let margin = self.margin_of(initial, profit_usd, loss_usd, unsettled_fees);
                Ok((leverage_of(self.size_usd, margin), margin))
            },
        }
    }

    /// Computes the leverage of the position in basis points and its margin.
    pub fn get_leverage_and_margin(
        &self,
        side: Side,
        target_price: &OraclePrice,
        curtime: i64,
        delay: i64,
        initial: bool,
        unsettled_fees: u64,
    ) -> (r: Result<(u128, u64), PlatformError>)
        ensures
            r == self.leverage_and_margin(
                side,
                *target_price,
                curtime,
                delay,
                initial,
                unsettled_fees,
            ),
            r is Ok ==> r->Ok_0.0 == leverage_of(self.size_usd, r->Ok_0.1),
            r is Ok && r->Ok_0.1 == 0 ==> r->Ok_0.0 == u128::MAX,
            r is Ok && initial ==> r->Ok_0.1 == self.collateral_usd,
    {
        let (profit_usd, loss_usd) = match self.get_pnl_usd(side, target_price, curtime, delay) {
            Ok(pnl) => pnl,
            Err(e) => {
                return Err(e);
            },
        };
        let charges = match loss_usd.checked_add(unsettled_fees) {
            Some(v) => v,
            None => {
                return Err(PlatformError::MathOverflow);
            },
        };
        let margin_usd = if initial {
            self.collateral_usd
        } else {
            self.collateral_usd.saturating_add(profit_usd).saturating_sub(charges)
        };
        Ok((compute_leverage(self.size_usd, margin_usd), margin_usd))
    }
}

} // verus!
