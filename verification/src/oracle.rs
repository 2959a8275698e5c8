use vstd::prelude::*;
use core::cmp::Ordering;
use anchor_lang::AccountDeserialize;
use pyth_solana_receiver_sdk::price_update::PriceUpdateV2;
use crate::constants::USD_DECIMALS;
use crate::error::PlatformError;
use crate::math::{
    checked_decimal_div, checked_decimal_mul, decimal_div, decimal_mul, fit_u64, lemma_pow10_bounds,
    lemma_pow_monotonic, pow10, pow10_u128, saturating_sub_i64, saturating_sub_i64_spec,
};

verus! {

/// Exponent that a quotient of two prices carries beside those of its operands.
pub const ORACLE_EXPONENT_SCALE: i32 = -9;

/// Factor by which a dividend is scaled up before two prices are divided.
pub const ORACLE_PRICE_SCALE: u64 = 1_000_000_000;

/// Largest mantissa of a normalized price.
pub const ORACLE_MAX_PRICE: u64 = 268_435_455;

/// What an oracle publishes for one instrument.
#[derive(Clone, Copy, Debug, PartialEq, Eq, Structural)]
pub struct PriceFeed {
    pub price: i64,
    pub exponent: i32,
    pub publish_time: i64,
}

/// A price: `price * 10^exponent`.
#[derive(Clone, Copy, Debug, PartialEq, Eq, Structural)]
pub struct OraclePrice {
    pub price: u64,
    pub exponent: i32,
}

/// The price, exponent and publish time that the receiver's deserializer reads
/// from the data of a price update account, or `None` where it rejects the
/// data.
pub uninterp spec fn pyth_price_message(data: Seq<u8>) -> Option<(i64, i32, i64)>;

/// The feed that a decoded price message stands for.
pub open spec fn feed_of(message: Option<(i64, i32, i64)>) -> Option<PriceFeed> {
    match message {
        Some((price, exponent, publish_time)) => Some(PriceFeed { price, exponent, publish_time }),
        None => None,
    }
}

/// Calls `PriceUpdateV2::try_deserialize_unchecked` of the Pyth receiver SDK
/// on the account data and keeps the price, exponent and publish time of the
/// message it holds.
///
/// The deserializer skips the 8 bytes of the account discriminator without
/// looking at them, so shorter data is left out. Nothing is claimed of the
/// result beyond its being a function of the bytes.
#[verifier::external_body]
fn decode_price_update(data: &[u8]) -> (r: Option<PriceFeed>)
    requires
        data@.len() >= 8,
    ensures
        r == feed_of(pyth_price_message(data@)),
{
    let mut buf: &[u8] = data;
    match PriceUpdateV2::try_deserialize_unchecked(&mut buf) {
        Ok(update) => Some(
            PriceFeed {
                price: update.price_message.price,
                exponent: update.price_message.exponent,
                publish_time: update.price_message.publish_time,
            },
        ),
        Err(_) => None,
    }
}

/// Ten to the power `exp`, for an exponent whose power fits in 64 bits.
fn pow10_u64(exp: usize) -> (r: u64)
    requires
        exp <= 19,
    ensures
        r == pow10(exp as nat),
        r >= 1,
{
    proof {
        lemma_pow10_bounds();
        lemma_pow_monotonic(10, exp as nat, 19);
    }
    let p = pow10_u128(exp);
    p as u64
}

impl Default for OraclePrice {
    fn default() -> (r: OraclePrice)
        ensures
            r == OraclePrice::nil(),
    {
        OraclePrice { price: 0, exponent: 0 }
    }
}

impl PriceFeed {
    /// Whether the feed is too old at `curtime` for a reader that accepts an
    /// age of `max_age` seconds.
    pub open spec fn is_stale(self, curtime: i64, max_age: i64) -> bool {
        saturating_sub_i64_spec(curtime, self.publish_time) > max_age
    }
}

impl OraclePrice {
    /// The price that stands for "no price": zero with exponent zero.
    pub open spec fn nil() -> OraclePrice {
        OraclePrice { price: 0, exponent: 0 }
    }

    /// The price `price * 10^exponent`.
    pub fn new(price: u64, exponent: i32) -> (r: OraclePrice)
        ensures
            r == (OraclePrice { price, exponent }),
    {
        OraclePrice { price, exponent }
    }

    /// What a reader at `curtime` makes of a feed: `StaleOraclePrice` when the
    /// feed is older than `max_age`, else `InvalidOraclePrice` when its price is
    /// negative, else the price.
    pub open spec fn from_feed_spec(feed: PriceFeed, curtime: i64, max_age: i64) -> Result<
        OraclePrice,
        PlatformError,
    > {
        if feed.is_stale(curtime, max_age) {
            Err(PlatformError::StaleOraclePrice)
        } else if feed.price < 0 {
            Err(PlatformError::InvalidOraclePrice)
        } else {
            Ok(OraclePrice { price: feed.price as u64, exponent: feed.exponent })
        }
    }

    /// What a reader at `curtime` makes of an oracle account: `InvalidOracleAccount`
    /// when the data is shorter than its discriminator or does not decode, else
    /// what it makes of the decoded feed.
    pub open spec fn from_pyth_spec(data: Seq<u8>, curtime: i64, max_age: i64) -> Result<
        OraclePrice,
        PlatformError,
    > {
        if data.len() < 8 {
            Err(PlatformError::InvalidOracleAccount)
        } else {
            match feed_of(pyth_price_message(data)) {
                None => Err(PlatformError::InvalidOracleAccount),
                Some(feed) => Self::from_feed_spec(feed, curtime, max_age),
            }
        }
    }

    /// Checks a feed for freshness and sign and gives its price.
    pub fn from_feed(feed: &PriceFeed, curtime: i64, staleness_threshold: i64) -> (r: Result<
        OraclePrice,
        PlatformError,
    >)
        ensures
            r == Self::from_feed_spec(*feed, curtime, staleness_threshold),
    {
        if saturating_sub_i64(curtime, feed.publish_time) > staleness_threshold {
            return Err(PlatformError::StaleOraclePrice);
        }
        if feed.price < 0 {
            return Err(PlatformError::InvalidOraclePrice);
        }
        Ok(OraclePrice { price: feed.price as u64, exponent: feed.exponent })
    }

    /// Decodes the data of an oracle account, or `InvalidOracleAccount` where
    /// it is too short or does not decode.
    pub fn decode_feed(data: &[u8]) -> (r: Result<PriceFeed, PlatformError>)
        ensures
            data@.len() < 8 ==> r == Err::<PriceFeed, PlatformError>(
                PlatformError::InvalidOracleAccount,
            ),
            data@.len() >= 8 ==> r == match feed_of(pyth_price_message(data@)) {
                Some(feed) => Ok::<PriceFeed, PlatformError>(feed),
                None => Err::<PriceFeed, PlatformError>(PlatformError::InvalidOracleAccount),
            },
    {
        if data.len() < 8 {
            return Err(PlatformError::InvalidOracleAccount);
        }
        match decode_price_update(data) {
            Some(feed) => Ok(feed),
            None => Err(PlatformError::InvalidOracleAccount),
        }
    }

    /// Reads the price out of the data of an oracle account.
    pub fn from_pyth(data: &[u8], curtime: i64, staleness_threshold: i64) -> (r: Result<
        OraclePrice,
        PlatformError,
    >)
        ensures
            r == Self::from_pyth_spec(data@, curtime, staleness_threshold),
    {
        match Self::decode_feed(data) {
            Ok(feed) => Self::from_feed(&feed, curtime, staleness_threshold),
            Err(e) => Err(e),
        }
    }

    /// The same price with the exponent `target`: the mantissa divided by the
    /// power of ten between the exponents when the target is the larger, and
    /// multiplied by it when the target is the smaller.
    ///
    /// It is `MathOverflow` when the difference of the exponents does not fit
    /// in 32 bits, when the power of ten does not fit in 64 bits, or when the
    /// product does not.
    pub open spec fn scale_spec(self, target: i32) -> Result<OraclePrice, PlatformError> {
        let delta = target - self.exponent;
        if delta == 0 {
            Ok(self)
        } else if delta < i32::MIN || delta > i32::MAX {
            Err(PlatformError::MathOverflow)
        } else if delta > 0 {
            if pow10(delta as nat) > u64::MAX {
                Err(PlatformError::MathOverflow)
            } else {
                Ok(
                    OraclePrice {
                        price: (self.price as int / pow10(delta as nat) as int) as u64,
                        exponent: target,
                    },
                )
            }
        } else if pow10((-delta) as nat) > u64::MAX {
            Err(PlatformError::MathOverflow)
        } else {
            match fit_u64(self.price * pow10((-delta) as nat)) {
                Ok(price) => Ok(OraclePrice { price, exponent: target }),
                Err(e) => Err(e),
            }
        }
    }

    /// Rescales the price to the exponent `target_exponent`.
    pub fn scale_to_exponent(&self, target_exponent: i32) -> (r: Result<
        OraclePrice,
        PlatformError,
    >)
        ensures
            r == self.scale_spec(target_exponent),
    {
        if target_exponent == self.exponent {
            return Ok(*self);
        }
        let delta: i64 = target_exponent as i64 - self.exponent as i64;
        if delta < i32::MIN as i64 || delta > i32::MAX as i64 {
            return Err(PlatformError::MathOverflow);
        }
        proof {
            lemma_pow10_bounds();
        }
        if delta > 0 {
            if delta > 19 {
                proof {
                    lemma_pow_monotonic(10, 20, delta as nat);
                }
                return Err(PlatformError::MathOverflow);
            }
            let p = pow10_u64(delta as usize);
            Ok(OraclePrice { price: self.price / p, exponent: target_exponent })
        } else {
            let nd: i64 = -delta;
            if nd > 19 {
                proof {
                    lemma_pow_monotonic(10, 20, nd as nat);
                }
                return Err(PlatformError::MathOverflow);
            }
            let p = pow10_u64(nd as usize);
            assert(self.price * p >= 0) by (nonlinear_arith)
                requires
                    self.price >= 0,
                    p >= 0,
            ;
            match self.price.checked_mul(p) {
                Some(price) => Ok(OraclePrice { price, exponent: target_exponent }),
                None => Err(PlatformError::MathOverflow),
            }
        }
    }

    /// The mantissas of the two prices once both carry the smaller of the two
    /// exponents, or `None` where the rescaling overflows.
    pub open spec fn aligned(self, other: OraclePrice) -> Option<(u64, u64)> {
        if self.exponent == other.exponent {
            Some((self.price, other.price))
        } else if self.exponent < other.exponent {
            match other.scale_spec(self.exponent) {
                Ok(scaled) => Some((self.price, scaled.price)),
                Err(_) => None,
            }
        } else {
            match self.scale_spec(other.exponent) {
                Ok(scaled) => Some((scaled.price, other.price)),
                Err(_) => None,
            }
        }
    }

    /// Brings both prices to the smaller of their exponents.
    pub fn align(&self, other: &OraclePrice) -> (r: Option<(u64, u64)>)
        ensures
            r == self.aligned(*other),
    {
        if self.exponent == other.exponent {
            Some((self.price, other.price))
        } else if self.exponent < other.exponent {
            match other.scale_to_exponent(self.exponent) {
                Ok(scaled) => Some((self.price, scaled.price)),
                Err(_) => None,
            }
        } else {
            match self.scale_to_exponent(other.exponent) {
                Ok(scaled) => Some((scaled.price, other.price)),
                Err(_) => None,
            }
        }
    }

    /// Whether the price is below `other`; false where the two cannot be
    /// compared.
    pub open spec fn is_below(self, other: OraclePrice) -> bool {
        match self.aligned(other) {
            Some((lhs, rhs)) => lhs < rhs,
            None => false,
        }
    }

    /// Whether the price is above `other`; false where the two cannot be
    /// compared.
    pub open spec fn is_above(self, other: OraclePrice) -> bool {
        match self.aligned(other) {
            Some((lhs, rhs)) => lhs > rhs,
            None => false,
        }
    }

    /// Whether the price is below `other`.
    pub fn less_than(&self, other: &OraclePrice) -> (r: bool)
        ensures
            r == self.is_below(*other),
    {
        match self.align(other) {
            Some((lhs, rhs)) => lhs < rhs,
            None => false,
        }
    }

    /// Whether the price is above `other`.
    pub fn greater_than(&self, other: &OraclePrice) -> (r: bool)
        ensures
            r == self.is_above(*other),
    {
        match self.align(other) {
            Some((lhs, rhs)) => lhs > rhs,
            None => false,
        }
    }

    /// How the price stands to `other` once their exponents are aligned, or
    /// `None` where the alignment overflows.
    pub open spec fn compare_spec(self, other: OraclePrice) -> Option<Ordering> {
        match self.aligned(other) {
            Some((lhs, rhs)) => Some(
                if lhs < rhs {
                    Ordering::Less
                } else if lhs == rhs {
                    Ordering::Equal
                } else {
                    Ordering::Greater
                },
            ),
            None => None,
        }
    }

    /// Compares the two prices after aligning their exponents.
    pub fn partial_compare(&self, other: &OraclePrice) -> (r: Option<Ordering>)
        ensures
            r == self.compare_spec(*other),
    {
        match self.align(other) {
            Some((lhs, rhs)) => Some(
                if lhs < rhs {
                    Ordering::Less
                } else if lhs == rhs {
                    Ordering::Equal
                } else {
                    Ordering::Greater
                },
            ),
            None => None,
        }
    }

    /// The USD amount that `token_amount` units of a token with
    /// `token_decimals` decimals are worth at this price: zero when either the
    /// amount or the price is zero, else amount times price in units of
    /// `10^-USD_DECIMALS`, rounded down.
    pub open spec fn asset_amount_usd(self, token_amount: u64, token_decimals: u8) -> Result<
        u64,
        PlatformError,
    > {
        if token_amount == 0 || self.price == 0 {
            Ok(0)
        } else {
            fit_u64(
                decimal_mul(
                    token_amount,
                    (-token_decimals) as i32,
                    self.price,
                    self.exponent,
                    (-USD_DECIMALS) as i32,
                ),
            )
        }
    }

    /// Converts a token amount into a USD amount at this price.
    pub fn get_asset_amount_usd(&self, token_amount: u64, token_decimals: u8) -> (r: Result<
        u64,
        PlatformError,
    >)
        ensures
            r == self.asset_amount_usd(token_amount, token_decimals),
    {
        if token_amount == 0 || self.price == 0 {
            return Ok(0);
        }
        checked_decimal_mul(
            token_amount,
            -(token_decimals as i32),
            self.price,
            self.exponent,
            -(USD_DECIMALS as i32),
        )
    }

    /// The amount of a token with `token_decimals` decimals that
    /// `asset_amount_usd` buys at this price: zero when either the amount or
    /// the price is zero, else amount divided by price in units of
    /// `10^-token_decimals`, rounded down.
    pub open spec fn token_amount(self, asset_amount_usd: u64, token_decimals: u8) -> Result<
        u64,
        PlatformError,
    > {
        if asset_amount_usd == 0 || self.price == 0 {
            Ok(0)
        } else {
            fit_u64(
                decimal_div(
                    asset_amount_usd,
                    (-USD_DECIMALS) as i32,
                    self.price,
                    self.exponent,
                    (-token_decimals) as i32,
                ),
            )
        }
    }

    /// Converts a USD amount into a token amount at this price.
    pub fn get_token_amount(&self, asset_amount_usd: u64, token_decimals: u8) -> (r: Result<
        u64,
        PlatformError,
    >)
        ensures
            r == self.token_amount(asset_amount_usd, token_decimals),
    {
        if asset_amount_usd == 0 || self.price == 0 {
            return Ok(0);
        }
        checked_decimal_div(
            asset_amount_usd,
            -(USD_DECIMALS as i32),
            self.price,
            self.exponent,
            -(token_decimals as i32),
        )
    }
}

impl OraclePrice {
    /// The price with its mantissa brought down to `ORACLE_MAX_PRICE` or less:
    /// as long as the mantissa is larger, it loses its last digit and the
    /// exponent grows by one. `MathOverflow` when the exponent cannot grow.
    pub open spec fn normalize_spec(self) -> Result<OraclePrice, PlatformError>
        decreases self.price,
    {
        if self.price <= ORACLE_MAX_PRICE {
            Ok(self)
        } else if self.exponent == i32::MAX {
            Err(PlatformError::MathOverflow)
        } else {
            (OraclePrice {
                price: self.price / 10,
                exponent: (self.exponent + 1) as i32,
            }).normalize_spec()
        }
    }

    /// Brings the mantissa down to `ORACLE_MAX_PRICE` or less.
    pub fn normalize(&self) -> (r: Result<OraclePrice, PlatformError>)
        ensures
            r == self.normalize_spec(),
            r is Ok ==> r->Ok_0.price <= ORACLE_MAX_PRICE,
    {
        let mut p: u64 = self.price;
        let mut e: i32 = self.exponent;
        while p > ORACLE_MAX_PRICE
            invariant
                (OraclePrice { price: p, exponent: e }).normalize_spec() == self.normalize_spec(),
            decreases p,
        {
            if e == i32::MAX {
                return Err(PlatformError::MathOverflow);
            }
            p = p / 10;
            e = e + 1;
        }
        Ok(OraclePrice { price: p, exponent: e })
    }

    /// The sum of two prices of one exponent: `ExponentMismatch` when the
    /// exponents differ, `MathOverflow` when the sum does not fit.
    pub open spec fn add_spec(self, other: OraclePrice) -> Result<OraclePrice, PlatformError> {
        if self.exponent != other.exponent {
            Err(PlatformError::ExponentMismatch)
        } else {
            match fit_u64(self.price + other.price) {
                Ok(price) => Ok(OraclePrice { price, exponent: self.exponent }),
                Err(e) => Err(e),
            }
        }
    }

    /// The difference of two prices of one exponent: `ExponentMismatch` when
    /// the exponents differ, `MathOverflow` when `other` is the larger.
    pub open spec fn sub_spec(self, other: OraclePrice) -> Result<OraclePrice, PlatformError> {
        if self.exponent != other.exponent {
            Err(PlatformError::ExponentMismatch)
        } else {
            match fit_u64(self.price - other.price) {
                Ok(price) => Ok(OraclePrice { price, exponent: self.exponent }),
                Err(e) => Err(e),
            }
        }
    }

    /// Adds a price of the same exponent.
    pub fn checked_add(&self, other: &OraclePrice) -> (r: Result<OraclePrice, PlatformError>)
        ensures
            r == self.add_spec(*other),
    {
        if self.exponent != other.exponent {
            return Err(PlatformError::ExponentMismatch);
        }
        match self.price.checked_add(other.price) {
            Some(price) => Ok(OraclePrice { price, exponent: self.exponent }),
            None => Err(PlatformError::MathOverflow),
        }
    }

    /// Subtracts a price of the same exponent.
    pub fn checked_sub(&self, other: &OraclePrice) -> (r: Result<OraclePrice, PlatformError>)
        ensures
            r == self.sub_spec(*other),
    {
        if self.exponent != other.exponent {
            return Err(PlatformError::ExponentMismatch);
        }
        match self.price.checked_sub(other.price) {
            Some(price) => Ok(OraclePrice { price, exponent: self.exponent }),
            None => Err(PlatformError::MathOverflow),
        }
    }

    /// The product of two prices: the mantissas multiplied, the exponents
    /// added, the result normalized. `MathOverflow` when the product of the
    /// mantissas or the sum of the exponents does not fit, or when normalizing
    /// fails.
    pub open spec fn mul_spec(self, other: OraclePrice) -> Result<OraclePrice, PlatformError> {
        if self.price * other.price > u64::MAX {
            Err(PlatformError::MathOverflow)
        } else if self.exponent + other.exponent < i32::MIN || self.exponent + other.exponent
            > i32::MAX {
            Err(PlatformError::MathOverflow)
        } else {
            (OraclePrice {
                price: (self.price * other.price) as u64,
                exponent: (self.exponent + other.exponent) as i32,
            }).normalize_spec()
        }
    }

    /// Multiplies two prices.
    pub fn checked_mul(&self, other: &OraclePrice) -> (r: Result<OraclePrice, PlatformError>)
        ensures
            r == self.mul_spec(*other),
    {
        assert(self.price * other.price >= 0) by (nonlinear_arith)
            requires
                self.price >= 0,
                other.price >= 0,
        ;
        let price = match self.price.checked_mul(other.price) {
            Some(v) => v,
            None => {
                return Err(PlatformError::MathOverflow);
            },
        };
        let exponent = match self.exponent.checked_add(other.exponent) {
            Some(v) => v,
            None => {
                return Err(PlatformError::MathOverflow);
            },
        };
        (OraclePrice { price, exponent }).normalize()
    }

    /// The quotient of two prices. Both are normalized; the dividend's
    /// mantissa is scaled up by `ORACLE_PRICE_SCALE` and divided by the
    /// divisor's, rounding down; the exponent is the dividend's plus
    /// `ORACLE_EXPONENT_SCALE` less the divisor's; the result is normalized.
    ///
    /// `MathOverflow` when the divisor's mantissa is zero, when the exponent
    /// does not fit, or when normalizing fails.
    pub open spec fn div_spec(self, other: OraclePrice) -> Result<OraclePrice, PlatformError> {
        match self.normalize_spec() {
            Err(e) => Err(e),
            Ok(base) => match other.normalize_spec() {
                Err(e) => Err(e),
                Ok(divisor) => {
                    let exponent = base.exponent + ORACLE_EXPONENT_SCALE - divisor.exponent;
                    if divisor.price == 0 {
                        Err(PlatformError::MathOverflow)
                    } else if base.exponent + ORACLE_EXPONENT_SCALE < i32::MIN || exponent
                        < i32::MIN || exponent > i32::MAX {
                        Err(PlatformError::MathOverflow)
                    } else {
                        (OraclePrice {
                            price: ((base.price * ORACLE_PRICE_SCALE) / (divisor.price as int))
                                as u64,
                            exponent: exponent as i32,
                        }).normalize_spec()
                    }
                },
            },
        }
    }

    /// Divides the price by `other`.
    pub fn checked_div(&self, other: &OraclePrice) -> (r: Result<OraclePrice, PlatformError>)
        ensures
            r == self.div_spec(*other),
    {
        let base = match self.normalize() {
            Ok(v) => v,
            Err(e) => {
                return Err(e);
            },
        };
        let divisor = match other.normalize() {
            Ok(v) => v,
            Err(e) => {
                return Err(e);
            },
        };
        if divisor.price == 0 {
            return Err(PlatformError::MathOverflow);
        }
        assert(0 <= base.price * ORACLE_PRICE_SCALE <= 268_435_455 * 1_000_000_000)
            by (nonlinear_arith)
            requires
                0 <= base.price <= 268_435_455,
                ORACLE_PRICE_SCALE == 1_000_000_000,
        ;
        let scaled: u64 = base.price * ORACLE_PRICE_SCALE;
        let price: u64 = scaled / divisor.price;
        let e1 = match base.exponent.checked_add(ORACLE_EXPONENT_SCALE) {
            Some(v) => v,
            None => {
                return Err(PlatformError::MathOverflow);
            },
        };
        let exponent = match e1.checked_sub(divisor.exponent) {
            Some(v) => v,
            None => {
                return Err(PlatformError::MathOverflow);
            },
        };
        (OraclePrice { price, exponent }).normalize()
    }

    /// The lower of two prices, capped at one USD for a stablecoin.
    ///
    /// The lower is `self` where `self` is below `other`, else `other`. For a
    /// stablecoin with a positive exponent it stays when its mantissa is zero
    /// and is one USD otherwise; with another exponent it is the lower of
    /// itself and one USD in that exponent, and `MathOverflow` when that power
    /// of ten does not fit in 64 bits.
    pub open spec fn min_price_spec(self, other: OraclePrice, is_stable: bool) -> Result<
        OraclePrice,
        PlatformError,
    > {
        let lower = if self.is_below(other) {
            self
        } else {
            other
        };
        if !is_stable {
            Ok(lower)
        } else if lower.exponent > 0 {
            if lower.price == 0 {
                Ok(lower)
            } else {
                Ok(OraclePrice { price: 1_000_000, exponent: -6i32 })
            }
        } else if pow10((-lower.exponent) as nat) > u64::MAX {
            Err(PlatformError::MathOverflow)
        } else if lower.price > pow10((-lower.exponent) as nat) {
            Ok(
                OraclePrice {
                    price: pow10((-lower.exponent) as nat) as u64,
                    exponent: lower.exponent,
                },
            )
        } else {
            Ok(lower)
        }
    }

    /// Picks the lower of two prices and caps it at one USD for a stablecoin.
    pub fn get_min_price(&self, other: &OraclePrice, is_stable: bool) -> (r: Result<
        OraclePrice,
        PlatformError,
    >)
        ensures
            r == self.min_price_spec(*other, is_stable),
    {
        let lower: OraclePrice = if self.less_than(other) {
            *self
        } else {
            *other
        };
        if !is_stable {
            return Ok(lower);
        }
        if lower.exponent > 0 {
            if lower.price == 0 {
                return Ok(lower);
            } else {
                return Ok(OraclePrice { price: 1_000_000, exponent: -6i32 });
            }
        }
        let digits: i64 = -(lower.exponent as i64);
        proof {
            lemma_pow10_bounds();
        }
        if digits > 19 {
            proof {
                lemma_pow_monotonic(10, 20, digits as nat);
            }
            return Err(PlatformError::MathOverflow);
        }
        let one_usd = pow10_u64(digits as usize);
        if lower.price > one_usd {
            Ok(OraclePrice { price: one_usd, exponent: lower.exponent })
        } else {
            Ok(lower)
        }
    }
}

} // verus!
