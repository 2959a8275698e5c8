use vstd::prelude::*;
use crate::address::Address;
use crate::constants::RATE_POWER;
use crate::error::PlatformError;
use crate::platform::Permissions;
use crate::position::saturating_sub_u64;

verus! {

/// The bounds that a custody sets on the positions it backs.
#[derive(Clone, Copy, Debug, PartialEq, Eq, Structural)]
pub struct MarginParams {
    pub trade_fee_bps: u32,
    pub trade_spread_min: u64,
    pub trade_spread_max: u64,
    pub min_init_leverage: u32,
    pub max_init_leverage: u32,
    pub max_leverage: u32,
    /// Largest share of the owned funds that may be locked, as a rate; zero
    /// or a whole and more mean no cap.
    pub max_utilization: u32,
    pub min_collateral_usd: u32,
    pub virtual_delay: i64,
    pub max_position_size_usd: u64,
    pub max_exposure_usd: u64,
}

/// The balances of a custody.
///
/// `owned` belongs to the pool, `locked` is the part of it that backs open
/// positions, `reserved` is parked by traders and not yet the pool's.
#[derive(Clone, Copy, Debug, PartialEq, Eq, Structural)]
pub struct Assets {
    pub owned: u64,
    pub locked: u64,
    pub reserved: u64,
}

/// A pool's segregated balance of one token, with its rules.
#[derive(Clone, Debug, PartialEq, Eq)]
pub struct Custody {
    pub id: u8,
    pub decimals: u8,
    pub stablecoin: bool,
    /// A virtual custody tracks exposure without funds behind it, and cannot
    /// lock or unlock.
    pub is_virtual: bool,
    pub permissions: Permissions,
    pub token_mint: Address,
    pub token_account: Address,
    pub oracle: Address,
    pub max_price_age: u64,
    pub trade_fee: u64,
    pub lp_fee: u64,
    pub margin_params: MarginParams,
    pub assets: Assets,
    pub supported_markets: Vec<Address>,
}

impl Default for MarginParams {
    fn default() -> (r: MarginParams)
        ensures
            r == MarginParams::zero(),
    {
        MarginParams {
            trade_fee_bps: 0,
            trade_spread_min: 0,
            trade_spread_max: 0,
            min_init_leverage: 0,
            max_init_leverage: 0,
            max_leverage: 0,
            max_utilization: 0,
            min_collateral_usd: 0,
            virtual_delay: 0,
            max_position_size_usd: 0,
            max_exposure_usd: 0,
        }
    }
}

impl MarginParams {
    /// The bounds with every field zero.
    pub open spec fn zero() -> MarginParams {
        MarginParams {
            trade_fee_bps: 0,
            trade_spread_min: 0,
            trade_spread_max: 0,
            min_init_leverage: 0,
            max_init_leverage: 0,
            max_leverage: 0,
            max_utilization: 0,
            min_collateral_usd: 0,
            virtual_delay: 0,
            max_position_size_usd: 0,
            max_exposure_usd: 0,
        }
    }
}

impl Default for Custody {
    fn default() -> (r: Custody)
        ensures
            r.id == 0,
            r.decimals == 0,
            !r.stablecoin,
            !r.is_virtual,
            r.permissions == (Permissions {
                liquidity_add: false,
                liquidity_remove: false,
                trade_init: false,
                trade_maint: false,
                trade_liquidation: false,
            }),
            r.token_mint.is_zero(),
            r.token_account.is_zero(),
            r.oracle.is_zero(),
            r.max_price_age == 0,
            r.trade_fee == 0,
            r.lp_fee == 0,
            r.margin_params == MarginParams::zero(),
            r.assets == (Assets { owned: 0, locked: 0, reserved: 0 }),
            r.supported_markets@.len() == 0,
    {
        Custody {
            id: 0,
            decimals: 0,
            stablecoin: false,
            is_virtual: false,
            permissions: Permissions::default(),
            token_mint: Address::default(),
            token_account: Address::default(),
            oracle: Address::default(),
            max_price_age: 0,
            trade_fee: 0,
            lp_fee: 0,
            margin_params: MarginParams::default(),
            assets: Assets::default(),
            supported_markets: Vec::new(),
        }
    }
}

impl Default for Assets {
    fn default() -> (r: Assets)
        ensures
            r == (Assets { owned: 0, locked: 0, reserved: 0 }),
    {
        Assets { owned: 0, locked: 0, reserved: 0 }
    }
}

impl Assets {
    /// Whether no more is locked than is owned.
    pub open spec fn covered(self) -> bool {
        self.locked <= self.owned
    }

    /// The share of the owned funds that is locked, as a rate rounded down.
    pub open spec fn utilization(self) -> int
        recommends
            self.owned > 0,
    {
        (self.locked * RATE_POWER) / (self.owned as int)
    }
}

impl Custody {
    /// Whether a utilization cap applies to the custody as it stands.
    pub open spec fn is_capped(self) -> bool {
        self.margin_params.max_utilization > 0 && self.margin_params.max_utilization < RATE_POWER
            && self.assets.owned > 0
    }

    /// The balances after `amount` moved from reserved to owned:
    /// `InsufficientFunds` when less is reserved, `MathOverflow` when the owned
    /// balance cannot take it.
    pub open spec fn reserved_to_owned_spec(self, amount: u64) -> Result<Assets, PlatformError> {
        if amount > self.assets.reserved {
            Err(PlatformError::InsufficientFunds)
        } else if self.assets.owned + amount > u64::MAX {
            Err(PlatformError::MathOverflow)
        } else {
            Ok(
                Assets {
                    owned: (self.assets.owned + amount) as u64,
                    locked: self.assets.locked,
                    reserved: (self.assets.reserved - amount) as u64,
                },
            )
        }
    }

    /// The balances after `amount` moved from owned to reserved:
    /// `InsufficientFunds` when less is owned, `MathOverflow` when the reserved
    /// balance cannot take it.
    pub open spec fn owned_to_reserved_spec(self, amount: u64) -> Result<Assets, PlatformError> {
        if amount > self.assets.owned {
            Err(PlatformError::InsufficientFunds)
        } else if self.assets.reserved + amount > u64::MAX {
            Err(PlatformError::MathOverflow)
        } else {
            Ok(
                Assets {
                    owned: (self.assets.owned - amount) as u64,
                    locked: self.assets.locked,
                    reserved: (self.assets.reserved + amount) as u64,
                },
            )
        }
    }

    /// The balances after `amount` more was locked.
    ///
    /// A virtual custody refuses with `InvalidCollateralCustody`. The new
    /// locked balance must fit (`MathOverflow`). Where a cap applies, the new
    /// utilization must fit in 64 bits (`MathOverflow`) and stay within the cap
    /// (`MaxUtilization`). Last, the new locked balance must not pass the owned
    /// one (`InsufficientFunds`).
    pub open spec fn lock_spec(self, amount: u64) -> Result<Assets, PlatformError> {
        let locked = self.assets.locked + amount;
        let after = Assets {
            owned: self.assets.owned,
            locked: locked as u64,
            reserved: self.assets.reserved,
        };
        if self.is_virtual {
            Err(PlatformError::InvalidCollateralCustody)
        } else if locked > u64::MAX {
            Err(PlatformError::MathOverflow)
        } else if self.is_capped() && after.utilization() > u64::MAX {
            Err(PlatformError::MathOverflow)
        } else if self.is_capped() && after.utilization() > self.margin_params.max_utilization {
            Err(PlatformError::MaxUtilization)
        } else if self.assets.owned < locked {
            Err(PlatformError::InsufficientFunds)
        } else {
            Ok(after)
        }
    }

    /// The balances after `amount` was unlocked: the locked balance goes down
    /// by `amount` and stops at zero. A virtual custody refuses with
    /// `InvalidCollateralCustody`.
    pub open spec fn unlock_spec(self, amount: u64) -> Result<Assets, PlatformError> {
        if self.is_virtual {
            Err(PlatformError::InvalidCollateralCustody)
        } else {
            Ok(
                Assets {
                    owned: self.assets.owned,
                    locked: saturating_sub_u64(self.assets.locked, amount),
                    reserved: self.assets.reserved,
                },
            )
        }
    }

    /// What is owned and not locked.
    pub fn available_to_lock(&self) -> (r: u64)
        ensures
            r == saturating_sub_u64(self.assets.owned, self.assets.locked),
    {
        self.assets.owned.saturating_sub(self.assets.locked)
    }

    /// Moves `amount` from the reserved balance to the owned one.
    pub fn reserved_to_owned(&mut self, amount: u64) -> (r: Result<(), PlatformError>)
        ensures
            match old(self).reserved_to_owned_spec(amount) {
                Ok(assets) => {
                    &&& r is Ok
                    &&& *final(self) == (Custody { assets, ..*old(self) })
                },
                Err(e) => {
                    &&& r == Err::<(), PlatformError>(e)
                    &&& *final(self) == *old(self)
                },
            },
            r is Ok <==> amount <= old(self).assets.reserved && old(self).assets.owned + amount
                <= u64::MAX,
            r is Ok ==> final(self).assets.owned == old(self).assets.owned + amount,
            r is Ok ==> final(self).assets.reserved == old(self).assets.reserved - amount,
            final(self).assets.locked == old(self).assets.locked,
            final(self).assets.owned + final(self).assets.reserved == old(self).assets.owned
                + old(self).assets.reserved,
            old(self).assets.covered() ==> final(self).assets.covered(),
    {
        if amount > self.assets.reserved {
            return Err(PlatformError::InsufficientFunds);
        }
        let owned = match self.assets.owned.checked_add(amount) {
            Some(v) => v,
            None => {
                return Err(PlatformError::MathOverflow);
            },
        };
        self.assets.reserved = self.assets.reserved - amount;
        self.assets.owned = owned;
        Ok(())
    }

    /// Moves `amount` from the owned balance to the reserved one.
    pub fn owned_to_reserved(&mut self, amount: u64) -> (r: Result<(), PlatformError>)
        ensures
            match old(self).owned_to_reserved_spec(amount) {
                Ok(assets) => {
                    &&& r is Ok
                    &&& *final(self) == (Custody { assets, ..*old(self) })
                },
                Err(e) => {
                    &&& r == Err::<(), PlatformError>(e)
                    &&& *final(self) == *old(self)
                },
            },
            r is Ok <==> amount <= old(self).assets.owned && old(self).assets.reserved + amount
                <= u64::MAX,
            r is Ok ==> final(self).assets.owned == old(self).assets.owned - amount,
            r is Ok ==> final(self).assets.reserved == old(self).assets.reserved + amount,
            final(self).assets.locked == old(self).assets.locked,
            final(self).assets.owned + final(self).assets.reserved == old(self).assets.owned
                + old(self).assets.reserved,
            old(self).assets.locked + amount <= old(self).assets.owned
                ==> final(self).assets.covered(),
    {
        if amount > self.assets.owned {
            return Err(PlatformError::InsufficientFunds);
        }
        let reserved = match self.assets.reserved.checked_add(amount) {
            Some(v) => v,
            None => {
                return Err(PlatformError::MathOverflow);
            },
        };
        self.assets.owned = self.assets.owned - amount;
        self.assets.reserved = reserved;
        Ok(())
    }

    /// Locks `amount` more of the owned funds behind positions.
    pub fn lock_funds(&mut self, amount: u64) -> (r: Result<(), PlatformError>)
        ensures
            match old(self).lock_spec(amount) {
                Ok(assets) => {
                    &&& r is Ok
                    &&& *final(self) == (Custody { assets, ..*old(self) })
                },
                Err(e) => {
                    &&& r == Err::<(), PlatformError>(e)
                    &&& *final(self) == *old(self)
                },
            },
            r is Ok ==> final(self).assets.covered(),
            old(self).assets.covered() ==> final(self).assets.covered(),
    {
        if self.is_virtual {
            return Err(PlatformError::InvalidCollateralCustody);
        }
        let locked = match self.assets.locked.checked_add(amount) {
            Some(v) => v,
            None => {
                return Err(PlatformError::MathOverflow);
            },
        };
        if self.margin_params.max_utilization > 0 && (self.margin_params.max_utilization as u128)
            < RATE_POWER && self.assets.owned > 0 {
            assert(0 <= locked * 1_000_000_000 <= 0xFFFF_FFFF_FFFF_FFFF * 1_000_000_000)
                by (nonlinear_arith)
                requires
                    0 <= locked <= 0xFFFF_FFFF_FFFF_FFFF,
            ;
            let scaled: u128 = (locked as u128) * RATE_POWER;
            let utilization: u128 = scaled / (self.assets.owned as u128);
            if utilization > u64::MAX as u128 {
                return Err(PlatformError::MathOverflow);
            }
            if utilization > self.margin_params.max_utilization as u128 {
                return Err(PlatformError::MaxUtilization);
            }
        }
        if self.assets.owned < locked {
            return Err(PlatformError::InsufficientFunds);
        }
        self.assets.locked = locked;
        Ok(())
    }

    /// Releases `amount` of the locked funds; asking for more than is locked
    /// releases all of it.
    pub fn unlock_funds(&mut self, amount: u64) -> (r: Result<(), PlatformError>)
        ensures
            match old(self).unlock_spec(amount) {
                Ok(assets) => {
                    &&& r is Ok
                    &&& *final(self) == (Custody { assets, ..*old(self) })
                },
                Err(e) => {
                    &&& r == Err::<(), PlatformError>(e)
                    &&& *final(self) == *old(self)
                },
            },
            r is Ok <==> !old(self).is_virtual,
            old(self).assets.covered() ==> final(self).assets.covered(),
    {
        if self.is_virtual {
            return Err(PlatformError::InvalidCollateralCustody);
        }
        if amount > self.assets.locked {
            self.assets.locked = 0;
        } else {
            self.assets.locked = self.assets.locked - amount;
        }
        Ok(())
    }
}

} // verus!
