use vstd::prelude::*;
use crate::address::Address;
use crate::error::PlatformError;

verus! {

/// What a platform, a custody or a market lets its users do.
#[derive(Clone, Copy, Debug, PartialEq, Eq, Structural)]
pub struct Permissions {
    pub liquidity_add: bool,
    pub liquidity_remove: bool,
    pub trade_init: bool,
    pub trade_maint: bool,
    pub trade_liquidation: bool,
}

impl Default for Permissions {
    fn default() -> (r: Permissions)
        ensures
            r == (Permissions {
                liquidity_add: false,
                liquidity_remove: false,
                trade_init: false,
                trade_maint: false,
                trade_liquidation: false,
            }),
    {
        Permissions {
            liquidity_add: false,
            liquidity_remove: false,
            trade_init: false,
            trade_maint: false,
            trade_liquidation: false,
        }
    }
}

/// The root record of the platform.
#[derive(Clone, Copy, Debug, PartialEq, Eq)]
pub struct Platform {
    pub version: u8,
    pub pool_count: u8,
    pub permissions: Permissions,
    pub admin: Address,
}

impl Platform {
    /// The platform as its administrator sets it up: no pool yet.
    pub fn initialize(version: u8, permissions: Permissions, admin: Address) -> (r: Platform)
        ensures
            r == (Platform { version, pool_count: 0, permissions, admin }),
    {
        Platform { version, pool_count: 0, permissions, admin }
    }

    /// Counts a new pool. Pools are numbered in the order they are made, so
    /// `pool_id` must be the number of pools so far; `InvalidPoolState` when it
    /// is not, or when the count is full.
    pub fn register_pool(&mut self, pool_id: u8) -> (r: Result<(), PlatformError>)
        ensures
            pool_id == old(self).pool_count && pool_id < u8::MAX ==> r is Ok && *final(self) == (
            Platform { pool_count: (pool_id + 1) as u8, ..*old(self) }),
            !(pool_id == old(self).pool_count && pool_id < u8::MAX) ==> r == Err::<
                (),
                PlatformError,
            >(PlatformError::InvalidPoolState) && *final(self) == *old(self),
    {
        if pool_id != self.pool_count {
            return Err(PlatformError::InvalidPoolState);
        }
        match self.pool_count.checked_add(1) {
            Some(count) => {
                self.pool_count = count;
                Ok(())
            },
            None => Err(PlatformError::InvalidPoolState),
        }
    }
}

} // verus!
