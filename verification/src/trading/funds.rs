use vstd::prelude::*;
use crate::custody::{Assets, Custody};
use crate::error::PlatformError;

verus! {

/// The balances of the two custodies that a trade moves funds in.
#[derive(Clone, Copy, Debug, PartialEq, Eq, Structural)]
pub struct CustodyBalances {
    pub lock: Assets,
    pub collateral: Assets,
}

/// The balances after a trader's collateral has become the pool's and funds
/// have been locked behind a position.
///
/// `collateral_amount` moves from reserved to owned in the collateral
/// custody, then `lock_amount` is locked in the lock custody. Where the two are
/// one custody, both happen to it in that order and both balances are its.
pub open spec fn fund_spec(
    lock: Custody,
    collateral: Custody,
    shared: bool,
    collateral_amount: u64,
    lock_amount: u64,
) -> Result<CustodyBalances, PlatformError> {
    if shared {
        match lock.reserved_to_owned_spec(collateral_amount) {
            Err(e) => Err(e),
            Ok(moved) => match (Custody { assets: moved, ..lock }).lock_spec(lock_amount) {
                Err(e) => Err(e),
                Ok(locked) => Ok(CustodyBalances { lock: locked, collateral: locked }),
            },
        }
    } else {
        match collateral.reserved_to_owned_spec(collateral_amount) {
            Err(e) => Err(e),
            Ok(moved) => match lock.lock_spec(lock_amount) {
                Err(e) => Err(e),
                Ok(locked) => Ok(CustodyBalances { lock: locked, collateral: moved }),
            },
        }
    }
}

/// The balances after funds have been released from behind a position and
/// the trader's share has been set aside.
///
/// `unlock_amount` is unlocked in the lock custody, then `settle_amount` moves
/// from owned to reserved in the collateral custody. Where the two are one
/// custody, both happen to it in that order and both balances are its.
pub open spec fn release_spec(
    lock: Custody,
    collateral: Custody,
    shared: bool,
    unlock_amount: u64,
    settle_amount: u64,
) -> Result<CustodyBalances, PlatformError> {
    match lock.unlock_spec(unlock_amount) {
        Err(e) => Err(e),
        Ok(unlocked) => if shared {
            match (Custody { assets: unlocked, ..lock }).owned_to_reserved_spec(settle_amount) {
                Err(e) => Err(e),
                Ok(moved) => Ok(CustodyBalances { lock: moved, collateral: moved }),
            }
        } else {
            match collateral.owned_to_reserved_spec(settle_amount) {
                Err(e) => Err(e),
                Ok(moved) => Ok(CustodyBalances { lock: unlocked, collateral: moved }),
            }
        },
    }
}

/// Takes the collateral into the pool and locks funds behind a position. On
/// an error both custodies are as they were.
pub fn fund_position(
    lock_custody: &mut Custody,
    collateral_custody: &mut Custody,
    shared_custody: bool,
    collateral_amount: u64,
    lock_amount: u64,
) -> (r: Result<(), PlatformError>)
    ensures
        match fund_spec(
            *old(lock_custody),
            *old(collateral_custody),
            shared_custody,
            collateral_amount,
            lock_amount,
        ) {
            Ok(balances) => {
                &&& r is Ok
                &&& *final(lock_custody) ==
                    (Custody { assets: balances.lock, ..*old(lock_custody) })
                &&& *final(collateral_custody) ==
                    (Custody { assets: balances.collateral, ..*old(collateral_custody) })
            },
            Err(e) => {
                &&& r == Err::<(), PlatformError>(e)
                &&& *final(lock_custody) == *old(lock_custody)
                &&& *final(collateral_custody) == *old(collateral_custody)
            },
        },
{
    let lock_before = lock_custody.assets;
    let collateral_before = collateral_custody.assets;
    if shared_custody {
        match lock_custody.reserved_to_owned(collateral_amount) {
            Ok(()) => {},
            Err(e) => {
                return Err(e);
            },
        }
        match lock_custody.lock_funds(lock_amount) {
            Ok(()) => {},
            Err(e) => {
                lock_custody.assets = lock_before;
                return Err(e);
            },
        }
        collateral_custody.assets = lock_custody.assets;
    } else {
        match collateral_custody.reserved_to_owned(collateral_amount) {
            Ok(()) => {},
            Err(e) => {
                return Err(e);
            },
        }
        match lock_custody.lock_funds(lock_amount) {
            Ok(()) => {},
            Err(e) => {
                collateral_custody.assets = collateral_before;
                return Err(e);
            },
        }
    }
    Ok(())
}

/// Releases funds from behind a position and sets the trader's share aside.
/// On an error both custodies are as they were.
pub fn release_position(
    lock_custody: &mut Custody,
    collateral_custody: &mut Custody,
    shared_custody: bool,
    unlock_amount: u64,
    settle_amount: u64,
) -> (r: Result<(), PlatformError>)
    ensures
        match release_spec(
            *old(lock_custody),
            *old(collateral_custody),
            shared_custody,
            unlock_amount,
            settle_amount,
        ) {
            Ok(balances) => {
                &&& r is Ok
                &&& *final(lock_custody) ==
                    (Custody { assets: balances.lock, ..*old(lock_custody) })
                &&& *final(collateral_custody) ==
                    (Custody { assets: balances.collateral, ..*old(collateral_custody) })
            },
            Err(e) => {
                &&& r == Err::<(), PlatformError>(e)
                &&& *final(lock_custody) == *old(lock_custody)
                &&& *final(collateral_custody) == *old(collateral_custody)
            },
        },
{
    let lock_before = lock_custody.assets;
    match lock_custody.unlock_funds(unlock_amount) {
        Ok(()) => {},
        Err(e) => {
            return Err(e);
        },
    }
    if shared_custody {
        match lock_custody.owned_to_reserved(settle_amount) {
            Ok(()) => {},
            Err(e) => {
                lock_custody.assets = lock_before;
                return Err(e);
            },
        }
        collateral_custody.assets = lock_custody.assets;
    } else {
        match collateral_custody.owned_to_reserved(settle_amount) {
            Ok(()) => {},
            Err(e) => {
                lock_custody.assets = lock_before;
                return Err(e);
            },
        }
    }
    Ok(())
}

} // verus!
