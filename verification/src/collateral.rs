use vstd::prelude::*;
use crate::address::Address;
use crate::basket::{
    deposit_amount_of, deposits_after_deposit, deposits_after_withdrawal, has_room_for, Basket,
};
use crate::custody::{Assets, Custody};
use crate::error::PlatformError;
use crate::position::saturating_add_u64;

verus! {

/// Why a deposit of `amount` against `pool_key` is refused, if it is:
/// `InvalidBasketState` for an empty deposit, `MaxDepostsReached` when the
/// basket would need one deposit more than it may hold.
pub open spec fn deposit_refusal(basket: Basket, pool_key: Address, amount: u64) -> Option<
    PlatformError,
> {
    if amount == 0 {
        Some(PlatformError::InvalidBasketState)
    } else if !has_room_for(basket.deposits@, pool_key) {
        Some(PlatformError::MaxDepostsReached)
    } else {
        None
    }
}

/// Why a withdrawal of `amount` from `pool_key` is refused, if it is:
/// `InvalidBasketState` for an empty withdrawal or one of more than the basket
/// has parked against the pool, `InvalidCustodyState` when the custody has less
/// in reserve.
pub open spec fn withdrawal_refusal(
    basket: Basket,
    custody: Custody,
    pool_key: Address,
    amount: u64,
) -> Option<PlatformError> {
    if amount == 0 {
        Some(PlatformError::InvalidBasketState)
    } else if deposit_amount_of(basket.deposits@, pool_key) < amount {
        Some(PlatformError::InvalidBasketState)
    } else if custody.assets.reserved < amount {
        Some(PlatformError::InvalidCustodyState)
    } else {
        None
    }
}

/// Parks `amount` collateral tokens of a trader against the pool: the
/// custody's reserve grows by it, stopping at the top of its range, and so does
/// the basket's deposit for the pool. On an error nothing has changed.
pub fn deposit_collateral(
    basket: &mut Basket,
    custody: &mut Custody,
    pool_key: &Address,
    amount: u64,
) -> (r: Result<(), PlatformError>)
    ensures
        match deposit_refusal(*old(basket), *pool_key, amount) {
            None => {
                &&& r is Ok
                &&& *final(custody) ==
                    (Custody {
                        assets: Assets {
                            reserved: saturating_add_u64(
                                old(custody).assets.reserved,
                                amount,
                            ),
                            ..old(custody).assets
                        },
                        ..*old(custody)
                    })
                &&& final(basket).deposits@ ==
                    deposits_after_deposit( old(basket).deposits@, *pool_key, amount, )
                &&& final(basket).positions == old(basket).positions
            },
            Some(e) => {
                &&& r == Err::<(), PlatformError>(e)
                &&& *final(basket) == *old(basket)
                &&& *final(custody) == *old(custody)
            },
        },
        old(basket).within_limits() ==> final(basket).within_limits(),
{
    if amount == 0 {
        return Err(PlatformError::InvalidBasketState);
    }
    if !basket.has_room_for_deposit(pool_key) {
        return Err(PlatformError::MaxDepostsReached);
    }
    custody.assets.reserved = custody.assets.reserved.saturating_add(amount);
    basket.process_deposit(*pool_key, amount);
    Ok(())
}

/// Hands `amount` parked collateral tokens back to a trader: the custody's
/// reserve and the basket's deposit for the pool shrink by it. On an error
/// nothing has changed.
pub fn withdraw_collateral(
    basket: &mut Basket,
    custody: &mut Custody,
    pool_key: &Address,
    amount: u64,
) -> (r: Result<(), PlatformError>)
    ensures
        match withdrawal_refusal(*old(basket), *old(custody), *pool_key, amount) {
            None => {
                &&& r is Ok
                &&& *final(custody) ==
                    (Custody {
                        assets: Assets {
                            reserved: (old(custody).assets.reserved - amount) as u64,
                            ..old(custody).assets
                        },
                        ..*old(custody)
                    })
                &&& final(basket).deposits@ ==
                    deposits_after_withdrawal( old(basket).deposits@, *pool_key, amount, )
                &&& final(basket).positions == old(basket).positions
            },
            Some(e) => {
                &&& r == Err::<(), PlatformError>(e)
                &&& *final(basket) == *old(basket)
                &&& *final(custody) == *old(custody)
            },
        },
        old(basket).within_limits() ==> final(basket).within_limits(),
{
    if amount == 0 {
        return Err(PlatformError::InvalidBasketState);
    }
    if basket.get_deposit_amount(pool_key) < amount {
        return Err(PlatformError::InvalidBasketState);
    }
    if custody.assets.reserved < amount {
        return Err(PlatformError::InvalidCustodyState);
    }
    custody.assets.reserved = custody.assets.reserved - amount;
    basket.process_withdrawal(*pool_key, amount);
    Ok(())
}

} // verus!
