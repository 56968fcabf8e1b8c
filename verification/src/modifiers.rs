use vstd::prelude::*;

use crate::data::eligible;
use crate::data::Key;
use crate::error::Error;
use crate::minter::Minter;

verus! {

/// Admits the caller only if it is the configured admin.
pub fn only_admin(minter: &Minter, caller: Key) -> (r: Result<(), Error>)
    ensures
        !minter.is_initialized() ==> r == Err::<(), Error>(Error::Uninitialized),
        minter.is_initialized() && caller != minter.cfg().admin ==> r == Err::<(), Error>(
            Error::PermissionDenied,
        ),
        minter.is_initialized() && caller == minter.cfg().admin ==> r == Ok::<(), Error>(()),
{
    match minter.config {
        None => Err(Error::Uninitialized),
        Some(c) => {
            if caller != c.admin {
                Err(Error::PermissionDenied)
            } else {
                Ok(())
            }
        },
    }
}

/// Admits an issuance on the paid path only while the kill switch is open.
pub fn mint_allowed(minter: &Minter) -> (r: Result<(), Error>)
    ensures
        !minter.is_initialized() ==> r == Err::<(), Error>(Error::Uninitialized),
        minter.is_initialized() && !minter.cfg().allow_mint ==> r == Err::<(), Error>(
            Error::MintNotAllowed,
        ),
        minter.is_initialized() && minter.cfg().allow_mint ==> r == Ok::<(), Error>(()),
{
    match minter.config {
        None => Err(Error::Uninitialized),
        Some(c) => {
            if !c.allow_mint {
                Err(Error::MintNotAllowed)
            } else {
                Ok(())
            }
        },
    }
}

/// Admits an owner on the paid path: while the whitelist gate is on, the
/// owner must be eligible; otherwise every owner is admitted.
pub fn valid_account(minter: &Minter, account: Key) -> (r: Result<(), Error>)
    ensures
        !minter.is_initialized() ==> r == Err::<(), Error>(Error::Uninitialized),
        minter.is_initialized() && minter.cfg().only_whitelist && !eligible(
            minter.whitelist@,
            account,
        ) ==> r == Err::<(), Error>(Error::NotWhitelisted),
        minter.is_initialized() && (!minter.cfg().only_whitelist || eligible(
            minter.whitelist@,
            account,
        )) ==> r == Ok::<(), Error>(()),
{
    match minter.config {
        None => Err(Error::Uninitialized),
        Some(c) => {
            if c.only_whitelist && !minter.whitelist.get(&account) {
                Err(Error::NotWhitelisted)
            } else {
                Ok(())
            }
        },
    }
}

/// Admits a batch only if the owner's holdings plus the requested count
/// stay within the per-owner cap. The sum is computed without wrapping:
/// a sum beyond the integer width counts as exceeding the cap.
pub fn limited_mint(minter: &Minter, owner_holding: u64, count: u64) -> (r: Result<(), Error>)
    ensures
        !minter.is_initialized() ==> r == Err::<(), Error>(Error::Uninitialized),
        minter.is_initialized() && owner_holding + count > minter.cfg().max_mint ==> r == Err::<
            (),
            Error,
        >(Error::MintLimitExceed),
        minter.is_initialized() && owner_holding + count <= minter.cfg().max_mint ==> r == Ok::<
            (),
            Error,
        >(()),
{
    match minter.config {
        None => Err(Error::Uninitialized),
        Some(c) => {
            match owner_holding.checked_add(count) {
                None => Err(Error::MintLimitExceed),
                Some(total) => {
                    if total > c.max_mint {
                        Err(Error::MintLimitExceed)
                    } else {
                        Ok(())
                    }
                },
            }
        },
    }
}

/// Admits a payment only if the funding source holds at least `amount`.
pub fn enough_native_balance(amount: u128, purse_balance: u128) -> (r: Result<(), Error>)
    ensures
        amount > purse_balance ==> r == Err::<(), Error>(Error::NotEnoughBalance),
        amount <= purse_balance ==> r == Ok::<(), Error>(()),
{
    if amount > purse_balance {
        Err(Error::NotEnoughBalance)
    } else {
        Ok(())
    }
}

} // verus!
