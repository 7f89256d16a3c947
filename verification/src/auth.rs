//! Admin and pause checks shared by the contracts, over the stored admin slot
//! and pause flag.

use vstd::prelude::*;
use crate::common::{Address, ContractError};

verus! {

/// Requires that `caller` is the stored admin: `NotInitialized` when no admin
/// is stored, `Unauthorized` when the caller is another address.
pub fn require_admin(caller: Address, stored_admin: Option<Address>) -> (r: Result<(), ContractError>)
    ensures
        r == match stored_admin {
            None => Err(ContractError::NotInitialized),
            Some(a) => if a == caller { Ok(()) } else { Err(ContractError::Unauthorized) },
        },
{
    match stored_admin {
        None => Err(ContractError::NotInitialized),
        Some(a) => if a == caller { Ok(()) } else { Err(ContractError::Unauthorized) },
    }
}

/// Requires that the contract has been initialized (an admin is stored).
pub fn require_initialized(stored_admin: Option<Address>) -> (r: Result<(), ContractError>)
    ensures
        r == if stored_admin is Some { Ok(()) } else { Err(ContractError::NotInitialized) },
{
    match stored_admin {
        Some(_) => Ok(()),
        None => Err(ContractError::NotInitialized),
    }
}

/// Stores `admin` in an empty admin slot; an occupied slot is left unchanged
/// and `AlreadyInitialized` is returned.
pub fn initialize_admin(slot: &mut Option<Address>, admin: Address) -> (r: Result<(), ContractError>)
    ensures
        (*old(slot)) is Some ==> r == Err::<(), ContractError>(ContractError::AlreadyInitialized)
            && *final(slot) == *old(slot),
        (*old(slot)) is None ==> r == Ok::<(), ContractError>(()) && *final(slot) == Some(admin),
{
    if slot.is_some() {
        Err(ContractError::AlreadyInitialized)
    } else {
        *slot = Some(admin);
        Ok(())
    }
}

/// The contract is paused when the stored pause flag is present and true.
pub fn is_paused(flag: Option<bool>) -> (b: bool)
    ensures
        b == (flag == Some(true)),
{
    match flag {
        Some(b) => b,
        None => false,
    }
}

/// Requires that the contract is not paused.
pub fn require_not_paused(flag: Option<bool>) -> (r: Result<(), ContractError>)
    ensures
        r == if flag == Some(true) { Err(ContractError::ContractPaused) } else { Ok(()) },
{
    if is_paused(flag) {
        Err(ContractError::ContractPaused)
    } else {
        Ok(())
    }
}

} // verus!
