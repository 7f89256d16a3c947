use orivex::auth::{initialize_admin, is_paused, require_admin, require_initialized, require_not_paused};
use orivex::common::{pair_key, Address, ContractError};
use orivex::errors::Error;
use orivex::hello::HelloOrivex;
use orivex::two_step::{accept, cancel, map_admin_transfer_error, propose, PendingTransfer, TransferError};

fn addr(id: u64) -> Address {
    Address { id }
}

#[test]
fn test_hello() {
    let result = HelloOrivex::hello("Dev".to_string());
    assert_eq!(result, vec!["Hello".to_string(), "Orivex".to_string(), "Dev".to_string()]);
}

#[test]
fn test_welcome() {
    let result = HelloOrivex::welcome("Alice".to_string());
    assert_eq!(
        result,
        vec!["Welcome".to_string(), "to".to_string(), "Orivex".to_string(), "Alice".to_string()]
    );
}

#[test]
fn contract_error_codes() {
    let all = [
        (ContractError::AlreadyInitialized, 1),
        (ContractError::NotInitialized, 2),
        (ContractError::Unauthorized, 3),
        (ContractError::ContractPaused, 4),
        (ContractError::NotFound, 5),
        (ContractError::InvalidAmount, 6),
        (ContractError::AlreadyCompleted, 7),
        (ContractError::AlreadyExists, 8),
    ];
    for (e, code) in all {
        assert_eq!(e.code(), code);
        assert!(!e.msg().is_empty());
    }
    assert_eq!(ContractError::Unauthorized.msg(), "Unauthorized");
    assert_eq!(ContractError::ContractPaused.msg(), "Contract is paused");
}

#[test]
fn auth_require_admin() {
    assert_eq!(require_admin(addr(1), None), Err(ContractError::NotInitialized));
    assert_eq!(require_admin(addr(2), Some(addr(1))), Err(ContractError::Unauthorized));
    assert_eq!(require_admin(addr(1), Some(addr(1))), Ok(()));
    assert_eq!(require_initialized(None), Err(ContractError::NotInitialized));
    assert_eq!(require_initialized(Some(addr(1))), Ok(()));
}

#[test]
fn auth_initialize_admin_once() {
    let mut slot = None;
    assert_eq!(initialize_admin(&mut slot, addr(1)), Ok(()));
    assert_eq!(slot, Some(addr(1)));
    assert_eq!(initialize_admin(&mut slot, addr(2)), Err(ContractError::AlreadyInitialized));
    assert_eq!(slot, Some(addr(1)));
}

#[test]
fn auth_pause_flag() {
    assert!(!is_paused(None));
    assert!(!is_paused(Some(false)));
    assert!(is_paused(Some(true)));
    assert_eq!(require_not_paused(None), Ok(()));
    assert_eq!(require_not_paused(Some(false)), Ok(()));
    assert_eq!(require_not_paused(Some(true)), Err(ContractError::ContractPaused));
}

#[test]
fn two_step_handshake() {
    let authority = addr(1);
    let proposed = addr(2);
    let other = addr(3);
    assert_eq!(propose(None, authority, proposed, 5), Err(TransferError::NotInitialized));
    assert_eq!(propose(Some(authority), other, proposed, 5), Err(TransferError::NotAuthority));
    let pending = propose(Some(authority), authority, proposed, 5).unwrap();
    assert_eq!(pending, PendingTransfer { proposed, proposed_at: 5 });
    assert_eq!(accept(None, proposed), Err(TransferError::NoPending));
    assert_eq!(accept(Some(pending), other), Err(TransferError::NotProposed));
    assert_eq!(accept(Some(pending), proposed), Ok(proposed));
    assert_eq!(cancel(None, Some(authority), authority), Err(TransferError::NoPending));
    assert_eq!(cancel(Some(pending), Some(authority), other), Err(TransferError::CancelNotAllowed));
    assert_eq!(cancel(Some(pending), Some(authority), authority), Ok(proposed));
    assert_eq!(cancel(Some(pending), Some(authority), proposed), Ok(proposed));
}

#[test]
fn two_step_error_mapping() {
    assert_eq!(map_admin_transfer_error(TransferError::NotInitialized), Error::NotInitialized);
    assert_eq!(map_admin_transfer_error(TransferError::NotAuthority), Error::NotAdmin);
    assert_eq!(map_admin_transfer_error(TransferError::NoPending), Error::NoPendingAdminTransfer);
    assert_eq!(map_admin_transfer_error(TransferError::NotProposed), Error::NotProposedAdmin);
    assert_eq!(map_admin_transfer_error(TransferError::CancelNotAllowed), Error::CancelNotAllowed);
    assert_eq!(Error::NoPendingAdminTransfer.message(), "No pending admin transfer");
}

#[test]
fn pair_keys_are_distinct() {
    assert_eq!(pair_key(addr(0), 7), 7);
    assert_eq!(pair_key(addr(1), 0), 1u128 << 32);
    assert_ne!(pair_key(addr(1), 2), pair_key(addr(2), 1));
    assert_eq!(pair_key(addr(u64::MAX), u32::MAX), (u64::MAX as u128) << 32 | u32::MAX as u128);
}
