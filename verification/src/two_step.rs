//! Two-step transfer of a role (an admin, a wired contract address).
//!
//! 1. The authority proposes an address; the proposal is recorded as pending.
//! 2. Only the proposed address may accept; the role then takes its value and
//!    the pending record is cleared.
//! 3. The proposed address or the authority may cancel; the pending record is
//!    cleared and the role keeps its value.
//!
//! Acceptance and cancellation are immediate (no timelock).

use vstd::prelude::*;
use crate::common::Address;
use crate::errors::Error;

verus! {

/// A pending two-step transfer proposal.
#[derive(Clone, Copy, Debug, PartialEq, Eq, Structural)]
pub struct PendingTransfer {
    /// Address proposed for the role.
    pub proposed: Address,
    /// Ledger timestamp when the proposal was made.
    pub proposed_at: u64,
}

/// Emitted when the current holder proposes a new address.
#[derive(Clone, Copy, Debug, PartialEq, Eq, Structural)]
pub struct TransferProposed {
    pub current: Address,
    pub proposed: Address,
    pub proposed_at: u64,
}

/// Emitted when the proposed address accepts and the live value updates.
#[derive(Clone, Copy, Debug, PartialEq, Eq, Structural)]
pub struct TransferAccepted {
    pub new_value: Address,
}

/// Emitted when a pending transfer is cancelled before acceptance.
#[derive(Clone, Copy, Debug, PartialEq, Eq, Structural)]
pub struct TransferCancelled {
    pub cancelled_by: Address,
    pub was_proposed: Address,
}

/// Why a step of a transfer was refused.
#[derive(Clone, Copy, Debug, PartialEq, Eq, Structural)]
pub enum TransferError {
    /// No authority is stored yet.
    NotInitialized,
    /// The caller of `propose` is not the authority.
    NotAuthority,
    /// No transfer is pending.
    NoPending,
    /// The acceptor is not the proposed address.
    NotProposed,
    /// The canceller is neither the proposed address nor the authority.
    CancelNotAllowed,
}

/// The outcome of stage 1.
pub open spec fn propose_result(authority: Option<Address>, caller: Address, proposed: Address, now: u64) -> Result<PendingTransfer, TransferError> {
    match authority {
        None => Err(TransferError::NotInitialized),
        Some(a) => if a == caller {
            Ok(PendingTransfer { proposed, proposed_at: now })
        } else {
            Err(TransferError::NotAuthority)
        },
    }
}

/// The outcome of stage 2.
pub open spec fn accept_result(pending: Option<PendingTransfer>, acceptor: Address) -> Result<Address, TransferError> {
    match pending {
        None => Err(TransferError::NoPending),
        Some(p) => if p.proposed == acceptor {
            Ok(p.proposed)
        } else {
            Err(TransferError::NotProposed)
        },
    }
}

/// The outcome of a cancellation.
pub open spec fn cancel_result(pending: Option<PendingTransfer>, authority: Option<Address>, caller: Address) -> Result<Address, TransferError> {
    match pending {
        None => Err(TransferError::NoPending),
        Some(p) => match authority {
            None => Err(TransferError::NotInitialized),
            Some(a) => if caller == p.proposed || caller == a {
                Ok(p.proposed)
            } else {
                Err(TransferError::CancelNotAllowed)
            },
        },
    }
}

/// Stage 1: `caller` proposes `proposed` at time `now`. Only the stored
/// authority may propose.
pub fn propose(authority: Option<Address>, caller: Address, proposed: Address, now: u64) -> (r:
    Result<PendingTransfer, TransferError>)
    ensures
        r == propose_result(authority, caller, proposed, now),

{
    match authority {
        None => Err(TransferError::NotInitialized),
        Some(a) => if a == caller {
            Ok(PendingTransfer { proposed, proposed_at: now })
        } else {
            Err(TransferError::NotAuthority)
        },
    }
}

/// Stage 2: `acceptor` accepts the pending transfer; the result is the new
/// value of the role.
pub fn accept(pending: Option<PendingTransfer>, acceptor: Address) -> (r: Result<Address, TransferError>)
    ensures
        r == accept_result(pending, acceptor),

{
    match pending {
        None => Err(TransferError::NoPending),
        Some(p) => if p.proposed == acceptor {
            Ok(p.proposed)
        } else {
            Err(TransferError::NotProposed)
        },
    }
}

/// Cancels the pending transfer; allowed to the proposed address and to the
/// authority. The result is the address that had been proposed.
pub fn cancel(pending: Option<PendingTransfer>, authority: Option<Address>, caller: Address) -> (r:
    Result<Address, TransferError>)
    ensures
        r == cancel_result(pending, authority, caller),

{
    match pending {
        None => Err(TransferError::NoPending),
        Some(p) => match authority {
            None => Err(TransferError::NotInitialized),
            Some(a) => if caller == p.proposed || caller == a {
                Ok(p.proposed)
            } else {
                Err(TransferError::CancelNotAllowed)
            },
        },
    }
}

/// The error that a refused admin transfer step reports.
pub open spec fn admin_transfer_error(e: TransferError) -> Error {
    match e {
        TransferError::NotInitialized => Error::NotInitialized,
        TransferError::NotAuthority => Error::NotAdmin,
        TransferError::NoPending => Error::NoPendingAdminTransfer,
        TransferError::NotProposed => Error::NotProposedAdmin,
        TransferError::CancelNotAllowed => Error::CancelNotAllowed,
    }
}

/// Maps a refused admin transfer step to the error the contracts report.
pub fn map_admin_transfer_error(e: TransferError) -> (r: Error)
    ensures
        r == admin_transfer_error(e),
{
    match e {
        TransferError::NotInitialized => Error::NotInitialized,
        TransferError::NotAuthority => Error::NotAdmin,
        TransferError::NoPending => Error::NoPendingAdminTransfer,
        TransferError::NotProposed => Error::NotProposedAdmin,
        TransferError::CancelNotAllowed => Error::CancelNotAllowed,
    }
}

/// The hand-over protocol: only the authority may propose; the proposed
/// address, and no other, may then accept and becomes the role's value; the
/// proposed address and the authority may cancel, no one else; and with
/// nothing pending, nothing can be accepted.
pub proof fn lemma_two_step_handshake(authority: Address, proposed: Address, other: Address, now: u64)
    ensures
        propose_result(Some(authority), authority, proposed, now) == Ok::<PendingTransfer, TransferError>(
            PendingTransfer { proposed, proposed_at: now },
        ),
        other != authority ==> propose_result(Some(authority), other, proposed, now) == Err::<
            PendingTransfer,
            TransferError,
        >(TransferError::NotAuthority),
        accept_result(Some(PendingTransfer { proposed, proposed_at: now }), proposed) == Ok::<
            Address,
            TransferError,
        >(proposed),
        other != proposed ==> accept_result(Some(PendingTransfer { proposed, proposed_at: now }), other) == Err::<
            Address,
            TransferError,
        >(TransferError::NotProposed),
        cancel_result(Some(PendingTransfer { proposed, proposed_at: now }), Some(authority), proposed) == Ok::<
            Address,
            TransferError,
        >(proposed),
        cancel_result(Some(PendingTransfer { proposed, proposed_at: now }), Some(authority), authority) == Ok::<
            Address,
            TransferError,
        >(proposed),
        other != proposed && other != authority ==> cancel_result(
            Some(PendingTransfer { proposed, proposed_at: now }),
            Some(authority),
            other,
        ) == Err::<Address, TransferError>(TransferError::CancelNotAllowed),
        accept_result(None, other) == Err::<Address, TransferError>(TransferError::NoPending),
{
}

} // verus!
