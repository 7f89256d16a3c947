//! Types shared by every Orivex contract: ledger addresses, the common error
//! enum, the protocol constants and the soulbound badge record.

use vstd::prelude::*;

verus! {

/// An address on the ledger (an account or a contract).
///
/// The host identifies every address by a 64-bit number; two addresses are the
/// same exactly when their numbers are equal.
#[derive(Clone, Copy, Debug, PartialEq, Eq, Hash, Structural)]
pub struct Address {
    pub id: u64,
}

/// A 32-byte hash (course metadata, proofs, WASM blobs).
pub type Hash32 = [u8; 32];

/// Platform fee in basis points (15% = 1500 basis points).
pub const PLATFORM_FEE_BASIS_POINTS: u32 = 1500;

/// Default lock/voting period in seconds (7 days = 604800).
pub const DEFAULT_PERIOD_SECONDS: u64 = 604800;

/// Maximum number of badges per learner.
pub const MAX_BADGES_PER_LEARNER: u32 = 64;

/// Default reward token decimals (7 = USDC).
pub const REWARD_TOKEN_DECIMALS: u32 = 7;

/// Maximum number of approved spenders.
pub const MAX_SPENDERS: u32 = 256;

/// Minimum payout amount (must be > 0).
pub const MIN_PAYOUT_AMOUNT: i128 = 1;

/// Maximum quest reward amount.
pub const MAX_QUEST_REWARD: i128 = 1_000_000_000_000_000;

/// Default total modules bound for courses.
pub const DEFAULT_TOTAL_MODULES_BOUND: u32 = 1000;

/// Base reward amount for course completion (10 USDC with 7 decimals).
pub const BASE_REWARD_AMOUNT: i128 = 10_000_000;

/// A soulbound badge representing course completion.
#[derive(Clone, Copy, Debug, PartialEq, Eq, Structural)]
pub struct Badge {
    pub course_id: u32,
    pub minted_at: u64,
}

/// Common error types for all Orivex contracts, with their numeric codes.
#[derive(Clone, Copy, Debug, PartialEq, Eq, Structural)]
pub enum ContractError {
    /// The contract has already been initialized.
    AlreadyInitialized,
    /// The contract has not been initialized yet.
    NotInitialized,
    /// The caller is not authorized to perform this action.
    Unauthorized,
    /// The contract is paused and cannot perform this action.
    ContractPaused,
    /// The specified resource was not found.
    NotFound,
    /// The provided amount is not valid (e.g., must be positive).
    InvalidAmount,
    /// The operation has already been completed.
    AlreadyCompleted,
    /// The requested resource already exists.
    AlreadyExists,
}

impl ContractError {
    /// The numeric code of the error as it is reported to callers.
    pub open spec fn spec_code(self) -> u32 {
        match self {
            ContractError::AlreadyInitialized => 1,
            ContractError::NotInitialized => 2,
            ContractError::Unauthorized => 3,
            ContractError::ContractPaused => 4,
            ContractError::NotFound => 5,
            ContractError::InvalidAmount => 6,
            ContractError::AlreadyCompleted => 7,
            ContractError::AlreadyExists => 8,
        }
    }

    /// Returns the numeric code of the error.
    pub fn code(&self) -> (c: u32)
        ensures
            c == self.spec_code(),
    {
        match self {
            ContractError::AlreadyInitialized => 1,
            ContractError::NotInitialized => 2,
            ContractError::Unauthorized => 3,
            ContractError::ContractPaused => 4,
            ContractError::NotFound => 5,
            ContractError::InvalidAmount => 6,
            ContractError::AlreadyCompleted => 7,
            ContractError::AlreadyExists => 8,
        }
    }

    /// Returns the human-readable message of the error.
    pub fn msg(&self) -> (m: &'static str)
        ensures
            m@ == match *self {
                ContractError::AlreadyInitialized => "Already initialized"@,
                ContractError::NotInitialized => "Contract not initialized"@,
                ContractError::Unauthorized => "Unauthorized"@,
                ContractError::ContractPaused => "Contract is paused"@,
                ContractError::NotFound => "Not found"@,
                ContractError::InvalidAmount => "Invalid amount"@,
                ContractError::AlreadyCompleted => "Already completed"@,
                ContractError::AlreadyExists => "Already exists"@,
            },
    {
        match self {
            ContractError::AlreadyInitialized => "Already initialized",
            ContractError::NotInitialized => "Contract not initialized",
            ContractError::Unauthorized => "Unauthorized",
            ContractError::ContractPaused => "Contract is paused",
            ContractError::NotFound => "Not found",
            ContractError::InvalidAmount => "Invalid amount",
            ContractError::AlreadyCompleted => "Already completed",
            ContractError::AlreadyExists => "Already exists",
        }
    }
}

/// The storage key of a per-(address, id) entry: the address in the high bits,
/// the id in the low 32 bits.
pub open spec fn spec_pair_key(a: Address, id: u32) -> u128 {
    ((a.id as u128) << 32u128) | (id as u128)
}

/// Computes the storage key of the entry of `a` under `id`.
pub fn pair_key(a: Address, id: u32) -> (k: u128)
    ensures
        k == spec_pair_key(a, id),
{
    ((a.id as u128) << 32u128) | (id as u128)
}

/// Distinct (address, id) pairs have distinct storage keys.
pub proof fn lemma_pair_key_injective(a1: Address, i1: u32, a2: Address, i2: u32)
    ensures
        spec_pair_key(a1, i1) == spec_pair_key(a2, i2) ==> a1 == a2 && i1 == i2,
{
    let x1 = a1.id;
    let x2 = a2.id;
    assert(((x1 as u128) << 32u128) | (i1 as u128) == ((x2 as u128) << 32u128) | (i2 as u128)
        ==> x1 == x2 && i1 == i2) by (bit_vector);
}

/// The map from (address, id) pairs to values that a map keyed by
/// `spec_pair_key` stores.
pub open spec fn pair_view<V>(inner: Map<u128, V>) -> Map<(Address, u32), V> {
    Map::new(
        |k: (Address, u32)| inner.contains_key(spec_pair_key(k.0, k.1)),
        |k: (Address, u32)| inner[spec_pair_key(k.0, k.1)],
    )
}

/// Storing under the key of `(a, id)` stores under `(a, id)` in the pair view.
pub proof fn lemma_pair_view_insert<V>(inner: Map<u128, V>, a: Address, id: u32, v: V)
    ensures
        pair_view(inner.insert(spec_pair_key(a, id), v)) == pair_view(inner).insert((a, id), v),
{
    assert forall|k: (Address, u32)| #[trigger] spec_pair_key(k.0, k.1) == spec_pair_key(a, id) implies k == (a, id) by {
        lemma_pair_key_injective(k.0, k.1, a, id);
    }
    assert(pair_view(inner.insert(spec_pair_key(a, id), v)) =~= pair_view(inner).insert((a, id), v));
}

} // verus!
