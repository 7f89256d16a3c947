//! The work that a contract hands to the host: token transfers, calls into
//! other Orivex contracts and code upgrades. An entry point returns these in
//! the order in which the host must perform them; the host reverts the whole
//! invocation if any of them fails.

use vstd::prelude::*;
use crate::common::{Address, Hash32};

verus! {

/// One piece of work for the host.
#[derive(Clone, Copy, Debug, PartialEq, Eq)]
pub enum Call {
    /// `transfer(from, to, amount)` on the token contract `token`.
    Transfer { token: Address, from: Address, to: Address, amount: i128 },
    /// `mint_badge(caller, learner, course_id)` on the badge contract `contract`.
    MintBadge { contract: Address, caller: Address, learner: Address, course_id: u32 },
    /// `distribute_reward(caller, learner, amount)` on the reward pool `contract`.
    DistributeReward { contract: Address, caller: Address, learner: Address, amount: i128 },
    /// Replace the code of the running contract by the WASM blob with this hash.
    UpdateWasm { new_wasm_hash: Hash32 },
}

} // verus!
