//! Token staking with a lock period, and the stake-tier multiplier that quest
//! payouts consult.
//!
//! Staking adds to the caller's locked amount and restarts the lock; after the
//! lock period the whole stake is released at once. The multiplier is a
//! three-tier function of the staked amount.

use vstd::prelude::*;
use std::collections::HashMap;
use crate::common::{Address, Hash32};
use crate::errors::Error;
use crate::host::Call;
use crate::storage::{addr_entries_of, addr_map_of, addr_view, entries_map, keys_distinct};
use crate::two_step::{
    self, admin_transfer_error, map_admin_transfer_error, PendingTransfer, TransferAccepted,
    TransferCancelled, TransferProposed,
};

verus! {

/// Multiplier (in hundredths) for stakes of at least `TIER_HIGH_STAKE_BOUND`.
pub const STAKE_TIER_HIGH_BPS: u32 = 200;

/// Multiplier (in hundredths) for stakes of at least `TIER_LOW_STAKE_BOUND`.
pub const STAKE_TIER_LOW_BPS: u32 = 120;

/// Multiplier (in hundredths) for smaller stakes and for no stake.
pub const STAKE_TIER_NONE_BPS: u32 = 100;

/// Smallest stake of the high tier.
pub const TIER_HIGH_STAKE_BOUND: i128 = 500;

/// Smallest stake of the low tier.
pub const TIER_LOW_STAKE_BOUND: i128 = 100;

/// Lock period of a stake, in seconds (7 days).
pub const DEFAULT_LOCK_PERIOD_SECONDS: u64 = 604800;

/// A user's stake.
#[derive(Clone, Copy, Debug, PartialEq, Eq, Structural)]
pub struct StakeInfo {
    pub amount: i128,
    pub lock_timestamp: u64,
}

/// Emitted when the vault is initialized.
#[derive(Clone, Copy, Debug, PartialEq, Eq, Structural)]
pub struct StakeVaultInitialized {
    pub admin: Address,
    pub token: Address,
}

/// Emitted when a user stakes.
#[derive(Clone, Copy, Debug, PartialEq, Eq, Structural)]
pub struct Staked {
    pub user: Address,
    pub amount: i128,
    pub total_staked: i128,
    pub lock_timestamp: u64,
}

/// Emitted when a user withdraws the stake.
#[derive(Clone, Copy, Debug, PartialEq, Eq, Structural)]
pub struct Unstaked {
    pub user: Address,
    pub amount: i128,
}

/// Emitted when the contract WASM is upgraded.
#[derive(Clone, Copy, Debug, PartialEq, Eq)]
pub struct ContractUpgraded {
    pub admin: Address,
    pub new_wasm_hash: Hash32,
}

/// An event published by the stake vault.
#[derive(Clone, Copy, Debug, PartialEq, Eq)]
pub enum StakeVaultEvent {
    StakeVaultInitialized(StakeVaultInitialized),
    Staked(Staked),
    Unstaked(Unstaked),
    ContractUpgraded(ContractUpgraded),
    TransferProposed(TransferProposed),
    TransferAccepted(TransferAccepted),
    TransferCancelled(TransferCancelled),
}

/// The multiplier (in hundredths) of a stake of `amount`.
pub open spec fn multiplier_for(amount: int) -> u32 {
    if amount >= TIER_HIGH_STAKE_BOUND {
        STAKE_TIER_HIGH_BPS
    } else if amount >= TIER_LOW_STAKE_BOUND {
        STAKE_TIER_LOW_BPS
    } else {
        STAKE_TIER_NONE_BPS
    }
}

/// The abstract state of the stake vault.
pub struct StakeVaultView {
    pub address: Address,
    pub admin: Option<Address>,
    pub token: Option<Address>,
    pub stakes: Map<Address, StakeInfo>,
    pub pending_admin: Option<PendingTransfer>,
    pub events: Seq<StakeVaultEvent>,
}

impl StakeVaultView {
    /// The staked amount of `user` (0 without a stake).
    pub open spec fn staked(self, user: Address) -> int {
        if self.stakes.contains_key(user) {
            self.stakes[user].amount as int
        } else {
            0
        }
    }

    /// The state after `user` stakes `amount` more at `now`.
    pub open spec fn after_stake(self, user: Address, amount: i128, now: u64) -> StakeVaultView {
        let total = (self.staked(user) + amount) as i128;
        StakeVaultView {
            stakes: self.stakes.insert(user, StakeInfo { amount: total, lock_timestamp: now }),
            events: self.events.push(
                StakeVaultEvent::Staked(Staked { user, amount, total_staked: total, lock_timestamp: now }),
            ),
            ..self
        }
    }

    /// The state after `user` withdraws the stake.
    pub open spec fn after_unstake(self, user: Address) -> StakeVaultView {
        StakeVaultView {
            stakes: self.stakes.remove(user),
            events: self.events.push(
                StakeVaultEvent::Unstaked(Unstaked { user, amount: self.stakes[user].amount }),
            ),
            ..self
        }
    }

    /// The outcome of `stake`.
    pub open spec fn stake_check(self, amount: i128) -> Result<(), Error> {
        if amount <= 0 {
            Err(Error::AmountNotPositive)
        } else if self.token is None {
            Err(Error::NotInitialized)
        } else {
            Ok(())
        }
    }

    /// The outcome of `unstake` at ledger time `now`.
    pub open spec fn unstake_check(self, user: Address, now: u64) -> Result<(), Error> {
        if !self.stakes.contains_key(user) {
            Err(Error::NoStakeFound)
        } else if now < self.stakes[user].lock_timestamp + DEFAULT_LOCK_PERIOD_SECONDS {
            Err(Error::LockPeriodActive)
        } else if self.token is None {
            Err(Error::NotInitialized)
        } else {
            Ok(())
        }
    }
}

/// The storage of a stake vault as plain entries, for a host to keep between
/// invocations.
pub struct StakeVaultStorage {
    pub address: Address,
    pub admin: Option<Address>,
    pub token: Option<Address>,
    pub stakes: Vec<(Address, StakeInfo)>,
    pub pending_admin: Option<PendingTransfer>,
}

impl StakeVaultStorage {
    /// The vault state that this storage holds, with an empty event log.
    pub open spec fn state(self) -> StakeVaultView {
        StakeVaultView {
            address: self.address,
            admin: self.admin,
            token: self.token,
            stakes: entries_map(self.stakes@),
            pending_admin: self.pending_admin,
            events: Seq::empty(),
        }
    }
}

/// The stake vault contract.
pub struct StakeVault {
    address: Address,
    admin: Option<Address>,
    token: Option<Address>,
    stakes: HashMap<u64, StakeInfo>,
    pending_admin: Option<PendingTransfer>,
    events: Vec<StakeVaultEvent>,
}

impl View for StakeVault {
    type V = StakeVaultView;

    closed spec fn view(&self) -> StakeVaultView {
        StakeVaultView {
            address: self.address,
            admin: self.admin,
            token: self.token,
            stakes: Map::new(|a: Address| self.stakes@.contains_key(a.id), |a: Address| self.stakes@[a.id]),
            pending_admin: self.pending_admin,
            events: self.events@,
        }
    }
}

impl StakeVault {
    /// A freshly deployed, uninitialized vault at `address`.
    pub fn new(address: Address) -> (c: Self)
        ensures
            c@ == (StakeVaultView {
                address,
                admin: None,
                token: None,
                stakes: Map::empty(),
                pending_admin: None,
                events: Seq::empty(),
            }),
    {
        let c = StakeVault {
            address,
            admin: None,
            token: None,
            stakes: HashMap::new(),
            pending_admin: None,
            events: Vec::new(),
        };
        assert(c@.stakes =~= Map::<Address, StakeInfo>::empty());
        c
    }

    /// The vault's storage as plain entries, each user once.
    pub fn save(&self) -> (s: StakeVaultStorage)
        ensures
            s.state() == (StakeVaultView { events: Seq::empty(), ..self@ }),
            keys_distinct(s.stakes@),
    {
        let stakes = addr_entries_of(&self.stakes);
        assert(addr_view(self.stakes@) =~= self@.stakes);
        StakeVaultStorage {
            address: self.address,
            admin: self.admin,
            token: self.token,
            stakes,
            pending_admin: self.pending_admin,
        }
    }

    /// The vault holding `s`, with an empty event log.
    pub fn load(s: StakeVaultStorage) -> (c: StakeVault)
        ensures
            c@ == s.state(),
    {
        let stakes = addr_map_of(&s.stakes);
        let c = StakeVault {
            address: s.address,
            admin: s.admin,
            token: s.token,
            stakes,
            pending_admin: s.pending_admin,
            events: Vec::new(),
        };
        assert(c@.stakes =~= addr_view(stakes@));
        c
    }

    /// The contract's own address.
    pub fn address(&self) -> (a: Address)
        ensures
            a == self@.address,
    {
        self.address
    }

    /// The stored admin, if any.
    pub fn admin(&self) -> (a: Option<Address>)
        ensures
            a == self@.admin,
    {
        self.admin
    }

    /// The stored staking token, if any.
    pub fn token(&self) -> (a: Option<Address>)
        ensures
            a == self@.token,
    {
        self.token
    }

    /// Every event published so far, oldest first.
    pub fn events(&self) -> (e: &Vec<StakeVaultEvent>)
        ensures
            e@ == self@.events,
    {
        &self.events
    }

    /// The stored stake of `user`, if any.
    pub fn user_stake(&self, user: Address) -> (s: Option<StakeInfo>)
        ensures
            match s {
                Some(i) => self@.stakes.contains_key(user) && i == self@.stakes[user],
                None => !self@.stakes.contains_key(user),
            },
    {
        match self.stakes.get(&user.id) {
            Some(i) => Some(*i),
            None => None,
        }
    }

    /// Initializes the vault with its admin and staking token.
    pub fn initialize(&mut self, admin: Address, token: Address) -> (r: Result<(), Error>)
        ensures
            old(self)@.admin is Some ==> r == Err::<(), Error>(Error::AlreadyInitialized)
                && final(self)@ == old(self)@,
            old(self)@.admin is None ==> r is Ok && final(self)@ == (StakeVaultView {
                admin: Some(admin),
                token: Some(token),
                events: old(self)@.events.push(
                    StakeVaultEvent::StakeVaultInitialized(StakeVaultInitialized { admin, token }),
                ),
                ..old(self)@
            }),
    {
        if self.admin.is_some() {
            return Err(Error::AlreadyInitialized);
        }
        self.admin = Some(admin);
        self.token = Some(token);
        self.events.push(StakeVaultEvent::StakeVaultInitialized(StakeVaultInitialized { admin, token }));
        Ok(())
    }

    /// Locks `amount` more tokens of `user` at ledger time `now`: the stake
    /// grows by `amount` and its lock restarts at `now`. The result is the
    /// token transfer (user to vault) the host must make.
    pub fn stake(&mut self, user: Address, amount: i128, now: u64) -> (r: Result<Call, Error>)
        requires
            old(self)@.staked(user) + amount <= i128::MAX,
        ensures
            match old(self)@.stake_check(amount) {
                Err(e) => r == Err::<Call, Error>(e) && final(self)@ == old(self)@,
                Ok(_) => {
                    let total = (old(self)@.staked(user) + amount) as i128;
                    &&& r == Ok::<Call, Error>(
                        Call::Transfer {
                            token: old(self)@.token.unwrap(),
                            from: user,
                            to: old(self)@.address,
                            amount,
                        },
                    )
                    &&& final(self)@ == old(self)@.after_stake(user, amount, now)
                },
            },
    {
        if amount <= 0 {
            return Err(Error::AmountNotPositive);
        }
        let token = match self.token {
            None => return Err(Error::NotInitialized),
            Some(t) => t,
        };
        let mut info = match self.stakes.get(&user.id) {
            Some(i) => *i,
            None => StakeInfo { amount: 0, lock_timestamp: now },
        };
        info.amount = info.amount + amount;
        info.lock_timestamp = now;
        self.stakes.insert(user.id, info);
        self.events.push(
            StakeVaultEvent::Staked(
                Staked { user, amount, total_staked: info.amount, lock_timestamp: info.lock_timestamp },
            ),
        );
        proof {
            assert(self@.stakes =~= old(self)@.stakes.insert(user, info));
        }
        Ok(Call::Transfer { token, from: user, to: self.address, amount })
    }

    /// Releases the whole stake of `user` at ledger time `now`, once the lock
    /// period has elapsed; the stake slot is cleared. The result is the token
    /// transfer (vault to user) the host must make.
    pub fn unstake(&mut self, user: Address, now: u64) -> (r: Result<Call, Error>)
        requires
            old(self)@.stakes.contains_key(user) ==> old(self)@.stakes[user].lock_timestamp
                + DEFAULT_LOCK_PERIOD_SECONDS <= u64::MAX,
        ensures
            match old(self)@.unstake_check(user, now) {
                Err(e) => r == Err::<Call, Error>(e) && final(self)@ == old(self)@,
                Ok(_) => {
                    let amount = old(self)@.stakes[user].amount;
                    &&& r == Ok::<Call, Error>(
                        Call::Transfer { token: old(self)@.token.unwrap(), from: old(self)@.address, to: user, amount },
                    )
                    &&& final(self)@ == old(self)@.after_unstake(user)
                },
            },
    {
        let info = match self.stakes.get(&user.id) {
            Some(i) => *i,
            None => return Err(Error::NoStakeFound),
        };
        if now < info.lock_timestamp + DEFAULT_LOCK_PERIOD_SECONDS {
            return Err(Error::LockPeriodActive);
        }
        let token = match self.token {
            None => return Err(Error::NotInitialized),
            Some(t) => t,
        };
        self.stakes.remove(&user.id);
        self.events.push(StakeVaultEvent::Unstaked(Unstaked { user, amount: info.amount }));
        proof {
            assert(self@.stakes =~= old(self)@.stakes.remove(user));
        }
        Ok(Call::Transfer { token, from: self.address, to: user, amount: info.amount })
    }

    /// The payout multiplier of `user`, in hundredths: 200 from a stake of 500,
    /// 120 from 100, and 100 otherwise.
    pub fn get_multiplier(&self, user: Address) -> (m: u32)
        ensures
            m == multiplier_for(self@.staked(user)),
    {
        let amount: i128 = match self.stakes.get(&user.id) {
            Some(i) => i.amount,
            None => 0,
        };
        if amount >= TIER_HIGH_STAKE_BOUND {
            STAKE_TIER_HIGH_BPS
        } else if amount >= TIER_LOW_STAKE_BOUND {
            STAKE_TIER_LOW_BPS
        } else {
            STAKE_TIER_NONE_BPS
        }
    }

    /// Upgrades the contract WASM; admin only.
    pub fn upgrade_contract(&mut self, admin: Address, new_wasm_hash: Hash32) -> (r: Result<Call, Error>)
        ensures
            match old(self)@.admin {
                None => r == Err::<Call, Error>(Error::NotInitialized) && final(self)@ == old(self)@,
                Some(a) => if a != admin {
                    r == Err::<Call, Error>(Error::Unauthorized) && final(self)@ == old(self)@
                } else {
                    r == Ok::<Call, Error>(Call::UpdateWasm { new_wasm_hash }) && final(self)@ == (StakeVaultView {
                        events: old(self)@.events.push(
                            StakeVaultEvent::ContractUpgraded(ContractUpgraded { admin, new_wasm_hash }),
                        ),
                        ..old(self)@
                    })
                },
            },
    {
        let stored = match self.admin {
            None => return Err(Error::NotInitialized),
            Some(a) => a,
        };
        if admin != stored {
            return Err(Error::Unauthorized);
        }
        self.events.push(StakeVaultEvent::ContractUpgraded(ContractUpgraded { admin, new_wasm_hash }));
        Ok(Call::UpdateWasm { new_wasm_hash })
    }

    /// Stage 1 of the admin hand-over: the admin proposes `proposed` at time `now`.
    pub fn propose_new_admin(&mut self, current_admin: Address, proposed: Address, now: u64) -> (r: Result<(), Error>)
        ensures
            match two_step::propose_result(old(self)@.admin, current_admin, proposed, now) {
                Err(e) => r == Err::<(), Error>(admin_transfer_error(e)) && final(self)@ == old(self)@,
                Ok(p) => r is Ok && final(self)@ == (StakeVaultView {
                    pending_admin: Some(p),
                    events: old(self)@.events.push(
                        StakeVaultEvent::TransferProposed(
                            TransferProposed { current: current_admin, proposed, proposed_at: now },
                        ),
                    ),
                    ..old(self)@
                }),
            },
    {
        match two_step::propose(self.admin, current_admin, proposed, now) {
            Err(e) => Err(map_admin_transfer_error(e)),
            Ok(p) => {
                self.pending_admin = Some(p);
                self.events.push(
                    StakeVaultEvent::TransferProposed(
                        TransferProposed { current: current_admin, proposed, proposed_at: now },
                    ),
                );
                Ok(())
            },
        }
    }

    /// Stage 2 of the admin hand-over: the proposed address becomes the admin.
    pub fn accept_admin_ownership(&mut self, acceptor: Address) -> (r: Result<(), Error>)
        ensures
            match two_step::accept_result(old(self)@.pending_admin, acceptor) {
                Err(e) => r == Err::<(), Error>(admin_transfer_error(e)) && final(self)@ == old(self)@,
                Ok(a) => r is Ok && final(self)@ == (StakeVaultView {
                    admin: Some(a),
                    pending_admin: None,
                    events: old(self)@.events.push(
                        StakeVaultEvent::TransferAccepted(TransferAccepted { new_value: a }),
                    ),
                    ..old(self)@
                }),
            },
    {
        match two_step::accept(self.pending_admin, acceptor) {
            Err(e) => Err(map_admin_transfer_error(e)),
            Ok(a) => {
                self.admin = Some(a);
                self.pending_admin = None;
                self.events.push(StakeVaultEvent::TransferAccepted(TransferAccepted { new_value: a }));
                Ok(())
            },
        }
    }

    /// Cancels a pending admin hand-over; allowed to the proposed address and
    /// to the admin.
    pub fn cancel_admin_transfer(&mut self, caller: Address) -> (r: Result<(), Error>)
        ensures
            match two_step::cancel_result(old(self)@.pending_admin, old(self)@.admin, caller) {
                Err(e) => r == Err::<(), Error>(admin_transfer_error(e)) && final(self)@ == old(self)@,
                Ok(w) => r is Ok && final(self)@ == (StakeVaultView {
                    pending_admin: None,
                    events: old(self)@.events.push(
                        StakeVaultEvent::TransferCancelled(TransferCancelled { cancelled_by: caller, was_proposed: w }),
                    ),
                    ..old(self)@
                }),
            },
    {
        match two_step::cancel(self.pending_admin, self.admin, caller) {
            Err(e) => Err(map_admin_transfer_error(e)),
            Ok(w) => {
                self.pending_admin = None;
                self.events.push(
                    StakeVaultEvent::TransferCancelled(TransferCancelled { cancelled_by: caller, was_proposed: w }),
                );
                Ok(())
            },
        }
    }
}

/// Stakes accumulate and every stake restarts the lock: after staking at
/// `now` the stake cannot be withdrawn before `now + DEFAULT_LOCK_PERIOD_SECONDS`
/// and can be from then on; other users' stakes are untouched.
pub proof fn lemma_stake_accumulates_and_relocks(v: StakeVaultView, user: Address, amount: i128, now: u64, t: u64, other: Address)
    requires
        v.stake_check(amount) is Ok,
        v.staked(user) + amount <= i128::MAX,
        now + DEFAULT_LOCK_PERIOD_SECONDS <= u64::MAX,
    ensures
        v.after_stake(user, amount, now).staked(user) == v.staked(user) + amount,
        other != user ==> v.after_stake(user, amount, now).staked(other) == v.staked(other),
        t < now + DEFAULT_LOCK_PERIOD_SECONDS ==> v.after_stake(user, amount, now).unstake_check(user, t)
            == Err::<(), Error>(Error::LockPeriodActive),
        t >= now + DEFAULT_LOCK_PERIOD_SECONDS ==> v.after_stake(user, amount, now).unstake_check(user, t) is Ok,
{
}

/// A stake is withdrawn once: afterwards the user has no stake and another
/// withdrawal is refused.
pub proof fn lemma_unstake_once(v: StakeVaultView, user: Address, now: u64, later: u64)
    requires
        v.unstake_check(user, now) is Ok,
    ensures
        v.after_unstake(user).staked(user) == 0,
        v.after_unstake(user).unstake_check(user, later) == Err::<(), Error>(Error::NoStakeFound),
{
}

/// The multiplier is one of the three tiers and never decreases as the stake
/// grows.
pub proof fn lemma_multiplier_tiers(a: int, b: int)
    ensures
        multiplier_for(a) == STAKE_TIER_NONE_BPS || multiplier_for(a) == STAKE_TIER_LOW_BPS || multiplier_for(a)
            == STAKE_TIER_HIGH_BPS,
        a <= b ==> multiplier_for(a) <= multiplier_for(b),
        a < TIER_LOW_STAKE_BOUND ==> multiplier_for(a) == STAKE_TIER_NONE_BPS,
{
}

} // verus!
