//! Central reward distribution: holds the reward-token balance and pays out
//! only to callers on an approved-spender allowlist, behind a pause switch.
//! The admin may sweep the whole balance to a recovery wallet and hands the
//! admin role over in two steps.

use vstd::prelude::*;
use std::collections::HashMap;
use crate::common::{Address, Hash32};
use crate::errors::Error;
use crate::host::Call;
use crate::storage::{addr_entries_of, addr_map_of, addr_view, entries_map, keys_distinct};
use crate::two_step::{
    self, admin_transfer_error, map_admin_transfer_error, PendingTransfer, TransferAccepted,
    TransferCancelled, TransferProposed,
};

verus! {

/// Decimals of the reward token (7 = USDC on Stellar).
pub const REWARD_TOKEN_DECIMALS: u32 = 7;

/// Advisory maximum number of approved spenders (not enforced).
pub const MAX_SPENDERS: u32 = 256;

/// Smallest payout that `distribute_reward` accepts.
pub const MIN_PAYOUT_AMOUNT: i128 = 1;

/// Platform fee in basis points (15%).
pub const PLATFORM_FEE_BASIS_POINTS: u32 = 1500;

/// Emitted when the pool is initialized.
#[derive(Clone, Copy, Debug, PartialEq, Eq, Structural)]
pub struct PoolInitialized {
    pub admin: Address,
    pub token: Address,
}

/// Emitted when a spender is approved.
#[derive(Clone, Copy, Debug, PartialEq, Eq, Structural)]
pub struct SpenderAdded {
    pub spender: Address,
}

/// Emitted when a reward is paid out.
#[derive(Clone, Copy, Debug, PartialEq, Eq, Structural)]
pub struct RewardDistributed {
    pub caller: Address,
    pub learner: Address,
    pub amount: i128,
}

/// Emitted when a donor funds the pool.
#[derive(Clone, Copy, Debug, PartialEq, Eq, Structural)]
pub struct PoolFunded {
    pub donor: Address,
    pub amount: i128,
}

/// Emitted when the admin sweeps the pool.
#[derive(Clone, Copy, Debug, PartialEq, Eq, Structural)]
pub struct EmergencySweep {
    pub admin: Address,
    pub recovery_wallet: Address,
    pub amount: i128,
}

/// Emitted when the contract WASM is upgraded.
#[derive(Clone, Copy, Debug, PartialEq, Eq)]
pub struct ContractUpgraded {
    pub admin: Address,
    pub new_wasm_hash: Hash32,
}

/// An event published by the reward pool.
#[derive(Clone, Copy, Debug, PartialEq, Eq)]
pub enum RewardPoolEvent {
    PoolInitialized(PoolInitialized),
    SpenderAdded(SpenderAdded),
    RewardDistributed(RewardDistributed),
    PoolFunded(PoolFunded),
    EmergencySweep(EmergencySweep),
    ContractUpgraded(ContractUpgraded),
    TransferProposed(TransferProposed),
    TransferAccepted(TransferAccepted),
    TransferCancelled(TransferCancelled),
}

/// The abstract state of the reward pool.
pub struct RewardPoolView {
    pub address: Address,
    pub admin: Option<Address>,
    /// The reward token contract.
    pub token: Option<Address>,
    /// The stored spender flags.
    pub spenders: Map<Address, bool>,
    /// The stored pause flag (absent until first set).
    pub paused: Option<bool>,
    pub pending_admin: Option<PendingTransfer>,
    pub events: Seq<RewardPoolEvent>,
}

impl RewardPoolView {
    /// Whether `spender` may draw rewards.
    pub open spec fn is_spender(self, spender: Address) -> bool {
        self.spenders.contains_key(spender) && self.spenders[spender]
    }

    /// Whether payouts are paused.
    pub open spec fn is_paused(self) -> bool {
        self.paused == Some(true)
    }

    /// The admin check of the privileged entry points.
    pub open spec fn admin_check(self, caller: Address) -> Result<(), Error> {
        match self.admin {
            None => Err(Error::NotInitialized),
            Some(a) => if a != caller { Err(Error::Unauthorized) } else { Ok(()) },
        }
    }

    /// The state after `spender` is approved.
    pub open spec fn after_add_spender(self, spender: Address) -> RewardPoolView {
        RewardPoolView {
            spenders: self.spenders.insert(spender, true),
            events: self.events.push(RewardPoolEvent::SpenderAdded(SpenderAdded { spender })),
            ..self
        }
    }

    /// The state after the pause flag is set to `status`.
    pub open spec fn after_set_pause(self, status: bool) -> RewardPoolView {
        RewardPoolView { paused: Some(status), ..self }
    }

    /// The state after `caller` pays `amount` to `learner`.
    pub open spec fn after_distribute(self, caller: Address, learner: Address, amount: i128) -> RewardPoolView {
        RewardPoolView {
            events: self.events.push(
                RewardPoolEvent::RewardDistributed(RewardDistributed { caller, learner, amount }),
            ),
            ..self
        }
    }

    /// The token transfer of a payout of `amount` to `learner`.
    pub open spec fn payout_transfer(self, learner: Address, amount: i128) -> Call {
        Call::Transfer { token: self.token.unwrap(), from: self.address, to: learner, amount }
    }

    /// The outcome of `distribute_reward`.
    pub open spec fn distribute_check(self, caller: Address, amount: i128) -> Result<(), Error> {
        if self.is_paused() {
            Err(Error::ContractPaused)
        } else if amount <= 0 {
            Err(Error::AmountNotPositive)
        } else if self.token is None {
            Err(Error::NotInitialized)
        } else if !self.is_spender(caller) {
            Err(Error::NotAuthorizedSpender)
        } else {
            Ok(())
        }
    }
}

/// The storage of a reward pool as plain entries, for a host to keep between
/// invocations.
pub struct RewardPoolStorage {
    pub address: Address,
    pub admin: Option<Address>,
    pub token: Option<Address>,
    pub spenders: Vec<(Address, bool)>,
    pub paused: Option<bool>,
    pub pending_admin: Option<PendingTransfer>,
}

impl RewardPoolStorage {
    /// The pool state that this storage holds, with an empty event log.
    pub open spec fn state(self) -> RewardPoolView {
        RewardPoolView {
            address: self.address,
            admin: self.admin,
            token: self.token,
            spenders: entries_map(self.spenders@),
            paused: self.paused,
            pending_admin: self.pending_admin,
            events: Seq::empty(),
        }
    }
}

/// The reward pool contract.
pub struct RewardPool {
    address: Address,
    admin: Option<Address>,
    token: Option<Address>,
    spenders: HashMap<u64, bool>,
    paused: Option<bool>,
    pending_admin: Option<PendingTransfer>,
    events: Vec<RewardPoolEvent>,
}

impl View for RewardPool {
    type V = RewardPoolView;

    closed spec fn view(&self) -> RewardPoolView {
        RewardPoolView {
            address: self.address,
            admin: self.admin,
            token: self.token,
            spenders: Map::new(|a: Address| self.spenders@.contains_key(a.id), |a: Address| self.spenders@[a.id]),
            paused: self.paused,
            pending_admin: self.pending_admin,
            events: self.events@,
        }
    }
}

impl RewardPool {
    /// A freshly deployed, uninitialized reward pool at `address`.
    pub fn new(address: Address) -> (c: Self)
        ensures
            c@ == (RewardPoolView {
                address,
                admin: None,
                token: None,
                spenders: Map::empty(),
                paused: None,
                pending_admin: None,
                events: Seq::empty(),
            }),
    {
        let c = RewardPool {
            address,
            admin: None,
            token: None,
            spenders: HashMap::new(),
            paused: None,
            pending_admin: None,
            events: Vec::new(),
        };
        assert(c@.spenders =~= Map::<Address, bool>::empty());
        c
    }

    /// The pool's storage as plain entries, each spender once.
    pub fn save(&self) -> (s: RewardPoolStorage)
        ensures
            s.state() == (RewardPoolView { events: Seq::empty(), ..self@ }),
            keys_distinct(s.spenders@),
    {
        let spenders = addr_entries_of(&self.spenders);
        assert(addr_view(self.spenders@) =~= self@.spenders);
        RewardPoolStorage {
            address: self.address,
            admin: self.admin,
            token: self.token,
            spenders,
            paused: self.paused,
            pending_admin: self.pending_admin,
        }
    }

    /// The pool holding `s`, with an empty event log.
    pub fn load(s: RewardPoolStorage) -> (c: RewardPool)
        ensures
            c@ == s.state(),
    {
        let spenders = addr_map_of(&s.spenders);
        let c = RewardPool {
            address: s.address,
            admin: s.admin,
            token: s.token,
            spenders,
            paused: s.paused,
            pending_admin: s.pending_admin,
            events: Vec::new(),
        };
        assert(c@.spenders =~= addr_view(spenders@));
        c
    }

    /// The contract's own address.
    pub fn address(&self) -> (a: Address)
        ensures
            a == self@.address,
    {
        self.address
    }

    /// The stored admin, if any.
    pub fn admin(&self) -> (a: Option<Address>)
        ensures
            a == self@.admin,
    {
        self.admin
    }

    /// The stored reward token, if any.
    pub fn token(&self) -> (a: Option<Address>)
        ensures
            a == self@.token,
    {
        self.token
    }

    /// The stored pause flag (`None` until the first `set_pause`).
    pub fn paused_flag(&self) -> (p: Option<bool>)
        ensures
            p == self@.paused,
    {
        self.paused
    }

    /// Whether `spender` is on the allowlist.
    pub fn is_approved_spender(&self, spender: Address) -> (b: bool)
        ensures
            b == self@.is_spender(spender),
    {
        match self.spenders.get(&spender.id) {
            Some(b) => *b,
            None => false,
        }
    }

    /// Every event published so far, oldest first.
    pub fn events(&self) -> (e: &Vec<RewardPoolEvent>)
        ensures
            e@ == self@.events,
    {
        &self.events
    }

    fn check_admin(&self, caller: Address) -> (r: Result<(), Error>)
        ensures
            r == self@.admin_check(caller),
    {
        match self.admin {
            None => Err(Error::NotInitialized),
            Some(a) => if a != caller { Err(Error::Unauthorized) } else { Ok(()) },
        }
    }

    /// Initializes the pool with its admin and reward token.
    pub fn initialize(&mut self, admin: Address, token: Address) -> (r: Result<(), Error>)
        ensures
            old(self)@.admin is Some ==> r == Err::<(), Error>(Error::AlreadyInitialized)
                && final(self)@ == old(self)@,
            old(self)@.admin is None ==> r is Ok && final(self)@ == (RewardPoolView {
                admin: Some(admin),
                token: Some(token),
                events: old(self)@.events.push(
                    RewardPoolEvent::PoolInitialized(PoolInitialized { admin, token }),
                ),
                ..old(self)@
            }),
    {
        if self.admin.is_some() {
            return Err(Error::AlreadyInitialized);
        }
        self.admin = Some(admin);
        self.token = Some(token);
        self.events.push(RewardPoolEvent::PoolInitialized(PoolInitialized { admin, token }));
        Ok(())
    }

    /// Adds `spender` to the allowlist (idempotent). Admin only.
    pub fn add_approved_spender(&mut self, admin: Address, spender: Address) -> (r: Result<(), Error>)
        ensures
            r == old(self)@.admin_check(admin),
            r is Err ==> final(self)@ == old(self)@,
            r is Ok ==> final(self)@ == old(self)@.after_add_spender(spender),
    {
        self.check_admin(admin)?;
        self.spenders.insert(spender.id, true);
        self.events.push(RewardPoolEvent::SpenderAdded(SpenderAdded { spender }));
        proof {
            assert(self@.spenders =~= old(self)@.spenders.insert(spender, true));
        }
        Ok(())
    }

    /// Sets the pause flag (emergency circuit breaker). Admin only.
    pub fn set_pause(&mut self, admin: Address, status: bool) -> (r: Result<(), Error>)
        ensures
            r == old(self)@.admin_check(admin),
            r is Err ==> final(self)@ == old(self)@,
            r is Ok ==> final(self)@ == old(self)@.after_set_pause(status),
    {
        self.check_admin(admin)?;
        self.paused = Some(status);
        Ok(())
    }

    /// Whether `distribute_reward` by `caller` of `amount` would be accepted;
    /// if not, the error it would report.
    pub fn check_distribute(&self, caller: Address, amount: i128) -> (r: Result<(), Error>)
        ensures
            r == self@.distribute_check(caller, amount),
    {
        if self.paused == Some(true) {
            return Err(Error::ContractPaused);
        }
        if amount <= 0 {
            return Err(Error::AmountNotPositive);
        }
        if self.token.is_none() {
            return Err(Error::NotInitialized);
        }
        if !self.is_approved_spender(caller) {
            return Err(Error::NotAuthorizedSpender);
        }
        Ok(())
    }

    /// Pays `amount` reward tokens from the pool to `learner` on behalf of the
    /// approved spender `caller`. The result is the token transfer the host
    /// must make.
    pub fn distribute_reward(&mut self, caller: Address, learner: Address, amount: i128) -> (r: Result<Call, Error>)
        ensures
            match old(self)@.distribute_check(caller, amount) {
                Err(e) => r == Err::<Call, Error>(e) && final(self)@ == old(self)@,
                Ok(_) => r == Ok::<Call, Error>(old(self)@.payout_transfer(learner, amount))
                    && final(self)@ == old(self)@.after_distribute(caller, learner, amount),
            },
    {
        self.check_distribute(caller, amount)?;
        let token = match self.token {
            None => return Err(Error::NotInitialized),
            Some(t) => t,
        };
        self.events.push(RewardPoolEvent::RewardDistributed(RewardDistributed { caller, learner, amount }));
        Ok(Call::Transfer { token, from: self.address, to: learner, amount })
    }

    /// Funds the pool with `amount` tokens from `donor`. The result is the
    /// token transfer the host must make.
    pub fn fund_pool(&mut self, donor: Address, amount: i128) -> (r: Result<Call, Error>)
        ensures
            match old(self)@.token {
                None => r == Err::<Call, Error>(Error::NotInitialized) && final(self)@ == old(self)@,
                Some(t) => r == Ok::<Call, Error>(
                    Call::Transfer { token: t, from: donor, to: old(self)@.address, amount },
                ) && final(self)@ == (RewardPoolView {
                    events: old(self)@.events.push(RewardPoolEvent::PoolFunded(PoolFunded { donor, amount })),
                    ..old(self)@
                }),
            },
    {
        let token = match self.token {
            None => return Err(Error::NotInitialized),
            Some(t) => t,
        };
        self.events.push(RewardPoolEvent::PoolFunded(PoolFunded { donor, amount }));
        Ok(Call::Transfer { token, from: donor, to: self.address, amount })
    }

    /// Moves the pool's whole token balance, `balance` (as the token contract
    /// reports it), to `recovery_wallet`. Admin only. The result is the token
    /// transfer the host must make.
    pub fn emergency_sweep(&mut self, admin: Address, recovery_wallet: Address, balance: i128) -> (r: Result<Call, Error>)
        ensures
            match old(self)@.admin_check(admin) {
                Err(e) => r == Err::<Call, Error>(e) && final(self)@ == old(self)@,
                Ok(_) => match old(self)@.token {
                    None => r == Err::<Call, Error>(Error::NotInitialized) && final(self)@ == old(self)@,
                    Some(t) => r == Ok::<Call, Error>(
                        Call::Transfer { token: t, from: old(self)@.address, to: recovery_wallet, amount: balance },
                    ) && final(self)@ == (RewardPoolView {
                        events: old(self)@.events.push(
                            RewardPoolEvent::EmergencySweep(EmergencySweep { admin, recovery_wallet, amount: balance }),
                        ),
                        ..old(self)@
                    }),
                },
            },
    {
        self.check_admin(admin)?;
        let token = match self.token {
            None => return Err(Error::NotInitialized),
            Some(t) => t,
        };
        self.events.push(
            RewardPoolEvent::EmergencySweep(EmergencySweep { admin, recovery_wallet, amount: balance }),
        );
        Ok(Call::Transfer { token, from: self.address, to: recovery_wallet, amount: balance })
    }

    /// Upgrades the contract WASM; admin only.
    pub fn upgrade_contract(&mut self, admin: Address, new_wasm_hash: Hash32) -> (r: Result<Call, Error>)
        ensures
            match old(self)@.admin_check(admin) {
                Err(e) => r == Err::<Call, Error>(e) && final(self)@ == old(self)@,
                Ok(_) => r == Ok::<Call, Error>(Call::UpdateWasm { new_wasm_hash }) && final(self)@ == (RewardPoolView {
                    events: old(self)@.events.push(
                        RewardPoolEvent::ContractUpgraded(ContractUpgraded { admin, new_wasm_hash }),
                    ),
                    ..old(self)@
                }),
            },
    {
        self.check_admin(admin)?;
        self.events.push(RewardPoolEvent::ContractUpgraded(ContractUpgraded { admin, new_wasm_hash }));
        Ok(Call::UpdateWasm { new_wasm_hash })
    }

    /// Stage 1 of the admin hand-over: the admin proposes `proposed` at time `now`.
    pub fn propose_new_admin(&mut self, current_admin: Address, proposed: Address, now: u64) -> (r: Result<(), Error>)
        ensures
            match two_step::propose_result(old(self)@.admin, current_admin, proposed, now) {
                Err(e) => r == Err::<(), Error>(admin_transfer_error(e)) && final(self)@ == old(self)@,
                Ok(p) => r is Ok && final(self)@ == (RewardPoolView {
                    pending_admin: Some(p),
                    events: old(self)@.events.push(
                        RewardPoolEvent::TransferProposed(
                            TransferProposed { current: current_admin, proposed, proposed_at: now },
                        ),
                    ),
                    ..old(self)@
                }),
            },
    {
        match two_step::propose(self.admin, current_admin, proposed, now) {
            Err(e) => Err(map_admin_transfer_error(e)),
            Ok(p) => {
                self.pending_admin = Some(p);
                self.events.push(
                    RewardPoolEvent::TransferProposed(
                        TransferProposed { current: current_admin, proposed, proposed_at: now },
                    ),
                );
                Ok(())
            },
        }
    }

    /// Stage 2 of the admin hand-over: the proposed address becomes the admin.
    pub fn accept_admin_ownership(&mut self, acceptor: Address) -> (r: Result<(), Error>)
        ensures
            match two_step::accept_result(old(self)@.pending_admin, acceptor) {
                Err(e) => r == Err::<(), Error>(admin_transfer_error(e)) && final(self)@ == old(self)@,
                Ok(a) => r is Ok && final(self)@ == (RewardPoolView {
                    admin: Some(a),
                    pending_admin: None,
                    events: old(self)@.events.push(
                        RewardPoolEvent::TransferAccepted(TransferAccepted { new_value: a }),
                    ),
                    ..old(self)@
                }),
            },
    {
        match two_step::accept(self.pending_admin, acceptor) {
            Err(e) => Err(map_admin_transfer_error(e)),
            Ok(a) => {
                self.admin = Some(a);
                self.pending_admin = None;
                self.events.push(RewardPoolEvent::TransferAccepted(TransferAccepted { new_value: a }));
                Ok(())
            },
        }
    }

    /// Cancels a pending admin hand-over; allowed to the proposed address and
    /// to the admin.
    pub fn cancel_admin_transfer(&mut self, caller: Address) -> (r: Result<(), Error>)
        ensures
            match two_step::cancel_result(old(self)@.pending_admin, old(self)@.admin, caller) {
                Err(e) => r == Err::<(), Error>(admin_transfer_error(e)) && final(self)@ == old(self)@,
                Ok(w) => r is Ok && final(self)@ == (RewardPoolView {
                    pending_admin: None,
                    events: old(self)@.events.push(
                        RewardPoolEvent::TransferCancelled(TransferCancelled { cancelled_by: caller, was_proposed: w }),
                    ),
                    ..old(self)@
                }),
            },
    {
        match two_step::cancel(self.pending_admin, self.admin, caller) {
            Err(e) => Err(map_admin_transfer_error(e)),
            Ok(w) => {
                self.pending_admin = None;
                self.events.push(
                    RewardPoolEvent::TransferCancelled(TransferCancelled { cancelled_by: caller, was_proposed: w }),
                );
                Ok(())
            },
        }
    }
}

/// While the pool is paused no reward is paid out; pausing and unpausing
/// toggle exactly that.
pub proof fn lemma_pause_gates_payouts(v: RewardPoolView, caller: Address, amount: i128)
    ensures
        v.is_paused() ==> v.distribute_check(caller, amount) == Err::<(), Error>(Error::ContractPaused),
        v.after_set_pause(true).distribute_check(caller, amount) == Err::<(), Error>(Error::ContractPaused),
        !v.after_set_pause(false).is_paused(),
        v.after_set_pause(false).distribute_check(caller, amount) == v.after_set_pause(true).after_set_pause(
            false,
        ).distribute_check(caller, amount),
{
}

/// An approved spender may draw any positive amount from an initialized,
/// unpaused pool; approving one spender does not approve another.
pub proof fn lemma_approved_spender_may_distribute(v: RewardPoolView, spender: Address, other: Address, amount: i128)
    ensures
        v.after_add_spender(spender).is_spender(spender),
        other != spender ==> v.after_add_spender(spender).is_spender(other) == v.is_spender(other),
        !v.is_paused() && v.token is Some && amount > 0 ==> v.after_add_spender(spender).distribute_check(
            spender,
            amount,
        ) is Ok,
        !v.is_spender(spender) && !v.is_paused() && v.token is Some && amount > 0 ==> v.distribute_check(
            spender,
            amount,
        ) == Err::<(), Error>(Error::NotAuthorizedSpender),
{
}

} // verus!
