//! Soulbound badge issuance, retrieval and admin revocation.
//!
//! Each badge is tied to a `(learner, course_id)` pair and is non-transferable.
//! Only the stored admin (the protocol registry) may mint or revoke badges,
//! and a learner holds at most one badge per course and at most
//! `MAX_BADGES_PER_LEARNER` badges in all.

use vstd::prelude::*;
use std::collections::HashMap;
use crate::common::{Address, Badge, Hash32};
use crate::errors::Error;
use crate::host::Call;
use crate::storage::{entries_map, keys_distinct, keys_of, lemma_entries_map_of};
use crate::two_step::{
    self, admin_transfer_error, map_admin_transfer_error, PendingTransfer, TransferAccepted,
    TransferCancelled, TransferProposed,
};

verus! {

/// Default `minted_at` sentinel used when no ledger timestamp is available.
pub const BADGE_MINTED_AT_DEFAULT: u64 = 0;

/// Hard cap on the number of badges a single learner may hold. Badge lookups
/// scan the learner's list, so the cap bounds their cost.
pub const MAX_BADGES_PER_LEARNER: u32 = 64;

/// Emitted after a badge is minted for a learner.
#[derive(Clone, Copy, Debug, PartialEq, Eq, Structural)]
pub struct BadgeMinted {
    pub learner: Address,
    pub course_id: u32,
    pub minted_at: u64,
}

/// Emitted after a badge is revoked from a learner.
#[derive(Clone, Copy, Debug, PartialEq, Eq, Structural)]
pub struct BadgeRevoked {
    pub learner: Address,
    pub course_id: u32,
}

/// Emitted after the contract WASM is upgraded.
#[derive(Clone, Copy, Debug, PartialEq, Eq)]
pub struct ContractUpgraded {
    pub admin: Address,
    pub new_wasm_hash: Hash32,
}

/// An event published by the badge contract.
#[derive(Clone, Copy, Debug, PartialEq, Eq)]
pub enum BadgeNftEvent {
    BadgeMinted(BadgeMinted),
    BadgeRevoked(BadgeRevoked),
    ContractUpgraded(ContractUpgraded),
    TransferProposed(TransferProposed),
    TransferAccepted(TransferAccepted),
    TransferCancelled(TransferCancelled),
}

/// The abstract state of the badge contract.
pub struct BadgeNftView {
    /// The contract's own address.
    pub address: Address,
    /// The authorized minter (protocol registry).
    pub admin: Option<Address>,
    /// The pending two-step admin hand-over, if any.
    pub pending_admin: Option<PendingTransfer>,
    /// The stored badge list of every learner that has a storage slot.
    pub user_badges: Map<Address, Seq<Badge>>,
    /// Every event published so far, oldest first.
    pub events: Seq<BadgeNftEvent>,
}

/// `badges` holds a badge for `course_id`.
pub open spec fn holds_course(badges: Seq<Badge>, course_id: u32) -> bool {
    exists|i: int| 0 <= i < badges.len() && #[trigger] badges[i].course_id == course_id
}

/// No two badges of `badges` are for the same course.
pub open spec fn courses_unique(badges: Seq<Badge>) -> bool {
    forall|i: int, j: int|
        0 <= i < badges.len() && 0 <= j < badges.len() && i != j ==> #[trigger] badges[i].course_id
            != #[trigger] badges[j].course_id
}

/// The index of the badge for `course_id` in a list that holds one.
pub open spec fn course_index(badges: Seq<Badge>, course_id: u32) -> int {
    choose|i: int| 0 <= i < badges.len() && #[trigger] badges[i].course_id == course_id
}

impl BadgeNftView {
    /// The badges of `learner`; empty when the learner has no slot.
    pub open spec fn badges_of(self, learner: Address) -> Seq<Badge> {
        if self.user_badges.contains_key(learner) {
            self.user_badges[learner]
        } else {
            Seq::empty()
        }
    }

    /// The outcome of `mint_badge`: which error, if any, rejects the call.
    pub open spec fn mint_check(self, caller: Address, learner: Address, course_id: u32) -> Result<(), Error> {
        match self.admin {
            None => Err(Error::ContractNotInitialized),
            Some(a) => if a != caller {
                Err(Error::UnauthorizedRegistry)
            } else if holds_course(self.badges_of(learner), course_id) {
                Err(Error::BadgeAlreadyExists)
            } else if self.badges_of(learner).len() >= MAX_BADGES_PER_LEARNER {
                Err(Error::BadgeLimitReached)
            } else {
                Ok(())
            },
        }
    }

    /// The state after `learner` is minted a badge for `course_id` at `now`.
    pub open spec fn after_mint(self, learner: Address, course_id: u32, now: u64) -> BadgeNftView {
        BadgeNftView {
            user_badges: self.user_badges.insert(
                learner,
                self.badges_of(learner).push(Badge { course_id, minted_at: now }),
            ),
            events: self.events.push(
                BadgeNftEvent::BadgeMinted(BadgeMinted { learner, course_id, minted_at: now }),
            ),
            ..self
        }
    }

    /// The state after the badge of `learner` for `course_id` is revoked
    /// (when the learner holds one).
    pub open spec fn after_revoke(self, learner: Address, course_id: u32) -> BadgeNftView {
        BadgeNftView {
            user_badges: self.user_badges.insert(
                learner,
                self.badges_of(learner).remove(course_index(self.badges_of(learner), course_id)),
            ),
            events: self.events.push(BadgeNftEvent::BadgeRevoked(BadgeRevoked { learner, course_id })),
            ..self
        }
    }

    /// The outcome of `revoke_badge` and `upgrade_contract`'s admin check.
    pub open spec fn admin_check(self, caller: Address, missing: Error, wrong: Error) -> Result<(), Error> {
        match self.admin {
            None => Err(missing),
            Some(a) => if a != caller { Err(wrong) } else { Ok(()) },
        }
    }
}

/// The position of the first badge for `course_id` in `badges`, if any.
fn find_course(badges: &Vec<Badge>, course_id: u32) -> (r: Option<usize>)
    ensures
        match r {
            Some(i) => i < badges@.len() && badges@[i as int].course_id == course_id,
            None => !holds_course(badges@, course_id),
        },
{
    let mut i: usize = 0;
    while i < badges.len()
        invariant
            i <= badges@.len(),
            forall|j: int| 0 <= j < i ==> #[trigger] badges@[j].course_id != course_id,
        decreases badges@.len() - i,
    {
        if badges[i].course_id == course_id {
            return Some(i);
        }
        i += 1;
    }
    None
}

/// Whether no two badges of `badges` are for the same course.
fn distinct_courses(badges: &Vec<Badge>) -> (b: bool)
    ensures
        b == courses_unique(badges@),
{
    let mut i: usize = 0;
    while i < badges.len()
        invariant
            i <= badges@.len(),
            forall|x: int, y: int| 0 <= x < i && 0 <= y < i && x != y ==> #[trigger] badges@[x].course_id
                != #[trigger] badges@[y].course_id,
        decreases badges@.len() - i,
    {
        let mut j: usize = 0;
        while j < i
            invariant
                j <= i < badges@.len(),
                forall|y: int| 0 <= y < j ==> #[trigger] badges@[y].course_id != badges@[i as int].course_id,
            decreases i - j,
        {
            if badges[j].course_id == badges[i].course_id {
                return false;
            }
            j += 1;
        }
        i += 1;
    }
    true
}

/// The storage of a badge contract as plain entries, for a host to keep
/// between invocations.
pub struct BadgeNftStorage {
    pub address: Address,
    pub admin: Option<Address>,
    pub pending_admin: Option<PendingTransfer>,
    pub user_badges: Vec<(Address, Vec<Badge>)>,
}

impl BadgeNftStorage {
    /// The badge lists of this storage as (learner, list) entries.
    pub open spec fn badge_entries(self) -> Seq<(Address, Seq<Badge>)> {
        self.user_badges@.map_values(|e: (Address, Vec<Badge>)| (e.0, e.1@))
    }

    /// The badge state that this storage holds, with an empty event log.
    pub open spec fn state(self) -> BadgeNftView {
        BadgeNftView {
            address: self.address,
            admin: self.admin,
            pending_admin: self.pending_admin,
            user_badges: entries_map(self.badge_entries()),
            events: Seq::empty(),
        }
    }

    /// Every listed badge list holds at most one badge per course and at most
    /// `MAX_BADGES_PER_LEARNER` badges.
    pub open spec fn valid(self) -> bool {
        forall|i: int| 0 <= i < self.user_badges@.len() ==> {
            &&& courses_unique(#[trigger] self.user_badges@[i].1@)
            &&& self.user_badges@[i].1@.len() <= MAX_BADGES_PER_LEARNER
        }
    }
}

/// The badge contract.
pub struct BadgeNFT {
    address: Address,
    admin: Option<Address>,
    pending_admin: Option<PendingTransfer>,
    user_badges: HashMap<u64, Vec<Badge>>,
    events: Vec<BadgeNftEvent>,
}

impl View for BadgeNFT {
    type V = BadgeNftView;

    closed spec fn view(&self) -> BadgeNftView {
        BadgeNftView {
            address: self.address,
            admin: self.admin,
            pending_admin: self.pending_admin,
            user_badges: Map::new(
                |a: Address| self.user_badges@.contains_key(a.id),
                |a: Address| self.user_badges@[a.id]@,
            ),
            events: self.events@,
        }
    }
}

impl BadgeNFT {
    /// Well-formedness: every stored badge list holds at most one badge per
    /// course and at most `MAX_BADGES_PER_LEARNER` badges.
    pub closed spec fn wf(self) -> bool {
        forall|k: u64| #[trigger] self.user_badges@.contains_key(k) ==> {
            &&& courses_unique(self.user_badges@[k]@)
            &&& self.user_badges@[k]@.len() <= MAX_BADGES_PER_LEARNER
        }
    }

    /// A freshly deployed, uninitialized badge contract at `address`.
    pub fn new(address: Address) -> (c: Self)
        ensures
            c.wf(),
            c@.address == address,
            c@.admin is None,
            c@.pending_admin is None,
            c@.user_badges == Map::<Address, Seq<Badge>>::empty(),
            c@.events == Seq::<BadgeNftEvent>::empty(),
    {
        let c = BadgeNFT { address, admin: None, pending_admin: None, user_badges: HashMap::new(), events: Vec::new() };
        assert(c@.user_badges =~= Map::<Address, Seq<Badge>>::empty());
        c
    }

    /// The contract's storage as plain entries, each learner once.
    pub fn save(&self) -> (s: BadgeNftStorage)
        requires
            self.wf(),
        ensures
            s.state() == (BadgeNftView { events: Seq::empty(), ..self@ }),
            s.valid(),
            keys_distinct(s.badge_entries()),
    {
        let keys = keys_of(&self.user_badges);
        let mut out: Vec<(Address, Vec<Badge>)> = Vec::new();
        let mut i: usize = 0;
        while i < keys.len()
            invariant
                self.wf(),
                i <= keys@.len(),
                out@.len() == i,
                forall|x: int| 0 <= x < keys@.len() ==> self.user_badges@.contains_key(#[trigger] keys@[x]),
                forall|x: int| 0 <= x < i ==> #[trigger] out@[x].0 == (Address { id: keys@[x] }) && out@[x].1@
                    == self.user_badges@[keys@[x]]@,
            decreases keys@.len() - i,
        {
            let k = keys[i];
            let v = match self.user_badges.get(&k) {
                Some(v) => v.clone(),
                None => Vec::new(),
            };
            assert(v@ =~= self.user_badges@[k]@);
            out.push((Address { id: k }, v));
            i += 1;
        }
        let ghost outv = out@;
        let s = BadgeNftStorage {
            address: self.address,
            admin: self.admin,
            pending_admin: self.pending_admin,
            user_badges: out,
        };
        proof {
            let e = s.badge_entries();
            assert forall|x: int, y: int| 0 <= x < y < e.len() implies e[x].0 != e[y].0 by {
                assert(keys@[x] != keys@[y]);
            }
            assert forall|x: int| 0 <= x < e.len() implies self@.user_badges.contains_key(#[trigger] e[x].0)
                && self@.user_badges[e[x].0] == e[x].1 by {
            }
            assert forall|a: Address| #[trigger] self@.user_badges.contains_key(a) implies exists|x: int|
                0 <= x < e.len() && e[x].0 == a by {
                let x = choose|x: int| 0 <= x < keys@.len() && keys@[x] == a.id;
                assert(e[x].0 == a);
            }
            lemma_entries_map_of(e, self@.user_badges);
            assert forall|x: int| 0 <= x < s.user_badges@.len() implies {
                &&& courses_unique(#[trigger] s.user_badges@[x].1@)
                &&& s.user_badges@[x].1@.len() <= MAX_BADGES_PER_LEARNER
            } by {
                assert(outv[x].0 == (Address { id: keys@[x] }));
                assert(self.user_badges@.contains_key(keys@[x]));
                assert(s.user_badges@[x].1@ == self.user_badges@[keys@[x]]@);
            }
        }
        s
    }

    /// The contract holding `s`, with an empty event log; `None` when a listed
    /// badge list holds two badges for one course or more than
    /// `MAX_BADGES_PER_LEARNER` badges.
    pub fn load(s: BadgeNftStorage) -> (r: Option<BadgeNFT>)
        ensures
            r is Some <==> s.valid(),
            r matches Some(c) ==> c.wf() && c@ == s.state(),
    {
        let mut m: HashMap<u64, Vec<Badge>> = HashMap::new();
        let mut i: usize = 0;
        let n = s.user_badges.len();
        while i < n
            invariant
                n == s.user_badges@.len(),
                i <= n,
                forall|x: int| 0 <= x < i ==> {
                    &&& courses_unique(#[trigger] s.user_badges@[x].1@)
                    &&& s.user_badges@[x].1@.len() <= MAX_BADGES_PER_LEARNER
                },
                forall|k: u64| #[trigger] m@.contains_key(k) ==> courses_unique(m@[k]@) && m@[k]@.len() <= MAX_BADGES_PER_LEARNER,
                Map::new(|a: Address| m@.contains_key(a.id), |a: Address| m@[a.id]@) == entries_map(
                    s.badge_entries().take(i as int),
                ),
            decreases n - i,
        {
            let a = s.user_badges[i].0;
            let v = s.user_badges[i].1.clone();
            assert(v@ =~= s.user_badges@[i as int].1@);
            if !distinct_courses(&v) || v.len() > 64 {
                return None;
            }
            let ghost before = m@;
            m.insert(a.id, v);
            proof {
                let e = s.badge_entries();
                assert(e.take(i + 1).drop_last() =~= e.take(i as int));
                assert(e.take(i + 1).last() == (a, v@));
                assert(Map::new(|b: Address| m@.contains_key(b.id), |b: Address| m@[b.id]@) =~= Map::new(
                    |b: Address| before.contains_key(b.id),
                    |b: Address| before[b.id]@,
                ).insert(a, v@));
            }
            i += 1;
        }
        proof {
            assert(s.badge_entries().take(n as int) =~= s.badge_entries());
        }
        let c = BadgeNFT {
            address: s.address,
            admin: s.admin,
            pending_admin: s.pending_admin,
            user_badges: m, events: Vec::new() };
        Some(c)
    }

    /// The contract's own address.
    pub fn address(&self) -> (a: Address)
        ensures
            a == self@.address,
    {
        self.address
    }

    /// The stored admin, if any.
    pub fn admin(&self) -> (a: Option<Address>)
        ensures
            a == self@.admin,
    {
        self.admin
    }

    /// Every event published so far, oldest first.
    pub fn events(&self) -> (e: &Vec<BadgeNftEvent>)
        ensures
            e@ == self@.events,
    {
        &self.events
    }

    /// The stored badge list of `learner`, or `None` when the learner has no
    /// storage slot.
    pub fn user_badges_slot(&self, learner: Address) -> (s: Option<Vec<Badge>>)
        ensures
            match s {
                Some(v) => self@.user_badges.contains_key(learner) && v@ == self@.user_badges[learner],
                None => !self@.user_badges.contains_key(learner),
            },
    {
        match self.user_badges.get(&learner.id) {
            Some(v) => {
                let c = v.clone();
                assert(c@ =~= v@);
                Some(c)
            },
            None => None,
        }
    }

    /// Initializes the contract with the authorized registry address.
    /// A second call is rejected with `AlreadyInitialized`.
    pub fn initialize(&mut self, admin: Address) -> (r: Result<(), Error>)
        requires
            old(self).wf(),
        ensures
            final(self).wf(),
            old(self)@.admin is Some ==> r == Err::<(), Error>(Error::AlreadyInitialized)
                && final(self)@ == old(self)@,
            old(self)@.admin is None ==> r is Ok && final(self)@ == (BadgeNftView {
                admin: Some(admin),
                ..old(self)@
            }),
    {
        if self.admin.is_some() {
            return Err(Error::AlreadyInitialized);
        }
        self.admin = Some(admin);
        Ok(())
    }

    /// The stored badge list of `learner` (empty when the learner has none).
    fn stored_badges(&self, learner: Address) -> (v: Vec<Badge>)
        requires
            self.wf(),
        ensures
            v@ == self@.badges_of(learner),
            courses_unique(v@),
            v@.len() <= MAX_BADGES_PER_LEARNER,
    {
        match self.user_badges.get(&learner.id) {
            Some(v) => {
                let c = v.clone();
                assert(c@ =~= v@);
                c
            },
            None => Vec::new(),
        }
    }

    /// Whether `mint_badge` by `caller` for `learner` and `course_id` would be
    /// accepted; if not, the error it would report.
    pub fn check_mint(&self, caller: Address, learner: Address, course_id: u32) -> (r: Result<(), Error>)
        requires
            self.wf(),
        ensures
            r == self@.mint_check(caller, learner, course_id),
    {
        let stored = match self.admin {
            None => return Err(Error::ContractNotInitialized),
            Some(a) => a,
        };
        if caller != stored {
            return Err(Error::UnauthorizedRegistry);
        }
        let badges = self.stored_badges(learner);
        if find_course(&badges, course_id).is_some() {
            return Err(Error::BadgeAlreadyExists);
        }
        if badges.len() >= 64 {
            return Err(Error::BadgeLimitReached);
        }
        Ok(())
    }

    /// Mints a soulbound badge for `learner` representing completion of
    /// `course_id`, stamped with the ledger time `now`. Only the stored admin
    /// may mint, a learner holds at most one badge per course, and a learner
    /// who holds `MAX_BADGES_PER_LEARNER` badges is refused another.
    pub fn mint_badge(&mut self, caller: Address, learner: Address, course_id: u32, now: u64) -> (r:
        Result<(), Error>)
        requires
            old(self).wf(),
        ensures
            final(self).wf(),
            r == old(self)@.mint_check(caller, learner, course_id),
            r is Ok ==> final(self)@ == old(self)@.after_mint(learner, course_id, now),
            r is Err ==> final(self)@ == old(self)@,
    {
        self.check_mint(caller, learner, course_id)?;
        let mut badges = self.stored_badges(learner);
        let ghost before = badges@;
        badges.push(Badge { course_id, minted_at: now });
        assert(courses_unique(badges@)) by {
            assert forall|i: int, j: int|
                0 <= i < badges@.len() && 0 <= j < badges@.len() && i != j implies #[trigger] badges@[i].course_id
                    != #[trigger] badges@[j].course_id by {
                if i == before.len() as int {
                    assert(before[j].course_id != course_id);
                } else if j == before.len() as int {
                    assert(before[i].course_id != course_id);
                }
            }
        }
        self.user_badges.insert(learner.id, badges);
        self.events.push(
            BadgeNftEvent::BadgeMinted(BadgeMinted { learner, course_id, minted_at: now }),
        );
        proof {
            assert(self@.user_badges =~= old(self)@.user_badges.insert(learner, before.push(Badge { course_id, minted_at: now })));
        }
        Ok(())
    }

    /// Revokes the badge of `learner` for `course_id`. Only the stored admin
    /// may revoke; when the learner holds no such badge nothing changes and no
    /// event is published.
    pub fn revoke_badge(&mut self, admin: Address, learner: Address, course_id: u32) -> (r: Result<(), Error>)
        requires
            old(self).wf(),
        ensures
            final(self).wf(),
            r == old(self)@.admin_check(admin, Error::ContractNotInitialized, Error::UnauthorizedRegistry),
            r is Err ==> final(self)@ == old(self)@,
            r is Ok && !holds_course(old(self)@.badges_of(learner), course_id) ==> final(self)@ == old(self)@,
            r is Ok && holds_course(old(self)@.badges_of(learner), course_id) ==> final(self)@ == old(self)@.after_revoke(learner, course_id),
    {
        let stored = match self.admin {
            None => return Err(Error::ContractNotInitialized),
            Some(a) => a,
        };
        if admin != stored {
            return Err(Error::UnauthorizedRegistry);
        }
        let mut badges = self.stored_badges(learner);
        let ghost before = badges@;
        match find_course(&badges, course_id) {
            None => Ok(()),
            Some(i) => {
                proof {
                    let k = course_index(before, course_id);
                    assert(before[i as int].course_id == course_id);
                    assert(0 <= k < before.len() && before[k].course_id == course_id);
                    assert(k == i as int);
                }
                badges.remove(i);
                assert(courses_unique(badges@)) by {
                    assert forall|x: int, y: int|
                        0 <= x < badges@.len() && 0 <= y < badges@.len() && x != y implies #[trigger] badges@[x].course_id
                            != #[trigger] badges@[y].course_id by {
                        let ox = if x < i as int { x } else { x + 1 };
                        let oy = if y < i as int { y } else { y + 1 };
                        assert(badges@[x] == before[ox]);
                        assert(badges@[y] == before[oy]);
                    }
                }
                self.user_badges.insert(learner.id, badges);
                self.events.push(BadgeNftEvent::BadgeRevoked(BadgeRevoked { learner, course_id }));
                proof {
                    assert(self@.user_badges =~= old(self)@.user_badges.insert(learner, before.remove(i as int)));
                }
                Ok(())
            },
        }
    }

    /// Returns all badges currently held by `learner` (empty when none).
    pub fn get_badges(&self, learner: Address) -> (v: Vec<Badge>)
        requires
            self.wf(),
        ensures
            v@ == self@.badges_of(learner),
    {
        self.stored_badges(learner)
    }

    /// Returns the number of badges held by `learner`.
    pub fn get_badge_count(&self, learner: Address) -> (n: u32)
        requires
            self.wf(),
        ensures
            n == self@.badges_of(learner).len(),
    {
        let v = self.stored_badges(learner);
        v.len() as u32
    }

    /// Returns `true` iff `learner` holds a badge for `course_id`.
    pub fn has_badge(&self, learner: Address, course_id: u32) -> (b: bool)
        requires
            self.wf(),
        ensures
            b == holds_course(self@.badges_of(learner), course_id),
    {
        let v = self.stored_badges(learner);
        find_course(&v, course_id).is_some()
    }

    /// Upgrades the contract WASM; only the stored admin may upgrade. On
    /// success the host must replace the code as the returned call says.
    pub fn upgrade_contract(&mut self, admin: Address, new_wasm_hash: Hash32) -> (r: Result<Call, Error>)
        requires
            old(self).wf(),
        ensures
            final(self).wf(),
            match old(self)@.admin_check(admin, Error::NotInitialized, Error::Unauthorized) {
                Err(e) => r == Err::<Call, Error>(e) && final(self)@ == old(self)@,
                Ok(_) => r == Ok::<Call, Error>(Call::UpdateWasm { new_wasm_hash })
                    && final(self)@ == (BadgeNftView {
                        events: old(self)@.events.push(
                            BadgeNftEvent::ContractUpgraded(ContractUpgraded { admin, new_wasm_hash }),
                        ),
                        ..old(self)@
                    }),
            },
    {
        let stored = match self.admin {
            None => return Err(Error::NotInitialized),
            Some(a) => a,
        };
        if admin != stored {
            return Err(Error::Unauthorized);
        }
        self.events.push(BadgeNftEvent::ContractUpgraded(ContractUpgraded { admin, new_wasm_hash }));
        Ok(Call::UpdateWasm { new_wasm_hash })
    }

    /// Stage 1 of the admin hand-over: the admin proposes `proposed` at time
    /// `now`. Minting stays with the current admin until the proposed address
    /// accepts.
    pub fn propose_new_admin(&mut self, current_admin: Address, proposed: Address, now: u64) -> (r: Result<(), Error>)
        requires
            old(self).wf(),
        ensures
            final(self).wf(),
            match two_step::propose_result(old(self)@.admin, current_admin, proposed, now) {
                Err(e) => r == Err::<(), Error>(admin_transfer_error(e)) && final(self)@ == old(self)@,
                Ok(p) => r is Ok && final(self)@ == (BadgeNftView {
                    pending_admin: Some(p),
                    events: old(self)@.events.push(
                        BadgeNftEvent::TransferProposed(
                            TransferProposed { current: current_admin, proposed, proposed_at: now },
                        ),
                    ),
                    ..old(self)@
                }),
            },
    {
        match two_step::propose(self.admin, current_admin, proposed, now) {
            Err(e) => Err(map_admin_transfer_error(e)),
            Ok(p) => {
                self.pending_admin = Some(p);
                self.events.push(
                    BadgeNftEvent::TransferProposed(
                        TransferProposed { current: current_admin, proposed, proposed_at: now },
                    ),
                );
                Ok(())
            },
        }
    }

    /// Stage 2 of the admin hand-over: the proposed address becomes the admin
    /// (the authorized minter).
    pub fn accept_admin_ownership(&mut self, acceptor: Address) -> (r: Result<(), Error>)
        requires
            old(self).wf(),
        ensures
            final(self).wf(),
            match two_step::accept_result(old(self)@.pending_admin, acceptor) {
                Err(e) => r == Err::<(), Error>(admin_transfer_error(e)) && final(self)@ == old(self)@,
                Ok(a) => r is Ok && final(self)@ == (BadgeNftView {
                    admin: Some(a),
                    pending_admin: None,
                    events: old(self)@.events.push(BadgeNftEvent::TransferAccepted(TransferAccepted { new_value: a })),
                    ..old(self)@
                }),
            },
    {
        match two_step::accept(self.pending_admin, acceptor) {
            Err(e) => Err(map_admin_transfer_error(e)),
            Ok(a) => {
                self.admin = Some(a);
                self.pending_admin = None;
                self.events.push(BadgeNftEvent::TransferAccepted(TransferAccepted { new_value: a }));
                Ok(())
            },
        }
    }

    /// Cancels a pending admin hand-over; allowed to the proposed address and
    /// to the admin.
    pub fn cancel_admin_transfer(&mut self, caller: Address) -> (r: Result<(), Error>)
        requires
            old(self).wf(),
        ensures
            final(self).wf(),
            match two_step::cancel_result(old(self)@.pending_admin, old(self)@.admin, caller) {
                Err(e) => r == Err::<(), Error>(admin_transfer_error(e)) && final(self)@ == old(self)@,
                Ok(w) => r is Ok && final(self)@ == (BadgeNftView {
                    pending_admin: None,
                    events: old(self)@.events.push(
                        BadgeNftEvent::TransferCancelled(TransferCancelled { cancelled_by: caller, was_proposed: w }),
                    ),
                    ..old(self)@
                }),
            },
    {
        match two_step::cancel(self.pending_admin, self.admin, caller) {
            Err(e) => Err(map_admin_transfer_error(e)),
            Ok(w) => {
                self.pending_admin = None;
                self.events.push(
                    BadgeNftEvent::TransferCancelled(TransferCancelled { cancelled_by: caller, was_proposed: w }),
                );
                Ok(())
            },
        }
    }
}

/// In every reachable state a learner never holds two badges for the same
/// course, nor more than `MAX_BADGES_PER_LEARNER` badges.
pub proof fn lemma_one_badge_per_course(c: &BadgeNFT, learner: Address)
    requires
        c.wf(),
    ensures
        courses_unique(c@.badges_of(learner)),
        c@.badges_of(learner).len() <= MAX_BADGES_PER_LEARNER,
{
    if c.user_badges@.contains_key(learner.id) {
        assert(c@.user_badges.contains_key(learner));
    }
}

/// A successful mint gives the learner the badge and one more badge in all,
/// leaves every other learner's badges as they were, and a second mint of the
/// same course for the same learner is refused.
pub proof fn lemma_mint_grants_once(v: BadgeNftView, caller: Address, learner: Address, course_id: u32, now: u64)
    requires
        v.mint_check(caller, learner, course_id) is Ok,
    ensures
        holds_course(v.after_mint(learner, course_id, now).badges_of(learner), course_id),
        v.after_mint(learner, course_id, now).badges_of(learner).len() == v.badges_of(learner).len() + 1,
        forall|other: Address| other != learner ==> #[trigger] v.after_mint(learner, course_id, now).badges_of(other)
            == v.badges_of(other),
        v.after_mint(learner, course_id, now).mint_check(caller, learner, course_id) == Err::<(), Error>(
            Error::BadgeAlreadyExists,
        ),
{
    let after = v.after_mint(learner, course_id, now).badges_of(learner);
    assert(after[after.len() - 1].course_id == course_id);
}

/// Revoking the badge that was just minted gives the learner back exactly the
/// badges held before the mint.
pub proof fn lemma_revoke_undoes_mint(v: BadgeNftView, caller: Address, learner: Address, course_id: u32, now: u64)
    requires
        v.mint_check(caller, learner, course_id) is Ok,
    ensures
        v.after_mint(learner, course_id, now).after_revoke(learner, course_id).badges_of(learner)
            == v.badges_of(learner),
{
    let before = v.badges_of(learner);
    let minted = before.push(Badge { course_id, minted_at: now });
    assert(v.after_mint(learner, course_id, now).badges_of(learner) == minted);
    assert(minted[before.len() as int].course_id == course_id);
    let k = course_index(minted, course_id);
    assert(0 <= k < minted.len() && minted[k].course_id == course_id);
    if k < before.len() {
        assert(minted[k] == before[k]);
        assert(holds_course(before, course_id));
    }
    assert(k == before.len());
    assert(minted.remove(k) =~= before);
}

/// Revoking a held badge removes exactly that badge: the learner holds one
/// badge fewer and no longer holds one for that course.
pub proof fn lemma_revoke_removes(v: BadgeNftView, learner: Address, course_id: u32)
    requires
        courses_unique(v.badges_of(learner)),
        holds_course(v.badges_of(learner), course_id),
    ensures
        !holds_course(v.after_revoke(learner, course_id).badges_of(learner), course_id),
        v.after_revoke(learner, course_id).badges_of(learner).len() == v.badges_of(learner).len() - 1,
{
    let b = v.badges_of(learner);
    let k = course_index(b, course_id);
    let r = b.remove(k);
    assert(v.after_revoke(learner, course_id).badges_of(learner) == r);
    if holds_course(r, course_id) {
        let w = choose|w: int| 0 <= w < r.len() && #[trigger] r[w].course_id == course_id;
        let ow = if w < k { w } else { w + 1 };
        assert(r[w] == b[ow]);
        assert(b[ow].course_id == b[k].course_id);
    }
}

} // verus!
