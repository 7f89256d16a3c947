//! Course lifecycle: creation, metadata updates, enrollment, progress tracking
//! and completion.
//!
//! A single protocol admin gates course creation, status changes and module
//! verification. Instructors control only their own course's metadata and
//! ownership. On the final module of a course the registry asks the host to
//! mint a badge on the wired badge contract and to pay the base reward out of
//! the wired reward pool (each only when its address is wired).

use vstd::prelude::*;
use std::collections::HashMap;
use crate::common::{
    Address, Hash32, lemma_pair_view_insert, pair_key, pair_view, spec_pair_key,
};
use crate::badge_nft::{holds_course, BadgeNFT, BadgeNftView};
use crate::errors::Error;
use crate::host::Call;
use crate::storage::{
    entries_map, entries_of, keys_distinct, lemma_entries_map_distinct, lemma_entries_map_witness, map_of, pair_entries_of,
    pair_map_of,
};
use crate::reward_pool::{RewardDistributed, RewardPool, RewardPoolEvent, RewardPoolView};

verus! {

/// The first course ID allocated by `create_course`; 0 is never a course.
pub const INITIAL_COURSE_ID: u32 = 1;

/// Upper bound on the course ID space — the full `u32` range.
pub const MAX_COURSE_ID: u32 = 4294967295;

/// Advisory upper bound on `total_modules` per course (not enforced).
pub const DEFAULT_TOTAL_MODULES_BOUND: u32 = 1000;

/// Base reward distributed to a learner on course completion, in token units.
pub const BASE_REWARD_AMOUNT: i128 = 10000000;

/// A course record.
#[derive(Clone, Copy, Debug, PartialEq, Eq)]
pub struct Course {
    pub instructor: Address,
    pub total_modules: u32,
    pub metadata_hash: Hash32,
    pub active: bool,
}

/// The course record layout used before schema versioning (same fields).
#[derive(Clone, Copy, Debug, PartialEq, Eq)]
pub struct CourseV0 {
    pub instructor: Address,
    pub total_modules: u32,
    pub metadata_hash: Hash32,
    pub active: bool,
}

/// Emitted when a course instructor updates the metadata hash.
#[derive(Clone, Copy, Debug, PartialEq, Eq)]
pub struct MetadataUpdated {
    pub id: u32,
    pub instructor: Address,
    pub new_hash: Hash32,
}

/// Emitted when a new course is registered.
#[derive(Clone, Copy, Debug, PartialEq, Eq, Structural)]
pub struct CourseCreated {
    pub id: u32,
    pub instructor: Address,
    pub total_modules: u32,
}

/// Emitted when a course's active flag is set.
#[derive(Clone, Copy, Debug, PartialEq, Eq, Structural)]
pub struct CourseStatusChanged {
    pub id: u32,
    pub active: bool,
}

/// Emitted when a course is transferred to a new instructor.
#[derive(Clone, Copy, Debug, PartialEq, Eq, Structural)]
pub struct OwnershipTransferred {
    pub course_id: u32,
    pub previous_instructor: Address,
    pub new_instructor: Address,
}

/// Emitted each time a learner completes a module.
#[derive(Clone, Copy, Debug, PartialEq, Eq, Structural)]
pub struct ModuleCompleted {
    pub learner: Address,
    pub course_id: u32,
    pub new_progress: u32,
}

/// Emitted when a learner completes the final module and a reward is paid.
#[derive(Clone, Copy, Debug, PartialEq, Eq, Structural)]
pub struct CourseCompleted {
    pub learner: Address,
    pub course_id: u32,
    pub reward_amount: i128,
}

/// Emitted when the contract WASM is upgraded.
#[derive(Clone, Copy, Debug, PartialEq, Eq)]
pub struct ContractUpgraded {
    pub admin: Address,
    pub new_wasm_hash: Hash32,
}

/// An event published by the course registry.
#[derive(Clone, Copy, Debug, PartialEq, Eq)]
pub enum CourseRegistryEvent {
    MetadataUpdated(MetadataUpdated),
    CourseCreated(CourseCreated),
    CourseStatusChanged(CourseStatusChanged),
    OwnershipTransferred(OwnershipTransferred),
    ModuleCompleted(ModuleCompleted),
    CourseCompleted(CourseCompleted),
    ContractUpgraded(ContractUpgraded),
}

/// The abstract state of the course registry.
pub struct CourseRegistryView {
    pub address: Address,
    pub admin: Option<Address>,
    pub course_count: u32,
    pub badge_nft: Option<Address>,
    pub reward_pool: Option<Address>,
    pub courses: Map<u32, Course>,
    /// Completed-module counters of every (learner, course) with a slot.
    pub progress: Map<(Address, u32), u32>,
    pub events: Seq<CourseRegistryEvent>,
}

impl CourseRegistryView {
    /// The completed-module count of `learner` in course `id` (0 without a slot).
    pub open spec fn progress_of(self, learner: Address, id: u32) -> u32 {
        if self.progress.contains_key((learner, id)) {
            self.progress[(learner, id)]
        } else {
            0
        }
    }

    /// The protocol-admin check of the privileged entry points.
    pub open spec fn admin_check(self, caller: Address, missing: Error, wrong: Error) -> Result<(), Error> {
        match self.admin {
            None => Err(missing),
            Some(a) => if a != caller { Err(wrong) } else { Ok(()) },
        }
    }

    /// The outcome of `complete_module`.
    pub open spec fn complete_check(self, verifier: Address, learner: Address, id: u32) -> Result<(), Error> {
        match self.admin_check(verifier, Error::ContractNotInitialized, Error::UnauthorizedProtocolAdmin) {
            Err(e) => Err(e),
            Ok(_) => if !self.courses.contains_key(id) {
                Err(Error::CourseNotFound)
            } else if self.progress_of(learner, id) >= self.courses[id].total_modules {
                Err(Error::CourseAlreadyCompleted)
            } else {
                Ok(())
            },
        }
    }

    /// The outcome of `enroll`.
    pub open spec fn enroll_check(self, learner: Address, id: u32) -> Result<(), Error> {
        if !self.courses.contains_key(id) {
            Err(Error::CourseNotFound)
        } else if !self.courses[id].active {
            Err(Error::CourseNotActive)
        } else if self.progress.contains_key((learner, id)) {
            Err(Error::AlreadyEnrolled)
        } else {
            Ok(())
        }
    }

    /// The state after `learner` enrolls in course `id`.
    pub open spec fn after_enroll(self, learner: Address, id: u32) -> CourseRegistryView {
        CourseRegistryView { progress: self.progress.insert((learner, id), 0), ..self }
    }

    /// The state after `learner` completes one more module of course `id`.
    pub open spec fn after_complete(self, learner: Address, id: u32) -> CourseRegistryView {
        let new_progress = (self.progress_of(learner, id) + 1) as u32;
        CourseRegistryView {
            progress: self.progress.insert((learner, id), new_progress),
            events: self.events + self.completion_events(learner, id, new_progress),
            ..self
        }
    }

    /// The calls handed to the host when `learner` completes the final module
    /// of course `id`: a badge mint, then the base reward payout, each only
    /// when its contract is wired.
    pub open spec fn completion_calls(self, learner: Address, id: u32) -> Seq<Call> {
        let mint = match self.badge_nft {
            Some(b) => seq![Call::MintBadge { contract: b, caller: self.address, learner, course_id: id }],
            None => Seq::empty(),
        };
        let pay = match self.reward_pool {
            Some(p) => seq![
                Call::DistributeReward {
                    contract: p,
                    caller: self.address,
                    learner,
                    amount: BASE_REWARD_AMOUNT,
                },
            ],
            None => Seq::empty(),
        };
        mint + pay
    }

    /// The events published by a successful `complete_module`.
    pub open spec fn completion_events(self, learner: Address, id: u32, new_progress: u32) -> Seq<CourseRegistryEvent> {
        let done = seq![
            CourseRegistryEvent::ModuleCompleted(ModuleCompleted { learner, course_id: id, new_progress }),
        ];
        if new_progress == self.courses[id].total_modules && self.reward_pool is Some {
            done.push(
                CourseRegistryEvent::CourseCompleted(
                    CourseCompleted { learner, course_id: id, reward_amount: BASE_REWARD_AMOUNT },
                ),
            )
        } else {
            done
        }
    }
}

/// Whether completing a module of course `id` for `learner` reaches its final
/// module.
pub open spec fn completes_course(reg: CourseRegistryView, learner: Address, id: u32) -> bool {
    reg.progress_of(learner, id) + 1 == reg.courses[id].total_modules
}

/// The outcome of a module completion settled against the wired badge
/// contract `badges` and reward pool `pool`: the registry's own check first,
/// then, on the final module, the badge mint's and then the payout's.
pub open spec fn settle_check(
    reg: CourseRegistryView,
    badges: BadgeNftView,
    pool: RewardPoolView,
    verifier: Address,
    learner: Address,
    id: u32,
) -> Result<(), Error> {
    match reg.complete_check(verifier, learner, id) {
        Err(e) => Err(e),
        Ok(_) => if !completes_course(reg, learner, id) {
            Ok(())
        } else if reg.badge_nft is Some && badges.mint_check(reg.address, learner, id) is Err {
            badges.mint_check(reg.address, learner, id)
        } else if reg.reward_pool is Some {
            pool.distribute_check(reg.address, BASE_REWARD_AMOUNT)
        } else {
            Ok(())
        },
    }
}

/// The storage of a course registry as plain entries, for a host to keep
/// between invocations.
pub struct CourseRegistryStorage {
    pub address: Address,
    pub admin: Option<Address>,
    pub course_count: u32,
    pub badge_nft: Option<Address>,
    pub reward_pool: Option<Address>,
    pub courses: Vec<(u32, Course)>,
    pub progress: Vec<((Address, u32), u32)>,
}

impl CourseRegistryStorage {
    /// The registry state that this storage holds, with an empty event log.
    pub open spec fn state(self) -> CourseRegistryView {
        CourseRegistryView {
            address: self.address,
            admin: self.admin,
            course_count: self.course_count,
            badge_nft: self.badge_nft,
            reward_pool: self.reward_pool,
            courses: entries_map(self.courses@),
            progress: entries_map(self.progress@),
            events: Seq::empty(),
        }
    }

    /// The courses are exactly the ids `1..=course_count`, each with at least
    /// one module, and every progress counter belongs to a stored course and
    /// never exceeds its module count.
    pub open spec fn valid(self) -> bool {
        let v = self.state();
        &&& forall|id: u32| #[trigger] v.courses.contains_key(id) <==> 1 <= id <= v.course_count
        &&& forall|id: u32| #[trigger] v.courses.contains_key(id) ==> v.courses[id].total_modules > 0
        &&& forall|k: (Address, u32)| #[trigger] v.progress.contains_key(k) ==> {
            &&& v.courses.contains_key(k.1)
            &&& v.progress[k] <= v.courses[k.1].total_modules
        }
    }
}

/// The course registry contract.
pub struct CourseRegistry {
    address: Address,
    admin: Option<Address>,
    course_count: u32,
    badge_nft: Option<Address>,
    reward_pool: Option<Address>,
    courses: HashMap<u32, Course>,
    progress: HashMap<u128, u32>,
    events: Vec<CourseRegistryEvent>,
}

impl View for CourseRegistry {
    type V = CourseRegistryView;

    closed spec fn view(&self) -> CourseRegistryView {
        CourseRegistryView {
            address: self.address,
            admin: self.admin,
            course_count: self.course_count,
            badge_nft: self.badge_nft,
            reward_pool: self.reward_pool,
            courses: self.courses@,
            progress: pair_view(self.progress@),
            events: self.events@,
        }
    }
}

impl CourseRegistry {
    /// Well-formedness: the stored courses are exactly the ids `1..=course_count`,
    /// each has at least one module, and every progress counter belongs to a
    /// stored course and never exceeds its module count.
    pub closed spec fn wf(self) -> bool {
        &&& forall|id: u32| #[trigger] self@.courses.contains_key(id) <==> 1 <= id <= self@.course_count
        &&& forall|id: u32| #[trigger] self@.courses.contains_key(id) ==> self@.courses[id].total_modules > 0
        &&& forall|k: (Address, u32)| #[trigger] self@.progress.contains_key(k) ==> {
            &&& self@.courses.contains_key(k.1)
            &&& self@.progress[k] <= self@.courses[k.1].total_modules
        }
    }

    /// A freshly deployed, uninitialized registry at `address`.
    pub fn new(address: Address) -> (c: Self)
        ensures
            c.wf(),
            c@ == (CourseRegistryView {
                address,
                admin: None,
                course_count: 0,
                badge_nft: None,
                reward_pool: None,
                courses: Map::empty(),
                progress: Map::empty(),
                events: Seq::empty(),
            }),
    {
        let c = CourseRegistry {
            address,
            admin: None,
            course_count: 0,
            badge_nft: None,
            reward_pool: None,
            courses: HashMap::new(),
            progress: HashMap::new(),
            events: Vec::new(),
        };
        assert(c@.progress =~= Map::<(Address, u32), u32>::empty());
        assert(c@.courses =~= Map::<u32, Course>::empty());
        c
    }

    /// The registry's storage as plain entries, each key once.
    pub fn save(&self) -> (s: CourseRegistryStorage)
        requires
            self.wf(),
        ensures
            s.state() == (CourseRegistryView { events: Seq::empty(), ..self@ }),
            s.valid(),
            keys_distinct(s.courses@),
            keys_distinct(s.progress@),
    {
        let courses = entries_of(&self.courses);
        let progress = pair_entries_of(&self.progress);
        CourseRegistryStorage {
            address: self.address,
            admin: self.admin,
            course_count: self.course_count,
            badge_nft: self.badge_nft,
            reward_pool: self.reward_pool,
            courses,
            progress,
        }
    }

    /// The registry holding `s`, with an empty event log; `None` when the
    /// storage breaks the registry's invariants (see `valid`).
    pub fn load(s: CourseRegistryStorage) -> (r: Option<CourseRegistry>)
        ensures
            r is Some <==> s.valid(),
            r matches Some(c) ==> c.wf() && c@ == s.state(),
    {
        let count = s.course_count;
        let courses = map_of(&s.courses);
        let listed = entries_of(&courses);
        proof {
            lemma_entries_map_distinct(listed@);
        }
        let mut i: usize = 0;
        while i < listed.len()
            invariant
                i <= listed@.len(),
                count == s.course_count,
                courses@ == s.state().courses,
                entries_map(listed@) == courses@,
                forall|j: int| 0 <= j < listed@.len() ==> courses@.contains_key(#[trigger] listed@[j].0)
                    && courses@[listed@[j].0] == listed@[j].1,
                forall|j: int| 0 <= j < i ==> 1 <= #[trigger] listed@[j].0 <= count && listed@[j].1.total_modules > 0,
            decreases listed@.len() - i,
        {
            let (id, c) = listed[i];
            if id < 1 || id > count || c.total_modules == 0 {
                proof {
                    assert(listed@[i as int] == (id, c));
                }
                return None;
            }
            i += 1;
        }
        proof {
            assert forall|id: u32| #[trigger] courses@.contains_key(id) implies 1 <= id <= count
                && courses@[id].total_modules > 0 by {
                let j = lemma_entries_map_witness(listed@, id);
            }
        }
        let mut id: u64 = 1;
        while id <= count as u64
            invariant
                1 <= id <= count + 1,
                count == s.course_count,
                courses@ == s.state().courses,
                forall|x: u32| 1 <= x < id ==> #[trigger] courses@.contains_key(x),
            decreases count + 1 - id,
        {
            if !courses.contains_key(&(id as u32)) {
                return None;
            }
            id += 1;
        }
        let progress = pair_map_of(&s.progress);
        let plisted = pair_entries_of(&progress);
        proof {
            lemma_entries_map_distinct(plisted@);
        }
        let mut i: usize = 0;
        while i < plisted.len()
            invariant
                i <= plisted@.len(),
                courses@ == s.state().courses,
                entries_map(plisted@) == s.state().progress,
                forall|j: int| 0 <= j < plisted@.len() ==> s.state().progress.contains_key(#[trigger] plisted@[j].0)
                    && s.state().progress[plisted@[j].0] == plisted@[j].1,
                forall|j: int| 0 <= j < i ==> courses@.contains_key(#[trigger] plisted@[j].0.1)
                    && plisted@[j].1 <= courses@[plisted@[j].0.1].total_modules,
            decreases plisted@.len() - i,
        {
            let (k, p) = plisted[i];
            match courses.get(&k.1) {
                None => {
                    proof {
                        assert(plisted@[i as int] == (k, p));
                    }
                    return None;
                },
                Some(c) => {
                    if p > c.total_modules {
                        proof {
                            assert(plisted@[i as int] == (k, p));
                        }
                        return None;
                    }
                },
            }
            i += 1;
        }
        proof {
            assert forall|k: (Address, u32)| #[trigger] s.state().progress.contains_key(k) implies courses@.contains_key(k.1)
                && s.state().progress[k] <= courses@[k.1].total_modules by {
                let j = lemma_entries_map_witness(plisted@, k);
            }
        }
        Some(CourseRegistry {
            address: s.address,
            admin: s.admin,
            course_count: s.course_count,
            badge_nft: s.badge_nft,
            reward_pool: s.reward_pool,
            courses,
            progress,
            events: Vec::new(),
        })
    }

    /// The contract's own address.
    pub fn address(&self) -> (a: Address)
        ensures
            a == self@.address,
    {
        self.address
    }

    /// The stored protocol admin, if any.
    pub fn admin(&self) -> (a: Option<Address>)
        ensures
            a == self@.admin,
    {
        self.admin
    }

    /// The wired badge contract, if any.
    pub fn badge_nft_address(&self) -> (a: Option<Address>)
        ensures
            a == self@.badge_nft,
    {
        self.badge_nft
    }

    /// The wired reward pool, if any.
    pub fn reward_pool_address(&self) -> (a: Option<Address>)
        ensures
            a == self@.reward_pool,
    {
        self.reward_pool
    }

    /// Every event published so far, oldest first.
    pub fn events(&self) -> (e: &Vec<CourseRegistryEvent>)
        ensures
            e@ == self@.events,
    {
        &self.events
    }

    /// The stored progress counter of `learner` in course `id`, or `None` when
    /// the learner has no progress slot.
    pub fn progress_slot(&self, learner: Address, id: u32) -> (p: Option<u32>)
        ensures
            match p {
                Some(v) => self@.progress.contains_key((learner, id)) && v == self@.progress[(learner, id)],
                None => !self@.progress.contains_key((learner, id)),
            },
    {
        match self.progress.get(&pair_key(learner, id)) {
            Some(v) => Some(*v),
            None => None,
        }
    }

    /// Initializes the registry with the protocol admin. A second call is
    /// rejected with `AlreadyInitialized`.
    pub fn initialize(&mut self, admin: Address) -> (r: Result<(), Error>)
        requires
            old(self).wf(),
        ensures
            final(self).wf(),
            old(self)@.admin is Some ==> r == Err::<(), Error>(Error::AlreadyInitialized)
                && final(self)@ == old(self)@,
            old(self)@.admin is None ==> r is Ok && final(self)@ == (CourseRegistryView {
                admin: Some(admin),
                ..old(self)@
            }),
    {
        if self.admin.is_some() {
            return Err(Error::AlreadyInitialized);
        }
        self.admin = Some(admin);
        Ok(())
    }

    /// Wires the reward pool that pays completion rewards. Admin only.
    pub fn set_reward_pool_address(&mut self, admin: Address, reward_pool_address: Address) -> (r: Result<(), Error>)
        requires
            old(self).wf(),
        ensures
            final(self).wf(),
            r == old(self)@.admin_check(admin, Error::ContractNotInitialized, Error::UnauthorizedProtocolAdmin),
            r is Err ==> final(self)@ == old(self)@,
            r is Ok ==> final(self)@ == (CourseRegistryView {
                reward_pool: Some(reward_pool_address),
                ..old(self)@
            }),
    {
        self.check_admin(admin, Error::ContractNotInitialized, Error::UnauthorizedProtocolAdmin)?;
        self.reward_pool = Some(reward_pool_address);
        Ok(())
    }

    /// Wires the badge contract that mints completion badges. Admin only.
    pub fn set_badge_nft_address(&mut self, admin: Address, badge_nft_address: Address) -> (r: Result<(), Error>)
        requires
            old(self).wf(),
        ensures
            final(self).wf(),
            r == old(self)@.admin_check(admin, Error::ContractNotInitialized, Error::UnauthorizedProtocolAdmin),
            r is Err ==> final(self)@ == old(self)@,
            r is Ok ==> final(self)@ == (CourseRegistryView {
                badge_nft: Some(badge_nft_address),
                ..old(self)@
            }),
    {
        self.check_admin(admin, Error::ContractNotInitialized, Error::UnauthorizedProtocolAdmin)?;
        self.badge_nft = Some(badge_nft_address);
        Ok(())
    }

    fn check_admin(&self, caller: Address, missing: Error, wrong: Error) -> (r: Result<(), Error>)
        ensures
            r == self@.admin_check(caller, missing, wrong),
    {
        match self.admin {
            None => Err(missing),
            Some(a) => if a != caller { Err(wrong) } else { Ok(()) },
        }
    }

    /// Registers a new active course and returns its id (`course_count + 1`).
    /// Admin only; a course needs at least one module.
    pub fn create_course(
        &mut self,
        admin: Address,
        instructor: Address,
        total_modules: u32,
        metadata_hash: Hash32,
    ) -> (r: Result<u32, Error>)
        requires
            old(self).wf(),
            old(self)@.course_count < MAX_COURSE_ID,
        ensures
            final(self).wf(),
            match old(self)@.admin_check(admin, Error::ContractNotInitialized, Error::UnauthorizedProtocolAdmin) {
                Err(e) => r == Err::<u32, Error>(e) && final(self)@ == old(self)@,
                Ok(_) => if total_modules == 0 {
                    r == Err::<u32, Error>(Error::TotalModulesZero) && final(self)@ == old(self)@
                } else {
                    let id = (old(self)@.course_count + 1) as u32;
                    &&& r == Ok::<u32, Error>(id)
                    &&& final(self)@ == (CourseRegistryView {
                        course_count: id,
                        courses: old(self)@.courses.insert(
                            id,
                            Course { instructor, total_modules, metadata_hash, active: true },
                        ),
                        events: old(self)@.events.push(
                            CourseRegistryEvent::CourseCreated(CourseCreated { id, instructor, total_modules }),
                        ),
                        ..old(self)@
                    })
                },
            },
    {
        self.check_admin(admin, Error::ContractNotInitialized, Error::UnauthorizedProtocolAdmin)?;
        if total_modules == 0 {
            return Err(Error::TotalModulesZero);
        }
        let new_id = self.course_count + 1;
        self.course_count = new_id;
        self.courses.insert(new_id, Course { instructor, total_modules, metadata_hash, active: true });
        self.events.push(
            CourseRegistryEvent::CourseCreated(CourseCreated { id: new_id, instructor, total_modules }),
        );
        Ok(new_id)
    }

    /// Replaces the metadata hash of course `id`. Only the course's instructor
    /// may do so: on success the result is the instructor, whose authorization
    /// the host must require.
    pub fn update_metadata(&mut self, id: u32, new_hash: Hash32) -> (r: Result<Address, Error>)
        requires
            old(self).wf(),
        ensures
            final(self).wf(),
            !old(self)@.courses.contains_key(id) ==> r == Err::<Address, Error>(Error::CourseNotFound)
                && final(self)@ == old(self)@,
            old(self)@.courses.contains_key(id) ==> {
                let c = old(self)@.courses[id];
                &&& r == Ok::<Address, Error>(c.instructor)
                &&& final(self)@ == (CourseRegistryView {
                    courses: old(self)@.courses.insert(id, Course { metadata_hash: new_hash, ..c }),
                    events: old(self)@.events.push(
                        CourseRegistryEvent::MetadataUpdated(
                            MetadataUpdated { id, instructor: c.instructor, new_hash },
                        ),
                    ),
                    ..old(self)@
                })
            },
    {
        let mut course = match self.courses.get(&id) {
            Some(c) => *c,
            None => return Err(Error::CourseNotFound),
        };
        let instructor = course.instructor;
        course.metadata_hash = new_hash;
        self.courses.insert(id, course);
        self.events.push(
            CourseRegistryEvent::MetadataUpdated(MetadataUpdated { id, instructor, new_hash }),
        );
        Ok(instructor)
    }

    /// Enrolls `learner` in the active course `id`, with progress 0.
    pub fn enroll(&mut self, learner: Address, id: u32) -> (r: Result<(), Error>)
        requires
            old(self).wf(),
        ensures
            final(self).wf(),
            r == old(self)@.enroll_check(learner, id),
            r is Err ==> final(self)@ == old(self)@,
            r is Ok ==> final(self)@ == old(self)@.after_enroll(learner, id),
    {
        let course = match self.courses.get(&id) {
            Some(c) => *c,
            None => return Err(Error::CourseNotFound),
        };
        if !course.active {
            return Err(Error::CourseNotActive);
        }
        let key = pair_key(learner, id);
        if self.progress.contains_key(&key) {
            return Err(Error::AlreadyEnrolled);
        }
        self.progress.insert(key, 0);
        proof {
            lemma_pair_view_insert(old(self).progress@, learner, id, 0u32);
        }
        Ok(())
    }

    /// The number of courses registered so far (the highest course id).
    pub fn course_count(&self) -> (n: u32)
        ensures
            n == self@.course_count,
    {
        self.course_count
    }

    /// Sets the active flag of course `id`. Admin only.
    pub fn set_course_status(&mut self, admin: Address, id: u32, active: bool) -> (r: Result<(), Error>)
        requires
            old(self).wf(),
        ensures
            final(self).wf(),
            match old(self)@.admin_check(admin, Error::ContractNotInitialized, Error::UnauthorizedProtocolAdmin) {
                Err(e) => r == Err::<(), Error>(e) && final(self)@ == old(self)@,
                Ok(_) => if !old(self)@.courses.contains_key(id) {
                    r == Err::<(), Error>(Error::CourseNotFound) && final(self)@ == old(self)@
                } else {
                    &&& r is Ok
                    &&& final(self)@ == (CourseRegistryView {
                        courses: old(self)@.courses.insert(id, Course { active, ..old(self)@.courses[id] }),
                        events: old(self)@.events.push(
                            CourseRegistryEvent::CourseStatusChanged(CourseStatusChanged { id, active }),
                        ),
                        ..old(self)@
                    })
                },
            },
    {
        self.check_admin(admin, Error::ContractNotInitialized, Error::UnauthorizedProtocolAdmin)?;
        let mut course = match self.courses.get(&id) {
            Some(c) => *c,
            None => return Err(Error::CourseNotFound),
        };
        course.active = active;
        self.courses.insert(id, course);
        self.events.push(CourseRegistryEvent::CourseStatusChanged(CourseStatusChanged { id, active }));
        Ok(())
    }

    /// Whether `learner` has completed every module of course `id`.
    pub fn is_course_finished(&self, learner: Address, id: u32) -> (r: Result<bool, Error>)
        ensures
            r == (if self@.courses.contains_key(id) {
                Ok(self@.progress_of(learner, id) >= self@.courses[id].total_modules)
            } else {
                Err(Error::CourseNotFound)
            }),
    {
        let course = match self.courses.get(&id) {
            Some(c) => *c,
            None => return Err(Error::CourseNotFound),
        };
        let progress = self.get_progress(learner, id);
        Ok(progress >= course.total_modules)
    }

    /// The course stored under `id`.
    pub fn get_course(&self, id: u32) -> (r: Result<Course, Error>)
        ensures
            r == (if self@.courses.contains_key(id) {
                Ok(self@.courses[id])
            } else {
                Err(Error::CourseNotFound)
            }),
    {
        match self.courses.get(&id) {
            Some(c) => Ok(*c),
            None => Err(Error::CourseNotFound),
        }
    }

    /// The completed-module count of `learner` in course `id` (0 when the
    /// learner has no progress slot).
    pub fn get_progress(&self, learner: Address, id: u32) -> (p: u32)
        ensures
            p == self@.progress_of(learner, id),
    {
        match self.progress.get(&pair_key(learner, id)) {
            Some(v) => *v,
            None => 0,
        }
    }

    /// Hands course `course_id` from `current_instructor` to `new_instructor`.
    /// Only the current instructor may do so.
    pub fn transfer_ownership(
        &mut self,
        current_instructor: Address,
        new_instructor: Address,
        course_id: u32,
    ) -> (r: Result<(), Error>)
        requires
            old(self).wf(),
        ensures
            final(self).wf(),
            r == (if !old(self)@.courses.contains_key(course_id) {
                Err(Error::CourseNotFound)
            } else if old(self)@.courses[course_id].instructor != current_instructor {
                Err(Error::NotCourseInstructor)
            } else {
                Ok(())
            }),
            r is Err ==> final(self)@ == old(self)@,
            r is Ok ==> final(self)@ == (CourseRegistryView {
                courses: old(self)@.courses.insert(
                    course_id,
                    Course { instructor: new_instructor, ..old(self)@.courses[course_id] },
                ),
                events: old(self)@.events.push(
                    CourseRegistryEvent::OwnershipTransferred(
                        OwnershipTransferred {
                            course_id,
                            previous_instructor: current_instructor,
                            new_instructor,
                        },
                    ),
                ),
                ..old(self)@
            }),
    {
        let mut course = match self.courses.get(&course_id) {
            Some(c) => *c,
            None => return Err(Error::CourseNotFound),
        };
        if course.instructor != current_instructor {
            return Err(Error::NotCourseInstructor);
        }
        course.instructor = new_instructor;
        self.courses.insert(course_id, course);
        self.events.push(
            CourseRegistryEvent::OwnershipTransferred(
                OwnershipTransferred { course_id, previous_instructor: current_instructor, new_instructor },
            ),
        );
        Ok(())
    }

    /// Records a verifier-confirmed module completion for `learner` in course
    /// `id` and returns the calls that the host must make: on the final module
    /// a badge mint and the base reward payout, each when wired. Admin only.
    pub fn complete_module(&mut self, verifier: Address, learner: Address, id: u32) -> (r: Result<Vec<Call>, Error>)
        requires
            old(self).wf(),
        ensures
            final(self).wf(),
            match old(self)@.complete_check(verifier, learner, id) {
                Err(e) => r == Err::<Vec<Call>, Error>(e) && final(self)@ == old(self)@,
                Ok(_) => {
                    let new_progress = (old(self)@.progress_of(learner, id) + 1) as u32;
                    &&& r is Ok
                    &&& r->Ok_0@ == (if new_progress == old(self)@.courses[id].total_modules {
                        old(self)@.completion_calls(learner, id)
                    } else {
                        Seq::empty()
                    })
                    &&& final(self)@ == old(self)@.after_complete(learner, id)
                },
            },
    {
        self.check_admin(verifier, Error::ContractNotInitialized, Error::UnauthorizedProtocolAdmin)?;
        let course = match self.courses.get(&id) {
            Some(c) => *c,
            None => return Err(Error::CourseNotFound),
        };
        let current_progress = self.get_progress(learner, id);
        if current_progress >= course.total_modules {
            return Err(Error::CourseAlreadyCompleted);
        }
        let new_progress = current_progress + 1;
        self.progress.insert(pair_key(learner, id), new_progress);
        proof {
            lemma_pair_view_insert(old(self).progress@, learner, id, new_progress);
        }
        let ghost ev0 = self.events@;
        self.events.push(
            CourseRegistryEvent::ModuleCompleted(ModuleCompleted { learner, course_id: id, new_progress }),
        );
        let mut calls: Vec<Call> = Vec::new();
        if new_progress == course.total_modules {
            if let Some(badge) = self.badge_nft {
                calls.push(Call::MintBadge { contract: badge, caller: self.address, learner, course_id: id });
            }
            if let Some(pool) = self.reward_pool {
                calls.push(
                    Call::DistributeReward {
                        contract: pool,
                        caller: self.address,
                        learner,
                        amount: BASE_REWARD_AMOUNT,
                    },
                );
                self.events.push(
                    CourseRegistryEvent::CourseCompleted(
                        CourseCompleted { learner, course_id: id, reward_amount: BASE_REWARD_AMOUNT },
                    ),
                );
            }
        }
        proof {
            assert(self@.events =~= ev0 + old(self)@.completion_events(learner, id, new_progress));
            assert(calls@ =~= (if new_progress == course.total_modules {
                old(self)@.completion_calls(learner, id)
            } else {
                Seq::empty()
            }));
        }
        Ok(calls)
    }

    /// Records a module completion as `complete_module` does and carries out
    /// its cross-contract work at once: on the final module the badge is
    /// minted on `badges` at ledger time `now` and the base reward is paid out
    /// of `pool`, each when wired. `badges` and `pool` are the contracts the
    /// registry is wired to. If any step is refused nothing changes anywhere
    /// and the first refusal is returned. The result is the token transfer
    /// of the payout that the host must make, if there is one.
    pub fn complete_module_settled(
        &mut self,
        badges: &mut BadgeNFT,
        pool: &mut RewardPool,
        verifier: Address,
        learner: Address,
        id: u32,
        now: u64,
    ) -> (r: Result<Vec<Call>, Error>)
        requires
            old(self).wf(),
            old(badges).wf(),
            old(self)@.badge_nft is Some ==> old(self)@.badge_nft == Some(old(badges)@.address),
            old(self)@.reward_pool is Some ==> old(self)@.reward_pool == Some(old(pool)@.address),
        ensures
            final(self).wf(),
            final(badges).wf(),
            match settle_check(old(self)@, old(badges)@, old(pool)@, verifier, learner, id) {
                Err(e) => {
                    &&& r == Err::<Vec<Call>, Error>(e)
                    &&& final(self)@ == old(self)@
                    &&& final(badges)@ == old(badges)@
                    &&& final(pool)@ == old(pool)@
                },
                Ok(_) => {
                    let done = completes_course(old(self)@, learner, id);
                    &&& r is Ok
                    &&& final(self)@ == old(self)@.after_complete(learner, id)
                    &&& final(badges)@ == (if done && old(self)@.badge_nft is Some {
                        old(badges)@.after_mint(learner, id, now)
                    } else {
                        old(badges)@
                    })
                    &&& final(pool)@ == (if done && old(self)@.reward_pool is Some {
                        old(pool)@.after_distribute(old(self)@.address, learner, BASE_REWARD_AMOUNT)
                    } else {
                        old(pool)@
                    })
                    &&& r->Ok_0@ == (if done && old(self)@.reward_pool is Some {
                        seq![old(pool)@.payout_transfer(learner, BASE_REWARD_AMOUNT)]
                    } else {
                        Seq::empty()
                    })
                },
            },
    {
        self.check_admin(verifier, Error::ContractNotInitialized, Error::UnauthorizedProtocolAdmin)?;
        let course = match self.courses.get(&id) {
            Some(c) => *c,
            None => return Err(Error::CourseNotFound),
        };
        let progress = self.get_progress(learner, id);
        if progress >= course.total_modules {
            return Err(Error::CourseAlreadyCompleted);
        }
        let done = progress + 1 == course.total_modules;
        if done {
            if self.badge_nft.is_some() {
                badges.check_mint(self.address, learner, id)?;
            }
            if self.reward_pool.is_some() {
                pool.check_distribute(self.address, BASE_REWARD_AMOUNT)?;
            }
        }
        let _ = self.complete_module(verifier, learner, id);
        let mut out: Vec<Call> = Vec::new();
        if done {
            if self.badge_nft.is_some() {
                let _ = badges.mint_badge(self.address, learner, id, now);
            }
            if self.reward_pool.is_some() {
                match pool.distribute_reward(self.address, learner, BASE_REWARD_AMOUNT) {
                    Ok(t) => out.push(t),
                    Err(e) => return Err(e),
                }
            }
        }
        Ok(out)
    }

    /// Upgrades the contract WASM; admin only. On success the host must replace
    /// the code as the returned call says.
    pub fn upgrade_contract(&mut self, admin: Address, new_wasm_hash: Hash32) -> (r: Result<Call, Error>)
        requires
            old(self).wf(),
        ensures
            final(self).wf(),
            match old(self)@.admin_check(admin, Error::NotInitialized, Error::Unauthorized) {
                Err(e) => r == Err::<Call, Error>(e) && final(self)@ == old(self)@,
                Ok(_) => r == Ok::<Call, Error>(Call::UpdateWasm { new_wasm_hash })
                    && final(self)@ == (CourseRegistryView {
                        events: old(self)@.events.push(
                            CourseRegistryEvent::ContractUpgraded(ContractUpgraded { admin, new_wasm_hash }),
                        ),
                        ..old(self)@
                    }),
            },
    {
        self.check_admin(admin, Error::NotInitialized, Error::Unauthorized)?;
        self.events.push(CourseRegistryEvent::ContractUpgraded(ContractUpgraded { admin, new_wasm_hash }));
        Ok(Call::UpdateWasm { new_wasm_hash })
    }
}

/// What every reachable registry state satisfies: the stored courses are
/// exactly the ids `1..=course_count`, every course has at least one module,
/// and a learner's progress belongs to a stored course and never exceeds its
/// module count.
pub proof fn lemma_registry_invariants(c: &CourseRegistry, learner: Address, id: u32)
    requires
        c.wf(),
    ensures
        c@.courses.contains_key(id) <==> 1 <= id <= c@.course_count,
        c@.courses.contains_key(id) ==> c@.courses[id].total_modules > 0,
        c@.progress.contains_key((learner, id)) ==> c@.courses.contains_key(id),
        c@.courses.contains_key(id) ==> c@.progress_of(learner, id) <= c@.courses[id].total_modules,
{
}

/// A learner enrolls in a course at most once.
pub proof fn lemma_enroll_once(v: CourseRegistryView, learner: Address, id: u32)
    requires
        v.enroll_check(learner, id) is Ok,
    ensures
        v.after_enroll(learner, id).enroll_check(learner, id) == Err::<(), Error>(Error::AlreadyEnrolled),
        v.after_enroll(learner, id).progress_of(learner, id) == 0,
{
}

/// Each module completion raises the learner's progress in that course by
/// one and leaves every other progress counter alone; once the final module
/// is completed the learner has finished the course, and further completions
/// are refused, so the completion calls (badge mint, reward) happen once.
pub proof fn lemma_complete_module_progress(v: CourseRegistryView, verifier: Address, learner: Address, id: u32)
    requires
        v.complete_check(verifier, learner, id) is Ok,
    ensures
        v.after_complete(learner, id).progress_of(learner, id) == v.progress_of(learner, id) + 1,
        forall|l: Address, j: u32| (l, j) != (learner, id) ==> #[trigger] v.after_complete(learner, id).progress_of(l, j)
            == v.progress_of(l, j),
        v.after_complete(learner, id).complete_check(verifier, learner, id) is Err
            <==> v.progress_of(learner, id) + 1 == v.courses[id].total_modules,
        v.progress_of(learner, id) + 1 == v.courses[id].total_modules ==> v.after_complete(learner, id).complete_check(
            verifier,
            learner,
            id,
        ) == Err::<(), Error>(Error::CourseAlreadyCompleted),
        v.after_complete(learner, id).progress_of(learner, id) >= v.courses[id].total_modules
            <==> v.progress_of(learner, id) + 1 == v.courses[id].total_modules,
{
}

/// Settling the final module of a course with both contracts wired leaves the
/// learner holding that course's badge and pays the base reward out of the
/// pool; settling the course again is refused with `CourseAlreadyCompleted`,
/// so the badge and the reward are granted once.
pub proof fn lemma_settled_completion_rewards_once(
    reg: CourseRegistryView,
    badges: BadgeNftView,
    pool: RewardPoolView,
    verifier: Address,
    learner: Address,
    id: u32,
    now: u64,
)
    requires
        settle_check(reg, badges, pool, verifier, learner, id) is Ok,
        completes_course(reg, learner, id),
        reg.badge_nft is Some,
        reg.reward_pool is Some,
    ensures
        holds_course(badges.after_mint(learner, id, now).badges_of(learner), id),
        pool.after_distribute(reg.address, learner, BASE_REWARD_AMOUNT).events.last()
            == RewardPoolEvent::RewardDistributed(
            RewardDistributed { caller: reg.address, learner, amount: BASE_REWARD_AMOUNT },
        ),
        settle_check(
            reg.after_complete(learner, id),
            badges.after_mint(learner, id, now),
            pool.after_distribute(reg.address, learner, BASE_REWARD_AMOUNT),
            verifier,
            learner,
            id,
        ) == Err::<(), Error>(Error::CourseAlreadyCompleted),
{
    let after = badges.after_mint(learner, id, now).badges_of(learner);
    assert(after[after.len() - 1].course_id == id);
}

/// What completing the final module of a course hands out, each part on its
/// own: the base reward is paid to the learner out of the wired reward pool
/// whenever a pool is wired (whether or not a badge contract is), the course
/// badge is minted whenever a badge contract is wired (whether or not a pool
/// is), nothing else is called, and the course-completed event is published
/// exactly when the reward is paid. A module short of the last hands out
/// nothing and publishes only the module completion.
pub proof fn lemma_final_module_rewards(v: CourseRegistryView, verifier: Address, learner: Address, id: u32)
    requires
        v.complete_check(verifier, learner, id) is Ok,
    ensures
        completes_course(v, learner, id) ==> {
            let calls = v.completion_calls(learner, id);
            let after = v.after_complete(learner, id);
            &&& v.reward_pool matches Some(p) ==> calls.contains(
                Call::DistributeReward { contract: p, caller: v.address, learner, amount: BASE_REWARD_AMOUNT },
            )
            &&& v.reward_pool is None ==> forall|i: int| 0 <= i < calls.len() ==> !(#[trigger] calls[i] is DistributeReward)
            &&& v.badge_nft matches Some(b) ==> calls.contains(
                Call::MintBadge { contract: b, caller: v.address, learner, course_id: id },
            )
            &&& v.badge_nft is None ==> forall|i: int| 0 <= i < calls.len() ==> !(#[trigger] calls[i] is MintBadge)
            &&& calls.len() == (if v.badge_nft is Some { 1int } else { 0int }) + (if v.reward_pool is Some {
                1int
            } else {
                0int
            })
            &&& (after.events.last() == CourseRegistryEvent::CourseCompleted(
                CourseCompleted { learner, course_id: id, reward_amount: BASE_REWARD_AMOUNT },
            )) <==> v.reward_pool is Some
        },
        !completes_course(v, learner, id) ==> v.after_complete(learner, id).events == v.events.push(
            CourseRegistryEvent::ModuleCompleted(
                ModuleCompleted { learner, course_id: id, new_progress: (v.progress_of(learner, id) + 1) as u32 },
            ),
        ),
{
    let calls = v.completion_calls(learner, id);
    let after = v.after_complete(learner, id);
    let np = (v.progress_of(learner, id) + 1) as u32;
    if completes_course(v, learner, id) {
        assert(np == v.courses[id].total_modules);
        match v.badge_nft {
            Some(b) => {
                assert(calls[0] == Call::MintBadge { contract: b, caller: v.address, learner, course_id: id });
                match v.reward_pool {
                    Some(p) => {
                        assert(calls[1] == Call::DistributeReward {
                            contract: p,
                            caller: v.address,
                            learner,
                            amount: BASE_REWARD_AMOUNT,
                        });
                    },
                    None => {},
                }
            },
            None => {
                match v.reward_pool {
                    Some(p) => {
                        assert(calls[0] == Call::DistributeReward {
                            contract: p,
                            caller: v.address,
                            learner,
                            amount: BASE_REWARD_AMOUNT,
                        });
                    },
                    None => {},
                }
            },
        }
        assert(after.events.last() == v.completion_events(learner, id, np).last());
    } else {
        assert(np != v.courses[id].total_modules);
        assert(after.events =~= v.events.push(
            CourseRegistryEvent::ModuleCompleted(ModuleCompleted { learner, course_id: id, new_progress: np }),
        ));
    }
}

} // verus!
