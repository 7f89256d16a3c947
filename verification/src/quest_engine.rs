//! Build and Explore quests: submissions, reviews, batch reviews, refunds and
//! admin verification.
//!
//! A Build quest is funded by its employer, whose reward is locked in the
//! engine at creation; the employer reviews proof submissions and each
//! approval splits the reward 85/15 between the learner and the reward pool.
//! An Explore quest is created by the admin and paid out of the reward pool
//! when the admin verifies a learner's off-chain action.

use vstd::prelude::*;
use std::collections::HashMap;
use crate::common::{Address, Hash32, lemma_pair_view_insert, pair_key, pair_view, spec_pair_key};
use crate::errors::Error;
use crate::host::Call;
use crate::storage::{
    entries_map, entries_of, keys_distinct, lemma_entries_map_distinct, lemma_entries_map_witness, map_of, pair_entries_of,
    pair_map_of,
};
use crate::reward_pool::RewardPool;
use crate::stake_vault::{multiplier_for, StakeVault};
use crate::two_step::{
    self, admin_transfer_error, map_admin_transfer_error, PendingTransfer, TransferAccepted,
    TransferCancelled, TransferError, TransferProposed,
};

verus! {

/// Prefix of Build quest descriptors.
pub const BUILD_QUEST_PREFIX: &'static str = "build";

/// Prefix of Explore quest descriptors.
pub const EXPLORE_QUEST_PREFIX: &'static str = "explore";

/// Advisory maximum quest reward (not enforced).
pub const MAX_QUEST_REWARD: i128 = 1_000_000_000_000_000;

/// Platform fee in basis points (15%).
pub const PLATFORM_FEE_BASIS_POINTS: u32 = 1500;

/// The funding model of a quest.
#[derive(Clone, Copy, Debug, PartialEq, Eq, Structural)]
pub enum QuestType {
    /// Employer-funded bounty, locked in the engine at creation.
    Build,
    /// Admin-verified off-chain action, paid by the reward pool.
    Explore,
}

/// A quest record.
#[derive(Clone, Copy, Debug, PartialEq, Eq)]
pub struct Quest {
    /// The employer (Build) or admin (Explore) who created the quest.
    pub employer: Address,
    pub reward_amount: i128,
    pub quest_type: QuestType,
    pub metadata_hash: Hash32,
    /// Whether the quest still accepts submissions or verification; cleared by
    /// a refund.
    pub active: bool,
}

/// The lifecycle state of a proof submission.
#[derive(Clone, Copy, Debug, PartialEq, Eq, Structural)]
pub enum SubmissionStatus {
    Pending,
    Approved,
    Rejected,
}

/// A learner's proof submission for a Build quest.
#[derive(Clone, Copy, Debug, PartialEq, Eq)]
pub struct Submission {
    pub proof_hash: Hash32,
    pub status: SubmissionStatus,
}

/// Emitted when a quest is created.
#[derive(Clone, Copy, Debug, PartialEq, Eq, Structural)]
pub struct QuestCreated {
    pub employer: Address,
    pub quest_id: u32,
    pub reward_amount: i128,
}

/// Emitted when a learner submits a proof.
#[derive(Clone, Copy, Debug, PartialEq, Eq)]
pub struct ProofSubmitted {
    pub learner: Address,
    pub quest_id: u32,
    pub proof_hash: Hash32,
}

/// Emitted when a submission is approved or rejected.
#[derive(Clone, Copy, Debug, PartialEq, Eq, Structural)]
pub struct SubmissionReviewed {
    pub employer: Address,
    pub learner: Address,
    pub quest_id: u32,
    pub approved: bool,
}

/// Emitted when a quest is refunded to its employer.
#[derive(Clone, Copy, Debug, PartialEq, Eq, Structural)]
pub struct QuestRefunded {
    pub employer: Address,
    pub quest_id: u32,
    pub amount: i128,
}

/// Emitted after a batch review.
#[derive(Clone, Copy, Debug, PartialEq, Eq, Structural)]
pub struct BatchReviewed {
    pub employer: Address,
    pub quest_id: u32,
    pub approved_count: u32,
}

/// Emitted when the contract WASM is upgraded.
#[derive(Clone, Copy, Debug, PartialEq, Eq)]
pub struct ContractUpgraded {
    pub admin: Address,
    pub new_wasm_hash: Hash32,
}

/// Emitted when the admin verifies an Explore quest for a learner.
#[derive(Clone, Copy, Debug, PartialEq, Eq, Structural)]
pub struct ExploreQuestVerified {
    pub admin: Address,
    pub learner: Address,
    pub quest_id: u32,
    pub amount: i128,
}

/// An event published by the quest engine.
#[derive(Clone, Copy, Debug, PartialEq, Eq)]
pub enum QuestEvent {
    QuestCreated(QuestCreated),
    ProofSubmitted(ProofSubmitted),
    SubmissionReviewed(SubmissionReviewed),
    QuestRefunded(QuestRefunded),
    BatchReviewed(BatchReviewed),
    ContractUpgraded(ContractUpgraded),
    ExploreQuestVerified(ExploreQuestVerified),
    TransferProposed(TransferProposed),
    TransferAccepted(TransferAccepted),
    TransferCancelled(TransferCancelled),
}

/// Rust's integer division of `a` by a positive `b` (rounding toward zero).
pub open spec fn div_toward_zero(a: int, b: int) -> int {
    if a >= 0 {
        a / b
    } else {
        -((-a) / b)
    }
}

/// The platform's 15% share of a reward.
pub open spec fn platform_fee(reward: int) -> int {
    div_toward_zero(reward * 15, 100)
}

/// The learner's share of a reward after the platform fee.
pub open spec fn learner_share(reward: int) -> int {
    reward - platform_fee(reward)
}

/// The learner's payout on a single approval: the learner's share scaled by
/// the stake multiplier (in hundredths), capped at the learner's share.
pub open spec fn boosted_payout(reward: int, multiplier: u32) -> int {
    let base = learner_share(reward);
    let boost = div_toward_zero(base * multiplier, 100);
    if boost > base {
        base
    } else {
        boost
    }
}

/// The payout arithmetic of a reward stays within `i128`.
pub open spec fn fee_in_range(reward: int) -> bool {
    i128::MIN <= reward * 15 <= i128::MAX
}

/// The boosted payout arithmetic stays within `i128`.
pub open spec fn boost_in_range(reward: int, multiplier: u32) -> bool {
    &&& fee_in_range(reward)
    &&& i128::MIN <= learner_share(reward) * multiplier <= i128::MAX
}

/// The abstract state of the quest engine.
pub struct QuestEngineView {
    pub address: Address,
    pub admin: Option<Address>,
    pub token: Option<Address>,
    pub reward_pool: Option<Address>,
    pub stake_vault: Option<Address>,
    /// The pending two-step hand-over of the admin role, if any.
    pub pending_admin: Option<PendingTransfer>,
    /// The pending two-step rotation of the reward pool address, if any.
    pub pending_reward_pool: Option<PendingTransfer>,
    /// The pending two-step rotation of the stake vault address, if any.
    pub pending_stake_vault: Option<PendingTransfer>,
    pub quest_counter: u32,
    /// The stored pause flag (absent until first set).
    pub paused: Option<bool>,
    pub quests: Map<u32, Quest>,
    /// Submissions keyed by (learner, quest id).
    pub submissions: Map<(Address, u32), Submission>,
    pub events: Seq<QuestEvent>,
}

/// The submissions after every learner of `learners` has been approved on
/// quest `quest_id`.
pub open spec fn approve_all(
    subs: Map<(Address, u32), Submission>,
    quest_id: u32,
    learners: Seq<Address>,
) -> Map<(Address, u32), Submission> {
    Map::new(
        |k: (Address, u32)| subs.contains_key(k),
        |k: (Address, u32)|
            if k.1 == quest_id && learners.contains(k.0) {
                Submission { status: SubmissionStatus::Approved, ..subs[k] }
            } else {
                subs[k]
            },
    )
}

/// The review events of a batch approval of `learners`.
pub open spec fn reviewed_events(employer: Address, quest_id: u32, learners: Seq<Address>) -> Seq<QuestEvent> {
    learners.map_values(
        |l: Address|
            QuestEvent::SubmissionReviewed(
                SubmissionReviewed { employer, learner: l, quest_id, approved: true },
            ),
    )
}

/// The transfers of a batch approval: for each learner in turn, the fee to
/// the reward pool, then the learner's share to the learner.
pub open spec fn batch_transfers(
    token: Address,
    from: Address,
    pool: Address,
    learners: Seq<Address>,
    fee: i128,
    share: i128,
) -> Seq<Call>
    decreases learners.len(),
{
    if learners.len() == 0 {
        Seq::empty()
    } else {
        batch_transfers(token, from, pool, learners.drop_last(), fee, share) + seq![
            Call::Transfer { token, from, to: pool, amount: fee },
            Call::Transfer { token, from, to: learners.last(), amount: share },
        ]
    }
}

impl QuestEngineView {
    /// The admin check of the privileged entry points.
    pub open spec fn admin_check(self, caller: Address) -> Result<(), Error> {
        match self.admin {
            None => Err(Error::NotInitialized),
            Some(a) => if a != caller { Err(Error::Unauthorized) } else { Ok(()) },
        }
    }

    /// Whether reviews are paused.
    pub open spec fn is_paused(self) -> bool {
        self.paused == Some(true)
    }

    /// The outcome of `submit_proof`.
    pub open spec fn submit_check(self, learner: Address, quest_id: u32) -> Result<(), Error> {
        if !self.quests.contains_key(quest_id) {
            Err(Error::QuestNotFound)
        } else if !self.quests[quest_id].active {
            Err(Error::QuestNotActive)
        } else if self.quests[quest_id].quest_type != QuestType::Build {
            Err(Error::OnlyBuildQuests)
        } else if self.submissions.contains_key((learner, quest_id)) {
            Err(Error::SubmissionExists)
        } else {
            Ok(())
        }
    }

    /// The state after `learner` submits `proof_hash` for quest `quest_id`.
    pub open spec fn after_submit(self, learner: Address, quest_id: u32, proof_hash: Hash32) -> QuestEngineView {
        QuestEngineView {
            submissions: self.submissions.insert(
                (learner, quest_id),
                Submission { proof_hash, status: SubmissionStatus::Pending },
            ),
            events: self.events.push(QuestEvent::ProofSubmitted(ProofSubmitted { learner, quest_id, proof_hash })),
            ..self
        }
    }

    /// The transfers of a review: on approval the platform fee to the reward
    /// pool, then the learner's payout boosted by `multiplier`; none on
    /// rejection.
    pub open spec fn review_transfers(self, learner: Address, quest_id: u32, approve: bool, multiplier: u32) -> Seq<Call> {
        let reward = self.quests[quest_id].reward_amount as int;
        if approve {
            seq![
                Call::Transfer {
                    token: self.token.unwrap(),
                    from: self.address,
                    to: self.reward_pool.unwrap(),
                    amount: platform_fee(reward) as i128,
                },
                Call::Transfer {
                    token: self.token.unwrap(),
                    from: self.address,
                    to: learner,
                    amount: boosted_payout(reward, multiplier) as i128,
                },
            ]
        } else {
            Seq::empty()
        }
    }

    /// The state after the submission of `learner` on `quest_id` is reviewed.
    pub open spec fn after_review(self, employer: Address, learner: Address, quest_id: u32, approve: bool) -> QuestEngineView {
        let status = if approve { SubmissionStatus::Approved } else { SubmissionStatus::Rejected };
        QuestEngineView {
            submissions: self.submissions.insert(
                (learner, quest_id),
                Submission { status, ..self.submissions[(learner, quest_id)] },
            ),
            events: self.events.push(
                QuestEvent::SubmissionReviewed(SubmissionReviewed { employer, learner, quest_id, approved: approve }),
            ),
            ..self
        }
    }

    /// The state after a batch approval of `learners` on `quest_id`.
    pub open spec fn after_batch(self, employer: Address, quest_id: u32, learners: Seq<Address>) -> QuestEngineView {
        QuestEngineView {
            submissions: approve_all(self.submissions, quest_id, learners),
            events: (self.events + reviewed_events(employer, quest_id, learners)).push(
                QuestEvent::BatchReviewed(BatchReviewed { employer, quest_id, approved_count: learners.len() as u32 }),
            ),
            ..self
        }
    }

    /// The state after quest `quest_id` is refunded to `employer`.
    pub open spec fn after_refund(self, employer: Address, quest_id: u32) -> QuestEngineView {
        let q = self.quests[quest_id];
        QuestEngineView {
            quests: self.quests.insert(quest_id, Quest { active: false, ..q }),
            events: self.events.push(
                QuestEvent::QuestRefunded(QuestRefunded { employer, quest_id, amount: q.reward_amount }),
            ),
            ..self
        }
    }

    /// The outcome of `review_submission`.
    pub open spec fn review_check(self, employer: Address, learner: Address, quest_id: u32, approve: bool) -> Result<(), Error> {
        if self.is_paused() {
            Err(Error::ContractPaused)
        } else if !self.quests.contains_key(quest_id) {
            Err(Error::QuestNotFound)
        } else if self.quests[quest_id].employer != employer {
            Err(Error::NotQuestEmployer)
        } else if !self.submissions.contains_key((learner, quest_id)) {
            Err(Error::SubmissionNotFound)
        } else if self.submissions[(learner, quest_id)].status != SubmissionStatus::Pending {
            Err(Error::SubmissionNotPending)
        } else if approve && (self.token is None || self.stake_vault is None || self.reward_pool is None) {
            Err(Error::NotInitialized)
        } else {
            Ok(())
        }
    }

    /// The error of the batch entry at index `i`, given the entries before it
    /// were accepted: a missing submission, or one that is not pending (or was
    /// approved by an earlier entry for the same learner).
    pub open spec fn batch_entry_error(self, quest_id: u32, learners: Seq<Address>, i: int) -> Option<Error> {
        let l = learners[i];
        if !self.submissions.contains_key((l, quest_id)) {
            Some(Error::SubmissionNotFound)
        } else if self.submissions[(l, quest_id)].status != SubmissionStatus::Pending
            || learners.take(i).contains(l) {
            Some(Error::SubmissionNotPending)
        } else {
            None
        }
    }

    /// The error of the first refused entry among the first `n` entries.
    pub open spec fn batch_error(self, quest_id: u32, learners: Seq<Address>, n: nat) -> Option<Error>
        decreases n,
    {
        if n == 0 {
            None
        } else {
            match self.batch_error(quest_id, learners, (n - 1) as nat) {
                Some(e) => Some(e),
                None => self.batch_entry_error(quest_id, learners, n - 1),
            }
        }
    }

    /// The outcome of `batch_review_submissions`.
    pub open spec fn batch_check(self, employer: Address, quest_id: u32, learners: Seq<Address>) -> Result<(), Error> {
        if self.is_paused() {
            Err(Error::ContractPaused)
        } else if !self.quests.contains_key(quest_id) {
            Err(Error::QuestNotFound)
        } else if self.quests[quest_id].employer != employer {
            Err(Error::NotQuestEmployer)
        } else if self.token is None || self.reward_pool is None {
            Err(Error::NotInitialized)
        } else {
            match self.batch_error(quest_id, learners, learners.len()) {
                Some(e) => Err(e),
                None => Ok(()),
            }
        }
    }

    /// The outcome of `refund_quest`.
    pub open spec fn refund_check(self, employer: Address, quest_id: u32) -> Result<(), Error> {
        if !self.quests.contains_key(quest_id) {
            Err(Error::QuestNotFound)
        } else if self.quests[quest_id].employer != employer {
            Err(Error::Unauthorized)
        } else if !self.quests[quest_id].active {
            Err(Error::QuestAlreadyInactive)
        } else if self.quests[quest_id].quest_type != QuestType::Build {
            Err(Error::NotBuildQuest)
        } else if self.token is None {
            Err(Error::NotInitialized)
        } else {
            Ok(())
        }
    }

    /// The outcome of `verify_explore_quest`.
    pub open spec fn verify_check(self, admin: Address, quest_id: u32) -> Result<(), Error> {
        match self.admin_check(admin) {
            Err(e) => Err(e),
            Ok(_) => if !self.quests.contains_key(quest_id) {
                Err(Error::QuestNotFound)
            } else if self.quests[quest_id].quest_type != QuestType::Explore {
                Err(Error::NotExploreQuest)
            } else if !self.quests[quest_id].active {
                Err(Error::QuestNotActive)
            } else if self.reward_pool is None {
                Err(Error::NotInitialized)
            } else {
                Ok(())
            },
        }
    }
}

/// A batch whose first `n` entries pass has no refused entry among them.
pub proof fn lemma_batch_error_none(v: QuestEngineView, quest_id: u32, learners: Seq<Address>, n: nat)
    requires
        v.batch_error(quest_id, learners, n) is None,
    ensures
        forall|i: int| 0 <= i < n ==> #[trigger] v.batch_entry_error(quest_id, learners, i) is None,
    decreases n,
{
    if n > 0 {
        lemma_batch_error_none(v, quest_id, learners, (n - 1) as nat);
    }
}

/// Once an entry is refused, the batch reports that entry's error.
pub proof fn lemma_batch_error_sticky(v: QuestEngineView, quest_id: u32, learners: Seq<Address>, i: nat, n: nat)
    requires
        i < n,
        v.batch_error(quest_id, learners, i) is None,
        v.batch_entry_error(quest_id, learners, i as int) is Some,
    ensures
        v.batch_error(quest_id, learners, n) == v.batch_entry_error(quest_id, learners, i as int),
    decreases n,
{
    if n > i + 1 {
        lemma_batch_error_sticky(v, quest_id, learners, i, (n - 1) as nat);
    }
}

/// The error that a refused reward-pool rotation step reports.
pub open spec fn reward_pool_transfer_error(e: TransferError) -> Error {
    match e {
        TransferError::NotInitialized => Error::NotInitialized,
        TransferError::NotAuthority => Error::NotAdmin,
        TransferError::NoPending => Error::NoPendingRewardPoolTransfer,
        TransferError::NotProposed => Error::NotProposedRewardPool,
        TransferError::CancelNotAllowed => Error::CancelNotAllowed,
    }
}

fn map_reward_pool_transfer_error(e: TransferError) -> (r: Error)
    ensures
        r == reward_pool_transfer_error(e),
{
    match e {
        TransferError::NotInitialized => Error::NotInitialized,
        TransferError::NotAuthority => Error::NotAdmin,
        TransferError::NoPending => Error::NoPendingRewardPoolTransfer,
        TransferError::NotProposed => Error::NotProposedRewardPool,
        TransferError::CancelNotAllowed => Error::CancelNotAllowed,
    }
}

/// The error that a refused stake-vault rotation step reports.
pub open spec fn stake_vault_transfer_error(e: TransferError) -> Error {
    match e {
        TransferError::NotInitialized => Error::NotInitialized,
        TransferError::NotAuthority => Error::NotAdmin,
        TransferError::NoPending => Error::NoPendingStakeVaultTransfer,
        TransferError::NotProposed => Error::NotProposedStakeVault,
        TransferError::CancelNotAllowed => Error::CancelNotAllowed,
    }
}

fn map_stake_vault_transfer_error(e: TransferError) -> (r: Error)
    ensures
        r == stake_vault_transfer_error(e),
{
    match e {
        TransferError::NotInitialized => Error::NotInitialized,
        TransferError::NotAuthority => Error::NotAdmin,
        TransferError::NoPending => Error::NoPendingStakeVaultTransfer,
        TransferError::NotProposed => Error::NotProposedStakeVault,
        TransferError::CancelNotAllowed => Error::CancelNotAllowed,
    }
}

/// The storage of a quest engine as plain entries, for a host to keep between
/// invocations.
pub struct QuestEngineStorage {
    pub address: Address,
    pub admin: Option<Address>,
    pub token: Option<Address>,
    pub reward_pool: Option<Address>,
    pub stake_vault: Option<Address>,
    pub pending_admin: Option<PendingTransfer>,
    pub pending_reward_pool: Option<PendingTransfer>,
    pub pending_stake_vault: Option<PendingTransfer>,
    pub quest_counter: u32,
    pub paused: Option<bool>,
    pub quests: Vec<(u32, Quest)>,
    pub submissions: Vec<((Address, u32), Submission)>,
}

impl QuestEngineStorage {
    /// The engine state that this storage holds, with an empty event log.
    pub open spec fn state(self) -> QuestEngineView {
        QuestEngineView {
            address: self.address,
            admin: self.admin,
            token: self.token,
            reward_pool: self.reward_pool,
            stake_vault: self.stake_vault,
            pending_admin: self.pending_admin,
            pending_reward_pool: self.pending_reward_pool,
            pending_stake_vault: self.pending_stake_vault,
            quest_counter: self.quest_counter,
            paused: self.paused,
            quests: entries_map(self.quests@),
            submissions: entries_map(self.submissions@),
            events: Seq::empty(),
        }
    }

    /// The configuration is set all at once, and a hand-over is pending only
    /// once it is set; every quest has an id in `1..=quest_counter` and exists
    /// only once the engine is initialized; every submission belongs to a
    /// stored Build quest.
    pub open spec fn valid(self) -> bool {
        let v = self.state();
        &&& v.admin is Some <==> v.token is Some
        &&& v.admin is Some <==> v.reward_pool is Some
        &&& v.admin is Some <==> v.stake_vault is Some
        &&& v.pending_admin is Some ==> v.admin is Some
        &&& v.pending_reward_pool is Some ==> v.admin is Some
        &&& v.pending_stake_vault is Some ==> v.admin is Some
        &&& forall|id: u32| #[trigger] v.quests.contains_key(id) ==> 1 <= id <= v.quest_counter && v.admin is Some
        &&& forall|k: (Address, u32)| #[trigger] v.submissions.contains_key(k) ==> {
            &&& v.quests.contains_key(k.1)
            &&& v.quests[k.1].quest_type == QuestType::Build
        }
    }
}

/// The quest engine contract.
pub struct QuestEngineContract {
    address: Address,
    admin: Option<Address>,
    token: Option<Address>,
    reward_pool: Option<Address>,
    stake_vault: Option<Address>,
    pending_admin: Option<PendingTransfer>,
    pending_reward_pool: Option<PendingTransfer>,
    pending_stake_vault: Option<PendingTransfer>,
    quest_counter: u32,
    paused: Option<bool>,
    quests: HashMap<u32, Quest>,
    submissions: HashMap<u128, Submission>,
    events: Vec<QuestEvent>,
}

impl View for QuestEngineContract {
    type V = QuestEngineView;

    closed spec fn view(&self) -> QuestEngineView {
        QuestEngineView {
            address: self.address,
            admin: self.admin,
            token: self.token,
            reward_pool: self.reward_pool,
            stake_vault: self.stake_vault,
            pending_admin: self.pending_admin,
            pending_reward_pool: self.pending_reward_pool,
            pending_stake_vault: self.pending_stake_vault,
            quest_counter: self.quest_counter,
            paused: self.paused,
            quests: self.quests@,
            submissions: pair_view(self.submissions@),
            events: self.events@,
        }
    }
}

impl QuestEngineContract {
    /// Well-formedness: the configuration is set all at once, and a hand-over
    /// is pending only once it is set; every quest has an id in
    /// `1..=quest_counter` and exists only once the engine is initialized;
    /// every submission belongs to a stored Build quest.
    pub closed spec fn wf(self) -> bool {
        &&& self@.admin is Some <==> self@.token is Some
        &&& self@.admin is Some <==> self@.reward_pool is Some
        &&& self@.admin is Some <==> self@.stake_vault is Some
        &&& self@.pending_admin is Some ==> self@.admin is Some
        &&& self@.pending_reward_pool is Some ==> self@.admin is Some
        &&& self@.pending_stake_vault is Some ==> self@.admin is Some
        &&& forall|id: u32| #[trigger] self@.quests.contains_key(id) ==> 1 <= id <= self@.quest_counter
            && self@.admin is Some
        &&& forall|k: (Address, u32)| #[trigger] self@.submissions.contains_key(k) ==> {
            &&& self@.quests.contains_key(k.1)
            &&& self@.quests[k.1].quest_type == QuestType::Build
        }
    }

    /// A freshly deployed, uninitialized quest engine at `address`.
    pub fn new(address: Address) -> (c: Self)
        ensures
            c.wf(),
            c@ == (QuestEngineView {
                address,
                admin: None,
                token: None,
                reward_pool: None,
                stake_vault: None,
                pending_admin: None,
                pending_reward_pool: None,
                pending_stake_vault: None,
                quest_counter: 0,
                paused: None,
                quests: Map::empty(),
                submissions: Map::empty(),
                events: Seq::empty(),
            }),
    {
        let c = QuestEngineContract {
            address,
            admin: None,
            token: None,
            reward_pool: None,
            stake_vault: None,
            pending_admin: None,
            pending_reward_pool: None,
            pending_stake_vault: None,
            quest_counter: 0,
            paused: None,
            quests: HashMap::new(),
            submissions: HashMap::new(),
            events: Vec::new(),
        };
        assert(c@.submissions =~= Map::<(Address, u32), Submission>::empty());
        assert(c@.quests =~= Map::<u32, Quest>::empty());
        c
    }

    /// The engine's storage as plain entries, each key once.
    pub fn save(&self) -> (s: QuestEngineStorage)
        requires
            self.wf(),
        ensures
            s.state() == (QuestEngineView { events: Seq::empty(), ..self@ }),
            s.valid(),
            keys_distinct(s.quests@),
            keys_distinct(s.submissions@),
    {
        let quests = entries_of(&self.quests);
        let submissions = pair_entries_of(&self.submissions);
        QuestEngineStorage {
            address: self.address,
            admin: self.admin,
            token: self.token,
            reward_pool: self.reward_pool,
            stake_vault: self.stake_vault,
            pending_admin: self.pending_admin,
            pending_reward_pool: self.pending_reward_pool,
            pending_stake_vault: self.pending_stake_vault,
            quest_counter: self.quest_counter,
            paused: self.paused,
            quests,
            submissions,
        }
    }

    /// The engine holding `s`, with an empty event log; `None` when the
    /// storage breaks the engine's invariants (see `valid`).
    pub fn load(s: QuestEngineStorage) -> (r: Option<QuestEngineContract>)
        ensures
            r is Some <==> s.valid(),
            r matches Some(c) ==> c.wf() && c@ == s.state(),
    {
        if s.admin.is_some() != s.token.is_some() || s.admin.is_some() != s.reward_pool.is_some() || s.admin.is_some()
            != s.stake_vault.is_some() {
            return None;
        }
        if s.admin.is_none() && (s.pending_admin.is_some() || s.pending_reward_pool.is_some()
            || s.pending_stake_vault.is_some()) {
            return None;
        }
        let counter = s.quest_counter;
        let initialized = s.admin.is_some();
        let quests = map_of(&s.quests);
        let listed = entries_of(&quests);
        proof {
            lemma_entries_map_distinct(listed@);
        }
        let mut i: usize = 0;
        while i < listed.len()
            invariant
                i <= listed@.len(),
                counter == s.quest_counter,
                initialized == s.admin is Some,
                quests@ == s.state().quests,
                entries_map(listed@) == quests@,
                forall|j: int| 0 <= j < listed@.len() ==> quests@.contains_key(#[trigger] listed@[j].0)
                    && quests@[listed@[j].0] == listed@[j].1,
                forall|j: int| 0 <= j < i ==> 1 <= #[trigger] listed@[j].0 <= counter && initialized,
            decreases listed@.len() - i,
        {
            let (id, q) = listed[i];
            if id < 1 || id > counter || !initialized {
                proof {
                    assert(listed@[i as int] == (id, q));
                }
                return None;
            }
            i += 1;
        }
        proof {
            assert forall|id: u32| #[trigger] quests@.contains_key(id) implies 1 <= id <= counter && initialized by {
                let j = lemma_entries_map_witness(listed@, id);
            }
        }
        let submissions = pair_map_of(&s.submissions);
        let slisted = pair_entries_of(&submissions);
        proof {
            lemma_entries_map_distinct(slisted@);
        }
        let mut i: usize = 0;
        while i < slisted.len()
            invariant
                i <= slisted@.len(),
                quests@ == s.state().quests,
                entries_map(slisted@) == s.state().submissions,
                forall|j: int| 0 <= j < slisted@.len() ==> s.state().submissions.contains_key(#[trigger] slisted@[j].0)
                    && s.state().submissions[slisted@[j].0] == slisted@[j].1,
                forall|j: int| 0 <= j < i ==> quests@.contains_key(#[trigger] slisted@[j].0.1)
                    && quests@[slisted@[j].0.1].quest_type == QuestType::Build,
            decreases slisted@.len() - i,
        {
            let (k, sub) = slisted[i];
            match quests.get(&k.1) {
                None => {
                    proof {
                        assert(slisted@[i as int] == (k, sub));
                    }
                    return None;
                },
                Some(q) => {
                    if q.quest_type != QuestType::Build {
                        proof {
                            assert(slisted@[i as int] == (k, sub));
                        }
                        return None;
                    }
                },
            }
            i += 1;
        }
        proof {
            assert forall|k: (Address, u32)| #[trigger] s.state().submissions.contains_key(k) implies quests@.contains_key(
                k.1,
            ) && quests@[k.1].quest_type == QuestType::Build by {
                let j = lemma_entries_map_witness(slisted@, k);
            }
        }
        Some(QuestEngineContract {
            address: s.address,
            admin: s.admin,
            token: s.token,
            reward_pool: s.reward_pool,
            stake_vault: s.stake_vault,
            pending_admin: s.pending_admin,
            pending_reward_pool: s.pending_reward_pool,
            pending_stake_vault: s.pending_stake_vault,
            quest_counter: s.quest_counter,
            paused: s.paused,
            quests,
            submissions,
            events: Vec::new(),
        })
    }

    /// The contract's own address.
    pub fn address(&self) -> (a: Address)
        ensures
            a == self@.address,
    {
        self.address
    }

    /// The stored admin, if any.
    pub fn admin(&self) -> (a: Option<Address>)
        ensures
            a == self@.admin,
    {
        self.admin
    }

    /// The stored reward token, if any.
    pub fn token(&self) -> (a: Option<Address>)
        ensures
            a == self@.token,
    {
        self.token
    }

    /// The wired reward pool, if any.
    pub fn reward_pool(&self) -> (a: Option<Address>)
        ensures
            a == self@.reward_pool,
    {
        self.reward_pool
    }

    /// The wired stake vault, if any.
    pub fn stake_vault(&self) -> (a: Option<Address>)
        ensures
            a == self@.stake_vault,
    {
        self.stake_vault
    }

    /// The stored pause flag (`None` until the first `set_pause`).
    pub fn paused_flag(&self) -> (p: Option<bool>)
        ensures
            p == self@.paused,
    {
        self.paused
    }

    /// The id of the last created quest (0 before the first).
    pub fn quest_counter(&self) -> (n: u32)
        ensures
            n == self@.quest_counter,
    {
        self.quest_counter
    }

    /// Every event published so far, oldest first.
    pub fn events(&self) -> (e: &Vec<QuestEvent>)
        ensures
            e@ == self@.events,
    {
        &self.events
    }

    fn check_admin(&self, caller: Address) -> (r: Result<(), Error>)
        ensures
            r == self@.admin_check(caller),
    {
        match self.admin {
            None => Err(Error::NotInitialized),
            Some(a) => if a != caller { Err(Error::Unauthorized) } else { Ok(()) },
        }
    }

    /// Initializes the engine with its admin, reward token, reward pool and
    /// stake vault; the quest counter starts at 0.
    pub fn initialize(&mut self, admin: Address, token: Address, reward_pool: Address, stake_vault: Address) -> (r:
        Result<(), Error>)
        requires
            old(self).wf(),
        ensures
            final(self).wf(),
            old(self)@.token is Some ==> r == Err::<(), Error>(Error::AlreadyInitialized)
                && final(self)@ == old(self)@,
            old(self)@.token is None ==> r is Ok && final(self)@ == (QuestEngineView {
                admin: Some(admin),
                token: Some(token),
                reward_pool: Some(reward_pool),
                stake_vault: Some(stake_vault),
                quest_counter: 0,
                ..old(self)@
            }),
    {
        if self.token.is_some() {
            return Err(Error::AlreadyInitialized);
        }
        self.admin = Some(admin);
        self.token = Some(token);
        self.reward_pool = Some(reward_pool);
        self.stake_vault = Some(stake_vault);
        self.quest_counter = 0;
        Ok(())
    }

    /// Sets the pause flag (emergency circuit breaker). Admin only.
    pub fn set_pause(&mut self, admin: Address, status: bool) -> (r: Result<(), Error>)
        requires
            old(self).wf(),
        ensures
            final(self).wf(),
            r == old(self)@.admin_check(admin),
            r is Err ==> final(self)@ == old(self)@,
            r is Ok ==> final(self)@ == (QuestEngineView { paused: Some(status), ..old(self)@ }),
    {
        self.check_admin(admin)?;
        self.paused = Some(status);
        Ok(())
    }

    /// Creates a Build quest funded by `employer` and returns its id
    /// (`quest_counter + 1`) with the transfer that locks the reward in the
    /// engine.
    pub fn create_build_quest(&mut self, employer: Address, reward_amount: i128, metadata_hash: Hash32) -> (r:
        Result<(u32, Call), Error>)
        requires
            old(self).wf(),
            old(self)@.quest_counter < u32::MAX,
        ensures
            final(self).wf(),
            match old(self)@.token {
                None => r == Err::<(u32, Call), Error>(Error::NotInitialized) && final(self)@ == old(self)@,
                Some(t) => {
                    let id = (old(self)@.quest_counter + 1) as u32;
                    &&& r == Ok::<(u32, Call), Error>(
                        (id, Call::Transfer { token: t, from: employer, to: old(self)@.address, amount: reward_amount }),
                    )
                    &&& final(self)@ == (QuestEngineView {
                        quest_counter: id,
                        quests: old(self)@.quests.insert(
                            id,
                            Quest {
                                employer,
                                reward_amount,
                                quest_type: QuestType::Build,
                                metadata_hash,
                                active: true,
                            },
                        ),
                        events: old(self)@.events.push(
                            QuestEvent::QuestCreated(QuestCreated { employer, quest_id: id, reward_amount }),
                        ),
                        ..old(self)@
                    })
                },
            },
    {
        let token = match self.token {
            None => return Err(Error::NotInitialized),
            Some(t) => t,
        };
        let quest_id = self.quest_counter + 1;
        self.quest_counter = quest_id;
        self.quests.insert(
            quest_id,
            Quest { employer, reward_amount, quest_type: QuestType::Build, metadata_hash, active: true },
        );
        self.events.push(QuestEvent::QuestCreated(QuestCreated { employer, quest_id, reward_amount }));
        Ok((quest_id, Call::Transfer { token, from: employer, to: self.address, amount: reward_amount }))
    }

    /// Creates an Explore quest, paid out of the reward pool, and returns its
    /// id. Admin only; the admin is recorded as the quest's employer.
    pub fn create_explore_quest(&mut self, admin: Address, reward_amount: i128, metadata_hash: Hash32) -> (r:
        Result<u32, Error>)
        requires
            old(self).wf(),
            old(self)@.quest_counter < u32::MAX,
        ensures
            final(self).wf(),
            match old(self)@.admin_check(admin) {
                Err(e) => r == Err::<u32, Error>(e) && final(self)@ == old(self)@,
                Ok(_) => {
                    let id = (old(self)@.quest_counter + 1) as u32;
                    &&& r == Ok::<u32, Error>(id)
                    &&& final(self)@ == (QuestEngineView {
                        quest_counter: id,
                        quests: old(self)@.quests.insert(
                            id,
                            Quest {
                                employer: admin,
                                reward_amount,
                                quest_type: QuestType::Explore,
                                metadata_hash,
                                active: true,
                            },
                        ),
                        events: old(self)@.events.push(
                            QuestEvent::QuestCreated(QuestCreated { employer: admin, quest_id: id, reward_amount }),
                        ),
                        ..old(self)@
                    })
                },
            },
    {
        self.check_admin(admin)?;
        let quest_id = self.quest_counter + 1;
        self.quest_counter = quest_id;
        self.quests.insert(
            quest_id,
            Quest { employer: admin, reward_amount, quest_type: QuestType::Explore, metadata_hash, active: true },
        );
        self.events.push(QuestEvent::QuestCreated(QuestCreated { employer: admin, quest_id, reward_amount }));
        Ok(quest_id)
    }

    /// The quest stored under `quest_id`, if any.
    pub fn get_quest(&self, quest_id: u32) -> (q: Option<Quest>)
        ensures
            q == (if self@.quests.contains_key(quest_id) { Some(self@.quests[quest_id]) } else { None }),
    {
        match self.quests.get(&quest_id) {
            Some(q) => Some(*q),
            None => None,
        }
    }

    /// The submission of `learner` for quest `quest_id`, if any.
    pub fn get_submission(&self, learner: Address, quest_id: u32) -> (s: Option<Submission>)
        ensures
            s == (if self@.submissions.contains_key((learner, quest_id)) {
                Some(self@.submissions[(learner, quest_id)])
            } else {
                None
            }),
    {
        match self.submissions.get(&pair_key(learner, quest_id)) {
            Some(s) => Some(*s),
            None => None,
        }
    }

    /// Stores `learner`'s proof for the active Build quest `quest_id`, pending
    /// review. A learner submits at most once per quest.
    pub fn submit_proof(&mut self, learner: Address, quest_id: u32, proof_hash: Hash32) -> (r: Result<(), Error>)
        requires
            old(self).wf(),
        ensures
            final(self).wf(),
            r == old(self)@.submit_check(learner, quest_id),
            r is Err ==> final(self)@ == old(self)@,
            r is Ok ==> final(self)@ == old(self)@.after_submit(learner, quest_id, proof_hash),
    {
        let quest = match self.quests.get(&quest_id) {
            Some(q) => *q,
            None => return Err(Error::QuestNotFound),
        };
        if !quest.active {
            return Err(Error::QuestNotActive);
        }
        if quest.quest_type != QuestType::Build {
            return Err(Error::OnlyBuildQuests);
        }
        let key = pair_key(learner, quest_id);
        if self.submissions.contains_key(&key) {
            return Err(Error::SubmissionExists);
        }
        self.submissions.insert(key, Submission { proof_hash, status: SubmissionStatus::Pending });
        proof {
            lemma_pair_view_insert(
                old(self).submissions@,
                learner,
                quest_id,
                Submission { proof_hash, status: SubmissionStatus::Pending },
            );
        }
        self.events.push(QuestEvent::ProofSubmitted(ProofSubmitted { learner, quest_id, proof_hash }));
        Ok(())
    }

    /// Whether `review_submission` by `employer` of `learner`'s submission to
    /// `quest_id` would be accepted; if not, the error it would report. The
    /// outcome does not depend on the stake multiplier, so a caller can test
    /// it before asking the stake vault.
    pub fn check_review(&self, employer: Address, learner: Address, quest_id: u32, approve: bool) -> (r: Result<(), Error>)
        requires
            self.wf(),
        ensures
            r == self@.review_check(employer, learner, quest_id, approve),
    {
        if self.paused == Some(true) {
            return Err(Error::ContractPaused);
        }
        let quest = match self.quests.get(&quest_id) {
            Some(q) => *q,
            None => return Err(Error::QuestNotFound),
        };
        if quest.employer != employer {
            return Err(Error::NotQuestEmployer);
        }
        let submission = match self.submissions.get(&pair_key(learner, quest_id)) {
            Some(s) => *s,
            None => return Err(Error::SubmissionNotFound),
        };
        if submission.status != SubmissionStatus::Pending {
            return Err(Error::SubmissionNotPending);
        }
        if approve && (self.token.is_none() || self.stake_vault.is_none() || self.reward_pool.is_none()) {
            return Err(Error::NotInitialized);
        }
        Ok(())
    }

    /// Approves or rejects the pending submission of `learner` on quest
    /// `quest_id`; only the quest's employer may review, and not while paused.
    /// `multiplier` is the learner's stake multiplier (in hundredths) as the
    /// wired stake vault reports it; it is used only on approval. An approval
    /// returns the transfers the host must make: the 15% fee to the reward pool,
    /// then the boosted learner share (capped at the share) to the learner.
    pub fn review_submission(
        &mut self,
        employer: Address,
        learner: Address,
        quest_id: u32,
        approve: bool,
        multiplier: u32,
    ) -> (r: Result<Vec<Call>, Error>)
        requires
            old(self).wf(),
            approve && old(self)@.review_check(employer, learner, quest_id, approve) is Ok ==> boost_in_range(
                old(self)@.quests[quest_id].reward_amount as int,
                multiplier,
            ),
        ensures
            final(self).wf(),
            match old(self)@.review_check(employer, learner, quest_id, approve) {
                Err(e) => r == Err::<Vec<Call>, Error>(e) && final(self)@ == old(self)@,
                Ok(_) => {
                    &&& r is Ok
                    &&& r->Ok_0@ == old(self)@.review_transfers(learner, quest_id, approve, multiplier)
                    &&& final(self)@ == old(self)@.after_review(employer, learner, quest_id, approve)
                },
            },
    {
        if self.paused == Some(true) {
            return Err(Error::ContractPaused);
        }
        let quest = match self.quests.get(&quest_id) {
            Some(q) => *q,
            None => return Err(Error::QuestNotFound),
        };
        if quest.employer != employer {
            return Err(Error::NotQuestEmployer);
        }
        let key = pair_key(learner, quest_id);
        let mut submission = match self.submissions.get(&key) {
            Some(s) => *s,
            None => return Err(Error::SubmissionNotFound),
        };
        if submission.status != SubmissionStatus::Pending {
            return Err(Error::SubmissionNotPending);
        }
        let mut calls: Vec<Call> = Vec::new();
        if approve {
            let token = match self.token {
                None => return Err(Error::NotInitialized),
                Some(t) => t,
            };
            let fee = (quest.reward_amount * 15) / 100;
            let base_learner_amount = quest.reward_amount - fee;
            if self.stake_vault.is_none() {
                return Err(Error::NotInitialized);
            }
            let calculated_boost = (base_learner_amount * multiplier as i128) / 100;
            let learner_amount = if calculated_boost > base_learner_amount {
                base_learner_amount
            } else {
                calculated_boost
            };
            let pool = match self.reward_pool {
                None => return Err(Error::NotInitialized),
                Some(p) => p,
            };
            calls.push(Call::Transfer { token, from: self.address, to: pool, amount: fee });
            calls.push(Call::Transfer { token, from: self.address, to: learner, amount: learner_amount });
            submission.status = SubmissionStatus::Approved;
        } else {
            submission.status = SubmissionStatus::Rejected;
        }
        self.submissions.insert(key, submission);
        proof {
            lemma_pair_view_insert(old(self).submissions@, learner, quest_id, submission);
        }
        self.events.push(
            QuestEvent::SubmissionReviewed(SubmissionReviewed { employer, learner, quest_id, approved: approve }),
        );
        Ok(calls)
    }

    /// Reviews the submission as `review_submission` does, with the learner's
    /// multiplier read from `vault`, the stake vault this engine is wired to.
    pub fn review_submission_with_stake(
        &mut self,
        vault: &StakeVault,
        employer: Address,
        learner: Address,
        quest_id: u32,
        approve: bool,
    ) -> (r: Result<Vec<Call>, Error>)
        requires
            old(self).wf(),
            old(self)@.stake_vault is Some ==> old(self)@.stake_vault == Some(vault@.address),
            approve && old(self)@.review_check(employer, learner, quest_id, approve) is Ok ==> boost_in_range(
                old(self)@.quests[quest_id].reward_amount as int,
                multiplier_for(vault@.staked(learner)),
            ),
        ensures
            final(self).wf(),
            match old(self)@.review_check(employer, learner, quest_id, approve) {
                Err(e) => r == Err::<Vec<Call>, Error>(e) && final(self)@ == old(self)@,
                Ok(_) => {
                    &&& r is Ok
                    &&& r->Ok_0@ == old(self)@.review_transfers(
                        learner,
                        quest_id,
                        approve,
                        multiplier_for(vault@.staked(learner)),
                    )
                    &&& final(self)@ == old(self)@.after_review(employer, learner, quest_id, approve)
                },
            },
    {
        let multiplier = vault.get_multiplier(learner);
        self.review_submission(employer, learner, quest_id, approve, multiplier)
    }

    /// Approves the pending submissions of every learner of `learners` on
    /// quest `quest_id` at once; only the quest's employer may do so, and not
    /// while paused. Each approval pays the 15% fee to the reward pool and the
    /// rest of the reward to the learner (no stake multiplier). Either every
    /// entry is approved or, if one is refused (no submission, or not pending,
    /// which includes a learner listed twice), nothing changes and the first
    /// refused entry's error is returned. The result is the transfers the host
    /// must make, in order.
    pub fn batch_review_submissions(&mut self, employer: Address, quest_id: u32, learners: &Vec<Address>) -> (r:
        Result<Vec<Call>, Error>)
        requires
            old(self).wf(),
            learners@.len() <= u32::MAX,
            old(self)@.batch_check(employer, quest_id, learners@) is Ok ==> fee_in_range(
                old(self)@.quests[quest_id].reward_amount as int,
            ),
        ensures
            final(self).wf(),
            match old(self)@.batch_check(employer, quest_id, learners@) {
                Err(e) => r == Err::<Vec<Call>, Error>(e) && final(self)@ == old(self)@,
                Ok(_) => {
                    let reward = old(self)@.quests[quest_id].reward_amount as int;
                    let fee = platform_fee(reward) as i128;
                    let share = learner_share(reward) as i128;
                    &&& r is Ok
                    &&& r->Ok_0@ == batch_transfers(
                        old(self)@.token.unwrap(),
                        old(self)@.address,
                        old(self)@.reward_pool.unwrap(),
                        learners@,
                        fee,
                        share,
                    )
                    &&& final(self)@ == old(self)@.after_batch(employer, quest_id, learners@)
                },
            },
    {
        if self.paused == Some(true) {
            return Err(Error::ContractPaused);
        }
        let quest = match self.quests.get(&quest_id) {
            Some(q) => *q,
            None => return Err(Error::QuestNotFound),
        };
        if quest.employer != employer {
            return Err(Error::NotQuestEmployer);
        }
        let token = match self.token {
            None => return Err(Error::NotInitialized),
            Some(t) => t,
        };
        let pool = match self.reward_pool {
            None => return Err(Error::NotInitialized),
            Some(p) => p,
        };
        let ghost v = self@;
        let n = learners.len();
        // Check every entry before changing anything.
        let mut i: usize = 0;
        while i < n
            invariant
                i <= n,
                n == learners@.len(),
                self@ == v,
                v == old(self)@,
                self.wf(),
                !v.is_paused(),
                v.quests.contains_key(quest_id),
                v.quests[quest_id].employer == employer,
                v.token is Some,
                v.reward_pool is Some,
                v.batch_error(quest_id, learners@, i as nat) is None,
            decreases n - i,
        {
            let l = learners[i];
            let ghost before = learners@.take(i as int);
            match self.submissions.get(&pair_key(l, quest_id)) {
                None => {
                    proof {
                        lemma_batch_error_sticky(v, quest_id, learners@, i as nat, n as nat);
                    }
                    return Err(Error::SubmissionNotFound);
                },
                Some(s) => {
                    if s.status != SubmissionStatus::Pending {
                        proof {
                            lemma_batch_error_sticky(v, quest_id, learners@, i as nat, n as nat);
                        }
                        return Err(Error::SubmissionNotPending);
                    }
                },
            }
            let mut j: usize = 0;
            while j < i
                invariant
                    j <= i,
                    i < n,
                    n == learners@.len(),
                    l == learners@[i as int],
                    before == learners@.take(i as int),
                    forall|jj: int| 0 <= jj < j ==> before[jj] != l,
                    v.batch_error(quest_id, learners@, i as nat) is None,
                    v.submissions.contains_key((l, quest_id)),
                    self@ == v,
                    v == old(self)@,
                    self.wf(),
                    !v.is_paused(),
                    v.quests.contains_key(quest_id),
                    v.quests[quest_id].employer == employer,
                    v.token is Some,
                    v.reward_pool is Some,
                decreases i - j,
            {
                if learners[j] == l {
                    proof {
                        assert(before[j as int] == l);
                        assert(before.contains(l));
                        lemma_batch_error_sticky(v, quest_id, learners@, i as nat, n as nat);
                    }
                    return Err(Error::SubmissionNotPending);
                }
                j += 1;
            }
            proof {
                assert(!before.contains(l)) by {
                    if before.contains(l) {
                        let w = choose|w: int| 0 <= w < before.len() && before[w] == l;
                        assert(before[w] != l);
                    }
                }
            }
            i += 1;
        }
        proof {
            lemma_batch_error_none(v, quest_id, learners@, n as nat);
        }
        let fee = (quest.reward_amount * 15) / 100;
        let share = quest.reward_amount - fee;
        let mut calls: Vec<Call> = Vec::new();
        let mut approved_count: u32 = 0;
        let mut k: usize = 0;
        assert(learners@.take(0) =~= Seq::<Address>::empty());
        assert(approve_all(v.submissions, quest_id, Seq::empty()) =~= v.submissions);
        assert(reviewed_events(employer, quest_id, Seq::empty()) =~= Seq::<QuestEvent>::empty());
        assert(v.events + Seq::<QuestEvent>::empty() =~= v.events);
        while k < n
            invariant
                k <= n,
                n == learners@.len(),
                n <= u32::MAX,
                approved_count == k,
                v == old(self)@,
                old(self).wf(),
                v.quests.contains_key(quest_id),
                v.token == Some(token),
                v.reward_pool == Some(pool),
                forall|x: int| 0 <= x < n ==> #[trigger] v.batch_entry_error(quest_id, learners@, x) is None,
                self@ == (QuestEngineView {
                    submissions: approve_all(v.submissions, quest_id, learners@.take(k as int)),
                    events: v.events + reviewed_events(employer, quest_id, learners@.take(k as int)),
                    ..v
                }),
                calls@ == batch_transfers(token, v.address, pool, learners@.take(k as int), fee, share),
            decreases n - k,
        {
            let l = learners[k];
            let key = pair_key(l, quest_id);
            let ghost done = learners@.take(k as int);
            assert(v.batch_entry_error(quest_id, learners@, k as int) is None);
            assert(!done.contains(l));
            assert(v.submissions.contains_key((l, quest_id)));
            let mut sub = match self.submissions.get(&key) {
                Some(s) => *s,
                None => {
                    proof {
                        assert(self@.submissions.contains_key((l, quest_id)));
                    }
                    return Err(Error::SubmissionNotFound);
                },
            };
            assert(self.submissions@.contains_key(spec_pair_key(l, quest_id)));
            assert(self.submissions@[spec_pair_key(l, quest_id)] == sub);
            assert(self@.submissions[(l, quest_id)] == sub);
            assert(sub == v.submissions[(l, quest_id)]);
            sub.status = SubmissionStatus::Approved;
            let ghost inner0 = self.submissions@;
            self.submissions.insert(key, sub);
            proof {
                lemma_pair_view_insert(inner0, l, quest_id, sub);
                let next = learners@.take(k + 1);
                assert(next =~= done.push(l));
                assert forall|x: Address| #[trigger] next.contains(x) <==> done.contains(x) || x == l by {
                    if next.contains(x) {
                        let w = choose|w: int| 0 <= w < next.len() && next[w] == x;
                        if w < done.len() {
                            assert(done[w] == x);
                        }
                    }
                    if done.contains(x) {
                        let w = choose|w: int| 0 <= w < done.len() && done[w] == x;
                        assert(next[w] == x);
                    }
                    if x == l {
                        assert(next[k as int] == x);
                    }
                }
                assert(approve_all(v.submissions, quest_id, done).insert((l, quest_id), sub)
                    =~= approve_all(v.submissions, quest_id, next));
                assert(next.drop_last() =~= done);
                assert(reviewed_events(employer, quest_id, next) =~= reviewed_events(employer, quest_id, done).push(
                    QuestEvent::SubmissionReviewed(SubmissionReviewed { employer, learner: l, quest_id, approved: true }),
                ));
            }
            self.events.push(
                QuestEvent::SubmissionReviewed(SubmissionReviewed { employer, learner: l, quest_id, approved: true }),
            );
            calls.push(Call::Transfer { token, from: self.address, to: pool, amount: fee });
            calls.push(Call::Transfer { token, from: self.address, to: l, amount: share });
            approved_count += 1;
            k += 1;
        }
        assert(learners@.take(n as int) =~= learners@);
        self.events.push(
            QuestEvent::BatchReviewed(BatchReviewed { employer, quest_id, approved_count }),
        );
        Ok(calls)
    }

    /// Cancels the active Build quest `quest_id`: its locked reward goes back to
    /// its employer and the quest is deactivated. Explore quests lock nothing
    /// and are refused. The result is the transfer returning the reward.
    pub fn refund_quest(&mut self, employer: Address, quest_id: u32) -> (r: Result<Call, Error>)
        requires
            old(self).wf(),
        ensures
            final(self).wf(),
            match old(self)@.refund_check(employer, quest_id) {
                Err(e) => r == Err::<Call, Error>(e) && final(self)@ == old(self)@,
                Ok(_) => {
                    let q = old(self)@.quests[quest_id];
                    &&& r == Ok::<Call, Error>(
                        Call::Transfer {
                            token: old(self)@.token.unwrap(),
                            from: old(self)@.address,
                            to: employer,
                            amount: q.reward_amount,
                        },
                    )
                    &&& final(self)@ == old(self)@.after_refund(employer, quest_id)
                },
            },
    {
        let mut quest = match self.quests.get(&quest_id) {
            Some(q) => *q,
            None => return Err(Error::QuestNotFound),
        };
        if quest.employer != employer {
            return Err(Error::Unauthorized);
        }
        if !quest.active {
            return Err(Error::QuestAlreadyInactive);
        }
        if quest.quest_type != QuestType::Build {
            return Err(Error::NotBuildQuest);
        }
        let token = match self.token {
            None => return Err(Error::NotInitialized),
            Some(t) => t,
        };
        quest.active = false;
        self.quests.insert(quest_id, quest);
        self.events.push(
            QuestEvent::QuestRefunded(QuestRefunded { employer, quest_id, amount: quest.reward_amount }),
        );
        Ok(Call::Transfer { token, from: self.address, to: employer, amount: quest.reward_amount })
    }

    /// Sets the reward pool address in one step; admin only. Meant for the
    /// initial wiring; later rotations go through the two-step hand-over.
    pub fn set_reward_pool_address(&mut self, admin: Address, new_address: Address) -> (r: Result<(), Error>)
        requires
            old(self).wf(),
        ensures
            final(self).wf(),
            r == old(self)@.admin_check(admin),
            r is Err ==> final(self)@ == old(self)@,
            r is Ok ==> final(self)@ == (QuestEngineView { reward_pool: Some(new_address), ..old(self)@ }),
    {
        self.check_admin(admin)?;
        self.reward_pool = Some(new_address);
        Ok(())
    }

    /// Sets the stake vault address in one step; admin only. Meant for the
    /// initial wiring; later rotations go through the two-step hand-over.
    pub fn set_stake_vault_address(&mut self, admin: Address, new_address: Address) -> (r: Result<(), Error>)
        requires
            old(self).wf(),
        ensures
            final(self).wf(),
            r == old(self)@.admin_check(admin),
            r is Err ==> final(self)@ == old(self)@,
            r is Ok ==> final(self)@ == (QuestEngineView { stake_vault: Some(new_address), ..old(self)@ }),
    {
        self.check_admin(admin)?;
        self.stake_vault = Some(new_address);
        Ok(())
    }

    /// Stage 1 of the admin hand-over: the admin proposes `proposed` at time `now`.
    pub fn propose_new_admin(&mut self, current_admin: Address, proposed: Address, now: u64) -> (r: Result<(), Error>)
        requires
            old(self).wf(),
        ensures
            final(self).wf(),
            match two_step::propose_result(old(self)@.admin, current_admin, proposed, now) {
                Err(e) => r == Err::<(), Error>(admin_transfer_error(e)) && final(self)@ == old(self)@,
                Ok(p) => r is Ok && final(self)@ == (QuestEngineView {
                    pending_admin: Some(p),
                    events: old(self)@.events.push(
                        QuestEvent::TransferProposed(
                            TransferProposed { current: current_admin, proposed, proposed_at: now },
                        ),
                    ),
                    ..old(self)@
                }),
            },
    {
        match two_step::propose(self.admin, current_admin, proposed, now) {
            Err(e) => Err(map_admin_transfer_error(e)),
            Ok(p) => {
                self.pending_admin = Some(p);
                let current = current_admin;
                self.events.push(
                    QuestEvent::TransferProposed(TransferProposed { current, proposed, proposed_at: now }),
                );
                Ok(())
            },
        }
    }

    /// Stage 2 of the admin hand-over: the proposed address takes the role.
    pub fn accept_admin_ownership(&mut self, acceptor: Address) -> (r: Result<(), Error>)
        requires
            old(self).wf(),
        ensures
            final(self).wf(),
            match two_step::accept_result(old(self)@.pending_admin, acceptor) {
                Err(e) => r == Err::<(), Error>(admin_transfer_error(e)) && final(self)@ == old(self)@,
                Ok(a) => r is Ok && final(self)@ == (QuestEngineView {
                    admin: Some(a),
                    pending_admin: None,
                    events: old(self)@.events.push(QuestEvent::TransferAccepted(TransferAccepted { new_value: a })),
                    ..old(self)@
                }),
            },
    {
        match two_step::accept(self.pending_admin, acceptor) {
            Err(e) => Err(map_admin_transfer_error(e)),
            Ok(a) => {
                self.admin = Some(a);
                self.pending_admin = None;
                self.events.push(QuestEvent::TransferAccepted(TransferAccepted { new_value: a }));
                Ok(())
            },
        }
    }

    /// Cancels a pending admin hand-over; allowed to the proposed address and to the
    /// admin.
    pub fn cancel_admin_transfer(&mut self, caller: Address) -> (r: Result<(), Error>)
        requires
            old(self).wf(),
        ensures
            final(self).wf(),
            match two_step::cancel_result(old(self)@.pending_admin, old(self)@.admin, caller) {
                Err(e) => r == Err::<(), Error>(admin_transfer_error(e)) && final(self)@ == old(self)@,
                Ok(w) => r is Ok && final(self)@ == (QuestEngineView {
                    pending_admin: None,
                    events: old(self)@.events.push(
                        QuestEvent::TransferCancelled(TransferCancelled { cancelled_by: caller, was_proposed: w }),
                    ),
                    ..old(self)@
                }),
            },
    {
        match two_step::cancel(self.pending_admin, self.admin, caller) {
            Err(e) => Err(map_admin_transfer_error(e)),
            Ok(w) => {
                self.pending_admin = None;
                self.events.push(
                    QuestEvent::TransferCancelled(TransferCancelled { cancelled_by: caller, was_proposed: w }),
                );
                Ok(())
            },
        }
    }

    /// Stage 1 of the reward pool rotation: the admin proposes `proposed` at time `now`.
    pub fn propose_new_reward_pool_address(&mut self, current_admin: Address, proposed: Address, now: u64) -> (r: Result<(), Error>)
        requires
            old(self).wf(),
        ensures
            final(self).wf(),
            match two_step::propose_result(old(self)@.admin, current_admin, proposed, now) {
                Err(e) => r == Err::<(), Error>(reward_pool_transfer_error(e)) && final(self)@ == old(self)@,
                Ok(p) => r is Ok && final(self)@ == (QuestEngineView {
                    pending_reward_pool: Some(p),
                    events: old(self)@.events.push(
                        QuestEvent::TransferProposed(
                            TransferProposed { current: old(self)@.reward_pool.unwrap_or(current_admin), proposed, proposed_at: now },
                        ),
                    ),
                    ..old(self)@
                }),
            },
    {
        match two_step::propose(self.admin, current_admin, proposed, now) {
            Err(e) => Err(map_reward_pool_transfer_error(e)),
            Ok(p) => {
                self.pending_reward_pool = Some(p);
                let current = match self.reward_pool {
                    Some(a) => a,
                    None => current_admin,
                };
                self.events.push(
                    QuestEvent::TransferProposed(TransferProposed { current, proposed, proposed_at: now }),
                );
                Ok(())
            },
        }
    }

    /// Stage 2 of the reward pool rotation: the proposed address takes the role.
    pub fn accept_reward_pool_address(&mut self, acceptor: Address) -> (r: Result<(), Error>)
        requires
            old(self).wf(),
        ensures
            final(self).wf(),
            match two_step::accept_result(old(self)@.pending_reward_pool, acceptor) {
                Err(e) => r == Err::<(), Error>(reward_pool_transfer_error(e)) && final(self)@ == old(self)@,
                Ok(a) => r is Ok && final(self)@ == (QuestEngineView {
                    reward_pool: Some(a),
                    pending_reward_pool: None,
                    events: old(self)@.events.push(QuestEvent::TransferAccepted(TransferAccepted { new_value: a })),
                    ..old(self)@
                }),
            },
    {
        match two_step::accept(self.pending_reward_pool, acceptor) {
            Err(e) => Err(map_reward_pool_transfer_error(e)),
            Ok(a) => {
                self.reward_pool = Some(a);
                self.pending_reward_pool = None;
                self.events.push(QuestEvent::TransferAccepted(TransferAccepted { new_value: a }));
                Ok(())
            },
        }
    }

    /// Cancels a pending reward pool rotation; allowed to the proposed address and to the
    /// admin.
    pub fn cancel_reward_pool_transfer(&mut self, caller: Address) -> (r: Result<(), Error>)
        requires
            old(self).wf(),
        ensures
            final(self).wf(),
            match two_step::cancel_result(old(self)@.pending_reward_pool, old(self)@.admin, caller) {
                Err(e) => r == Err::<(), Error>(reward_pool_transfer_error(e)) && final(self)@ == old(self)@,
                Ok(w) => r is Ok && final(self)@ == (QuestEngineView {
                    pending_reward_pool: None,
                    events: old(self)@.events.push(
                        QuestEvent::TransferCancelled(TransferCancelled { cancelled_by: caller, was_proposed: w }),
                    ),
                    ..old(self)@
                }),
            },
    {
        match two_step::cancel(self.pending_reward_pool, self.admin, caller) {
            Err(e) => Err(map_reward_pool_transfer_error(e)),
            Ok(w) => {
                self.pending_reward_pool = None;
                self.events.push(
                    QuestEvent::TransferCancelled(TransferCancelled { cancelled_by: caller, was_proposed: w }),
                );
                Ok(())
            },
        }
    }

    /// Stage 1 of the stake vault rotation: the admin proposes `proposed` at time `now`.
    pub fn propose_new_stake_vault_address(&mut self, current_admin: Address, proposed: Address, now: u64) -> (r: Result<(), Error>)
        requires
            old(self).wf(),
        ensures
            final(self).wf(),
            match two_step::propose_result(old(self)@.admin, current_admin, proposed, now) {
                Err(e) => r == Err::<(), Error>(stake_vault_transfer_error(e)) && final(self)@ == old(self)@,
                Ok(p) => r is Ok && final(self)@ == (QuestEngineView {
                    pending_stake_vault: Some(p),
                    events: old(self)@.events.push(
                        QuestEvent::TransferProposed(
                            TransferProposed { current: old(self)@.stake_vault.unwrap_or(current_admin), proposed, proposed_at: now },
                        ),
                    ),
                    ..old(self)@
                }),
            },
    {
        match two_step::propose(self.admin, current_admin, proposed, now) {
            Err(e) => Err(map_stake_vault_transfer_error(e)),
            Ok(p) => {
                self.pending_stake_vault = Some(p);
                let current = match self.stake_vault {
                    Some(a) => a,
                    None => current_admin,
                };
                self.events.push(
                    QuestEvent::TransferProposed(TransferProposed { current, proposed, proposed_at: now }),
                );
                Ok(())
            },
        }
    }

    /// Stage 2 of the stake vault rotation: the proposed address takes the role.
    pub fn accept_stake_vault_address(&mut self, acceptor: Address) -> (r: Result<(), Error>)
        requires
            old(self).wf(),
        ensures
            final(self).wf(),
            match two_step::accept_result(old(self)@.pending_stake_vault, acceptor) {
                Err(e) => r == Err::<(), Error>(stake_vault_transfer_error(e)) && final(self)@ == old(self)@,
                Ok(a) => r is Ok && final(self)@ == (QuestEngineView {
                    stake_vault: Some(a),
                    pending_stake_vault: None,
                    events: old(self)@.events.push(QuestEvent::TransferAccepted(TransferAccepted { new_value: a })),
                    ..old(self)@
                }),
            },
    {
        match two_step::accept(self.pending_stake_vault, acceptor) {
            Err(e) => Err(map_stake_vault_transfer_error(e)),
            Ok(a) => {
                self.stake_vault = Some(a);
                self.pending_stake_vault = None;
                self.events.push(QuestEvent::TransferAccepted(TransferAccepted { new_value: a }));
                Ok(())
            },
        }
    }

    /// Cancels a pending stake vault rotation; allowed to the proposed address and to the
    /// admin.
    pub fn cancel_stake_vault_transfer(&mut self, caller: Address) -> (r: Result<(), Error>)
        requires
            old(self).wf(),
        ensures
            final(self).wf(),
            match two_step::cancel_result(old(self)@.pending_stake_vault, old(self)@.admin, caller) {
                Err(e) => r == Err::<(), Error>(stake_vault_transfer_error(e)) && final(self)@ == old(self)@,
                Ok(w) => r is Ok && final(self)@ == (QuestEngineView {
                    pending_stake_vault: None,
                    events: old(self)@.events.push(
                        QuestEvent::TransferCancelled(TransferCancelled { cancelled_by: caller, was_proposed: w }),
                    ),
                    ..old(self)@
                }),
            },
    {
        match two_step::cancel(self.pending_stake_vault, self.admin, caller) {
            Err(e) => Err(map_stake_vault_transfer_error(e)),
            Ok(w) => {
                self.pending_stake_vault = None;
                self.events.push(
                    QuestEvent::TransferCancelled(TransferCancelled { cancelled_by: caller, was_proposed: w }),
                );
                Ok(())
            },
        }
    }

    /// Upgrades the contract WASM; admin only.
    pub fn upgrade_contract(&mut self, admin: Address, new_wasm_hash: Hash32) -> (r: Result<Call, Error>)
        requires
            old(self).wf(),
        ensures
            final(self).wf(),
            match old(self)@.admin_check(admin) {
                Err(e) => r == Err::<Call, Error>(e) && final(self)@ == old(self)@,
                Ok(_) => r == Ok::<Call, Error>(Call::UpdateWasm { new_wasm_hash }) && final(self)@ == (QuestEngineView {
                    events: old(self)@.events.push(
                        QuestEvent::ContractUpgraded(ContractUpgraded { admin, new_wasm_hash }),
                    ),
                    ..old(self)@
                }),
            },
    {
        self.check_admin(admin)?;
        self.events.push(QuestEvent::ContractUpgraded(ContractUpgraded { admin, new_wasm_hash }));
        Ok(Call::UpdateWasm { new_wasm_hash })
    }

    /// Confirms that `learner` completed the off-chain action of the active
    /// Explore quest `quest_id`. Admin only. The result is the reward-pool payout of
    /// the quest's reward that the host must invoke.
    pub fn verify_explore_quest(&mut self, admin: Address, learner: Address, quest_id: u32) -> (r: Result<Call, Error>)
        requires
            old(self).wf(),
        ensures
            final(self).wf(),
            match old(self)@.verify_check(admin, quest_id) {
                Err(e) => r == Err::<Call, Error>(e) && final(self)@ == old(self)@,
                Ok(_) => {
                    let amount = old(self)@.quests[quest_id].reward_amount;
                    &&& r == Ok::<Call, Error>(
                        Call::DistributeReward {
                            contract: old(self)@.reward_pool.unwrap(),
                            caller: old(self)@.address,
                            learner,
                            amount,
                        },
                    )
                    &&& final(self)@ == (QuestEngineView {
                        events: old(self)@.events.push(
                            QuestEvent::ExploreQuestVerified(ExploreQuestVerified { admin, learner, quest_id, amount }),
                        ),
                        ..old(self)@
                    })
                },
            },
    {
        self.check_admin(admin)?;
        let quest = match self.quests.get(&quest_id) {
            Some(q) => *q,
            None => return Err(Error::QuestNotFound),
        };
        if quest.quest_type != QuestType::Explore {
            return Err(Error::NotExploreQuest);
        }
        if !quest.active {
            return Err(Error::QuestNotActive);
        }
        let pool = match self.reward_pool {
            None => return Err(Error::NotInitialized),
            Some(p) => p,
        };
        let amount = quest.reward_amount;
        self.events.push(
            QuestEvent::ExploreQuestVerified(ExploreQuestVerified { admin, learner, quest_id, amount }),
        );
        Ok(Call::DistributeReward { contract: pool, caller: self.address, learner, amount })
    }

    /// Verifies an Explore quest as `verify_explore_quest` does and carries
    /// out the payout on `pool`, the reward pool this engine is wired to. If
    /// the engine or the pool refuses, nothing changes anywhere and the first
    /// refusal is returned. The result is the token transfer of the payout that
    /// the host must make.
    pub fn verify_explore_quest_settled(
        &mut self,
        pool: &mut RewardPool,
        admin: Address,
        learner: Address,
        quest_id: u32,
    ) -> (r: Result<Call, Error>)
        requires
            old(self).wf(),
            old(self)@.reward_pool is Some ==> old(self)@.reward_pool == Some(old(pool)@.address),
        ensures
            final(self).wf(),
            match old(self)@.verify_check(admin, quest_id) {
                Err(e) => r == Err::<Call, Error>(e) && final(self)@ == old(self)@ && final(pool)@ == old(pool)@,
                Ok(_) => {
                    let amount = old(self)@.quests[quest_id].reward_amount;
                    match old(pool)@.distribute_check(old(self)@.address, amount) {
                        Err(e) => r == Err::<Call, Error>(e) && final(self)@ == old(self)@ && final(pool)@
                            == old(pool)@,
                        Ok(_) => {
                            &&& r == Ok::<Call, Error>(old(pool)@.payout_transfer(learner, amount))
                            &&& final(pool)@ == old(pool)@.after_distribute(old(self)@.address, learner, amount)
                            &&& final(self)@ == (QuestEngineView {
                                events: old(self)@.events.push(
                                    QuestEvent::ExploreQuestVerified(
                                        ExploreQuestVerified { admin, learner, quest_id, amount },
                                    ),
                                ),
                                ..old(self)@
                            })
                        },
                    }
                },
            },
    {
        self.check_admin(admin)?;
        let quest = match self.quests.get(&quest_id) {
            Some(q) => *q,
            None => return Err(Error::QuestNotFound),
        };
        if quest.quest_type != QuestType::Explore {
            return Err(Error::NotExploreQuest);
        }
        if !quest.active {
            return Err(Error::QuestNotActive);
        }
        if self.reward_pool.is_none() {
            return Err(Error::NotInitialized);
        }
        pool.check_distribute(self.address, quest.reward_amount)?;
        let _ = self.verify_explore_quest(admin, learner, quest_id);
        pool.distribute_reward(self.address, learner, quest.reward_amount)
    }
}

/// What every reachable quest-engine state satisfies: submissions exist only
/// for stored Build quests, and quests only once the engine is initialized.
pub proof fn lemma_quest_invariants(c: &QuestEngineContract, learner: Address, quest_id: u32)
    requires
        c.wf(),
    ensures
        c@.submissions.contains_key((learner, quest_id)) ==> c@.quests.contains_key(quest_id)
            && c@.quests[quest_id].quest_type == QuestType::Build,
        c@.quests.contains_key(quest_id) ==> c@.admin is Some && c@.token is Some && c@.reward_pool is Some
            && c@.stake_vault is Some && 1 <= quest_id <= c@.quest_counter,
{
}

/// The split of a non-negative reward: the fee is 15% of the reward rounded
/// down, fee and learner share add up to the reward, and the boosted payout
/// is the learner share scaled by the multiplier (in hundredths, rounded
/// down) but never more than the share, which it equals for any multiplier
/// of at least 100 hundredths.
pub proof fn lemma_reward_split(reward: int, multiplier: u32)
    requires
        0 <= reward,
    ensures
        0 <= platform_fee(reward) <= reward,
        platform_fee(reward) + learner_share(reward) == reward,
        0 <= boosted_payout(reward, multiplier) <= learner_share(reward),
        multiplier >= 100 ==> boosted_payout(reward, multiplier) == learner_share(reward),
        100 * platform_fee(reward) <= 15 * reward < 100 * platform_fee(reward) + 100,
        multiplier < 100 ==> 100 * boosted_payout(reward, multiplier) <= learner_share(reward) * multiplier < 100
            * boosted_payout(reward, multiplier) + 100,
{
    let base = learner_share(reward);
    assert(0 <= reward * 15) by (nonlinear_arith)
        requires
            0 <= reward,
    ;
    assert(reward * 15 / 100 <= reward) by (nonlinear_arith)
        requires
            0 <= reward,
    ;
    assert(0 <= base);
    assert(0 <= base * multiplier) by (nonlinear_arith)
        requires
            0 <= base,
    ;
    if multiplier >= 100 {
        assert(base * multiplier >= base * 100) by (nonlinear_arith)
            requires
                0 <= base,
                multiplier >= 100,
        ;
        assert(base * multiplier / 100 >= base) by (nonlinear_arith)
            requires
                base * multiplier >= base * 100,
        ;
    } else {
        let x = base * multiplier;
        assert(x <= base * 100) by (nonlinear_arith)
            requires
                0 <= base,
                multiplier < 100,
                x == base * multiplier,
        ;
        assert(x / 100 <= base) by (nonlinear_arith)
            requires
                0 <= x <= base * 100,
        ;
        assert(100 * (x / 100) <= x < 100 * (x / 100) + 100) by (nonlinear_arith)
            requires
                0 <= x,
        ;
    }
}

/// A learner submits at most one proof per quest.
pub proof fn lemma_submit_once(v: QuestEngineView, learner: Address, quest_id: u32, proof_hash: Hash32)
    requires
        v.submit_check(learner, quest_id) is Ok,
    ensures
        v.after_submit(learner, quest_id, proof_hash).submit_check(learner, quest_id) == Err::<(), Error>(
            Error::SubmissionExists,
        ),
        v.after_submit(learner, quest_id, proof_hash).submissions[(learner, quest_id)].status
            == SubmissionStatus::Pending,
{
}

/// A submission is reviewed at most once: after an approval or rejection it
/// is no longer pending and any further review is refused.
pub proof fn lemma_review_once(v: QuestEngineView, employer: Address, learner: Address, quest_id: u32, approve: bool, again: bool)
    requires
        v.review_check(employer, learner, quest_id, approve) is Ok,
    ensures
        v.after_review(employer, learner, quest_id, approve).submissions[(learner, quest_id)].status
            == if approve { SubmissionStatus::Approved } else { SubmissionStatus::Rejected },
        v.after_review(employer, learner, quest_id, approve).review_check(employer, learner, quest_id, again)
            == Err::<(), Error>(Error::SubmissionNotPending),
{
}

/// A batch approval approves every listed learner's submission and leaves
/// every other submission as it was; none of them can be reviewed again.
pub proof fn lemma_batch_approves_listed(v: QuestEngineView, employer: Address, quest_id: u32, learners: Seq<Address>, k: (Address, u32), again: bool)
    requires
        v.batch_check(employer, quest_id, learners) is Ok,
    ensures
        v.after_batch(employer, quest_id, learners).submissions.contains_key(k) == v.submissions.contains_key(k),
        v.submissions.contains_key(k) && k.1 == quest_id && learners.contains(k.0) ==> v.after_batch(
            employer,
            quest_id,
            learners,
        ).submissions[k].status == SubmissionStatus::Approved,
        v.submissions.contains_key(k) && !(k.1 == quest_id && learners.contains(k.0)) ==> v.after_batch(
            employer,
            quest_id,
            learners,
        ).submissions[k] == v.submissions[k],
        k.1 == quest_id && learners.contains(k.0) ==> v.after_batch(employer, quest_id, learners).review_check(
            employer,
            k.0,
            quest_id,
            again,
        ) == Err::<(), Error>(Error::SubmissionNotPending),
{
    if k.1 == quest_id && learners.contains(k.0) {
        let i = choose|i: int| 0 <= i < learners.len() && learners[i] == k.0;
        lemma_batch_error_none(v, quest_id, learners, learners.len());
        assert(v.batch_entry_error(quest_id, learners, i) is None);
        assert(v.submissions.contains_key(k));
    }
}

/// A quest is refunded at most once, and a refunded quest takes no more
/// submissions.
pub proof fn lemma_refund_once(v: QuestEngineView, employer: Address, quest_id: u32, learner: Address)
    requires
        v.refund_check(employer, quest_id) is Ok,
    ensures
        v.after_refund(employer, quest_id).refund_check(employer, quest_id) == Err::<(), Error>(
            Error::QuestAlreadyInactive,
        ),
        v.after_refund(employer, quest_id).submit_check(learner, quest_id) == Err::<(), Error>(Error::QuestNotActive),
{
}

/// Only a Build quest can be refunded, and a quest that is no longer active
/// takes no more submissions and no more verifications.
pub proof fn lemma_inactive_quest_is_closed(
    v: QuestEngineView,
    employer: Address,
    admin: Address,
    learner: Address,
    quest_id: u32,
)
    requires
        v.quests.contains_key(quest_id),
    ensures
        v.quests[quest_id].quest_type != QuestType::Build ==> v.refund_check(employer, quest_id) is Err,
        !v.quests[quest_id].active ==> v.submit_check(learner, quest_id) is Err,
        !v.quests[quest_id].active ==> v.verify_check(admin, quest_id) is Err,
        !v.quests[quest_id].active ==> v.refund_check(employer, quest_id) is Err,
{
}

/// When every listed submission exists, the first refused batch entry, if
/// any, is refused as not pending.
proof fn lemma_batch_error_not_pending(v: QuestEngineView, quest_id: u32, learners: Seq<Address>, n: nat)
    requires
        n <= learners.len(),
        forall|i: int| 0 <= i < learners.len() ==> v.submissions.contains_key((#[trigger] learners[i], quest_id)),
    ensures
        v.batch_error(quest_id, learners, n) is None || v.batch_error(quest_id, learners, n) == Some(
            Error::SubmissionNotPending,
        ),
    decreases n,
{
    if n > 0 {
        lemma_batch_error_not_pending(v, quest_id, learners, (n - 1) as nat);
        assert(v.submissions.contains_key((learners[n - 1], quest_id)));
    }
}

/// Only pending submissions are reviewed. A batch is accepted only if every
/// listed learner has a pending submission on the quest and no learner is
/// listed twice; once the quest, its employer and the configuration check
/// out and every listed learner has submitted, a listed submission that is
/// not pending (already approved or rejected) makes the whole batch fail as
/// not pending. A single review is likewise accepted only on a pending
/// submission.
pub proof fn lemma_only_pending_submissions_are_reviewed(
    v: QuestEngineView,
    employer: Address,
    quest_id: u32,
    learners: Seq<Address>,
    learner: Address,
    approve: bool,
    k: int,
)
    ensures
        v.batch_check(employer, quest_id, learners) is Ok ==> forall|i: int| 0 <= i < learners.len() ==> {
            &&& v.submissions.contains_key((#[trigger] learners[i], quest_id))
            &&& v.submissions[(learners[i], quest_id)].status == SubmissionStatus::Pending
        },
        v.batch_check(employer, quest_id, learners) is Ok ==> forall|i: int, j: int|
            0 <= i < j < learners.len() ==> #[trigger] learners[i] != #[trigger] learners[j],
        ({
            &&& !v.is_paused()
            &&& v.quests.contains_key(quest_id)
            &&& v.quests[quest_id].employer == employer
            &&& v.token is Some
            &&& v.reward_pool is Some
            &&& forall|i: int| 0 <= i < learners.len() ==> v.submissions.contains_key((#[trigger] learners[i], quest_id))
            &&& 0 <= k < learners.len()
            &&& v.submissions[(learners[k], quest_id)].status != SubmissionStatus::Pending
        }) ==> v.batch_check(employer, quest_id, learners) == Err::<(), Error>(Error::SubmissionNotPending),
        v.review_check(employer, learner, quest_id, approve) is Ok ==> {
            &&& v.submissions.contains_key((learner, quest_id))
            &&& v.submissions[(learner, quest_id)].status == SubmissionStatus::Pending
        },
{
    let n = learners.len();
    if v.batch_check(employer, quest_id, learners) is Ok {
        lemma_batch_error_none(v, quest_id, learners, n);
        assert forall|i: int, j: int| 0 <= i < j < learners.len() implies #[trigger] learners[i] != #[trigger] learners[j] by {
            assert(v.batch_entry_error(quest_id, learners, j) is None);
            if learners[i] == learners[j] {
                assert(learners.take(j)[i] == learners[j]);
                assert(learners.take(j).contains(learners[j]));
            }
        }
        assert forall|i: int| 0 <= i < learners.len() implies {
            &&& v.submissions.contains_key((#[trigger] learners[i], quest_id))
            &&& v.submissions[(learners[i], quest_id)].status == SubmissionStatus::Pending
        } by {
            assert(v.batch_entry_error(quest_id, learners, i) is None);
        }
    }
    if {
        &&& !v.is_paused()
        &&& v.quests.contains_key(quest_id)
        &&& v.quests[quest_id].employer == employer
        &&& v.token is Some
        &&& v.reward_pool is Some
        &&& forall|i: int| 0 <= i < learners.len() ==> v.submissions.contains_key((#[trigger] learners[i], quest_id))
        &&& 0 <= k < learners.len()
        &&& v.submissions[(learners[k], quest_id)].status != SubmissionStatus::Pending
    } {
        lemma_batch_error_not_pending(v, quest_id, learners, n);
        if v.batch_error(quest_id, learners, n) is None {
            lemma_batch_error_none(v, quest_id, learners, n);
            assert(v.batch_entry_error(quest_id, learners, k) is None);
            assert(v.submissions.contains_key((learners[k], quest_id)));
        }
    }
}

/// The transfers of an approved batch: for each listed learner in order,
/// the fee to the reward pool and then the learner share to that learner,
/// and nothing else.
pub proof fn lemma_batch_transfers_per_learner(
    token: Address,
    from: Address,
    pool: Address,
    learners: Seq<Address>,
    fee: i128,
    share: i128,
)
    ensures
        batch_transfers(token, from, pool, learners, fee, share).len() == 2 * learners.len(),
        forall|i: int| 0 <= i < learners.len() ==> {
            &&& batch_transfers(token, from, pool, learners, fee, share)[2 * i] == Call::Transfer {
                token,
                from,
                to: pool,
                amount: fee,
            }
            &&& batch_transfers(token, from, pool, learners, fee, share)[2 * i + 1] == Call::Transfer {
                token,
                from,
                to: #[trigger] learners[i],
                amount: share,
            }
        },
    decreases learners.len(),
{
    if learners.len() > 0 {
        let front = learners.drop_last();
        lemma_batch_transfers_per_learner(token, from, pool, front, fee, share);
        let all = batch_transfers(token, from, pool, learners, fee, share);
        let pre = batch_transfers(token, from, pool, front, fee, share);
        assert forall|i: int| 0 <= i < learners.len() implies {
            &&& all[2 * i] == Call::Transfer { token, from, to: pool, amount: fee }
            &&& all[2 * i + 1] == Call::Transfer { token, from, to: #[trigger] learners[i], amount: share }
        } by {
            if i < front.len() {
                assert(front[i] == learners[i]);
                assert(all[2 * i] == pre[2 * i]);
                assert(all[2 * i + 1] == pre[2 * i + 1]);
            }
        }
    }
}

/// A single approval pays out of the engine, in this order, the platform fee
/// to the wired reward pool and then the boosted share to the learner; for a
/// non-negative reward the two together are at most the reward and equal it
/// for a multiplier of at least 100 hundredths. A rejection pays nothing.
pub proof fn lemma_review_pays_pool_then_learner(
    v: QuestEngineView,
    learner: Address,
    quest_id: u32,
    approve: bool,
    multiplier: u32,
)
    requires
        v.token is Some,
        v.reward_pool is Some,
        v.quests.contains_key(quest_id),
        0 <= v.quests[quest_id].reward_amount,
        boost_in_range(v.quests[quest_id].reward_amount as int, multiplier),
    ensures
        !approve ==> v.review_transfers(learner, quest_id, approve, multiplier).len() == 0,
        approve ==> {
            let t = v.review_transfers(learner, quest_id, approve, multiplier);
            let reward = v.quests[quest_id].reward_amount as int;
            &&& t.len() == 2
            &&& t[0] matches Call::Transfer { token, from, to, amount: fee } && token == v.token.unwrap()
                && from == v.address && to == v.reward_pool.unwrap() && fee == platform_fee(reward)
            &&& t[1] matches Call::Transfer { token, from, to, amount: pay } && token == v.token.unwrap()
                && from == v.address && to == learner && pay == boosted_payout(reward, multiplier)
            &&& platform_fee(reward) + boosted_payout(reward, multiplier) <= reward
            &&& multiplier >= 100 ==> platform_fee(reward) + boosted_payout(reward, multiplier) == reward
        },
{
    lemma_reward_split(v.quests[quest_id].reward_amount as int, multiplier);
}

} // verus!
