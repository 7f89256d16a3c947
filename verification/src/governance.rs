//! Badge-weighted proposal lifecycle: create, vote, execute, cancel.
//!
//! A vote weighs as many badges as the voter holds on the wired badge contract
//! at the moment of the vote. Each voter votes at most once per proposal. A
//! proposal passes when, after its voting period, strictly more weight voted
//! for it than against it. Cancelling a proposal locks it by setting its
//! `executed` flag. The admin and the wired badge contract are handed over in
//! two steps (propose, then accept by the proposed address).

use vstd::prelude::*;
use std::collections::HashMap;
use crate::badge_nft::BadgeNFT;
use crate::common::{Address, Hash32, lemma_pair_view_insert, pair_key, pair_view};
use crate::errors::Error;
use crate::host::Call;
use crate::storage::{
    entries_map, entries_of, keys_distinct, lemma_entries_map_distinct, lemma_entries_map_witness, map_of, pair_entries_of,
    pair_map_of,
};
use crate::two_step::{
    self, admin_transfer_error, map_admin_transfer_error, PendingTransfer, TransferAccepted, TransferCancelled, TransferError, TransferProposed,
};

pub use crate::common::Badge;

verus! {

/// The first proposal id handed out by `create_proposal` is one past this.
pub const PROPOSAL_COUNTER_START: u32 = 0;

/// Quorum, in basis points of the eligible weight (advisory).
pub const QUORUM_BASIS_POINTS: u32 = 3300;

/// Length of the voting period of a new proposal, in seconds (7 days).
pub const DEFAULT_VOTING_PERIOD_SECONDS: u64 = 604800;

/// A governance proposal.
#[derive(Clone, Copy, Debug, PartialEq, Eq)]
pub struct Proposal {
    pub id: u32,
    pub proposer: Address,
    pub metadata_hash: Hash32,
    pub votes_for: u32,
    pub votes_against: u32,
    pub end_time: u64,
    pub executed: bool,
}

/// The proposal layout used before schema versioning (same fields).
#[derive(Clone, Copy, Debug, PartialEq, Eq)]
pub struct ProposalV0 {
    pub id: u32,
    pub proposer: Address,
    pub metadata_hash: Hash32,
    pub votes_for: u32,
    pub votes_against: u32,
    pub end_time: u64,
    pub executed: bool,
}

/// Emitted when a passed proposal is executed.
#[derive(Clone, Copy, Debug, PartialEq, Eq, Structural)]
pub struct ProposalExecuted {
    pub proposal_id: u32,
    pub proposer: Address,
}

/// Emitted when a proposal is cancelled.
#[derive(Clone, Copy, Debug, PartialEq, Eq, Structural)]
pub struct ProposalCancelled {
    pub proposal_id: u32,
    pub cancelled_by: Address,
}

/// Emitted when the contract WASM is upgraded.
#[derive(Clone, Copy, Debug, PartialEq, Eq)]
pub struct ContractUpgraded {
    pub admin: Address,
    pub new_wasm_hash: Hash32,
}

/// An event published by the governance contract.
#[derive(Clone, Copy, Debug, PartialEq, Eq)]
pub enum GovernanceEvent {
    ProposalExecuted(ProposalExecuted),
    ProposalCancelled(ProposalCancelled),
    ContractUpgraded(ContractUpgraded),
    TransferProposed(TransferProposed),
    TransferAccepted(TransferAccepted),
    TransferCancelled(TransferCancelled),
}

/// The abstract state of the governance contract.
pub struct GovernanceView {
    pub address: Address,
    pub admin: Option<Address>,
    /// The badge contract whose badge counts weigh votes.
    pub badge_contract: Option<Address>,
    pub proposal_count: u32,
    pub proposals: Map<u32, Proposal>,
    /// The (voter, proposal) pairs that have voted.
    pub votes: Map<(Address, u32), bool>,
    pub pending_admin: Option<PendingTransfer>,
    pub pending_badge_contract: Option<PendingTransfer>,
    pub events: Seq<GovernanceEvent>,
}

impl GovernanceView {
    /// Whether `voter` has voted on proposal `id`.
    pub open spec fn has_voted(self, voter: Address, id: u32) -> bool {
        self.votes.contains_key((voter, id)) && self.votes[(voter, id)]
    }

    /// The outcome of `cast_vote`.
    pub open spec fn vote_check(self, voter: Address, id: u32, support: bool, weight: u32) -> Result<(), Error> {
        if self.votes.contains_key((voter, id)) {
            Err(Error::AlreadyVoted)
        } else if self.badge_contract is None {
            Err(Error::ContractNotInitialized)
        } else if !self.proposals.contains_key(id) {
            Err(Error::ProposalNotFound)
        } else if support && self.proposals[id].votes_for + weight > u32::MAX {
            Err(Error::VoteOverflow)
        } else if !support && self.proposals[id].votes_against + weight > u32::MAX {
            Err(Error::VoteOverflow)
        } else {
            Ok(())
        }
    }

    /// The state after `voter` casts a vote of `weight` on proposal `id`.
    pub open spec fn after_vote(self, voter: Address, id: u32, support: bool, weight: u32) -> GovernanceView {
        let p = self.proposals[id];
        let q = if support {
            Proposal { votes_for: (p.votes_for + weight) as u32, ..p }
        } else {
            Proposal { votes_against: (p.votes_against + weight) as u32, ..p }
        };
        GovernanceView {
            proposals: self.proposals.insert(id, q),
            votes: self.votes.insert((voter, id), true),
            ..self
        }
    }

    /// The state after proposal `id` is cancelled by `caller`.
    pub open spec fn after_cancel(self, caller: Address, id: u32) -> GovernanceView {
        GovernanceView {
            proposals: self.proposals.insert(id, Proposal { executed: true, ..self.proposals[id] }),
            events: self.events.push(
                GovernanceEvent::ProposalCancelled(ProposalCancelled { proposal_id: id, cancelled_by: caller }),
            ),
            ..self
        }
    }

    /// The state after proposal `id` is executed.
    pub open spec fn after_execute(self, id: u32) -> GovernanceView {
        GovernanceView {
            proposals: self.proposals.insert(id, Proposal { executed: true, ..self.proposals[id] }),
            events: self.events.push(
                GovernanceEvent::ProposalExecuted(
                    ProposalExecuted { proposal_id: id, proposer: self.proposals[id].proposer },
                ),
            ),
            ..self
        }
    }

    /// The outcome of `execute_proposal` at ledger time `now`.
    pub open spec fn execute_check(self, id: u32, now: u64) -> Result<(), Error> {
        if !self.proposals.contains_key(id) {
            Err(Error::ProposalNotFound)
        } else if now <= self.proposals[id].end_time {
            Err(Error::VotingStillActive)
        } else if self.proposals[id].votes_for <= self.proposals[id].votes_against {
            Err(Error::ProposalRejected)
        } else if self.proposals[id].executed {
            Err(Error::AlreadyExecuted)
        } else {
            Ok(())
        }
    }

    /// The outcome of `cancel_proposal` by `caller` at ledger time `now`.
    pub open spec fn cancel_check(self, caller: Address, id: u32, now: u64) -> Result<(), Error> {
        if !self.proposals.contains_key(id) {
            Err(Error::ProposalNotFound)
        } else if self.admin is None {
            Err(Error::NotInitialized)
        } else if caller != self.proposals[id].proposer && caller != self.admin.unwrap() {
            Err(Error::Unauthorized)
        } else if now >= self.proposals[id].end_time {
            Err(Error::VotingEnded)
        } else if self.proposals[id].executed {
            Err(Error::AlreadyExecuted)
        } else {
            Ok(())
        }
    }
}

/// The error that a refused badge-contract transfer step reports.
pub open spec fn badge_transfer_error(e: TransferError) -> Error {
    match e {
        TransferError::NotInitialized => Error::NotInitialized,
        TransferError::NotAuthority => Error::NotAdmin,
        TransferError::NoPending => Error::NoPendingBadgeContractTransfer,
        TransferError::NotProposed => Error::NotProposedBadgeContract,
        TransferError::CancelNotAllowed => Error::CancelNotAllowed,
    }
}

fn map_badge_transfer_error(e: TransferError) -> (r: Error)
    ensures
        r == badge_transfer_error(e),
{
    match e {
        TransferError::NotInitialized => Error::NotInitialized,
        TransferError::NotAuthority => Error::NotAdmin,
        TransferError::NoPending => Error::NoPendingBadgeContractTransfer,
        TransferError::NotProposed => Error::NotProposedBadgeContract,
        TransferError::CancelNotAllowed => Error::CancelNotAllowed,
    }
}

/// The storage of a governance contract as plain entries, for a host to keep
/// between invocations.
pub struct GovernanceStorage {
    pub address: Address,
    pub admin: Option<Address>,
    pub badge_contract: Option<Address>,
    pub proposal_count: u32,
    pub proposals: Vec<(u32, Proposal)>,
    pub votes: Vec<((Address, u32), bool)>,
    pub pending_admin: Option<PendingTransfer>,
    pub pending_badge_contract: Option<PendingTransfer>,
}

impl GovernanceStorage {
    /// The governance state that this storage holds, with an empty event log.
    pub open spec fn state(self) -> GovernanceView {
        GovernanceView {
            address: self.address,
            admin: self.admin,
            badge_contract: self.badge_contract,
            proposal_count: self.proposal_count,
            proposals: entries_map(self.proposals@),
            votes: entries_map(self.votes@),
            pending_admin: self.pending_admin,
            pending_badge_contract: self.pending_badge_contract,
            events: Seq::empty(),
        }
    }

    /// Every stored proposal is stored under its own id.
    pub open spec fn valid(self) -> bool {
        forall|id: u32| #[trigger] self.state().proposals.contains_key(id) ==> self.state().proposals[id].id == id
    }
}

/// The governance contract.
pub struct Governance {
    address: Address,
    admin: Option<Address>,
    badge_contract: Option<Address>,
    proposal_count: u32,
    proposals: HashMap<u32, Proposal>,
    votes: HashMap<u128, bool>,
    pending_admin: Option<PendingTransfer>,
    pending_badge_contract: Option<PendingTransfer>,
    events: Vec<GovernanceEvent>,
}

impl View for Governance {
    type V = GovernanceView;

    closed spec fn view(&self) -> GovernanceView {
        GovernanceView {
            address: self.address,
            admin: self.admin,
            badge_contract: self.badge_contract,
            proposal_count: self.proposal_count,
            proposals: self.proposals@,
            votes: pair_view(self.votes@),
            pending_admin: self.pending_admin,
            pending_badge_contract: self.pending_badge_contract,
            events: self.events@,
        }
    }
}

impl Governance {
    /// Well-formedness: every proposal is stored under its own id.
    pub closed spec fn wf(self) -> bool {
        forall|id: u32| #[trigger] self@.proposals.contains_key(id) ==> self@.proposals[id].id == id
    }

    /// A freshly deployed, uninitialized governance contract at `address`.
    pub fn new(address: Address) -> (c: Self)
        ensures
            c.wf(),
            c@ == (GovernanceView {
                address,
                admin: None,
                badge_contract: None,
                proposal_count: PROPOSAL_COUNTER_START,
                proposals: Map::empty(),
                votes: Map::empty(),
                pending_admin: None,
                pending_badge_contract: None,
                events: Seq::empty(),
            }),
    {
        let c = Governance {
            address,
            admin: None,
            badge_contract: None,
            proposal_count: PROPOSAL_COUNTER_START,
            proposals: HashMap::new(),
            votes: HashMap::new(),
            pending_admin: None,
            pending_badge_contract: None,
            events: Vec::new(),
        };
        assert(c@.votes =~= Map::<(Address, u32), bool>::empty());
        assert(c@.proposals =~= Map::<u32, Proposal>::empty());
        c
    }

    /// The contract's storage as plain entries, each key once.
    pub fn save(&self) -> (s: GovernanceStorage)
        requires
            self.wf(),
        ensures
            s.state() == (GovernanceView { events: Seq::empty(), ..self@ }),
            s.valid(),
            keys_distinct(s.proposals@),
            keys_distinct(s.votes@),
    {
        let proposals = entries_of(&self.proposals);
        let votes = pair_entries_of(&self.votes);
        GovernanceStorage {
            address: self.address,
            admin: self.admin,
            badge_contract: self.badge_contract,
            proposal_count: self.proposal_count,
            proposals,
            votes,
            pending_admin: self.pending_admin,
            pending_badge_contract: self.pending_badge_contract,
        }
    }

    /// The contract holding `s`, with an empty event log; `None` when a
    /// proposal is stored under another id than its own.
    pub fn load(s: GovernanceStorage) -> (r: Option<Governance>)
        ensures
            r is Some <==> s.valid(),
            r matches Some(c) ==> c.wf() && c@ == s.state(),
    {
        let proposals = map_of(&s.proposals);
        let listed = entries_of(&proposals);
        proof {
            lemma_entries_map_distinct(listed@);
        }
        let mut i: usize = 0;
        while i < listed.len()
            invariant
                i <= listed@.len(),
                keys_distinct(listed@),
                entries_map(listed@) == proposals@,
                proposals@ == entries_map(s.proposals@),
                forall|j: int| 0 <= j < listed@.len() ==> proposals@.contains_key(#[trigger] listed@[j].0)
                    && proposals@[listed@[j].0] == listed@[j].1,
                forall|j: int| 0 <= j < i ==> #[trigger] listed@[j].1.id == listed@[j].0,
            decreases listed@.len() - i,
        {
            let (id, p) = listed[i];
            if p.id != id {
                proof {
                    assert(listed@[i as int] == (id, p));
                    assert(s.state().proposals.contains_key(id) && s.state().proposals[id] == p);
                }
                return None;
            }
            i += 1;
        }
        proof {
            assert forall|id: u32| #[trigger] proposals@.contains_key(id) implies proposals@[id].id == id by {
                let j = lemma_entries_map_witness(listed@, id);
            }
        }
        let votes = pair_map_of(&s.votes);
        Some(Governance {
            address: s.address,
            admin: s.admin,
            badge_contract: s.badge_contract,
            proposal_count: s.proposal_count,
            proposals,
            votes,
            pending_admin: s.pending_admin,
            pending_badge_contract: s.pending_badge_contract,
            events: Vec::new(),
        })
    }

    /// The contract's own address.
    pub fn address(&self) -> (a: Address)
        ensures
            a == self@.address,
    {
        self.address
    }

    /// The stored admin, if any.
    pub fn admin(&self) -> (a: Option<Address>)
        ensures
            a == self@.admin,
    {
        self.admin
    }

    /// The wired badge contract, if any.
    pub fn badge_contract_address(&self) -> (a: Option<Address>)
        ensures
            a == self@.badge_contract,
    {
        self.badge_contract
    }

    /// Every event published so far, oldest first.
    pub fn events(&self) -> (e: &Vec<GovernanceEvent>)
        ensures
            e@ == self@.events,
    {
        &self.events
    }

    /// The stored vote flag of `voter` on proposal `id` (`false` when absent).
    pub fn user_vote(&self, voter: Address, id: u32) -> (b: bool)
        ensures
            b == self@.has_voted(voter, id),
    {
        match self.votes.get(&pair_key(voter, id)) {
            Some(v) => *v,
            None => false,
        }
    }

    /// Whether a proposal is stored under `id`.
    pub fn has_proposal(&self, id: u32) -> (b: bool)
        ensures
            b == self@.proposals.contains_key(id),
    {
        self.proposals.contains_key(&id)
    }

    /// Initializes the contract with the admin and the badge contract used for
    /// vote weights. A second call is rejected with `AlreadyInitialized`.
    pub fn initialize(&mut self, admin: Address, badge_contract_address: Address) -> (r: Result<(), Error>)
        requires
            old(self).wf(),
        ensures
            final(self).wf(),
            old(self)@.badge_contract is Some ==> r == Err::<(), Error>(Error::AlreadyInitialized)
                && final(self)@ == old(self)@,
            old(self)@.badge_contract is None ==> r is Ok && final(self)@ == (GovernanceView {
                admin: Some(admin),
                badge_contract: Some(badge_contract_address),
                ..old(self)@
            }),
    {
        if self.badge_contract.is_some() {
            return Err(Error::AlreadyInitialized);
        }
        self.admin = Some(admin);
        self.badge_contract = Some(badge_contract_address);
        Ok(())
    }

    /// Creates a proposal by `proposer`, open for votes until
    /// `now + DEFAULT_VOTING_PERIOD_SECONDS`, and returns its id
    /// (`proposal_count + 1`).
    pub fn create_proposal(&mut self, proposer: Address, metadata_hash: Hash32, now: u64) -> (id: u32)
        requires
            old(self).wf(),
            old(self)@.proposal_count < u32::MAX,
            now <= u64::MAX - DEFAULT_VOTING_PERIOD_SECONDS,
        ensures
            final(self).wf(),
            id == old(self)@.proposal_count + 1,
            final(self)@ == (GovernanceView {
                proposal_count: id,
                proposals: old(self)@.proposals.insert(
                    id,
                    Proposal {
                        id,
                        proposer,
                        metadata_hash,
                        votes_for: 0,
                        votes_against: 0,
                        end_time: (now + DEFAULT_VOTING_PERIOD_SECONDS) as u64,
                        executed: false,
                    },
                ),
                ..old(self)@
            }),
    {
        let id = self.proposal_count + 1;
        self.proposal_count = id;
        self.proposals.insert(
            id,
            Proposal {
                id,
                proposer,
                metadata_hash,
                votes_for: 0,
                votes_against: 0,
                end_time: now + DEFAULT_VOTING_PERIOD_SECONDS,
                executed: false,
            },
        );
        id
    }

    /// The proposal stored under `proposal_id`.
    pub fn get_proposal(&self, proposal_id: u32) -> (r: Result<Proposal, Error>)
        ensures
            r == (if self@.proposals.contains_key(proposal_id) {
                Ok(self@.proposals[proposal_id])
            } else {
                Err(Error::ProposalNotFound)
            }),
    {
        match self.proposals.get(&proposal_id) {
            Some(p) => Ok(*p),
            None => Err(Error::ProposalNotFound),
        }
    }

    /// Casts `voter`'s vote on proposal `proposal_id` with `weight`, the number
    /// of badges the voter holds on the wired badge contract at this moment.
    /// The weight goes to the votes for (`support`) or against the proposal,
    /// and the voter is recorded so as not to vote twice.
    pub fn cast_vote(&mut self, voter: Address, proposal_id: u32, support: bool, weight: u32) -> (r: Result<(), Error>)
        requires
            old(self).wf(),
        ensures
            final(self).wf(),
            r == old(self)@.vote_check(voter, proposal_id, support, weight),
            r is Err ==> final(self)@ == old(self)@,
            r is Ok ==> final(self)@ == old(self)@.after_vote(voter, proposal_id, support, weight),
    {
        let key = pair_key(voter, proposal_id);
        if self.votes.contains_key(&key) {
            return Err(Error::AlreadyVoted);
        }
        if self.badge_contract.is_none() {
            return Err(Error::ContractNotInitialized);
        }
        let mut proposal = match self.proposals.get(&proposal_id) {
            Some(p) => *p,
            None => return Err(Error::ProposalNotFound),
        };
        if support {
            match proposal.votes_for.checked_add(weight) {
                Some(v) => proposal.votes_for = v,
                None => return Err(Error::VoteOverflow),
            }
        } else {
            match proposal.votes_against.checked_add(weight) {
                Some(v) => proposal.votes_against = v,
                None => return Err(Error::VoteOverflow),
            }
        }
        self.proposals.insert(proposal_id, proposal);
        self.votes.insert(key, true);
        proof {
            lemma_pair_view_insert(old(self).votes@, voter, proposal_id, true);
        }
        Ok(())
    }

    /// Casts `voter`'s vote on proposal `proposal_id`, weighted by the number
    /// of badges the voter holds at this moment on `badges`, the badge
    /// contract this governance contract is wired to.
    pub fn cast_badge_weighted_vote(&mut self, badges: &BadgeNFT, voter: Address, proposal_id: u32, support: bool) -> (r:
        Result<(), Error>)
        requires
            old(self).wf(),
            badges.wf(),
            old(self)@.badge_contract is Some ==> old(self)@.badge_contract == Some(badges@.address),
        ensures
            final(self).wf(),
            ({
                let weight = badges@.badges_of(voter).len() as u32;
                &&& r == old(self)@.vote_check(voter, proposal_id, support, weight)
                &&& r is Err ==> final(self)@ == old(self)@
                &&& r is Ok ==> final(self)@ == old(self)@.after_vote(voter, proposal_id, support, weight)
            }),
    {
        let weight = badges.get_badge_count(voter);
        self.cast_vote(voter, proposal_id, support, weight)
    }

    /// Upgrades the contract WASM; admin only.
    pub fn upgrade_contract(&mut self, admin: Address, new_wasm_hash: Hash32) -> (r: Result<Call, Error>)
        requires
            old(self).wf(),
        ensures
            final(self).wf(),
            match old(self)@.admin {
                None => r == Err::<Call, Error>(Error::NotInitialized) && final(self)@ == old(self)@,
                Some(a) => if a != admin {
                    r == Err::<Call, Error>(Error::Unauthorized) && final(self)@ == old(self)@
                } else {
                    r == Ok::<Call, Error>(Call::UpdateWasm { new_wasm_hash }) && final(self)@ == (GovernanceView {
                        events: old(self)@.events.push(
                            GovernanceEvent::ContractUpgraded(ContractUpgraded { admin, new_wasm_hash }),
                        ),
                        ..old(self)@
                    })
                },
            },
    {
        let stored = match self.admin {
            None => return Err(Error::NotInitialized),
            Some(a) => a,
        };
        if admin != stored {
            return Err(Error::Unauthorized);
        }
        self.events.push(GovernanceEvent::ContractUpgraded(ContractUpgraded { admin, new_wasm_hash }));
        Ok(Call::UpdateWasm { new_wasm_hash })
    }

    /// Cancels proposal `proposal_id` at ledger time `now`; allowed to its
    /// proposer and to the admin while voting is open and the proposal is not
    /// executed. The proposal is locked by setting `executed`.
    pub fn cancel_proposal(&mut self, caller: Address, proposal_id: u32, now: u64) -> (r: Result<(), Error>)
        requires
            old(self).wf(),
        ensures
            final(self).wf(),
            r == old(self)@.cancel_check(caller, proposal_id, now),
            r is Err ==> final(self)@ == old(self)@,
            r is Ok ==> final(self)@ == old(self)@.after_cancel(caller, proposal_id),
    {
        let mut proposal = match self.proposals.get(&proposal_id) {
            Some(p) => *p,
            None => return Err(Error::ProposalNotFound),
        };
        let stored_admin = match self.admin {
            None => return Err(Error::NotInitialized),
            Some(a) => a,
        };
        if caller != proposal.proposer && caller != stored_admin {
            return Err(Error::Unauthorized);
        }
        if now >= proposal.end_time {
            return Err(Error::VotingEnded);
        }
        if proposal.executed {
            return Err(Error::AlreadyExecuted);
        }
        proposal.executed = true;
        self.proposals.insert(proposal_id, proposal);
        self.events.push(
            GovernanceEvent::ProposalCancelled(ProposalCancelled { proposal_id, cancelled_by: caller }),
        );
        Ok(())
    }

    /// Marks proposal `proposal_id` executed at ledger time `now`: voting must
    /// be over and strictly more weight must have voted for it than against.
    pub fn execute_proposal(&mut self, proposal_id: u32, now: u64) -> (r: Result<(), Error>)
        requires
            old(self).wf(),
        ensures
            final(self).wf(),
            r == old(self)@.execute_check(proposal_id, now),
            r is Err ==> final(self)@ == old(self)@,
            r is Ok ==> final(self)@ == old(self)@.after_execute(proposal_id),
    {
        let mut proposal = match self.proposals.get(&proposal_id) {
            Some(p) => *p,
            None => return Err(Error::ProposalNotFound),
        };
        if now <= proposal.end_time {
            return Err(Error::VotingStillActive);
        }
        if proposal.votes_for <= proposal.votes_against {
            return Err(Error::ProposalRejected);
        }
        if proposal.executed {
            return Err(Error::AlreadyExecuted);
        }
        proposal.executed = true;
        self.proposals.insert(proposal_id, proposal);
        self.events.push(
            GovernanceEvent::ProposalExecuted(ProposalExecuted { proposal_id, proposer: proposal.proposer }),
        );
        Ok(())
    }

    /// Stage 1 of the admin hand-over: the admin proposes `proposed` at time `now`.
    pub fn propose_new_admin(&mut self, current_admin: Address, proposed: Address, now: u64) -> (r: Result<(), Error>)
        requires
            old(self).wf(),
        ensures
            final(self).wf(),
            match two_step::propose_result(old(self)@.admin, current_admin, proposed, now) {
                Err(e) => r == Err::<(), Error>(admin_transfer_error(e)) && final(self)@ == old(self)@,
                Ok(p) => r is Ok && final(self)@ == (GovernanceView {
                    pending_admin: Some(p),
                    events: old(self)@.events.push(
                        GovernanceEvent::TransferProposed(
                            TransferProposed { current: current_admin, proposed, proposed_at: now },
                        ),
                    ),
                    ..old(self)@
                }),
            },
    {
        match two_step::propose(self.admin, current_admin, proposed, now) {
            Err(e) => Err(map_admin_transfer_error(e)),
            Ok(p) => {
                self.pending_admin = Some(p);
                self.events.push(
                    GovernanceEvent::TransferProposed(
                        TransferProposed { current: current_admin, proposed, proposed_at: now },
                    ),
                );
                Ok(())
            },
        }
    }

    /// Stage 2 of the admin hand-over: the proposed address becomes the admin.
    pub fn accept_admin_ownership(&mut self, acceptor: Address) -> (r: Result<(), Error>)
        requires
            old(self).wf(),
        ensures
            final(self).wf(),
            match two_step::accept_result(old(self)@.pending_admin, acceptor) {
                Err(e) => r == Err::<(), Error>(admin_transfer_error(e)) && final(self)@ == old(self)@,
                Ok(a) => r is Ok && final(self)@ == (GovernanceView {
                    admin: Some(a),
                    pending_admin: None,
                    events: old(self)@.events.push(
                        GovernanceEvent::TransferAccepted(TransferAccepted { new_value: a }),
                    ),
                    ..old(self)@
                }),
            },
    {
        match two_step::accept(self.pending_admin, acceptor) {
            Err(e) => Err(map_admin_transfer_error(e)),
            Ok(a) => {
                self.admin = Some(a);
                self.pending_admin = None;
                self.events.push(GovernanceEvent::TransferAccepted(TransferAccepted { new_value: a }));
                Ok(())
            },
        }
    }

    /// Cancels a pending admin hand-over; allowed to the proposed address and
    /// to the admin.
    pub fn cancel_admin_transfer(&mut self, caller: Address) -> (r: Result<(), Error>)
        requires
            old(self).wf(),
        ensures
            final(self).wf(),
            match two_step::cancel_result(old(self)@.pending_admin, old(self)@.admin, caller) {
                Err(e) => r == Err::<(), Error>(admin_transfer_error(e)) && final(self)@ == old(self)@,
                Ok(w) => r is Ok && final(self)@ == (GovernanceView {
                    pending_admin: None,
                    events: old(self)@.events.push(
                        GovernanceEvent::TransferCancelled(TransferCancelled { cancelled_by: caller, was_proposed: w }),
                    ),
                    ..old(self)@
                }),
            },
    {
        match two_step::cancel(self.pending_admin, self.admin, caller) {
            Err(e) => Err(map_admin_transfer_error(e)),
            Ok(w) => {
                self.pending_admin = None;
                self.events.push(
                    GovernanceEvent::TransferCancelled(TransferCancelled { cancelled_by: caller, was_proposed: w }),
                );
                Ok(())
            },
        }
    }

    /// Stage 1 of the badge-contract hand-over: the admin proposes `proposed`.
    pub fn propose_new_badge_contract_address(&mut self, admin: Address, proposed: Address, now: u64) -> (r:
        Result<(), Error>)
        requires
            old(self).wf(),
        ensures
            final(self).wf(),
            match two_step::propose_result(old(self)@.admin, admin, proposed, now) {
                Err(e) => r == Err::<(), Error>(badge_transfer_error(e)) && final(self)@ == old(self)@,
                Ok(p) => r is Ok && final(self)@ == (GovernanceView {
                    pending_badge_contract: Some(p),
                    events: old(self)@.events.push(
                        GovernanceEvent::TransferProposed(
                            TransferProposed {
                                current: old(self)@.badge_contract.unwrap_or(admin),
                                proposed,
                                proposed_at: now,
                            },
                        ),
                    ),
                    ..old(self)@
                }),
            },
    {
        match two_step::propose(self.admin, admin, proposed, now) {
            Err(e) => Err(map_badge_transfer_error(e)),
            Ok(p) => {
                self.pending_badge_contract = Some(p);
                let current = match self.badge_contract {
                    Some(b) => b,
                    None => admin,
                };
                self.events.push(
                    GovernanceEvent::TransferProposed(TransferProposed { current, proposed, proposed_at: now }),
                );
                Ok(())
            },
        }
    }

    /// Stage 2 of the badge-contract hand-over: the proposed address becomes
    /// the badge contract used for vote weights.
    pub fn accept_badge_contract_address(&mut self, acceptor: Address) -> (r: Result<(), Error>)
        requires
            old(self).wf(),
        ensures
            final(self).wf(),
            match two_step::accept_result(old(self)@.pending_badge_contract, acceptor) {
                Err(e) => r == Err::<(), Error>(badge_transfer_error(e)) && final(self)@ == old(self)@,
                Ok(a) => r is Ok && final(self)@ == (GovernanceView {
                    badge_contract: Some(a),
                    pending_badge_contract: None,
                    events: old(self)@.events.push(
                        GovernanceEvent::TransferAccepted(TransferAccepted { new_value: a }),
                    ),
                    ..old(self)@
                }),
            },
    {
        match two_step::accept(self.pending_badge_contract, acceptor) {
            Err(e) => Err(map_badge_transfer_error(e)),
            Ok(a) => {
                self.badge_contract = Some(a);
                self.pending_badge_contract = None;
                self.events.push(GovernanceEvent::TransferAccepted(TransferAccepted { new_value: a }));
                Ok(())
            },
        }
    }

    /// Cancels a pending badge-contract hand-over; allowed to the proposed
    /// address and to the admin.
    pub fn cancel_badge_contract_transfer(&mut self, caller: Address) -> (r: Result<(), Error>)
        requires
            old(self).wf(),
        ensures
            final(self).wf(),
            match two_step::cancel_result(old(self)@.pending_badge_contract, old(self)@.admin, caller) {
                Err(e) => r == Err::<(), Error>(badge_transfer_error(e)) && final(self)@ == old(self)@,
                Ok(w) => r is Ok && final(self)@ == (GovernanceView {
                    pending_badge_contract: None,
                    events: old(self)@.events.push(
                        GovernanceEvent::TransferCancelled(TransferCancelled { cancelled_by: caller, was_proposed: w }),
                    ),
                    ..old(self)@
                }),
            },
    {
        match two_step::cancel(self.pending_badge_contract, self.admin, caller) {
            Err(e) => Err(map_badge_transfer_error(e)),
            Ok(w) => {
                self.pending_badge_contract = None;
                self.events.push(
                    GovernanceEvent::TransferCancelled(TransferCancelled { cancelled_by: caller, was_proposed: w }),
                );
                Ok(())
            },
        }
    }
}

/// A voter votes at most once per proposal, and a vote adds exactly its
/// weight to one side of that proposal and changes no other proposal.
pub proof fn lemma_vote_once(v: GovernanceView, voter: Address, id: u32, support: bool, weight: u32, support2: bool, weight2: u32)
    requires
        v.vote_check(voter, id, support, weight) is Ok,
    ensures
        v.after_vote(voter, id, support, weight).vote_check(voter, id, support2, weight2) == Err::<(), Error>(
            Error::AlreadyVoted,
        ),
        v.after_vote(voter, id, support, weight).has_voted(voter, id),
        v.after_vote(voter, id, support, weight).proposals[id].votes_for + v.after_vote(voter, id, support, weight).proposals[id].votes_against
            == v.proposals[id].votes_for + v.proposals[id].votes_against + weight,
        v.after_vote(voter, id, support, weight).proposals[id].executed == v.proposals[id].executed,
        support ==> v.after_vote(voter, id, support, weight).proposals[id].votes_for == v.proposals[id].votes_for + weight
            && v.after_vote(voter, id, support, weight).proposals[id].votes_against == v.proposals[id].votes_against,
        !support ==> v.after_vote(voter, id, support, weight).proposals[id].votes_against
            == v.proposals[id].votes_against + weight && v.after_vote(voter, id, support, weight).proposals[id].votes_for
            == v.proposals[id].votes_for,
        v.after_vote(voter, id, support, weight).proposals[id].proposer == v.proposals[id].proposer,
        v.after_vote(voter, id, support, weight).proposals[id].end_time == v.proposals[id].end_time,
        forall|j: u32| j != id ==> #[trigger] v.after_vote(voter, id, support, weight).proposals.contains_key(j)
            == v.proposals.contains_key(j) && v.after_vote(voter, id, support, weight).proposals[j] == v.proposals[j],
{
}

/// An executed proposal can never be executed or cancelled again.
pub proof fn lemma_executed_is_final(v: GovernanceView, id: u32, now: u64, later: u64, caller: Address)
    requires
        v.execute_check(id, now) is Ok,
    ensures
        v.after_execute(id).proposals[id].executed,
        v.after_execute(id).execute_check(id, later) is Err,
        v.after_execute(id).cancel_check(caller, id, later) is Err,
{
}

/// A cancelled proposal is locked: it can never be executed or cancelled again.
pub proof fn lemma_cancelled_is_final(v: GovernanceView, canceller: Address, id: u32, now: u64, later: u64, caller: Address)
    requires
        v.cancel_check(canceller, id, now) is Ok,
    ensures
        v.after_cancel(canceller, id).proposals[id].executed,
        v.after_cancel(canceller, id).execute_check(id, later) is Err,
        v.after_cancel(canceller, id).cancel_check(caller, id, later) is Err,
{
}

/// A proposal is decided by strict majority once its voting period is over:
/// a closed, unexecuted proposal can be executed exactly when strictly more
/// weight voted for it than against it, and is otherwise rejected; while its
/// voting period runs it cannot be executed at all.
pub proof fn lemma_execute_needs_strict_majority(v: GovernanceView, id: u32, now: u64, early: u64)
    requires
        v.proposals.contains_key(id),
        v.proposals[id].end_time < now,
        !v.proposals[id].executed,
    ensures
        v.execute_check(id, now) is Ok <==> v.proposals[id].votes_for > v.proposals[id].votes_against,
        v.proposals[id].votes_for <= v.proposals[id].votes_against ==> v.execute_check(id, now) == Err::<(), Error>(
            Error::ProposalRejected,
        ),
        early <= v.proposals[id].end_time ==> v.execute_check(id, early) == Err::<(), Error>(
            Error::VotingStillActive,
        ),
        v.execute_check(id, now) is Ok ==> {
            let after = v.after_execute(id);
            &&& after.proposals[id].executed
            &&& after.proposals[id].votes_for == v.proposals[id].votes_for
            &&& after.proposals[id].votes_against == v.proposals[id].votes_against
            &&& after.proposals[id].proposer == v.proposals[id].proposer
            &&& after.proposals[id].end_time == v.proposals[id].end_time
            &&& forall|j: u32| j != id ==> #[trigger] after.proposals.contains_key(j) == v.proposals.contains_key(j)
                && after.proposals[j] == v.proposals[j]
            &&& after.votes == v.votes
            &&& after.events == v.events.push(
                GovernanceEvent::ProposalExecuted(ProposalExecuted { proposal_id: id, proposer: v.proposals[id].proposer }),
            )
        },
{
}

/// A voter who has not yet voted on an existing proposal is accepted once
/// the badge contract is wired, as long as the tally it adds to stays within
/// `u32`; neither the end of the voting period nor execution closes voting.
pub proof fn lemma_vote_accepted(v: GovernanceView, voter: Address, id: u32, support: bool, weight: u32)
    requires
        !v.votes.contains_key((voter, id)),
        v.badge_contract is Some,
        v.proposals.contains_key(id),
        support ==> v.proposals[id].votes_for + weight <= u32::MAX,
        !support ==> v.proposals[id].votes_against + weight <= u32::MAX,
    ensures
        v.vote_check(voter, id, support, weight) is Ok,
{
}

/// Votes are recorded per (voter, proposal): after `voter` votes on `id`,
/// the same voter may vote on any other proposal exactly as before, no other
/// (voter, proposal) pair is marked as voted, and the voter has voted on `id`.
pub proof fn lemma_votes_are_per_proposal(
    v: GovernanceView,
    voter: Address,
    id: u32,
    support: bool,
    weight: u32,
    id2: u32,
    support2: bool,
    weight2: u32,
    other: Address,
    j: u32,
)
    requires
        id2 != id,
    ensures
        v.after_vote(voter, id, support, weight).vote_check(voter, id2, support2, weight2) == v.vote_check(
            voter,
            id2,
            support2,
            weight2,
        ),
        (other, j) != (voter, id) ==> v.after_vote(voter, id, support, weight).votes.contains_key((other, j))
            == v.votes.contains_key((other, j)),
        (other, j) != (voter, id) ==> v.after_vote(voter, id, support, weight).has_voted(other, j) == v.has_voted(
            other,
            j,
        ),
        v.after_vote(voter, id, support, weight).has_voted(voter, id),
        v.after_vote(voter, id, support, weight).vote_check(voter, id, support2, weight2) == Err::<(), Error>(
            Error::AlreadyVoted,
        ),
{
}

} // verus!
