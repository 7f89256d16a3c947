//! The six contracts deployed side by side, with a host that carries out the
//! calls each entry point hands back.

use std::collections::HashMap;

use orivex::badge_nft::BadgeNFT;
use orivex::common::Address;
use orivex::course_registry::CourseRegistry;
use orivex::errors::Error;
use orivex::governance::Governance;
use orivex::host::Call;
use orivex::quest_engine::QuestEngineContract;
use orivex::reward_pool::RewardPool;
use orivex::stake_vault::StakeVault;

fn addr(id: u64) -> Address {
    Address { id }
}

fn dummy_hash() -> [u8; 32] {
    [1u8; 32]
}

struct Platform {
    now: u64,
    admin: Address,
    token: Address,
    balances: HashMap<Address, i128>,
    course_registry: CourseRegistry,
    badge_nft: BadgeNFT,
    reward_pool: RewardPool,
    quest_engine: QuestEngineContract,
    stake_vault: StakeVault,
    governance: Governance,
}

impl Platform {
    fn balance(&self, of: Address) -> i128 {
        *self.balances.get(&of).unwrap_or(&0)
    }

    fn mint(&mut self, to: Address, amount: i128) {
        *self.balances.entry(to).or_insert(0) += amount;
    }

    /// Performs the calls in order; the first refused one is returned.
    fn run(&mut self, calls: Vec<Call>) -> Result<(), Error> {
        for call in calls {
            match call {
                Call::Transfer { token, from, to, amount } => {
                    assert_eq!(token, self.token);
                    assert!(amount >= 0 && self.balance(from) >= amount, "balance is not sufficient to spend");
                    *self.balances.entry(from).or_insert(0) -= amount;
                    *self.balances.entry(to).or_insert(0) += amount;
                }
                Call::MintBadge { contract, caller, learner, course_id } => {
                    assert_eq!(contract, self.badge_nft.address());
                    self.badge_nft.mint_badge(caller, learner, course_id, self.now)?;
                }
                Call::DistributeReward { contract, caller, learner, amount } => {
                    assert_eq!(contract, self.reward_pool.address());
                    let transfer = self.reward_pool.distribute_reward(caller, learner, amount)?;
                    self.run(vec![transfer])?;
                }
                Call::UpdateWasm { .. } => {}
            }
        }
        Ok(())
    }

    fn complete_module(&mut self, learner: Address, course_id: u32) -> Result<(), Error> {
        let calls = self.course_registry.complete_module(self.admin, learner, course_id)?;
        self.run(calls)
    }

    fn vote(&mut self, voter: Address, proposal_id: u32, support: bool) -> Result<(), Error> {
        let badge = self.governance.badge_contract_address().expect("Contract not initialized");
        assert_eq!(badge, self.badge_nft.address());
        let weight = self.badge_nft.get_badge_count(voter);
        self.governance.cast_vote(voter, proposal_id, support, weight)
    }
}

fn deploy() -> Platform {
    Platform {
        now: 1_000,
        admin: addr(1),
        token: addr(7000),
        balances: HashMap::new(),
        course_registry: CourseRegistry::new(addr(100)),
        badge_nft: BadgeNFT::new(addr(200)),
        reward_pool: RewardPool::new(addr(300)),
        quest_engine: QuestEngineContract::new(addr(400)),
        stake_vault: StakeVault::new(addr(500)),
        governance: Governance::new(addr(600)),
    }
}

fn setup_full_platform() -> Platform {
    let mut p = deploy();
    let admin = p.admin;
    let token = p.token;
    p.reward_pool.initialize(admin, token).unwrap();
    p.badge_nft.initialize(p.course_registry.address()).unwrap();
    p.stake_vault.initialize(admin, token).unwrap();
    p.quest_engine
        .initialize(admin, token, p.reward_pool.address(), p.stake_vault.address())
        .unwrap();
    p.governance.initialize(admin, p.badge_nft.address()).unwrap();
    p.course_registry.initialize(admin).unwrap();
    let pool = p.reward_pool.address();
    p.mint(pool, 1_000_000_000);
    p.reward_pool.add_approved_spender(admin, p.course_registry.address()).unwrap();
    p.course_registry.set_reward_pool_address(admin, pool).unwrap();
    p.course_registry.set_badge_nft_address(admin, p.badge_nft.address()).unwrap();
    p.reward_pool.add_approved_spender(admin, p.quest_engine.address()).unwrap();
    p
}

#[test]
fn test_full_learner_journey_e2e() {
    let mut p = setup_full_platform();
    let admin = p.admin;
    let instructor = addr(10);
    let learner = addr(11);
    let course_id = p.course_registry.create_course(admin, instructor, 2, dummy_hash()).unwrap();
    assert_eq!(course_id, 1);
    p.course_registry.enroll(learner, course_id).unwrap();
    p.complete_module(learner, course_id).unwrap();
    assert_eq!(p.course_registry.get_progress(learner, course_id), 1);
    assert!(!p.badge_nft.has_badge(learner, course_id));
    p.complete_module(learner, course_id).unwrap();
    assert_eq!(p.course_registry.get_progress(learner, course_id), 2);
    assert!(p.badge_nft.has_badge(learner, course_id));
    assert_eq!(p.badge_nft.get_badge_count(learner), 1);
    assert_eq!(p.balance(learner), 10_000_000);
    assert_eq!(p.course_registry.is_course_finished(learner, course_id), Ok(true));
}

#[test]
fn test_governance_after_course_completion() {
    let mut p = setup_full_platform();
    let admin = p.admin;
    let learner = addr(11);
    let course_id = p.course_registry.create_course(admin, addr(10), 1, dummy_hash()).unwrap();
    p.course_registry.enroll(learner, course_id).unwrap();
    p.complete_module(learner, course_id).unwrap();
    assert_eq!(p.badge_nft.get_badge_count(learner), 1);
    let proposal_id = p.governance.create_proposal(learner, dummy_hash(), p.now);
    assert_eq!(proposal_id, 1);
    p.vote(learner, proposal_id, true).unwrap();
    let proposal = p.governance.get_proposal(proposal_id).unwrap();
    assert_eq!(proposal.votes_for, 1);
    assert_eq!(proposal.votes_against, 0);
}

#[test]
fn integration_explore_quest_payout_drains_reward_pool() {
    let mut p = setup_full_platform();
    let admin = p.admin;
    let learner = addr(12);
    let quest_reward: i128 = 5_000_000;
    let quest_id = p.quest_engine.create_explore_quest(admin, quest_reward, dummy_hash()).unwrap();
    // Explore quests take no proof submissions.
    assert_eq!(p.quest_engine.submit_proof(learner, quest_id, dummy_hash()), Err(Error::OnlyBuildQuests));
    let call = p.quest_engine.verify_explore_quest(admin, learner, quest_id).unwrap();
    p.run(vec![call]).unwrap();
    assert_eq!(p.balance(learner), quest_reward);
    assert_eq!(p.balance(p.reward_pool.address()), 1_000_000_000 - quest_reward);
}

#[test]
fn integration_missing_wiring_is_refused_by_the_pool() {
    let mut p = deploy();
    let admin = p.admin;
    let token = p.token;
    let learner = addr(11);
    p.reward_pool.initialize(admin, token).unwrap();
    p.badge_nft.initialize(p.course_registry.address()).unwrap();
    p.course_registry.initialize(admin).unwrap();
    let pool = p.reward_pool.address();
    p.mint(pool, 1_000_000_000);
    p.course_registry.set_reward_pool_address(admin, pool).unwrap();
    p.course_registry.set_badge_nft_address(admin, p.badge_nft.address()).unwrap();
    let course_id = p.course_registry.create_course(admin, addr(10), 1, dummy_hash()).unwrap();
    p.course_registry.enroll(learner, course_id).unwrap();
    assert_eq!(p.complete_module(learner, course_id), Err(Error::NotAuthorizedSpender));
    assert_eq!(Error::NotAuthorizedSpender.message(), "Caller is not an authorized spender");
    assert_eq!(p.balance(learner), 0);
}

#[test]
fn test_multiple_learners_independent_rewards() {
    let mut p = setup_full_platform();
    let admin = p.admin;
    let learner_a = addr(11);
    let learner_b = addr(12);
    let course_id = p.course_registry.create_course(admin, addr(10), 1, dummy_hash()).unwrap();
    p.course_registry.enroll(learner_a, course_id).unwrap();
    p.complete_module(learner_a, course_id).unwrap();
    p.course_registry.enroll(learner_b, course_id).unwrap();
    p.complete_module(learner_b, course_id).unwrap();
    assert!(p.badge_nft.has_badge(learner_a, course_id));
    assert!(p.badge_nft.has_badge(learner_b, course_id));
    assert_eq!(p.balance(learner_a), 10_000_000);
    assert_eq!(p.balance(learner_b), 10_000_000);
    assert_eq!(p.balance(p.reward_pool.address()), 1_000_000_000 - 2 * 10_000_000);
}

#[test]
fn integration_stake_boosts_nothing_beyond_the_share() {
    let mut p = setup_full_platform();
    let employer = addr(20);
    let learner = addr(21);
    p.mint(employer, 1_000);
    p.mint(learner, 600);
    let call = p.stake_vault.stake(learner, 600, p.now).unwrap();
    p.run(vec![call]).unwrap();
    let (quest_id, call) = p.quest_engine.create_build_quest(employer, 1_000, dummy_hash()).unwrap();
    p.run(vec![call]).unwrap();
    p.quest_engine.submit_proof(learner, quest_id, dummy_hash()).unwrap();
    let multiplier = p.stake_vault.get_multiplier(learner);
    assert_eq!(multiplier, 200);
    let calls = p.quest_engine.review_submission(employer, learner, quest_id, true, multiplier).unwrap();
    p.run(calls).unwrap();
    assert_eq!(p.balance(learner), 850);
    assert_eq!(p.balance(p.reward_pool.address()), 1_000_000_000 + 150);
    assert_eq!(p.balance(p.quest_engine.address()), 0);
}

#[test]
fn integration_settled_completion_mints_and_pays_once() {
    let mut p = setup_full_platform();
    let admin = p.admin;
    let learner = addr(11);
    let course_id = p.course_registry.create_course(admin, addr(10), 2, dummy_hash()).unwrap();
    p.course_registry.enroll(learner, course_id).unwrap();
    let out = p
        .course_registry
        .complete_module_settled(&mut p.badge_nft, &mut p.reward_pool, admin, learner, course_id, 50)
        .unwrap();
    assert!(out.is_empty());
    assert!(!p.badge_nft.has_badge(learner, course_id));
    let out = p
        .course_registry
        .complete_module_settled(&mut p.badge_nft, &mut p.reward_pool, admin, learner, course_id, 60)
        .unwrap();
    assert_eq!(
        out,
        vec![Call::Transfer { token: p.token, from: p.reward_pool.address(), to: learner, amount: 10_000_000 }]
    );
    p.run(out).unwrap();
    assert!(p.badge_nft.has_badge(learner, course_id));
    assert_eq!(p.badge_nft.get_badges(learner)[0].minted_at, 60);
    assert_eq!(p.balance(learner), 10_000_000);
    let pool_events = p.reward_pool.events().len();
    assert_eq!(
        p.course_registry.complete_module_settled(&mut p.badge_nft, &mut p.reward_pool, admin, learner, course_id, 70),
        Err(Error::CourseAlreadyCompleted)
    );
    assert_eq!(p.badge_nft.get_badge_count(learner), 1);
    assert_eq!(p.reward_pool.events().len(), pool_events);
}

#[test]
fn integration_settled_completion_is_all_or_nothing() {
    let mut p = setup_full_platform();
    let admin = p.admin;
    let learner = addr(11);
    let course_id = p.course_registry.create_course(admin, addr(10), 1, dummy_hash()).unwrap();
    p.course_registry.enroll(learner, course_id).unwrap();
    p.reward_pool.set_pause(admin, true).unwrap();
    assert_eq!(
        p.course_registry.complete_module_settled(&mut p.badge_nft, &mut p.reward_pool, admin, learner, course_id, 5),
        Err(Error::ContractPaused)
    );
    assert_eq!(p.course_registry.get_progress(learner, course_id), 0);
    assert!(!p.badge_nft.has_badge(learner, course_id));
    p.reward_pool.set_pause(admin, false).unwrap();
    let out = p
        .course_registry
        .complete_module_settled(&mut p.badge_nft, &mut p.reward_pool, admin, learner, course_id, 5)
        .unwrap();
    p.run(out).unwrap();
    assert_eq!(p.course_registry.is_course_finished(learner, course_id), Ok(true));
    assert_eq!(p.balance(learner), 10_000_000);
}

#[test]
fn integration_badge_weighted_vote_reads_the_badge_contract() {
    let mut p = setup_full_platform();
    let admin = p.admin;
    let learner = addr(11);
    for _ in 0..2 {
        let c = p.course_registry.create_course(admin, addr(10), 1, dummy_hash()).unwrap();
        p.course_registry.enroll(learner, c).unwrap();
        p.complete_module(learner, c).unwrap();
    }
    let id = p.governance.create_proposal(learner, dummy_hash(), p.now);
    p.governance.cast_badge_weighted_vote(&p.badge_nft, learner, id, false).unwrap();
    assert_eq!(p.governance.get_proposal(id).unwrap().votes_against, 2);
    assert_eq!(
        p.governance.cast_badge_weighted_vote(&p.badge_nft, learner, id, true),
        Err(Error::AlreadyVoted)
    );
}

#[test]
fn integration_review_reads_the_stake_vault() {
    let mut p = setup_full_platform();
    let employer = addr(20);
    let learner = addr(21);
    p.mint(employer, 2_000);
    p.mint(learner, 150);
    let call = p.stake_vault.stake(learner, 150, p.now).unwrap();
    p.run(vec![call]).unwrap();
    let (q, call) = p.quest_engine.create_build_quest(employer, 2_000, dummy_hash()).unwrap();
    p.run(vec![call]).unwrap();
    p.quest_engine.submit_proof(learner, q, dummy_hash()).unwrap();
    let calls = p
        .quest_engine
        .review_submission_with_stake(&p.stake_vault, employer, learner, q, true)
        .unwrap();
    // fee 300, share 1700, boost 120% capped at the share.
    assert_eq!(calls[0], Call::Transfer { token: p.token, from: p.quest_engine.address(), to: p.reward_pool.address(), amount: 300 });
    assert_eq!(calls[1], Call::Transfer { token: p.token, from: p.quest_engine.address(), to: learner, amount: 1_700 });
    p.run(calls).unwrap();
    assert_eq!(p.balance(learner), 1_700);
}

#[test]
fn integration_settled_explore_verification_pays_from_the_pool() {
    let mut p = setup_full_platform();
    let admin = p.admin;
    let learner = addr(12);
    let q = p.quest_engine.create_explore_quest(admin, 5_000_000, dummy_hash()).unwrap();
    let call = p
        .quest_engine
        .verify_explore_quest_settled(&mut p.reward_pool, admin, learner, q)
        .unwrap();
    p.run(vec![call]).unwrap();
    assert_eq!(p.balance(learner), 5_000_000);
    assert_eq!(p.balance(p.reward_pool.address()), 1_000_000_000 - 5_000_000);
    p.reward_pool.set_pause(admin, true).unwrap();
    let engine_events = p.quest_engine.events().len();
    assert_eq!(
        p.quest_engine.verify_explore_quest_settled(&mut p.reward_pool, admin, learner, q),
        Err(Error::ContractPaused)
    );
    assert_eq!(p.quest_engine.events().len(), engine_events);
}
