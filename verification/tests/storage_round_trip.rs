use orivex::badge_nft::{BadgeNFT, BadgeNftStorage};
use orivex::common::{Address, Badge};
use orivex::course_registry::{Course, CourseRegistry, CourseRegistryStorage};
use orivex::governance::{Governance, GovernanceStorage, Proposal};
use orivex::quest_engine::{QuestEngineContract, QuestEngineStorage, QuestType, Submission, SubmissionStatus};
use orivex::reward_pool::RewardPool;
use orivex::stake_vault::{StakeInfo, StakeVault};
use orivex::two_step::PendingTransfer;

fn addr(id: u64) -> Address {
    Address { id }
}

#[test]
fn badge_storage_round_trip() {
    let mut c = BadgeNFT::new(addr(1));
    c.initialize(addr(2)).unwrap();
    c.mint_badge(addr(2), addr(3), 7, 11).unwrap();
    c.mint_badge(addr(2), addr(3), 8, 12).unwrap();
    c.mint_badge(addr(2), addr(4), 7, 13).unwrap();
    let saved = c.save();
    assert_eq!(saved.user_badges.len(), 2);
    let back = BadgeNFT::load(saved).expect("a saved state loads");
    assert_eq!(back.address(), addr(1));
    assert_eq!(back.admin(), Some(addr(2)));
    assert_eq!(back.get_badges(addr(3)), c.get_badges(addr(3)));
    assert_eq!(back.get_badges(addr(4)), vec![Badge { course_id: 7, minted_at: 13 }]);
    assert!(back.events().is_empty());
    // A badge list with two badges for one course is refused.
    let bad = BadgeNftStorage {
        address: addr(1),
        admin: Some(addr(2)),
        pending_admin: None,
        user_badges: vec![(addr(3), vec![Badge { course_id: 1, minted_at: 0 }, Badge { course_id: 1, minted_at: 5 }])],
    };
    assert!(BadgeNFT::load(bad).is_none());
}

#[test]
fn governance_storage_round_trip() {
    let mut g = Governance::new(addr(1));
    g.initialize(addr(2), addr(3)).unwrap();
    let id = g.create_proposal(addr(4), [1u8; 32], 10);
    g.cast_vote(addr(5), id, true, 3).unwrap();
    g.propose_new_admin(addr(2), addr(6), 20).unwrap();
    let saved = g.save();
    let mut back = Governance::load(saved).expect("a saved state loads");
    assert_eq!(back.get_proposal(id), g.get_proposal(id));
    assert!(back.user_vote(addr(5), id));
    assert_eq!(back.badge_contract_address(), Some(addr(3)));
    back.accept_admin_ownership(addr(6)).unwrap();
    assert_eq!(back.create_proposal(addr(4), [2u8; 32], 30), 2);
    let p = Proposal { id: 9, proposer: addr(4), metadata_hash: [0u8; 32], votes_for: 0, votes_against: 0, end_time: 0, executed: false };
    let bad = GovernanceStorage {
        address: addr(1),
        admin: None,
        badge_contract: None,
        proposal_count: 0,
        proposals: vec![(8, p)],
        votes: Vec::new(),
        pending_admin: None,
        pending_badge_contract: None,
    };
    assert!(Governance::load(bad).is_none());
}

#[test]
fn course_registry_storage_round_trip() {
    let mut r = CourseRegistry::new(addr(1));
    r.initialize(addr(2)).unwrap();
    let c1 = r.create_course(addr(2), addr(3), 2, [0u8; 32]).unwrap();
    let c2 = r.create_course(addr(2), addr(3), 1, [1u8; 32]).unwrap();
    r.enroll(addr(4), c1).unwrap();
    r.complete_module(addr(2), addr(4), c1).unwrap();
    let back = CourseRegistry::load(r.save()).expect("a saved state loads");
    assert_eq!(back.course_count(), 2);
    assert_eq!(back.get_course(c2), r.get_course(c2));
    assert_eq!(back.get_progress(addr(4), c1), 1);
    assert_eq!(back.is_course_finished(addr(4), c1), Ok(false));
    let course = Course { instructor: addr(3), total_modules: 1, metadata_hash: [0u8; 32], active: true };
    // Course ids must be exactly 1..=course_count.
    let gap = CourseRegistryStorage {
        address: addr(1),
        admin: Some(addr(2)),
        course_count: 2,
        badge_nft: None,
        reward_pool: None,
        courses: vec![(2, course)],
        progress: Vec::new(),
    };
    assert!(CourseRegistry::load(gap).is_none());
    // Progress beyond the module count is refused.
    let over = CourseRegistryStorage {
        address: addr(1),
        admin: Some(addr(2)),
        course_count: 1,
        badge_nft: None,
        reward_pool: None,
        courses: vec![(1, course)],
        progress: vec![((addr(4), 1), 2)],
    };
    assert!(CourseRegistry::load(over).is_none());
}

#[test]
fn quest_engine_storage_round_trip() {
    let mut q = QuestEngineContract::new(addr(1));
    q.initialize(addr(2), addr(3), addr(4), addr(5)).unwrap();
    let (b, _) = q.create_build_quest(addr(6), 100, [0u8; 32]).unwrap();
    let e = q.create_explore_quest(addr(2), 50, [0u8; 32]).unwrap();
    q.submit_proof(addr(7), b, [9u8; 32]).unwrap();
    let back = QuestEngineContract::load(q.save()).expect("a saved state loads");
    assert_eq!(back.quest_counter(), 2);
    assert_eq!(back.get_quest(e), q.get_quest(e));
    assert_eq!(back.get_submission(addr(7), b), Some(Submission { proof_hash: [9u8; 32], status: SubmissionStatus::Pending }));
    // A submission for an Explore quest is refused.
    let mut saved = q.save();
    saved.submissions.push(((addr(8), e), Submission { proof_hash: [0u8; 32], status: SubmissionStatus::Pending }));
    assert!(QuestEngineContract::load(saved).is_none());
    // A half-set configuration is refused.
    let half = QuestEngineStorage {
        address: addr(1),
        admin: Some(addr(2)),
        token: None,
        reward_pool: None,
        stake_vault: None,
        pending_admin: None,
        pending_reward_pool: None,
        pending_stake_vault: None,
        quest_counter: 0,
        paused: None,
        quests: Vec::new(),
        submissions: Vec::new(),
    };
    assert!(QuestEngineContract::load(half).is_none());
    // A pending hand-over on an uninitialized engine is refused.
    let mut fresh = QuestEngineContract::new(addr(1)).save();
    fresh.pending_reward_pool = Some(PendingTransfer { proposed: addr(9), proposed_at: 0 });
    assert!(QuestEngineContract::load(fresh).is_none());
    assert_eq!(back.get_quest(b).unwrap().quest_type, QuestType::Build);
}

#[test]
fn pool_and_vault_storage_round_trip() {
    let mut p = RewardPool::new(addr(1));
    p.initialize(addr(2), addr(3)).unwrap();
    p.add_approved_spender(addr(2), addr(4)).unwrap();
    p.set_pause(addr(2), true).unwrap();
    let back = RewardPool::load(p.save());
    assert!(back.is_approved_spender(addr(4)));
    assert!(!back.is_approved_spender(addr(5)));
    assert_eq!(back.paused_flag(), Some(true));
    assert_eq!(back.token(), Some(addr(3)));

    let mut v = StakeVault::new(addr(10));
    v.initialize(addr(2), addr(3)).unwrap();
    v.stake(addr(4), 500, 77).unwrap();
    let back = StakeVault::load(v.save());
    assert_eq!(back.user_stake(addr(4)), Some(StakeInfo { amount: 500, lock_timestamp: 77 }));
    assert_eq!(back.get_multiplier(addr(4)), 200);
    assert!(back.events().is_empty());
}
