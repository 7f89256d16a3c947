use orivex::badge_nft::BadgeNFT;
use orivex::common::Address;
use orivex::course_registry::{
    Course, CourseCompleted, CourseCreated, CourseRegistry, CourseRegistryEvent, CourseStatusChanged,
    MetadataUpdated, ModuleCompleted, OwnershipTransferred, BASE_REWARD_AMOUNT,
};
use orivex::errors::Error;
use orivex::host::Call;

fn addr(id: u64) -> Address {
    Address { id }
}

fn setup() -> CourseRegistry {
    CourseRegistry::new(addr(1000))
}

fn dummy_hash() -> [u8; 32] {
    [0xffu8; 32]
}

fn events_since(c: &CourseRegistry, baseline: usize) -> usize {
    c.events().len() - baseline
}

fn assert_course_exists(c: &CourseRegistry, id: u32) -> Course {
    c.get_course(id).expect("invariant: DataKey::Course(id) must exist after create_course")
}

fn assert_course_count(c: &CourseRegistry, expected: u32) {
    assert_eq!(c.course_count(), expected);
}

fn assert_progress(c: &CourseRegistry, learner: Address, course_id: u32, expected: u32) {
    assert_eq!(c.get_progress(learner, course_id), expected);
}

/// Performs the badge mints that the registry hands to the host.
fn mint_badges(calls: &[Call], badge: &mut BadgeNFT) {
    for call in calls {
        match call {
            Call::MintBadge { contract, caller, learner, course_id } => {
                assert_eq!(*contract, badge.address());
                badge.mint_badge(*caller, *learner, *course_id, 0).unwrap();
            }
            other => panic!("unexpected call {:?}", other),
        }
    }
}

#[test]
fn invariants_inv_initialize_emits_no_events() {
    let mut c = setup();
    c.initialize(addr(1)).unwrap();
    assert_eq!(c.events().len(), 0);
}

#[test]
fn invariants_inv_initialize_stores_admin() {
    let mut c = setup();
    let admin = addr(1);
    c.initialize(admin).unwrap();
    assert_eq!(c.admin(), Some(admin));
}

#[test]
fn inv_initialize_course_count_is_zero() {
    let mut c = setup();
    c.initialize(addr(1)).unwrap();
    assert_course_count(&c, 0);
}

#[test]
fn inv_create_course_emits_exactly_one_event() {
    let mut c = setup();
    let admin = addr(1);
    let instructor = addr(2);
    c.initialize(admin).unwrap();
    let baseline = c.events().len();
    c.create_course(admin, instructor, 3, dummy_hash()).unwrap();
    assert_eq!(events_since(&c, baseline), 1);
}

#[test]
fn inv_create_course_slot_matches_inputs() {
    let mut c = setup();
    let admin = addr(1);
    let instructor = addr(2);
    let hash = dummy_hash();
    c.initialize(admin).unwrap();
    let id = c.create_course(admin, instructor, 5, hash).unwrap();
    let course = assert_course_exists(&c, id);
    assert_eq!(course.instructor, instructor);
    assert_eq!(course.total_modules, 5);
    assert_eq!(course.metadata_hash, hash);
    assert!(course.active, "new course must be active");
}

#[test]
fn inv_create_course_increments_count() {
    let mut c = setup();
    let admin = addr(1);
    let instructor = addr(2);
    let hash = dummy_hash();
    c.initialize(admin).unwrap();
    assert_course_count(&c, 0);
    c.create_course(admin, instructor, 3, hash).unwrap();
    assert_course_count(&c, 1);
    c.create_course(admin, instructor, 4, hash).unwrap();
    assert_course_count(&c, 2);
}

#[test]
fn inv_create_course_event_count_linear() {
    let mut c = setup();
    let admin = addr(1);
    let instructor = addr(2);
    let hash = dummy_hash();
    c.initialize(admin).unwrap();
    let baseline = c.events().len();
    for i in 1u32..=4 {
        c.create_course(admin, instructor, i, hash).unwrap();
    }
    assert_eq!(events_since(&c, baseline), 4);
}

#[test]
fn inv_update_metadata_emits_exactly_one_event() {
    let mut c = setup();
    let admin = addr(1);
    let instructor = addr(2);
    c.initialize(admin).unwrap();
    let id = c.create_course(admin, instructor, 3, dummy_hash()).unwrap();
    let baseline = c.events().len();
    let new_hash = [0xaau8; 32];
    c.update_metadata(id, new_hash).unwrap();
    assert_eq!(events_since(&c, baseline), 1);
}

#[test]
fn inv_update_metadata_hash_stored() {
    let mut c = setup();
    let admin = addr(1);
    let instructor = addr(2);
    c.initialize(admin).unwrap();
    let id = c.create_course(admin, instructor, 3, dummy_hash()).unwrap();
    let new_hash = [0xbbu8; 32];
    c.update_metadata(id, new_hash).unwrap();
    let course = assert_course_exists(&c, id);
    assert_eq!(course.metadata_hash, new_hash);
}

#[test]
fn inv_update_metadata_other_fields_unchanged() {
    let mut c = setup();
    let admin = addr(1);
    let instructor = addr(2);
    c.initialize(admin).unwrap();
    let id = c.create_course(admin, instructor, 7, dummy_hash()).unwrap();
    let new_hash = [0xccu8; 32];
    c.update_metadata(id, new_hash).unwrap();
    let course = assert_course_exists(&c, id);
    assert_eq!(course.instructor, instructor);
    assert_eq!(course.total_modules, 7);
    assert!(course.active);
}

#[test]
fn inv_enroll_emits_no_events() {
    let mut c = setup();
    let admin = addr(1);
    let instructor = addr(2);
    let learner = addr(3);
    c.initialize(admin).unwrap();
    let id = c.create_course(admin, instructor, 3, dummy_hash()).unwrap();
    let baseline = c.events().len();
    c.enroll(learner, id).unwrap();
    assert_eq!(events_since(&c, baseline), 0);
}

#[test]
fn inv_enroll_creates_zero_progress_slot() {
    let mut c = setup();
    let admin = addr(1);
    let instructor = addr(2);
    let learner = addr(3);
    c.initialize(admin).unwrap();
    let id = c.create_course(admin, instructor, 3, dummy_hash()).unwrap();
    c.enroll(learner, id).unwrap();
    assert_progress(&c, learner, id, 0);
    assert_eq!(c.progress_slot(learner, id), Some(0));
}

#[test]
fn inv_enroll_no_cross_learner_progress_leak() {
    let mut c = setup();
    let admin = addr(1);
    let instructor = addr(2);
    let learner_a = addr(3);
    let learner_b = addr(4);
    c.initialize(admin).unwrap();
    let id = c.create_course(admin, instructor, 3, dummy_hash()).unwrap();
    c.enroll(learner_a, id).unwrap();
    assert_eq!(c.progress_slot(learner_b, id), None, "enroll for A must not create progress slot for B");
}

#[test]
fn inv_set_course_status_emits_exactly_one_event() {
    let mut c = setup();
    let admin = addr(1);
    let instructor = addr(2);
    c.initialize(admin).unwrap();
    let id = c.create_course(admin, instructor, 3, dummy_hash()).unwrap();
    let baseline = c.events().len();
    c.set_course_status(admin, id, false).unwrap();
    assert_eq!(events_since(&c, baseline), 1);
}

#[test]
fn inv_set_course_status_only_active_changes() {
    let mut c = setup();
    let admin = addr(1);
    let instructor = addr(2);
    let hash = dummy_hash();
    c.initialize(admin).unwrap();
    let id = c.create_course(admin, instructor, 4, hash).unwrap();
    c.set_course_status(admin, id, false).unwrap();
    let course = assert_course_exists(&c, id);
    assert!(!course.active);
    assert_eq!(course.instructor, instructor);
    assert_eq!(course.total_modules, 4);
    assert_eq!(course.metadata_hash, hash);
}

#[test]
fn inv_transfer_ownership_emits_exactly_one_event() {
    let mut c = setup();
    let admin = addr(1);
    let instructor = addr(2);
    let new_instructor = addr(3);
    c.initialize(admin).unwrap();
    let id = c.create_course(admin, instructor, 3, dummy_hash()).unwrap();
    let baseline = c.events().len();
    c.transfer_ownership(instructor, new_instructor, id).unwrap();
    assert_eq!(events_since(&c, baseline), 1);
}

#[test]
fn inv_transfer_ownership_updates_instructor() {
    let mut c = setup();
    let admin = addr(1);
    let instructor = addr(2);
    let new_instructor = addr(3);
    c.initialize(admin).unwrap();
    let id = c.create_course(admin, instructor, 3, dummy_hash()).unwrap();
    c.transfer_ownership(instructor, new_instructor, id).unwrap();
    let course = assert_course_exists(&c, id);
    assert_eq!(course.instructor, new_instructor);
}

#[test]
fn inv_transfer_ownership_other_fields_unchanged() {
    let mut c = setup();
    let admin = addr(1);
    let instructor = addr(2);
    let new_instructor = addr(3);
    let hash = dummy_hash();
    c.initialize(admin).unwrap();
    let id = c.create_course(admin, instructor, 6, hash).unwrap();
    c.transfer_ownership(instructor, new_instructor, id).unwrap();
    let course = assert_course_exists(&c, id);
    assert_eq!(course.total_modules, 6);
    assert_eq!(course.metadata_hash, hash);
    assert!(course.active);
}

#[test]
fn inv_complete_module_non_final_emits_one_event() {
    let mut c = setup();
    let admin = addr(1);
    let instructor = addr(2);
    let learner = addr(3);
    c.initialize(admin).unwrap();
    let id = c.create_course(admin, instructor, 3, dummy_hash()).unwrap();
    let baseline = c.events().len();
    c.complete_module(admin, learner, id).unwrap();
    assert_eq!(events_since(&c, baseline), 1);
}

#[test]
fn inv_complete_module_final_no_integrations_emits_one_event() {
    let mut c = setup();
    let admin = addr(1);
    let instructor = addr(2);
    let learner = addr(3);
    c.initialize(admin).unwrap();
    let id = c.create_course(admin, instructor, 1, dummy_hash()).unwrap();
    let baseline = c.events().len();
    let calls = c.complete_module(admin, learner, id).unwrap();
    assert!(calls.is_empty());
    assert_eq!(events_since(&c, baseline), 1);
}

#[test]
fn inv_complete_module_progress_increments() {
    let mut c = setup();
    let admin = addr(1);
    let instructor = addr(2);
    let learner = addr(3);
    c.initialize(admin).unwrap();
    let id = c.create_course(admin, instructor, 3, dummy_hash()).unwrap();
    c.complete_module(admin, learner, id).unwrap();
    assert_progress(&c, learner, id, 1);
    c.complete_module(admin, learner, id).unwrap();
    assert_progress(&c, learner, id, 2);
    c.complete_module(admin, learner, id).unwrap();
    assert_progress(&c, learner, id, 3);
}

#[test]
fn inv_complete_module_progress_isolated_per_learner() {
    let mut c = setup();
    let admin = addr(1);
    let instructor = addr(2);
    let learner_a = addr(3);
    let learner_b = addr(4);
    c.initialize(admin).unwrap();
    let id = c.create_course(admin, instructor, 5, dummy_hash()).unwrap();
    c.complete_module(admin, learner_a, id).unwrap();
    c.complete_module(admin, learner_a, id).unwrap();
    assert_progress(&c, learner_a, id, 2);
    assert_progress(&c, learner_b, id, 0);
}

#[test]
fn inv_complete_module_final_badge_minted_exactly_once() {
    let mut c = setup();
    let admin = addr(1);
    let instructor = addr(2);
    let learner = addr(3);
    c.initialize(admin).unwrap();
    let id = c.create_course(admin, instructor, 2, dummy_hash()).unwrap();
    let mut badge = BadgeNFT::new(addr(2000));
    badge.initialize(c.address()).unwrap();
    c.set_badge_nft_address(admin, badge.address()).unwrap();

    let calls = c.complete_module(admin, learner, id).unwrap();
    mint_badges(&calls, &mut badge);
    assert_eq!(badge.get_badge_count(learner), 0, "badge must not be minted before final module");

    let calls = c.complete_module(admin, learner, id).unwrap();
    mint_badges(&calls, &mut badge);
    assert_eq!(badge.get_badge_count(learner), 1, "exactly 1 badge must be minted on final module");
    assert!(badge.has_badge(learner, id), "badge must be for the correct course");
}

#[test]
fn inv_complete_module_badge_isolated_per_learner() {
    let mut c = setup();
    let admin = addr(1);
    let instructor = addr(2);
    let learner_a = addr(3);
    let learner_b = addr(4);
    c.initialize(admin).unwrap();
    let id = c.create_course(admin, instructor, 1, dummy_hash()).unwrap();
    let mut badge = BadgeNFT::new(addr(2000));
    badge.initialize(c.address()).unwrap();
    c.set_badge_nft_address(admin, badge.address()).unwrap();

    let calls = c.complete_module(admin, learner_a, id).unwrap();
    mint_badges(&calls, &mut badge);
    let calls = c.complete_module(admin, learner_b, id).unwrap();
    mint_badges(&calls, &mut badge);

    assert_eq!(badge.get_badge_count(learner_a), 1);
    assert_eq!(badge.get_badge_count(learner_b), 1);
    assert!(!badge.has_badge(learner_a, id + 99));
}

#[test]
fn inv_set_badge_nft_address_emits_no_events_stores_address() {
    let mut c = setup();
    let admin = addr(1);
    let badge_addr = addr(2);
    c.initialize(admin).unwrap();
    let baseline = c.events().len();
    c.set_badge_nft_address(admin, badge_addr).unwrap();
    assert_eq!(events_since(&c, baseline), 0);
    assert_eq!(c.badge_nft_address(), Some(badge_addr));
}

#[test]
fn inv_set_reward_pool_address_emits_no_events_stores_address() {
    let mut c = setup();
    let admin = addr(1);
    let pool_addr = addr(2);
    c.initialize(admin).unwrap();
    let baseline = c.events().len();
    c.set_reward_pool_address(admin, pool_addr).unwrap();
    assert_eq!(events_since(&c, baseline), 0);
    assert_eq!(c.reward_pool_address(), Some(pool_addr));
}

#[test]
fn invariants_inv_read_methods_emit_no_events() {
    let mut c = setup();
    let admin = addr(1);
    let instructor = addr(2);
    let learner = addr(3);
    c.initialize(admin).unwrap();
    let id = c.create_course(admin, instructor, 3, dummy_hash()).unwrap();
    c.enroll(learner, id).unwrap();
    let baseline = c.events().len();
    let _ = c.course_count();
    let _ = c.get_course(id);
    let _ = c.get_progress(learner, id);
    let _ = c.is_course_finished(learner, id);
    assert_eq!(events_since(&c, baseline), 0);
}

#[test]
fn inv_course_count_consistent_with_storage() {
    let mut c = setup();
    let admin = addr(1);
    let instructor = addr(2);
    let hash = dummy_hash();
    c.initialize(admin).unwrap();
    assert_eq!(c.course_count(), 0);
    c.create_course(admin, instructor, 3, hash).unwrap();
    assert_eq!(c.course_count(), 1);
    assert!(c.get_course(1).is_ok());
    c.create_course(admin, instructor, 5, hash).unwrap();
    assert_eq!(c.course_count(), 2);
    assert!(c.get_course(2).is_ok());
}

#[test]
fn inv_is_course_finished_consistent_with_progress() {
    let mut c = setup();
    let admin = addr(1);
    let instructor = addr(2);
    let learner = addr(3);
    c.initialize(admin).unwrap();
    let id = c.create_course(admin, instructor, 2, dummy_hash()).unwrap();
    assert!(!c.is_course_finished(learner, id).unwrap());
    c.complete_module(admin, learner, id).unwrap();
    assert_eq!(c.get_progress(learner, id), 1);
    assert!(!c.is_course_finished(learner, id).unwrap());
    c.complete_module(admin, learner, id).unwrap();
    assert_eq!(c.get_progress(learner, id), 2);
    assert!(c.is_course_finished(learner, id).unwrap());
}

#[test]
fn ttl_audit_course_registry() {
    let mut c = setup();
    let admin = addr(1);
    let learner = addr(2);
    c.initialize(admin).unwrap();
    let course_id = c.create_course(admin, addr(3), 3, [0xabu8; 32]).unwrap();
    c.enroll(learner, course_id).unwrap();
    let course = c.get_course(course_id).unwrap();
    assert_eq!(course.total_modules, 3);
    assert_eq!(c.get_progress(learner, course_id), 0);
}

// ── Scenarios and errors ─────────────────────────────────────────────────────

#[test]
fn first_course_gets_id_one() {
    let mut c = setup();
    c.initialize(addr(1)).unwrap();
    assert_eq!(c.create_course(addr(1), addr(2), 5, [0u8; 32]), Ok(1));
    assert_eq!(
        c.events()[0],
        CourseRegistryEvent::CourseCreated(CourseCreated { id: 1, instructor: addr(2), total_modules: 5 })
    );
}

#[test]
fn admin_gated_entry_points_reject_others() {
    let mut c = setup();
    assert_eq!(c.create_course(addr(1), addr(2), 1, [0u8; 32]), Err(Error::ContractNotInitialized));
    assert_eq!(c.set_reward_pool_address(addr(1), addr(5)), Err(Error::ContractNotInitialized));
    c.initialize(addr(1)).unwrap();
    assert_eq!(c.initialize(addr(1)), Err(Error::AlreadyInitialized));
    assert_eq!(c.create_course(addr(9), addr(2), 1, [0u8; 32]), Err(Error::UnauthorizedProtocolAdmin));
    assert_eq!(c.set_badge_nft_address(addr(9), addr(5)), Err(Error::UnauthorizedProtocolAdmin));
    assert_eq!(c.set_reward_pool_address(addr(9), addr(5)), Err(Error::UnauthorizedProtocolAdmin));
    assert_eq!(c.complete_module(addr(9), addr(3), 1), Err(Error::UnauthorizedProtocolAdmin));
    assert_eq!(c.set_course_status(addr(9), 1, false), Err(Error::UnauthorizedProtocolAdmin));
    assert_eq!(
        Error::UnauthorizedProtocolAdmin.message(),
        "Unauthorized: Caller is not the protocol admin"
    );
}

#[test]
fn zero_module_course_is_rejected() {
    let mut c = setup();
    c.initialize(addr(1)).unwrap();
    assert_eq!(c.create_course(addr(1), addr(2), 0, [0u8; 32]), Err(Error::TotalModulesZero));
    assert_eq!(c.course_count(), 0);
}

#[test]
fn missing_course_errors() {
    let mut c = setup();
    c.initialize(addr(1)).unwrap();
    assert_eq!(c.get_course(7), Err(Error::CourseNotFound));
    assert_eq!(c.update_metadata(7, [0u8; 32]), Err(Error::CourseNotFound));
    assert_eq!(c.enroll(addr(2), 7), Err(Error::CourseNotFound));
    assert_eq!(c.is_course_finished(addr(2), 7), Err(Error::CourseNotFound));
    assert_eq!(c.transfer_ownership(addr(2), addr(3), 7), Err(Error::CourseNotFound));
    assert_eq!(c.complete_module(addr(1), addr(2), 7), Err(Error::CourseNotFound));
    assert_eq!(c.set_course_status(addr(1), 7, true), Err(Error::CourseNotFound));
}

#[test]
fn enroll_rejections() {
    let mut c = setup();
    c.initialize(addr(1)).unwrap();
    let id = c.create_course(addr(1), addr(2), 2, [0u8; 32]).unwrap();
    c.enroll(addr(3), id).unwrap();
    assert_eq!(c.enroll(addr(3), id), Err(Error::AlreadyEnrolled));
    c.set_course_status(addr(1), id, false).unwrap();
    assert_eq!(c.enroll(addr(4), id), Err(Error::CourseNotActive));
    assert_eq!(
        c.events().last().copied(),
        Some(CourseRegistryEvent::CourseStatusChanged(CourseStatusChanged { id, active: false }))
    );
}

#[test]
fn deactivation_keeps_progress() {
    let mut c = setup();
    c.initialize(addr(1)).unwrap();
    let id = c.create_course(addr(1), addr(2), 3, [0u8; 32]).unwrap();
    c.enroll(addr(3), id).unwrap();
    c.complete_module(addr(1), addr(3), id).unwrap();
    c.set_course_status(addr(1), id, false).unwrap();
    assert_eq!(c.get_progress(addr(3), id), 1);
}

#[test]
fn update_metadata_returns_instructor_to_authorize() {
    let mut c = setup();
    c.initialize(addr(1)).unwrap();
    let id = c.create_course(addr(1), addr(2), 2, [0u8; 32]).unwrap();
    assert_eq!(c.update_metadata(id, [7u8; 32]), Ok(addr(2)));
    assert_eq!(
        c.events().last().copied(),
        Some(CourseRegistryEvent::MetadataUpdated(MetadataUpdated { id, instructor: addr(2), new_hash: [7u8; 32] }))
    );
}

#[test]
fn transfer_ownership_by_non_instructor_is_rejected() {
    let mut c = setup();
    c.initialize(addr(1)).unwrap();
    let id = c.create_course(addr(1), addr(2), 2, [0u8; 32]).unwrap();
    assert_eq!(c.transfer_ownership(addr(9), addr(3), id), Err(Error::NotCourseInstructor));
    c.transfer_ownership(addr(2), addr(3), id).unwrap();
    assert_eq!(
        c.events().last().copied(),
        Some(CourseRegistryEvent::OwnershipTransferred(OwnershipTransferred {
            course_id: id,
            previous_instructor: addr(2),
            new_instructor: addr(3)
        }))
    );
    assert_eq!(c.transfer_ownership(addr(2), addr(4), id), Err(Error::NotCourseInstructor));
}

#[test]
fn completing_beyond_last_module_is_rejected() {
    let mut c = setup();
    c.initialize(addr(1)).unwrap();
    let id = c.create_course(addr(1), addr(2), 1, [0u8; 32]).unwrap();
    c.complete_module(addr(1), addr(3), id).unwrap();
    assert_eq!(c.complete_module(addr(1), addr(3), id), Err(Error::CourseAlreadyCompleted));
    assert_eq!(c.get_progress(addr(3), id), 1);
}

#[test]
fn final_module_hands_out_badge_and_reward() {
    let mut c = setup();
    c.initialize(addr(1)).unwrap();
    c.set_badge_nft_address(addr(1), addr(50)).unwrap();
    c.set_reward_pool_address(addr(1), addr(60)).unwrap();
    let id = c.create_course(addr(1), addr(2), 2, [0u8; 32]).unwrap();
    assert_eq!(c.complete_module(addr(1), addr(3), id), Ok(vec![]));
    let calls = c.complete_module(addr(1), addr(3), id).unwrap();
    assert_eq!(
        calls,
        vec![
            Call::MintBadge { contract: addr(50), caller: addr(1000), learner: addr(3), course_id: id },
            Call::DistributeReward { contract: addr(60), caller: addr(1000), learner: addr(3), amount: 10_000_000 },
        ]
    );
    assert_eq!(BASE_REWARD_AMOUNT, 10_000_000);
    let n = c.events().len();
    assert_eq!(
        c.events()[n - 2],
        CourseRegistryEvent::ModuleCompleted(ModuleCompleted { learner: addr(3), course_id: id, new_progress: 2 })
    );
    assert_eq!(
        c.events()[n - 1],
        CourseRegistryEvent::CourseCompleted(CourseCompleted {
            learner: addr(3),
            course_id: id,
            reward_amount: 10_000_000
        })
    );
}

#[test]
fn upgrade_contract_checks_admin() {
    let mut c = setup();
    assert_eq!(c.upgrade_contract(addr(1), [1u8; 32]), Err(Error::NotInitialized));
    c.initialize(addr(1)).unwrap();
    assert_eq!(c.upgrade_contract(addr(2), [1u8; 32]), Err(Error::Unauthorized));
    assert_eq!(c.upgrade_contract(addr(1), [1u8; 32]), Ok(Call::UpdateWasm { new_wasm_hash: [1u8; 32] }));
    assert_eq!(c.events().len(), 1);
}
