use std::collections::HashMap;

use orivex::common::Address;
use orivex::errors::Error;
use orivex::host::Call;
use orivex::reward_pool::{
    EmergencySweep, PoolFunded, PoolInitialized, RewardDistributed, RewardPool, RewardPoolEvent,
    SpenderAdded,
};
use orivex::two_step::TransferProposed;

fn addr(id: u64) -> Address {
    Address { id }
}

/// A token ledger that carries out the transfers the pool asks for.
struct Token {
    id: Address,
    balances: HashMap<Address, i128>,
}

impl Token {
    fn new(id: Address) -> Token {
        Token { id, balances: HashMap::new() }
    }

    fn mint(&mut self, to: Address, amount: i128) {
        *self.balances.entry(to).or_insert(0) += amount;
    }

    fn balance(&self, of: Address) -> i128 {
        *self.balances.get(&of).unwrap_or(&0)
    }

    fn apply(&mut self, call: Call) {
        match call {
            Call::Transfer { token, from, to, amount } => {
                assert_eq!(token, self.id, "transfer on an unexpected token");
                assert!(amount >= 0, "negative amount is not allowed");
                assert!(self.balance(from) >= amount, "balance is not sufficient to spend");
                *self.balances.entry(from).or_insert(0) -= amount;
                *self.balances.entry(to).or_insert(0) += amount;
            }
            other => panic!("unexpected host call {:?}", other),
        }
    }
}

fn setup() -> RewardPool {
    RewardPool::new(addr(5000))
}

/// An initialized pool holding `pool_balance` tokens.
fn setup_funded(pool_balance: i128) -> (RewardPool, Address, Token) {
    let mut pool = setup();
    let admin = addr(1);
    let mut token = Token::new(addr(7000));
    pool.initialize(admin, token.id).unwrap();
    token.mint(pool.address(), pool_balance);
    (pool, admin, token)
}

fn distribute(pool: &mut RewardPool, token: &mut Token, caller: Address, learner: Address, amount: i128) {
    let call = pool.distribute_reward(caller, learner, amount).unwrap();
    token.apply(call);
}

fn sweep(pool: &mut RewardPool, token: &mut Token, admin: Address, recovery: Address) {
    let balance = token.balance(pool.address());
    let call = pool.emergency_sweep(admin, recovery, balance).unwrap();
    token.apply(call);
}

// ── invariants ───────────────────────────────────────────────────────────────

#[test]
fn invariants_inv_initialize_emits_exactly_one_event() {
    let mut pool = setup();
    pool.initialize(addr(1), addr(2)).unwrap();
    assert_eq!(pool.events().len(), 1);
}

#[test]
fn invariants_inv_initialize_stores_admin_and_token() {
    let mut pool = setup();
    let admin = addr(1);
    let token = addr(7000);
    pool.initialize(admin, token).unwrap();
    assert_eq!(pool.admin(), Some(admin));
    assert_eq!(pool.token(), Some(token));
}

#[test]
fn inv_initialize_pause_flag_is_false() {
    let mut pool = setup();
    pool.initialize(addr(1), addr(2)).unwrap();
    assert_eq!(pool.paused_flag().unwrap_or(false), false);
}

#[test]
fn inv_add_approved_spender_emits_exactly_one_event() {
    let mut pool = setup();
    let admin = addr(1);
    pool.initialize(admin, addr(2)).unwrap();
    let baseline = pool.events().len();
    pool.add_approved_spender(admin, addr(3)).unwrap();
    assert_eq!(pool.events().len() - baseline, 1, "add_approved_spender must emit exactly 1 event");
}

#[test]
fn inv_add_approved_spender_sets_flag() {
    let mut pool = setup();
    let admin = addr(1);
    let spender = addr(3);
    pool.initialize(admin, addr(2)).unwrap();
    pool.add_approved_spender(admin, spender).unwrap();
    assert!(pool.is_approved_spender(spender));
}

#[test]
fn inv_add_approved_spender_no_side_effects_on_admin_token() {
    let mut pool = setup();
    let admin = addr(1);
    let token = addr(7000);
    pool.initialize(admin, token).unwrap();
    pool.add_approved_spender(admin, addr(3)).unwrap();
    assert_eq!(pool.admin(), Some(admin));
    assert_eq!(pool.token(), Some(token));
}

#[test]
fn inv_add_approved_spender_multiple_independent_flags() {
    let mut pool = setup();
    let admin = addr(1);
    let s1 = addr(3);
    let s2 = addr(4);
    pool.initialize(admin, addr(2)).unwrap();
    let baseline = pool.events().len();
    pool.add_approved_spender(admin, s1).unwrap();
    pool.add_approved_spender(admin, s2).unwrap();
    assert_eq!(pool.events().len() - baseline, 2);
    assert!(pool.is_approved_spender(s1));
    assert!(pool.is_approved_spender(s2));
}

#[test]
fn inv_set_pause_true_no_event_flag_set() {
    let mut pool = setup();
    let admin = addr(1);
    pool.initialize(admin, addr(2)).unwrap();
    let baseline = pool.events().len();
    pool.set_pause(admin, true).unwrap();
    assert_eq!(pool.events().len() - baseline, 0, "set_pause must not emit any events");
    assert_eq!(pool.paused_flag(), Some(true));
}

#[test]
fn inv_set_pause_toggle_round_trips() {
    let mut pool = setup();
    let admin = addr(1);
    pool.initialize(admin, addr(2)).unwrap();
    pool.set_pause(admin, true).unwrap();
    assert_eq!(pool.paused_flag(), Some(true));
    pool.set_pause(admin, false).unwrap();
    assert_eq!(pool.paused_flag(), Some(false));
}

#[test]
fn inv_distribute_reward_emits_exactly_one_event() {
    let (mut pool, admin, mut token) = setup_funded(1_000);
    let spender = addr(3);
    pool.add_approved_spender(admin, spender).unwrap();
    let baseline = pool.events().len();
    distribute(&mut pool, &mut token, spender, addr(4), 100);
    assert_eq!(pool.events().len() - baseline, 1, "distribute_reward must emit exactly 1 event");
}

#[test]
fn inv_distribute_reward_token_conservation() {
    let amount = 250i128;
    let (mut pool, admin, mut token) = setup_funded(1_000);
    let spender = addr(3);
    let learner = addr(4);
    pool.add_approved_spender(admin, spender).unwrap();
    let pool_before = token.balance(pool.address());
    let learner_before = token.balance(learner);
    distribute(&mut pool, &mut token, spender, learner, amount);
    assert_eq!(pool_before - token.balance(pool.address()), amount, "pool balance must decrease by amount");
    assert_eq!(token.balance(learner) - learner_before, amount, "learner balance must increase by amount");
}

#[test]
fn inv_distribute_reward_no_storage_side_effects() {
    let (mut pool, admin, mut token) = setup_funded(500);
    let spender = addr(3);
    pool.add_approved_spender(admin, spender).unwrap();
    distribute(&mut pool, &mut token, spender, addr(4), 50);
    assert!(pool.is_approved_spender(spender));
    assert_eq!(pool.paused_flag().unwrap_or(false), false);
}

#[test]
fn inv_fund_pool_emits_exactly_one_event() {
    let (mut pool, _admin, mut token) = setup_funded(0);
    let donor = addr(6);
    token.mint(donor, 1_000);
    let baseline = pool.events().len();
    let call = pool.fund_pool(donor, 300).unwrap();
    token.apply(call);
    assert_eq!(pool.events().len() - baseline, 1, "fund_pool must emit exactly 1 event");
}

#[test]
fn inv_fund_pool_token_conservation() {
    let (mut pool, _admin, mut token) = setup_funded(0);
    let donor = addr(6);
    let amount = 400i128;
    token.mint(donor, amount);
    let pool_before = token.balance(pool.address());
    let donor_before = token.balance(donor);
    let call = pool.fund_pool(donor, amount).unwrap();
    token.apply(call);
    assert_eq!(token.balance(pool.address()) - pool_before, amount);
    assert_eq!(donor_before - token.balance(donor), amount);
}

#[test]
fn inv_emergency_sweep_emits_exactly_one_event() {
    let (mut pool, admin, mut token) = setup_funded(1_000);
    let baseline = pool.events().len();
    sweep(&mut pool, &mut token, admin, addr(8));
    assert_eq!(pool.events().len() - baseline, 1, "emergency_sweep must emit exactly 1 event");
}

#[test]
fn inv_emergency_sweep_drains_pool_to_recovery() {
    let initial = 7_500i128;
    let (mut pool, admin, mut token) = setup_funded(initial);
    let recovery = addr(8);
    sweep(&mut pool, &mut token, admin, recovery);
    assert_eq!(token.balance(pool.address()), 0, "pool must be empty after emergency_sweep");
    assert_eq!(token.balance(recovery), initial, "recovery wallet must receive full pool balance");
}

#[test]
fn inv_emergency_sweep_config_slots_intact() {
    let (mut pool, admin, mut token) = setup_funded(500);
    sweep(&mut pool, &mut token, admin, addr(8));
    assert_eq!(pool.admin(), Some(admin));
    assert_eq!(pool.token(), Some(token.id));
}

// ── scenarios ────────────────────────────────────────────────────────────────

#[test]
fn test_initialize_success() {
    let mut pool = setup();
    let admin = addr(1);
    let token = addr(2);
    pool.initialize(admin, token).unwrap();
    assert_eq!(pool.events().len(), 1);
    assert_eq!(pool.events()[0], RewardPoolEvent::PoolInitialized(PoolInitialized { admin, token }));
}

#[test]
fn pool_initialize_twice_is_refused() {
    let mut pool = setup();
    pool.initialize(addr(1), addr(2)).unwrap();
    assert_eq!(pool.initialize(addr(1), addr(2)), Err(Error::AlreadyInitialized));
    assert_eq!(pool.events().len(), 1);
}

#[test]
fn test_initialize_with_proper_auth() {
    let mut pool = setup();
    pool.initialize(addr(1), addr(2)).unwrap();
    assert_eq!(pool.events().len(), 1);
}

#[test]
fn test_add_approved_spender_success() {
    let mut pool = setup();
    let admin = addr(1);
    let spender = addr(3);
    pool.initialize(admin, addr(2)).unwrap();
    pool.add_approved_spender(admin, spender).unwrap();
    assert_eq!(*pool.events().last().unwrap(), RewardPoolEvent::SpenderAdded(SpenderAdded { spender }));
}

#[test]
fn pool_add_approved_spender_errors() {
    let mut pool = setup();
    assert_eq!(pool.add_approved_spender(addr(1), addr(3)), Err(Error::NotInitialized));
    pool.initialize(addr(1), addr(2)).unwrap();
    assert_eq!(pool.add_approved_spender(addr(9), addr(3)), Err(Error::Unauthorized));
    assert!(!pool.is_approved_spender(addr(3)));
    assert_eq!(pool.set_pause(addr(9), true), Err(Error::Unauthorized));
}

#[test]
fn test_add_multiple_approved_spenders() {
    let mut pool = setup();
    let admin = addr(1);
    pool.initialize(admin, addr(2)).unwrap();
    pool.add_approved_spender(admin, addr(3)).unwrap();
    pool.add_approved_spender(admin, addr(4)).unwrap();
}

#[test]
fn test_add_same_spender_twice() {
    let mut pool = setup();
    let admin = addr(1);
    pool.initialize(admin, addr(2)).unwrap();
    pool.add_approved_spender(admin, addr(3)).unwrap();
    pool.add_approved_spender(admin, addr(3)).unwrap();
    assert!(pool.is_approved_spender(addr(3)));
}

#[test]
fn test_distribute_reward_success() {
    let (mut pool, admin, mut token) = setup_funded(1000);
    let spender = addr(3);
    let learner = addr(4);
    pool.add_approved_spender(admin, spender).unwrap();
    distribute(&mut pool, &mut token, spender, learner, 100);
    assert_eq!(
        *pool.events().last().unwrap(),
        RewardPoolEvent::RewardDistributed(RewardDistributed { caller: spender, learner, amount: 100 })
    );
    assert_eq!(token.balance(learner), 100);
}

#[test]
fn pool_distribute_reward_errors() {
    let mut pool = setup();
    let admin = addr(1);
    let spender = addr(3);
    let learner = addr(4);
    assert_eq!(pool.distribute_reward(spender, learner, 100), Err(Error::NotInitialized));
    pool.initialize(admin, addr(7000)).unwrap();
    assert_eq!(pool.distribute_reward(spender, learner, 100), Err(Error::NotAuthorizedSpender));
    pool.add_approved_spender(admin, spender).unwrap();
    assert_eq!(pool.distribute_reward(spender, learner, 0), Err(Error::AmountNotPositive));
    assert_eq!(pool.distribute_reward(spender, learner, -100), Err(Error::AmountNotPositive));
    assert_eq!(Error::AmountNotPositive.message(), "Amount must be positive");
    pool.set_pause(admin, true).unwrap();
    assert_eq!(pool.distribute_reward(spender, learner, 100), Err(Error::ContractPaused));
    pool.set_pause(admin, false).unwrap();
    assert!(pool.distribute_reward(spender, learner, 100).is_ok());
}

#[test]
fn test_distribute_reward_multiple_times() {
    let (mut pool, admin, mut token) = setup_funded(1000);
    let spender = addr(3);
    pool.add_approved_spender(admin, spender).unwrap();
    distribute(&mut pool, &mut token, spender, addr(4), 100);
    distribute(&mut pool, &mut token, spender, addr(5), 200);
    assert_eq!(token.balance(addr(4)), 100);
    assert_eq!(token.balance(addr(5)), 200);
}

#[test]
fn test_distribute_reward_multiple_spenders() {
    let (mut pool, admin, mut token) = setup_funded(1000);
    let learner = addr(4);
    pool.add_approved_spender(admin, addr(3)).unwrap();
    pool.add_approved_spender(admin, addr(6)).unwrap();
    distribute(&mut pool, &mut token, addr(3), learner, 100);
    distribute(&mut pool, &mut token, addr(6), learner, 50);
    assert_eq!(token.balance(learner), 150);
}

#[test]
fn test_fund_pool_success() {
    let (mut pool, _admin, mut token) = setup_funded(0);
    let donor = addr(6);
    token.mint(donor, 1000);
    let call = pool.fund_pool(donor, 500).unwrap();
    token.apply(call);
    assert_eq!(token.balance(donor), 500);
    assert_eq!(token.balance(pool.address()), 500);
}

#[test]
fn test_fund_pool_emits_event() {
    let (mut pool, _admin, mut token) = setup_funded(0);
    let donor = addr(6);
    token.mint(donor, 1000);
    let call = pool.fund_pool(donor, 300).unwrap();
    token.apply(call);
    assert_eq!(*pool.events().last().unwrap(), RewardPoolEvent::PoolFunded(PoolFunded { donor, amount: 300 }));
}

#[test]
fn pool_fund_pool_not_initialized() {
    let mut pool = setup();
    assert_eq!(pool.fund_pool(addr(6), 100), Err(Error::NotInitialized));
    assert_eq!(pool.events().len(), 0);
}

#[test]
fn test_fund_pool_multiple_donors() {
    let (mut pool, _admin, mut token) = setup_funded(0);
    let d1 = addr(6);
    let d2 = addr(7);
    token.mint(d1, 1000);
    token.mint(d2, 1000);
    let c = pool.fund_pool(d1, 500).unwrap();
    token.apply(c);
    let c = pool.fund_pool(d2, 300).unwrap();
    token.apply(c);
    assert_eq!(token.balance(d1), 500);
    assert_eq!(token.balance(d2), 700);
    assert_eq!(token.balance(pool.address()), 800);
}

#[test]
fn test_fund_pool_multiple_times() {
    let (mut pool, _admin, mut token) = setup_funded(0);
    let donor = addr(6);
    token.mint(donor, 2000);
    for amount in [500i128, 300, 200] {
        let c = pool.fund_pool(donor, amount).unwrap();
        token.apply(c);
    }
    assert_eq!(token.balance(donor), 1000);
    assert_eq!(token.balance(pool.address()), 1000);
}

#[test]
fn test_fund_pool_zero_amount() {
    let (mut pool, _admin, mut token) = setup_funded(0);
    let donor = addr(6);
    token.mint(donor, 1000);
    let c = pool.fund_pool(donor, 0).unwrap();
    token.apply(c);
    assert_eq!(token.balance(donor), 1000);
    assert_eq!(token.balance(pool.address()), 0);
}

#[test]
fn test_emergency_sweep_success() {
    let (mut pool, admin, mut token) = setup_funded(1000);
    let recovery = addr(8);
    assert_eq!(token.balance(pool.address()), 1000);
    assert_eq!(token.balance(recovery), 0);
    sweep(&mut pool, &mut token, admin, recovery);
    assert_eq!(token.balance(pool.address()), 0);
    assert_eq!(token.balance(recovery), 1000);
    assert_eq!(
        *pool.events().last().unwrap(),
        RewardPoolEvent::EmergencySweep(EmergencySweep { admin, recovery_wallet: recovery, amount: 1000 })
    );
}

#[test]
fn pool_emergency_sweep_errors() {
    let mut pool = setup();
    assert_eq!(pool.emergency_sweep(addr(1), addr(8), 10), Err(Error::NotInitialized));
    pool.initialize(addr(1), addr(7000)).unwrap();
    assert_eq!(pool.emergency_sweep(addr(9), addr(8), 10), Err(Error::Unauthorized));
    assert_eq!(pool.events().len(), 1);
}

#[test]
fn test_emergency_sweep_zero_balance() {
    let (mut pool, admin, mut token) = setup_funded(0);
    let recovery = addr(8);
    assert_eq!(token.balance(pool.address()), 0);
    sweep(&mut pool, &mut token, admin, recovery);
    assert_eq!(token.balance(pool.address()), 0);
    assert_eq!(token.balance(recovery), 0);
}

#[test]
fn test_emergency_sweep_large_balance() {
    let (mut pool, admin, mut token) = setup_funded(1_000_000);
    let recovery = addr(8);
    sweep(&mut pool, &mut token, admin, recovery);
    assert_eq!(token.balance(pool.address()), 0);
    assert_eq!(token.balance(recovery), 1_000_000);
}

#[test]
fn pool_upgrade_contract() {
    let mut pool = setup();
    let hash = [9u8; 32];
    assert_eq!(pool.upgrade_contract(addr(1), hash), Err(Error::NotInitialized));
    pool.initialize(addr(1), addr(2)).unwrap();
    assert_eq!(pool.upgrade_contract(addr(9), hash), Err(Error::Unauthorized));
    assert_eq!(pool.upgrade_contract(addr(1), hash), Ok(Call::UpdateWasm { new_wasm_hash: hash }));
}

// ── two-step admin transfer ──────────────────────────────────────────────────

#[test]
fn test_propose_new_admin_success_emits_event() {
    let mut pool = setup();
    let admin = addr(1);
    let proposed = addr(10);
    pool.initialize(admin, addr(2)).unwrap();
    pool.propose_new_admin(admin, proposed, 0).unwrap();
    assert_eq!(pool.events().len(), 2, "init event + propose event");
    assert_eq!(
        *pool.events().last().unwrap(),
        RewardPoolEvent::TransferProposed(TransferProposed { current: admin, proposed, proposed_at: 0 })
    );
}

#[test]
fn pool_propose_new_admin_unauthorized() {
    let mut pool = setup();
    pool.initialize(addr(1), addr(2)).unwrap();
    assert_eq!(pool.propose_new_admin(addr(11), addr(10), 0), Err(Error::NotAdmin));
}

#[test]
fn test_accept_admin_ownership_happy_path() {
    let mut pool = setup();
    let admin = addr(1);
    let new_admin = addr(10);
    pool.initialize(admin, addr(2)).unwrap();
    pool.propose_new_admin(admin, new_admin, 0).unwrap();
    let events_before = pool.events().len();
    pool.accept_admin_ownership(new_admin).unwrap();
    pool.add_approved_spender(new_admin, addr(3)).unwrap();
    assert_eq!(pool.events().len(), events_before + 2, "accept + spender");
}

#[test]
fn pool_accept_admin_ownership_errors() {
    let mut pool = setup();
    let admin = addr(1);
    pool.initialize(admin, addr(2)).unwrap();
    assert_eq!(pool.accept_admin_ownership(addr(10)), Err(Error::NoPendingAdminTransfer));
    pool.propose_new_admin(admin, addr(10), 0).unwrap();
    assert_eq!(pool.accept_admin_ownership(addr(11)), Err(Error::NotProposedAdmin));
}

#[test]
fn test_cancel_admin_transfer_by_proposer_recovers_from_typo() {
    let mut pool = setup();
    let admin = addr(1);
    let typo = addr(12);
    pool.initialize(admin, addr(2)).unwrap();
    pool.propose_new_admin(admin, typo, 0).unwrap();
    pool.cancel_admin_transfer(admin).unwrap();
    pool.add_approved_spender(admin, addr(3)).unwrap();
    assert_eq!(pool.admin(), Some(admin));
}

#[test]
fn test_cancel_admin_transfer_by_typo_address_recovers() {
    let mut pool = setup();
    let admin = addr(1);
    let typo = addr(12);
    pool.initialize(admin, addr(2)).unwrap();
    pool.propose_new_admin(admin, typo, 0).unwrap();
    pool.cancel_admin_transfer(typo).unwrap();
    pool.add_approved_spender(admin, addr(3)).unwrap();
}

#[test]
fn pool_cancel_admin_transfer_errors() {
    let mut pool = setup();
    let admin = addr(1);
    pool.initialize(admin, addr(2)).unwrap();
    assert_eq!(pool.cancel_admin_transfer(admin), Err(Error::NoPendingAdminTransfer));
    pool.propose_new_admin(admin, addr(10), 0).unwrap();
    assert_eq!(pool.cancel_admin_transfer(addr(13)), Err(Error::CancelNotAllowed));
    assert_eq!(
        Error::CancelNotAllowed.message(),
        "Unauthorized: only proposer or current admin can cancel"
    );
}

#[test]
fn test_propose_after_accept_replaces_pending_typo() {
    let mut pool = setup();
    let admin = addr(1);
    let typo = addr(12);
    let correct = addr(14);
    pool.initialize(admin, addr(2)).unwrap();
    pool.propose_new_admin(admin, typo, 0).unwrap();
    pool.propose_new_admin(admin, correct, 0).unwrap();
    assert_eq!(pool.accept_admin_ownership(typo), Err(Error::NotProposedAdmin));
    pool.accept_admin_ownership(correct).unwrap();
    pool.add_approved_spender(correct, addr(3)).unwrap();
}

#[test]
fn test_double_accept_panics_after_first_accept_clears_pending() {
    let mut pool = setup();
    let admin = addr(1);
    let new_admin = addr(10);
    pool.initialize(admin, addr(2)).unwrap();
    pool.propose_new_admin(admin, new_admin, 0).unwrap();
    pool.accept_admin_ownership(new_admin).unwrap();
    // The pending record was cleared by the first accept.
    assert_eq!(pool.accept_admin_ownership(new_admin), Err(Error::NoPendingAdminTransfer));
}
