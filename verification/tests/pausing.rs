use escrow_contract::contract::EscrowContract;
use escrow_contract::errors::EscrowError;
use escrow_contract::events::{Effect, Event};
use escrow_contract::host::{Ids, Weights};
use escrow_contract::ledger::Ledger;
use escrow_contract::types::{Address, Hash32, MultisigConfig, Text};

const CONTRACT: Address = Address { id: 1000 };
const ADMIN: Address = Address { id: 1 };
const CLIENT: Address = Address { id: 2 };
const FREELANCER: Address = Address { id: 3 };
const TOKEN: Address = Address { id: 4 };

fn setup() -> Ledger {
    Ledger::new(soroban_sdk::Env::default(), CONTRACT)
}

fn initialized() -> Ledger {
    let mut env = setup();
    EscrowContract::initialize(&mut env, ADMIN).unwrap();
    env
}

fn no_multisig(env: &Ledger) -> MultisigConfig {
    MultisigConfig {
        approvers: Ids::new(&env.host),
        weights: Weights::new(&env.host),
        threshold: 0,
    }
}

fn hash(byte: u8) -> Hash32 {
    let half = u128::from_be_bytes([byte; 16]);
    Hash32 { hi: half, lo: half }
}

fn text(s: &str) -> Text {
    Text { bytes: s.as_bytes().to_vec() }
}

fn create_with(env: &mut Ledger, amount: i128, brief: u8) -> Result<u64, EscrowError> {
    let policy = no_multisig(env);
    EscrowContract::create_escrow(
        env,
        CLIENT,
        FREELANCER,
        TOKEN,
        amount,
        hash(brief),
        None,
        None,
        None,
        None,
        policy,
        None,
    )
}

fn create(env: &mut Ledger, amount: i128, brief: u8) -> u64 {
    create_with(env, amount, brief).unwrap()
}

fn funded(amount: i128) -> (Ledger, u64) {
    let mut env = initialized();
    let id = create(&mut env, amount, 1);
    (env, id)
}

fn try_add(env: &mut Ledger, id: u64) -> Result<u32, EscrowError> {
    EscrowContract::add_milestone(env, CLIENT, id, text("M1"), hash(0), 50)
}

#[test]
fn test_pause_sets_state_and_emits_event() {
    let (mut env, _) = funded(100);
    assert!(!EscrowContract::is_paused(&env));
    EscrowContract::pause(&mut env, ADMIN).unwrap();
    assert!(EscrowContract::is_paused(&env));
    assert_eq!(env.log.last(), Some(&Effect::Publish(Event::ContractPaused { by: ADMIN })));
}

#[test]
fn test_unpause_clears_state_and_emits_event() {
    let (mut env, _) = funded(100);
    EscrowContract::pause(&mut env, ADMIN).unwrap();
    assert!(EscrowContract::is_paused(&env));
    EscrowContract::unpause(&mut env, ADMIN).unwrap();
    assert!(!EscrowContract::is_paused(&env));
    assert_eq!(env.log.last(), Some(&Effect::Publish(Event::ContractUnpaused { by: ADMIN })));
}

#[test]
fn test_pause_is_idempotent() {
    let (mut env, _) = funded(100);
    EscrowContract::pause(&mut env, ADMIN).unwrap();
    EscrowContract::pause(&mut env, ADMIN).unwrap();
    assert!(EscrowContract::is_paused(&env));
}

#[test]
fn test_unpause_is_idempotent() {
    let (mut env, _) = funded(100);
    EscrowContract::unpause(&mut env, ADMIN).unwrap();
    assert!(!EscrowContract::is_paused(&env));
}

#[test]
#[should_panic]
fn test_pause_non_admin_rejected() {
    let (mut env, _) = funded(100);
    EscrowContract::pause(&mut env, CLIENT).unwrap();
}

#[test]
#[should_panic]
fn test_unpause_non_admin_rejected() {
    let (mut env, _) = funded(100);
    EscrowContract::pause(&mut env, ADMIN).unwrap();
    EscrowContract::unpause(&mut env, CLIENT).unwrap();
}

#[test]
#[should_panic]
fn test_create_escrow_blocked_when_paused() {
    let (mut env, _) = funded(100);
    EscrowContract::pause(&mut env, ADMIN).unwrap();
    create(&mut env, 100, 1);
}

#[test]
#[should_panic]
fn test_add_milestone_blocked_when_paused() {
    let (mut env, id) = funded(100);
    EscrowContract::pause(&mut env, ADMIN).unwrap();
    try_add(&mut env, id).unwrap();
}

#[test]
#[should_panic]
fn test_submit_milestone_blocked_when_paused() {
    let (mut env, id) = funded(100);
    assert_eq!(try_add(&mut env, id), Ok(0));
    EscrowContract::pause(&mut env, ADMIN).unwrap();
    EscrowContract::submit_milestone(&mut env, FREELANCER, id, 0).unwrap();
}

#[test]
#[should_panic]
fn test_approve_milestone_blocked_when_paused() {
    let (mut env, id) = funded(100);
    assert_eq!(try_add(&mut env, id), Ok(0));
    EscrowContract::submit_milestone(&mut env, FREELANCER, id, 0).unwrap();
    EscrowContract::pause(&mut env, ADMIN).unwrap();
    EscrowContract::approve_milestone(&mut env, CLIENT, id, 0).unwrap();
}

#[test]
#[should_panic]
fn test_cancel_escrow_blocked_when_paused() {
    let (mut env, id) = funded(100);
    EscrowContract::pause(&mut env, ADMIN).unwrap();
    EscrowContract::cancel_escrow(&mut env, CLIENT, id).unwrap();
}

#[test]
#[should_panic]
fn test_raise_dispute_blocked_when_paused() {
    let (mut env, id) = funded(100);
    EscrowContract::pause(&mut env, ADMIN).unwrap();
    EscrowContract::raise_dispute(&mut env, CLIENT, id, None).unwrap();
}

#[test]
#[should_panic]
fn test_request_cancellation_blocked_when_paused() {
    let (mut env, id) = funded(100);
    EscrowContract::pause(&mut env, ADMIN).unwrap();
    EscrowContract::request_cancellation(&mut env, CLIENT, id, text("reason")).unwrap();
}

#[test]
fn paused_requests_name_the_pause() {
    let (mut env, id) = funded(100);
    EscrowContract::pause(&mut env, ADMIN).unwrap();
    let before = env.log.len();
    assert_eq!(create_with(&mut env, 100, 1), Err(EscrowError::E31));
    assert_eq!(try_add(&mut env, id), Err(EscrowError::E31));
    assert_eq!(
        EscrowContract::submit_milestone(&mut env, FREELANCER, id, 0),
        Err(EscrowError::E31)
    );
    assert_eq!(EscrowContract::cancel_escrow(&mut env, CLIENT, id), Err(EscrowError::E31));
    assert_eq!(EscrowContract::raise_dispute(&mut env, CLIENT, id, None), Err(EscrowError::E31));
    assert_eq!(EscrowContract::unpause(&mut env, CLIENT), Err(EscrowError::E4));
    assert_eq!(env.log.len(), before);
}

#[test]
fn test_view_functions_work_when_paused() {
    let (mut env, id) = funded(100);
    EscrowContract::pause(&mut env, ADMIN).unwrap();
    assert!(EscrowContract::get_escrow(&mut env, id).is_ok());
    assert_eq!(EscrowContract::escrow_count(&env), 1);
    assert!(EscrowContract::is_paused(&env));
}

#[test]
fn test_pause_unpause_cycle_restores_mutations() {
    let (mut env, id) = funded(100);
    EscrowContract::pause(&mut env, ADMIN).unwrap();
    assert!(EscrowContract::is_paused(&env));
    assert!(try_add(&mut env, id).is_err(), "add_milestone should fail while paused");

    EscrowContract::unpause(&mut env, ADMIN).unwrap();
    assert!(!EscrowContract::is_paused(&env));
    assert_eq!(try_add(&mut env, id), Ok(0));
}
