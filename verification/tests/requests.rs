use escrow_contract::contract::EscrowContract;
use escrow_contract::errors::EscrowError;
use escrow_contract::events::Effect;
use escrow_contract::host::{Ids, Weights};
use escrow_contract::ledger::Ledger;
use escrow_contract::types::{
    Address, EscrowStatus, Hash32, MetaTransaction, MultisigConfig, Signature64, Text,
};

const CONTRACT: Address = Address { id: 1000 };
const ADMIN: Address = Address { id: 1 };
const CLIENT: Address = Address { id: 2 };
const FREELANCER: Address = Address { id: 3 };
const TOKEN: Address = Address { id: 4 };
const OTHER: Address = Address { id: 7 };

fn setup() -> Ledger {
    Ledger::new(soroban_sdk::Env::default(), CONTRACT)
}

fn initialized() -> Ledger {
    let mut env = setup();
    EscrowContract::initialize(&mut env, ADMIN).unwrap();
    env
}

fn no_multisig(env: &Ledger) -> MultisigConfig {
    MultisigConfig {
        approvers: Ids::new(&env.host),
        weights: Weights::new(&env.host),
        threshold: 0,
    }
}

fn hash(byte: u8) -> Hash32 {
    let half = u128::from_be_bytes([byte; 16]);
    Hash32 { hi: half, lo: half }
}

fn text(s: &str) -> Text {
    Text { bytes: s.as_bytes().to_vec() }
}

/// What the transfers so far have added to an account.
fn net(env: &Ledger, who: Address) -> i128 {
    let mut sum: i128 = 0;
    for e in env.log.iter() {
        if let Effect::Transfer { from, to, amount, .. } = e {
            if *from == who {
                sum -= amount;
            }
            if *to == who {
                sum += amount;
            }
        }
    }
    sum
}

fn create_with(env: &mut Ledger, amount: i128, brief: u8) -> Result<u64, EscrowError> {
    let policy = no_multisig(env);
    EscrowContract::create_escrow(
        env,
        CLIENT,
        FREELANCER,
        TOKEN,
        amount,
        hash(brief),
        None,
        None,
        None,
        None,
        policy,
        None,
    )
}

fn create(env: &mut Ledger, amount: i128, brief: u8) -> u64 {
    create_with(env, amount, brief).unwrap()
}

fn add(env: &mut Ledger, id: u64, title: &str, brief: u8, amount: i128) -> u32 {
    EscrowContract::add_milestone(env, CLIENT, id, text(title), hash(brief), amount).unwrap()
}

fn with_milestone() -> (Ledger, u64, u32) {
    let mut env = initialized();
    let id = create(&mut env, 500, 9);
    let mid = add(&mut env, id, "Original Title", 0, 100);
    (env, id, mid)
}

fn meta_tx(nonce: u64, deadline: u64) -> MetaTransaction {
    MetaTransaction {
        signer: OTHER,
        nonce,
        deadline,
        function_name: text("get_admin"),
        function_args: text("{}"),
        signature: Signature64 { first: hash(0), second: hash(0) },
    }
}

#[test]
fn test_update_milestone_title_pending_succeeds() {
    let (mut env, id, mid) = with_milestone();
    EscrowContract::update_milestone_title(&mut env, CLIENT, id, mid, text("Corrected Title"))
        .unwrap();
    let milestone = EscrowContract::get_milestone(&mut env, id, mid).unwrap();
    assert_eq!(milestone.title.bytes, "Corrected Title".as_bytes());
}

#[test]
fn test_update_milestone_title_non_pending_rejected() {
    let (mut env, id, mid) = with_milestone();
    EscrowContract::submit_milestone(&mut env, FREELANCER, id, mid).unwrap();
    let result =
        EscrowContract::update_milestone_title(&mut env, CLIENT, id, mid, text("New Title"));
    assert_eq!(result, Err(EscrowError::E14));
}

#[test]
fn test_update_milestone_title_too_long_rejected() {
    let (mut env, id, mid) = with_milestone();
    let long = text(&"a".repeat(257));
    let result = EscrowContract::update_milestone_title(&mut env, CLIENT, id, mid, long);
    assert_eq!(result, Err(EscrowError::E55));
}

#[test]
fn test_multisig_approval_reaching_threshold() {
    let mut env = initialized();
    let signer_b = Address { id: 21 };
    let signer_c = Address { id: 22 };
    let amount = 300_i128;
    let mut signers = Ids::new(&env.host);
    signers.push_back(signer_b.id);
    signers.push_back(signer_c.id);
    let id = EscrowContract::create_escrow_with_buyer_signers(
        &mut env, CLIENT, FREELANCER, TOKEN, amount, hash(20), None, None, None, signers,
    )
    .unwrap();

    let state = EscrowContract::get_escrow(&mut env, id).unwrap();
    assert!(state.buyer_signers.contains(CLIENT.id));
    assert!(state.buyer_signers.contains(signer_b.id));
    assert!(state.buyer_signers.contains(signer_c.id));

    let mid = add(&mut env, id, "Deliverable", 21, amount);
    EscrowContract::submit_milestone(&mut env, FREELANCER, id, mid).unwrap();
    EscrowContract::approve_milestone(&mut env, signer_b, id, mid).unwrap();
    assert!(EscrowContract::get_milestone_approvals(&mut env, id, mid).is_ok());

    let state = EscrowContract::get_escrow(&mut env, id).unwrap();
    assert_eq!(state.status, EscrowStatus::Completed);
    assert_eq!(net(&env, FREELANCER), amount);
}

#[test]
fn test_reputation_created_on_first_completion() {
    let mut env = initialized();
    let amount = 500_i128;
    let id = create(&mut env, amount, 30);
    let mid = add(&mut env, id, "Work", 31, amount);
    EscrowContract::submit_milestone(&mut env, FREELANCER, id, mid).unwrap();
    EscrowContract::approve_milestone(&mut env, CLIENT, id, mid).unwrap();
    let state = EscrowContract::get_escrow(&mut env, id).unwrap();
    assert_eq!(state.status, EscrowStatus::Completed);

    EscrowContract::update_reputation(&mut env, FREELANCER, true, false, amount).unwrap();
    EscrowContract::update_reputation(&mut env, CLIENT, true, false, amount).unwrap();

    let freelancer_rep = EscrowContract::get_reputation(&env, FREELANCER).unwrap();
    assert_eq!(freelancer_rep.completed_escrows, 1);
    assert_eq!(freelancer_rep.total_volume, amount);
    let client_rep = EscrowContract::get_reputation(&env, CLIENT).unwrap();
    assert_eq!(client_rep.completed_escrows, 1);
    assert_eq!(client_rep.total_volume, amount);
}

#[test]
fn test_meta_transaction_expired_deadline_rejected() {
    let mut env = setup();
    let now = 1_000_000u64;
    env.timestamp = now;
    let result = EscrowContract::execute_meta_transaction(&env, &meta_tx(1, now - 1));
    assert!(matches!(result, Err(EscrowError::E26)));
}

#[test]
fn test_meta_transaction_valid_deadline_accepted() {
    let mut env = setup();
    let now = 1_000_000u64;
    env.timestamp = now;
    let result = EscrowContract::execute_meta_transaction(&env, &meta_tx(1, now + 60));
    assert!(!matches!(result, Err(EscrowError::E26)));
}

#[test]
fn test_meta_transaction_becomes_expired_after_time_passes() {
    let mut env = setup();
    let now = 1_000_000u64;
    env.timestamp = now;
    let tx = meta_tx(1, now + 60);
    let before = EscrowContract::execute_meta_transaction(&env, &tx);
    assert!(!matches!(before, Err(EscrowError::E26)));
    env.timestamp = now + 61;
    let after = EscrowContract::execute_meta_transaction(&env, &tx);
    assert!(matches!(after, Err(EscrowError::E26)));
}

#[test]
fn test_meta_transaction_valid_nonce_and_replay_rejected() {
    let mut env = setup();
    let now = 2_000_000u64;
    env.timestamp = now;
    let result = EscrowContract::execute_meta_transaction(&env, &meta_tx(1, now + 3600));
    assert!(!matches!(result, Err(EscrowError::E26)));
}

#[test]
fn test_meta_transaction_nonce_replay_rejected() {
    let mut env = setup();
    let now = 3_000_000u64;
    env.timestamp = now;
    let result = EscrowContract::execute_meta_transaction(&env, &meta_tx(1, now - 1));
    assert!(matches!(result, Err(EscrowError::E26)));
    let result2 = EscrowContract::execute_meta_transaction(&env, &meta_tx(0, now + 3600));
    assert!(!matches!(result2, Err(EscrowError::E26)));
}
