use escrow_contract::constants::{
    CANCELLATION_DISPUTE_PERIOD, DISPUTE_COOLDOWN_LEDGERS, SLASH_DISPUTE_PERIOD,
};
use escrow_contract::contract::EscrowContract;
use escrow_contract::errors::EscrowError;
use escrow_contract::events::{Effect, Event};
use escrow_contract::host::{Ids, Weights};
use escrow_contract::ledger::Ledger;
use escrow_contract::storage::ContractStorage;
use escrow_contract::types::{
    Address, EscrowStatus, Hash32, MultisigConfig, OracleResolutionPayload, Signature64, Text,
};

const CONTRACT: Address = Address { id: 1000 };
const ADMIN: Address = Address { id: 1 };
const CLIENT: Address = Address { id: 2 };
const FREELANCER: Address = Address { id: 3 };
const TOKEN: Address = Address { id: 4 };
const ARBITER: Address = Address { id: 6 };

fn setup() -> Ledger {
    Ledger::new(soroban_sdk::Env::default(), CONTRACT)
}

fn initialized() -> Ledger {
    let mut env = setup();
    EscrowContract::initialize(&mut env, ADMIN).unwrap();
    env
}

fn no_multisig(env: &Ledger) -> MultisigConfig {
    MultisigConfig {
        approvers: Ids::new(&env.host),
        weights: Weights::new(&env.host),
        threshold: 0,
    }
}

fn hash(byte: u8) -> Hash32 {
    let half = u128::from_be_bytes([byte; 16]);
    Hash32 { hi: half, lo: half }
}

fn text(s: &str) -> Text {
    Text { bytes: s.as_bytes().to_vec() }
}

fn advance(env: &mut Ledger, seconds: u64) {
    env.timestamp += seconds;
}

/// What the transfers so far have added to an account.
fn net(env: &Ledger, who: Address) -> i128 {
    let mut sum: i128 = 0;
    for e in env.log.iter() {
        if let Effect::Transfer { from, to, amount, .. } = e {
            if *from == who {
                sum -= amount;
            }
            if *to == who {
                sum += amount;
            }
        }
    }
    sum
}

fn create_with(env: &mut Ledger, amount: i128, brief: u8) -> Result<u64, EscrowError> {
    let policy = no_multisig(env);
    EscrowContract::create_escrow(
        env,
        CLIENT,
        FREELANCER,
        TOKEN,
        amount,
        hash(brief),
        None,
        None,
        None,
        None,
        policy,
        None,
    )
}

fn create(env: &mut Ledger, amount: i128, brief: u8) -> u64 {
    create_with(env, amount, brief).unwrap()
}

fn add(env: &mut Ledger, id: u64, title: &str, brief: u8, amount: i128) -> u32 {
    EscrowContract::add_milestone(env, CLIENT, id, text(title), hash(brief), amount).unwrap()
}

fn funded(env: &mut Ledger, amount: i128) -> u64 {
    create(env, amount, 99)
}

/// What the client had at first in `funded`, with room for one entry more.
fn minted(amount: i128) -> i128 {
    amount + 2 * ContractStorage::reserve_for_entries(1)
}

fn ask(env: &mut Ledger, who: Address, id: u64, reason: &str) {
    EscrowContract::request_cancellation(env, who, id, text(reason)).unwrap();
}

fn pubkey(secret: u8) -> Hash32 {
    hash(secret)
}

fn payload(
    id: u64,
    client_bps: u32,
    freelancer_bps: u32,
    expires_at: u64,
    secret: u8,
) -> OracleResolutionPayload {
    OracleResolutionPayload {
        escrow_id: id,
        client_bps,
        freelancer_bps,
        expires_at,
        oracle_pubkey: pubkey(secret),
        signature: Signature64 { first: hash(0), second: hash(0) },
    }
}

const GRACE: u64 = 7 * 24 * 60 * 60;

#[test]
fn test_dispute_resolution() {
    let mut env = initialized();
    EscrowContract::add_to_arbiter_allowlist(&mut env, ADMIN, ARBITER).unwrap();
    let total: i128 = 1_000;
    let policy = no_multisig(&env);
    let id = EscrowContract::create_escrow(
        &mut env,
        CLIENT,
        FREELANCER,
        TOKEN,
        total,
        hash(1),
        Some(ARBITER),
        None,
        None,
        None,
        policy,
        None,
    )
    .unwrap();
    let mid = add(&mut env, id, "Deliver feature", 2, total);
    EscrowContract::submit_milestone(&mut env, FREELANCER, id, mid).unwrap();
    EscrowContract::raise_dispute(&mut env, CLIENT, id, Some(mid)).unwrap();

    let disputed = EscrowContract::get_escrow(&mut env, id).unwrap();
    assert_eq!(disputed.status, EscrowStatus::Disputed);
    let client_before = net(&env, CLIENT);
    let freelancer_before = net(&env, FREELANCER);
    let remaining = disputed.remaining_balance;
    assert_eq!(remaining, total);

    env.sequence += DISPUTE_COOLDOWN_LEDGERS;
    let client_share = remaining * 60 / 100;
    let freelancer_share = remaining - client_share;
    EscrowContract::resolve_dispute(&mut env, ARBITER, id, client_share, freelancer_share)
        .unwrap();

    let settled = EscrowContract::get_escrow(&mut env, id).unwrap();
    assert_eq!(settled.status, EscrowStatus::Completed);
    assert_eq!(settled.remaining_balance, 0);
    assert_eq!(net(&env, CLIENT) - client_before, client_share);
    assert_eq!(net(&env, FREELANCER) - freelancer_before, freelancer_share);

    assert!(env.log.contains(&Effect::Publish(Event::DisputeRaised {
        escrow_id: id,
        by: CLIENT,
    })));
    assert!(env.log.contains(&Effect::Publish(Event::DisputeResolved {
        escrow_id: id,
        client_amount: client_share,
        freelancer_amount: freelancer_share,
    })));
}

#[test]
fn test_execute_cancellation_slashes_requester_and_distributes() {
    let mut env = initialized();
    let id = funded(&mut env, 100);
    ask(&mut env, CLIENT, id, "Changed my mind");

    advance(&mut env, CANCELLATION_DISPUTE_PERIOD + 1);
    EscrowContract::execute_cancellation(&mut env, id).unwrap();
    assert_eq!(minted(100) + net(&env, CLIENT), 90_i128);
    assert_eq!(net(&env, FREELANCER), 0_i128);

    advance(&mut env, SLASH_DISPUTE_PERIOD + 1);
    EscrowContract::finalize_slash(&mut env, id).unwrap();
    assert_eq!(net(&env, FREELANCER), 10_i128);

    let state = EscrowContract::get_escrow(&mut env, id).unwrap();
    assert_eq!(state.status, EscrowStatus::Cancelled);
    assert_eq!(state.remaining_balance, 0);
}

#[test]
fn test_execute_cancellation_freelancer_requester_slashes_to_client() {
    let mut env = initialized();
    let id = funded(&mut env, 200);
    let freelancer_minted = ContractStorage::reserve_for_entries(1);
    ask(&mut env, FREELANCER, id, "Cannot deliver");

    advance(&mut env, CANCELLATION_DISPUTE_PERIOD + 1);
    EscrowContract::execute_cancellation(&mut env, id).unwrap();
    assert_eq!(freelancer_minted + net(&env, FREELANCER), 180_i128);
    assert_eq!(minted(200) + net(&env, CLIENT), 30_i128);

    advance(&mut env, SLASH_DISPUTE_PERIOD + 1);
    EscrowContract::finalize_slash(&mut env, id).unwrap();
    assert_eq!(minted(200) + net(&env, CLIENT), 50_i128);
}

#[test]
fn test_execute_cancellation_fails_during_dispute_period() {
    let mut env = initialized();
    let id = funded(&mut env, 100);
    ask(&mut env, CLIENT, id, "reason");
    let result = EscrowContract::execute_cancellation(&mut env, id);
    assert!(matches!(result, Err(EscrowError::E35)));
}

#[test]
fn test_dispute_cancellation_blocks_execution() {
    let mut env = initialized();
    let id = funded(&mut env, 100);
    ask(&mut env, CLIENT, id, "reason");
    EscrowContract::dispute_cancellation(&mut env, FREELANCER, id).unwrap();

    advance(&mut env, CANCELLATION_DISPUTE_PERIOD + 1);
    let result = EscrowContract::execute_cancellation(&mut env, id);
    assert!(matches!(result, Err(EscrowError::E37)));
    let state = EscrowContract::get_escrow(&mut env, id).unwrap();
    assert_eq!(state.status, EscrowStatus::Disputed);
}

#[test]
fn test_slash_reputation_updated_on_cancellation() {
    let mut env = initialized();
    let id = funded(&mut env, 100);
    ask(&mut env, CLIENT, id, "reason");
    advance(&mut env, CANCELLATION_DISPUTE_PERIOD + 1);
    EscrowContract::execute_cancellation(&mut env, id).unwrap();

    let rep = EscrowContract::get_reputation(&env, CLIENT).unwrap();
    assert_eq!(rep.slash_count, 1);
    assert_eq!(rep.total_slashed, 10_i128);
}

#[test]
fn test_dispute_slash_reversal_restores_funds_and_reputation() {
    let mut env = initialized();
    let id = funded(&mut env, 100);
    ask(&mut env, CLIENT, id, "reason");
    advance(&mut env, CANCELLATION_DISPUTE_PERIOD + 1);
    EscrowContract::execute_cancellation(&mut env, id).unwrap();
    assert_eq!(net(&env, FREELANCER), 0_i128);

    EscrowContract::dispute_slash(&mut env, CLIENT, id).unwrap();
    EscrowContract::resolve_slash_dispute(&mut env, ADMIN, id, false).unwrap();
    assert_eq!(minted(100) + net(&env, CLIENT), 100_i128);

    let rep = EscrowContract::get_reputation(&env, CLIENT).unwrap();
    assert_eq!(rep.slash_count, 0);
    assert_eq!(rep.total_slashed, 0_i128);
}

#[test]
fn test_slash_record_created_and_dispute_window_enforced() {
    let mut env = initialized();
    let id = funded(&mut env, 100);
    ask(&mut env, CLIENT, id, "Changed mind");
    advance(&mut env, CANCELLATION_DISPUTE_PERIOD + 1);
    EscrowContract::execute_cancellation(&mut env, id).unwrap();

    let slash = EscrowContract::get_slash_record(&mut env, id).unwrap();
    assert_eq!(slash.escrow_id, id);
    assert_eq!(slash.slashed_user, CLIENT);
    assert_eq!(slash.recipient, FREELANCER);
    assert_eq!(slash.amount, 10_i128);
    assert!(!slash.disputed);

    let result = EscrowContract::execute_cancellation(&mut env, id);
    assert!(result.is_err());

    let err = EscrowContract::finalize_slash(&mut env, id);
    assert!(matches!(err, Err(EscrowError::E40)));

    advance(&mut env, SLASH_DISPUTE_PERIOD + 1);
    EscrowContract::finalize_slash(&mut env, id).unwrap();
    assert_eq!(net(&env, FREELANCER), 10_i128);
    let err = EscrowContract::get_slash_record(&mut env, id);
    assert!(matches!(err, Err(EscrowError::E38)));
}

#[test]
fn test_cancellation_workflow_end_to_end() {
    let mut env = initialized();
    let id = funded(&mut env, 200);
    ask(&mut env, CLIENT, id, "No longer needed");

    let req = EscrowContract::get_cancellation_request(&mut env, id).unwrap();
    assert_eq!(req.requester, CLIENT);
    assert!(!req.disputed);

    advance(&mut env, CANCELLATION_DISPUTE_PERIOD + 1);
    EscrowContract::execute_cancellation(&mut env, id).unwrap();

    let state = EscrowContract::get_escrow(&mut env, id).unwrap();
    assert_eq!(state.status, EscrowStatus::Cancelled);
    assert_eq!(state.remaining_balance, 0);
    assert_eq!(minted(200) + net(&env, CLIENT), 180_i128);
    assert_eq!(net(&env, FREELANCER), 0_i128);

    let err = EscrowContract::get_cancellation_request(&mut env, id);
    assert!(matches!(err, Err(EscrowError::E32)));

    advance(&mut env, SLASH_DISPUTE_PERIOD + 1);
    EscrowContract::finalize_slash(&mut env, id).unwrap();
    assert_eq!(net(&env, FREELANCER), 20_i128);
}

#[test]
fn test_oracle_resolve_dispute_after_grace_period() {
    let mut env = initialized();
    let minted = 100 + ContractStorage::reserve_for_entries(1);
    let id = create(&mut env, 100, 1);
    EscrowContract::raise_dispute(&mut env, CLIENT, id, None).unwrap();
    EscrowContract::set_trusted_oracle_key(&mut env, ADMIN, pubkey(42)).unwrap();
    advance(&mut env, GRACE + 1);

    let expires_at = env.timestamp + 3600;
    let p = payload(id, 6000, 4000, expires_at, 42);
    EscrowContract::oracle_resolve_dispute(&mut env, id, p, GRACE).unwrap();
    assert!(env.log.contains(&Effect::VerifySignature(p)));

    let state = EscrowContract::get_escrow(&mut env, id).unwrap();
    assert_eq!(state.status, EscrowStatus::Completed);
    assert_eq!(state.remaining_balance, 0);
    assert_eq!(minted + net(&env, CLIENT), 60_i128);
    assert_eq!(net(&env, FREELANCER), 40_i128);
}

#[test]
fn test_oracle_resolve_dispute_rejected_before_grace_period() {
    let mut env = initialized();
    let id = create(&mut env, 100, 2);
    EscrowContract::raise_dispute(&mut env, CLIENT, id, None).unwrap();
    EscrowContract::set_trusted_oracle_key(&mut env, ADMIN, pubkey(43)).unwrap();
    let p = payload(id, 5000, 5000, env.timestamp + 3600, 43);
    let result = EscrowContract::oracle_resolve_dispute(&mut env, id, p, GRACE);
    assert!(matches!(result, Err(EscrowError::E56)));
}

#[test]
fn test_oracle_resolve_dispute_rejected_stale_payload() {
    let mut env = initialized();
    let id = create(&mut env, 100, 3);
    EscrowContract::raise_dispute(&mut env, CLIENT, id, None).unwrap();
    EscrowContract::set_trusted_oracle_key(&mut env, ADMIN, pubkey(44)).unwrap();
    advance(&mut env, GRACE + 1);
    let p = payload(id, 5000, 5000, env.timestamp - 1, 44);
    let result = EscrowContract::oracle_resolve_dispute(&mut env, id, p, GRACE);
    assert!(matches!(result, Err(EscrowError::E58)));
}

#[test]
fn test_oracle_resolve_dispute_rejected_invalid_bps() {
    let mut env = initialized();
    let id = create(&mut env, 100, 4);
    EscrowContract::raise_dispute(&mut env, CLIENT, id, None).unwrap();
    EscrowContract::set_trusted_oracle_key(&mut env, ADMIN, pubkey(45)).unwrap();
    advance(&mut env, GRACE + 1);
    let p = payload(id, 5000, 4999, env.timestamp + 3600, 45);
    let result = EscrowContract::oracle_resolve_dispute(&mut env, id, p, GRACE);
    assert!(matches!(result, Err(EscrowError::E59)));
}

#[test]
fn test_oracle_resolve_dispute_rejected_wrong_key() {
    let mut env = initialized();
    let id = create(&mut env, 100, 5);
    EscrowContract::raise_dispute(&mut env, CLIENT, id, None).unwrap();
    EscrowContract::set_trusted_oracle_key(&mut env, ADMIN, pubkey(46)).unwrap();
    advance(&mut env, GRACE + 1);
    let p = payload(id, 5000, 5000, env.timestamp + 3600, 99);
    let result = EscrowContract::oracle_resolve_dispute(&mut env, id, p, GRACE);
    assert!(matches!(result, Err(EscrowError::E57)));
}

#[test]
fn the_oracle_message_is_little_endian() {
    let p = payload(0x0102, 6000, 4000, 0x0A0B0C, 1);
    assert_eq!(
        EscrowContract::oracle_message_bytes(&p),
        vec![
            2, 1, 0, 0, 0, 0, 0, 0, 0x70, 0x17, 0, 0, 0xA0, 0x0F, 0, 0, 0x0C, 0x0B, 0x0A, 0, 0, 0,
            0, 0,
        ]
    );
}
