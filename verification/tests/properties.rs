use escrow_contract::constants::{
    AUTO_DEADLINE_EXTENSION_SECONDS, DISPUTE_COOLDOWN_LEDGERS, HIGH_VALUE_THRESHOLD,
    INITIAL_CONTRACT_VERSION, MAX_PAGE, RENT_PERIOD_SECONDS, RENT_RESERVE_PERIODS,
};
use escrow_contract::contract::EscrowContract;
use escrow_contract::disputes::ProposalCall;
use escrow_contract::errors::EscrowError;
use escrow_contract::events::Effect;
use escrow_contract::host::{Amounts, Ids, Weights};
use escrow_contract::index::{append_id, list_ids, page_of, remove_id};
use escrow_contract::ledger::Ledger;
use escrow_contract::storage::ContractStorage;
use escrow_contract::store::Store;
use escrow_contract::types::{
    Address, BridgeProtocol, EscrowFeeSnapshot, EscrowMeta, EscrowStatus, FeeTier, FeeTiers,
    Hash32, Hashes, MilestoneTemplate, MilestoneTemplates, MultisigConfig, PackedDataKey,
    PriceCondition, PriceDirection, RecurringInterval, StateHistoryEntry, Text, Texts, Timelock,
    WrappedTokenInfo, MS_DISPUTED, MS_PENDING, MS_REJECTED, MS_RELEASED,
};

const CONTRACT: Address = Address { id: 1000 };
const ADMIN: Address = Address { id: 1 };
const CLIENT: Address = Address { id: 2 };
const FREELANCER: Address = Address { id: 3 };
const TOKEN: Address = Address { id: 4 };
const TREASURY: Address = Address { id: 5 };
const ARBITER: Address = Address { id: 6 };
const OTHER: Address = Address { id: 7 };

fn setup() -> Ledger {
    Ledger::new(soroban_sdk::Env::default(), CONTRACT)
}

fn initialized() -> Ledger {
    let mut env = setup();
    EscrowContract::initialize(&mut env, ADMIN).unwrap();
    env
}

fn no_multisig(env: &Ledger) -> MultisigConfig {
    MultisigConfig {
        approvers: Ids::new(&env.host),
        weights: Weights::new(&env.host),
        threshold: 0,
    }
}

fn hash(byte: u8) -> Hash32 {
    let half = u128::from_be_bytes([byte; 16]);
    Hash32 { hi: half, lo: half }
}

fn text(s: &str) -> Text {
    Text { bytes: s.as_bytes().to_vec() }
}

fn advance(env: &mut Ledger, seconds: u64) {
    env.timestamp += seconds;
}

/// What the transfers so far have added to an account.
fn net(env: &Ledger, who: Address) -> i128 {
    let mut sum: i128 = 0;
    for e in env.log.iter() {
        if let Effect::Transfer { from, to, amount, .. } = e {
            if *from == who {
                sum -= amount;
            }
            if *to == who {
                sum += amount;
            }
        }
    }
    sum
}

fn create_with(env: &mut Ledger, amount: i128, brief: u8) -> Result<u64, EscrowError> {
    let policy = no_multisig(env);
    EscrowContract::create_escrow(
        env,
        CLIENT,
        FREELANCER,
        TOKEN,
        amount,
        hash(brief),
        None,
        None,
        None,
        None,
        policy,
        None,
    )
}

fn create(env: &mut Ledger, amount: i128, brief: u8) -> u64 {
    create_with(env, amount, brief).unwrap()
}

fn add(env: &mut Ledger, id: u64, title: &str, brief: u8, amount: i128) -> u32 {
    EscrowContract::add_milestone(env, CLIENT, id, text(title), hash(brief), amount).unwrap()
}

fn meta(env: &Ledger, id: u64) -> EscrowMeta {
    env.book.metas.get(PackedDataKey::EscrowMeta(id)).unwrap()
}

fn weights_of(env: &Ledger, ids: &[u32]) -> Weights {
    let mut w = Weights::new(&env.host);
    for x in ids.iter() {
        w.push_back(*x);
    }
    w
}

fn listed(ids: &Ids) -> Vec<u64> {
    let mut v = Vec::new();
    for i in 0..ids.len() {
        v.push(ids.get(i).unwrap());
    }
    v
}

fn no_tiers(env: &mut Ledger) {
    let mut tiers = FeeTiers::new();
    tiers.items.push(FeeTier { min_total_amount: 0, fee_bps: 0 });
    EscrowContract::set_platform_fee_tiers(env, ADMIN, tiers).unwrap();
}

/// What the contract holds for an escrow: its balance and its prepaid rent.
fn held(env: &Ledger, id: u64) -> i128 {
    let m = meta(env, id);
    m.remaining_balance + m.rent_balance
}

#[test]
fn the_purse_follows_the_books() {
    let mut env = initialized();
    let id = create(&mut env, 1_000, 1);
    assert_eq!(net(&env, CONTRACT), held(&env, id));
    let a = add(&mut env, id, "A", 2, 300);
    add(&mut env, id, "B", 2, 200);
    assert_eq!(net(&env, CONTRACT), held(&env, id));
    EscrowContract::submit_milestone(&mut env, FREELANCER, id, a).unwrap();
    EscrowContract::approve_milestone(&mut env, CLIENT, id, a).unwrap();
    assert_eq!(net(&env, CONTRACT), held(&env, id));
    advance(&mut env, 2 * RENT_PERIOD_SECONDS + 5);
    EscrowContract::collect_rent(&mut env, id).unwrap();
    assert_eq!(net(&env, ADMIN), 6);
    assert_eq!(net(&env, CONTRACT), held(&env, id));
    assert_eq!(EscrowContract::partial_cancel(&mut env, CLIENT, id), Ok(200));
    assert_eq!(net(&env, CONTRACT), held(&env, id));
    EscrowContract::raise_dispute(&mut env, CLIENT, id, None).unwrap();
    env.sequence += DISPUTE_COOLDOWN_LEDGERS;
    EscrowContract::resolve_dispute(&mut env, ADMIN, id, 100, 400).unwrap();
    assert_eq!(net(&env, CONTRACT), held(&env, id));
    assert_eq!(net(&env, FREELANCER), 700);
}

#[test]
fn a_refused_request_leaves_no_trace() {
    let mut env = initialized();
    let id = create(&mut env, 1_000, 1);
    let before = env.log.len();
    advance(&mut env, 3 * RENT_PERIOD_SECONDS);
    assert!(EscrowContract::cancel_escrow(&mut env, FREELANCER, id).is_err());
    assert_eq!(env.log.len(), before);
    assert_eq!(meta(&env, id).rent_balance, 30);
    assert_eq!(meta(&env, id).last_rent_collection_at, 0);
}

#[test]
fn rent_is_collected_once_and_by_whole_periods() {
    let mut env = initialized();
    let id = create(&mut env, 1_000, 1);
    advance(&mut env, RENT_PERIOD_SECONDS - 1);
    assert_eq!(EscrowContract::collect_rent(&mut env, id), Ok(0));
    advance(&mut env, 1);
    assert_eq!(EscrowContract::collect_rent(&mut env, id), Ok(1));
    assert_eq!(EscrowContract::collect_rent(&mut env, id), Ok(0));
    let m = meta(&env, id);
    assert_eq!(
        ContractStorage::rent_expires_at(&env, &m),
        (RENT_RESERVE_PERIODS + 1) * RENT_PERIOD_SECONDS
    );
    env.timestamp = (RENT_RESERVE_PERIODS + 1) * RENT_PERIOD_SECONDS - 1;
    assert!(EscrowContract::get_escrow(&mut env, id).is_ok());
    advance(&mut env, 1);
    assert!(matches!(EscrowContract::get_escrow(&mut env, id), Err(EscrowError::E8)));
}

#[test]
fn rent_over_the_reserve_can_be_taken_back() {
    let mut env = initialized();
    let id = create(&mut env, 1_000, 1);
    assert_eq!(
        EscrowContract::withdraw_rent_overpayment(&mut env, CLIENT, id, 1),
        Err(EscrowError::E19)
    );
    assert_eq!(EscrowContract::top_up_rent(&mut env, CLIENT, id, 4), Ok(4));
    assert_eq!(
        EscrowContract::withdraw_rent_overpayment(&mut env, CLIENT, id, 5),
        Err(EscrowError::E19)
    );
    EscrowContract::withdraw_rent_overpayment(&mut env, CLIENT, id, 4).unwrap();
    assert_eq!(meta(&env, id).rent_balance, 30);
    assert_eq!(net(&env, CLIENT), -1_030);
}

#[test]
fn escrows_are_numbered_and_found() {
    let mut env = initialized();
    assert_eq!(create(&mut env, 10, 1), 0);
    assert_eq!(create(&mut env, 20, 1), 1);
    assert_eq!(EscrowContract::escrow_count(&env), 2);
    let state = EscrowContract::get_escrow(&mut env, 1).unwrap();
    assert_eq!(state.escrow_id, 1);
    assert_eq!(state.total_amount, 20);
    assert_eq!(state.client, CLIENT);
    assert_eq!(state.freelancer, FREELANCER);
    assert_eq!(listed(&state.buyer_signers), vec![CLIENT.id]);
}

#[test]
fn lists_follow_the_status() {
    let mut env = initialized();
    for _ in 0..3 {
        create(&mut env, 100, 1);
    }
    let active = EscrowContract::get_escrow_ids_by_status(&env, EscrowStatus::Active, 0, 10);
    assert_eq!(listed(&active), vec![0, 1, 2]);
    EscrowContract::cancel_escrow(&mut env, CLIENT, 1).unwrap();
    let active = EscrowContract::get_escrow_ids_by_status(&env, EscrowStatus::Active, 0, 10);
    assert_eq!(listed(&active), vec![0, 2]);
    let gone = EscrowContract::get_escrow_ids_by_status(&env, EscrowStatus::Cancelled, 0, 10);
    assert_eq!(listed(&gone), vec![1]);
    let history = EscrowContract::get_state_history(&env, 1);
    assert_eq!(
        history.items,
        vec![StateHistoryEntry {
            from_status: EscrowStatus::Active,
            to_status: EscrowStatus::Cancelled,
            actor: Some(CLIENT),
            timestamp: 0,
        }]
    );
}

#[test]
fn pages_cut_a_list() {
    let env = setup();
    let mut ids = Ids::new(&env.host);
    for i in 0..60 {
        ids.push_back(i);
    }
    assert_eq!(ids.len(), 60);
    assert_eq!(listed(&page_of(&ids, &env.host, 58, 10, MAX_PAGE)), vec![58, 59]);
    assert_eq!(listed(&page_of(&ids, &env.host, 60, 10, MAX_PAGE)), Vec::<u64>::new());
    assert_eq!(page_of(&ids, &env.host, 0, 60, MAX_PAGE).len(), 50);
    let mut both = listed(&page_of(&ids, &env.host, 0, 7, MAX_PAGE));
    both.extend(listed(&page_of(&ids, &env.host, 7, 5, MAX_PAGE)));
    assert_eq!(both, listed(&page_of(&ids, &env.host, 0, 12, MAX_PAGE)));
}

#[test]
fn listing_can_be_undone() {
    let env = setup();
    let mut index: Store<Address, Ids> = Store::new();
    append_id(&mut index, &env.host, CLIENT, 4);
    append_id(&mut index, &env.host, CLIENT, 9);
    append_id(&mut index, &env.host, CLIENT, 4);
    assert_eq!(listed(&list_ids(&index, &env.host, CLIENT)), vec![4, 9, 4]);
    remove_id(&mut index, &env.host, CLIENT, 4);
    assert_eq!(listed(&list_ids(&index, &env.host, CLIENT)), vec![9]);
    append_id(&mut index, &env.host, CLIENT, 5);
    remove_id(&mut index, &env.host, CLIENT, 5);
    assert_eq!(listed(&list_ids(&index, &env.host, CLIENT)), vec![9]);
    assert_eq!(list_ids(&index, &env.host, OTHER).len(), 0);
}

#[test]
fn host_lists_hold_what_was_put_in() {
    let env = setup();
    let mut ids = Ids::new(&env.host);
    ids.push_back(u64::MAX);
    ids.push_back(3);
    assert_eq!((ids.len(), ids.get(0), ids.get(1), ids.get(2)), (2, Some(u64::MAX), Some(3), None));
    assert!(ids.contains(u64::MAX));
    assert!(!ids.contains(4));
    let mut weights = Weights::new(&env.host);
    weights.push_back(u32::MAX);
    assert_eq!((weights.len(), weights.get(0), weights.get(1)), (1, Some(u32::MAX), None));
    let mut amounts = Amounts::new(&env.host);
    amounts.push_back(i128::MIN);
    amounts.push_back(i128::MAX);
    assert_eq!(
        (amounts.len(), amounts.get(0), amounts.get(1), amounts.get(2)),
        (2, Some(i128::MIN), Some(i128::MAX), None)
    );
}

#[test]
fn a_batch_adds_approves_and_pays() {
    let mut env = initialized();
    let id = create(&mut env, 1_000, 1);
    let mut titles = Texts::new();
    titles.push(text("A"));
    titles.push(text("B"));
    let hashes = Hashes { items: vec![hash(2), hash(3)] };
    let mut amounts = Amounts::new(&env.host);
    amounts.push_back(400);
    amounts.push_back(601);
    assert_eq!(
        EscrowContract::batch_add_milestones(&mut env, CLIENT, id, &titles, &hashes, &amounts),
        Err(EscrowError::E15)
    );
    let mut amounts = Amounts::new(&env.host);
    amounts.push_back(400);
    amounts.push_back(600);
    assert_eq!(
        EscrowContract::batch_add_milestones(&mut env, CLIENT, id, &titles, &hashes, &amounts),
        Ok(0)
    );
    let second = EscrowContract::get_milestone(&mut env, id, 1).unwrap();
    assert_eq!((second.id, second.amount, second.status), (1, 600, MS_PENDING));
    assert_eq!(second.title.bytes, "B".as_bytes());
    assert_eq!(second.description_hash, hash(3));

    EscrowContract::submit_milestone(&mut env, FREELANCER, id, 0).unwrap();
    let both = weights_of(&env, &[0, 1]);
    assert_eq!(
        EscrowContract::batch_approve_milestones(&mut env, CLIENT, id, &both),
        Err(EscrowError::E14)
    );
    assert_eq!(net(&env, FREELANCER), 0);
    EscrowContract::submit_milestone(&mut env, FREELANCER, id, 1).unwrap();
    assert_eq!(
        EscrowContract::batch_approve_milestones(&mut env, CLIENT, id, &both),
        Ok(1_000)
    );
    assert_eq!(net(&env, FREELANCER), 1_000);
    assert_eq!(meta(&env, id).status, EscrowStatus::Completed);
}

#[test]
fn a_batch_is_released_by_the_admin() {
    let mut env = initialized();
    let id = create(&mut env, 1_000, 1);
    EscrowContract::start_timelock(&mut env, CLIENT, id, 100).unwrap();
    add(&mut env, id, "A", 2, 400);
    add(&mut env, id, "B", 2, 500);
    // A third milestone keeps the escrow open.
    add(&mut env, id, "C", 2, 100);
    for mid in 0..2 {
        EscrowContract::submit_milestone(&mut env, FREELANCER, id, mid).unwrap();
    }
    let both = weights_of(&env, &[0, 1]);
    assert_eq!(
        EscrowContract::batch_approve_milestones(&mut env, CLIENT, id, &both),
        Ok(900)
    );
    assert_eq!(net(&env, FREELANCER), 0);
    assert_eq!(EscrowContract::batch_release_funds(&mut env, ADMIN, id, &both), Ok(900));
    assert_eq!(net(&env, FREELANCER), 900);
    assert_eq!(
        EscrowContract::batch_release_funds(&mut env, ADMIN, id, &both),
        Err(EscrowError::E14)
    );
    assert_eq!(meta(&env, id).remaining_balance, 100);
}

#[test]
fn nothing_is_paid_twice() {
    let mut env = initialized();
    let id = create(&mut env, 1_000, 1);
    let mid = add(&mut env, id, "A", 2, 400);
    add(&mut env, id, "B", 2, 600);
    EscrowContract::submit_milestone(&mut env, FREELANCER, id, mid).unwrap();
    EscrowContract::approve_milestone(&mut env, CLIENT, id, mid).unwrap();
    assert_eq!(EscrowContract::get_milestone(&mut env, id, mid).unwrap().status, MS_RELEASED);
    assert_eq!(
        EscrowContract::approve_milestone(&mut env, CLIENT, id, mid),
        Err(EscrowError::E14)
    );
    assert_eq!(EscrowContract::release_funds(&mut env, ADMIN, id, mid), Err(EscrowError::E14));
    EscrowContract::submit_milestone(&mut env, FREELANCER, id, 1).unwrap();
    let both = weights_of(&env, &[1, mid]);
    assert_eq!(
        EscrowContract::batch_approve_milestones(&mut env, CLIENT, id, &both),
        Err(EscrowError::E14)
    );
    assert_eq!(net(&env, FREELANCER), 400);
}

#[test]
fn a_rejected_milestone_comes_back() {
    let mut env = initialized();
    let id = create(&mut env, 1_000, 1);
    let mid = add(&mut env, id, "A", 2, 400);
    EscrowContract::submit_milestone(&mut env, FREELANCER, id, mid).unwrap();
    EscrowContract::reject_milestone_with_reason(&mut env, CLIENT, id, mid, hash(8)).unwrap();
    let m = EscrowContract::get_milestone(&mut env, id, mid).unwrap();
    assert_eq!((m.status, m.rejection_reason), (MS_REJECTED, Some(hash(8))));
    assert_eq!(meta(&env, id).submitted_count, 0);
    EscrowContract::submit_milestone(&mut env, FREELANCER, id, mid).unwrap();
    assert_eq!(meta(&env, id).submitted_count, 1);
    EscrowContract::raise_dispute(&mut env, FREELANCER, id, Some(mid)).unwrap();
    assert_eq!(EscrowContract::get_milestone(&mut env, id, mid).unwrap().status, MS_DISPUTED);
    assert_eq!(meta(&env, id).submitted_count, 0);
}

#[test]
fn late_work_pushes_the_deadline() {
    let mut env = initialized();
    let policy = no_multisig(&env);
    let id = EscrowContract::create_escrow(
        &mut env,
        CLIENT,
        FREELANCER,
        TOKEN,
        100,
        hash(1),
        None,
        Some(1_000),
        None,
        None,
        policy,
        None,
    )
    .unwrap();
    let mid = add(&mut env, id, "A", 2, 100);
    env.timestamp = 999;
    EscrowContract::submit_milestone(&mut env, FREELANCER, id, mid).unwrap();
    assert_eq!(meta(&env, id).deadline, Some(999 + AUTO_DEADLINE_EXTENSION_SECONDS));
}

#[test]
fn the_admin_changes_in_two_steps() {
    let mut env = initialized();
    EscrowContract::propose_admin(&mut env, ADMIN, OTHER).unwrap();
    assert_eq!(EscrowContract::get_admin(&env), Ok(ADMIN));
    assert_eq!(EscrowContract::accept_admin(&mut env, CLIENT), Err(EscrowError::E3));
    EscrowContract::accept_admin(&mut env, OTHER).unwrap();
    assert_eq!(EscrowContract::get_admin(&env), Ok(OTHER));
    assert_eq!(EscrowContract::accept_admin(&mut env, OTHER), Err(EscrowError::E3));
    assert_eq!(EscrowContract::pause(&mut env, ADMIN), Err(EscrowError::E4));
}

#[test]
fn nonces_rise() {
    let mut env = setup();
    assert_eq!(
        ContractStorage::_validate_and_update_nonce(&mut env, OTHER, 0),
        Err(EscrowError::E3)
    );
    assert_eq!(ContractStorage::_validate_and_update_nonce(&mut env, OTHER, 4), Ok(()));
    assert_eq!(
        ContractStorage::_validate_and_update_nonce(&mut env, OTHER, 4),
        Err(EscrowError::E3)
    );
    assert_eq!(ContractStorage::_validate_and_update_nonce(&mut env, OTHER, 5), Ok(()));
    assert_eq!(ContractStorage::_validate_and_update_nonce(&mut env, CLIENT, 1), Ok(()));
}

#[test]
fn an_upgrade_counts_the_versions() {
    let mut env = initialized();
    env.timestamp = 50;
    assert_eq!(
        EscrowContract::upgrade(&mut env, ADMIN, hash(6), Ok(())),
        Ok(INITIAL_CONTRACT_VERSION + 1)
    );
    let v = EscrowContract::get_contract_version(&env).unwrap();
    assert_eq!((v.version, v.deployed_at, v.last_upgraded_at, v.upgrade_count), (2, 0, 50, 1));
    assert_eq!(env.log.last(), Some(&Effect::UpdateWasm(hash(6))));
}

#[test]
fn signers_are_counted_once() {
    let mut env = initialized();
    let mut two = Ids::new(&env.host);
    two.push_back(11);
    two.push_back(12);
    EscrowContract::set_admin_multisig(&mut env, ADMIN, two, 2).unwrap();
    assert_eq!(listed(&EscrowContract::get_admin_signers(&env).unwrap()), vec![11, 12]);
    assert_eq!(EscrowContract::get_admin_threshold(&env), Ok(2));
    let id = create(&mut env, 100, 1);
    let mut twice = Ids::new(&env.host);
    twice.push_back(11);
    twice.push_back(11);
    assert_eq!(
        EscrowContract::freeze_escrow(&mut env, id, &twice),
        Err(EscrowError::E62)
    );
    twice.push_back(12);
    assert_eq!(EscrowContract::freeze_escrow(&mut env, id, &twice), Ok(()));
    assert!(ContractStorage::is_esc_frz(&env, id));
    assert_eq!(EscrowContract::cancel_escrow(&mut env, CLIENT, id), Err(EscrowError::E61));
}

#[test]
fn fees_follow_the_highest_tier() {
    let mut env = initialized();
    let fee = |env: &Ledger, amount: i128| {
        EscrowContract::calculate_platform_fee(env, amount).unwrap().fee_amount
    };
    assert_eq!(fee(&env, 999), 19);
    assert_eq!(fee(&env, 1_000), 15);
    assert_eq!(fee(&env, 9_999), 149);
    assert_eq!(fee(&env, 10_000), 100);
    no_tiers(&mut env);
    assert_eq!(fee(&env, 10_000), 0);
}

#[test]
fn an_uncollected_fee_goes_to_the_treasury_once() {
    let mut env = initialized();
    EscrowContract::set_platform_treasury(&mut env, ADMIN, TREASURY).unwrap();
    ContractStorage::save_fee_snapshot(
        &mut env,
        3,
        &EscrowFeeSnapshot { fee_bps: 10, fee_amount: 7, collected: false },
    );
    assert_eq!(EscrowContract::collect_platform_fee(&mut env, 3, TOKEN), Ok(7));
    assert_eq!(EscrowContract::collect_platform_fee(&mut env, 3, TOKEN), Ok(0));
    assert_eq!(net(&env, TREASURY), 7);
}

#[test]
fn the_last_release_brings_the_platform_its_fee() {
    let mut env = initialized();
    EscrowContract::set_platform_treasury(&mut env, ADMIN, TREASURY).unwrap();
    let id = create(&mut env, 1_000, 1);
    EscrowContract::start_timelock(&mut env, CLIENT, id, 100).unwrap();
    add(&mut env, id, "A", 2, 400);
    add(&mut env, id, "B", 2, 600);
    for mid in 0..2 {
        EscrowContract::submit_milestone(&mut env, FREELANCER, id, mid).unwrap();
        EscrowContract::approve_milestone(&mut env, CLIENT, id, mid).unwrap();
    }
    ContractStorage::save_fee_snapshot(
        &mut env,
        id,
        &EscrowFeeSnapshot { fee_bps: 10, fee_amount: 7, collected: false },
    );
    EscrowContract::release_funds(&mut env, ADMIN, id, 0).unwrap();
    assert_eq!(net(&env, TREASURY), 0);
    assert_eq!(net(&env, CONTRACT), held(&env, id));
    EscrowContract::release_funds(&mut env, ADMIN, id, 1).unwrap();
    assert_eq!(net(&env, TREASURY), 7);
    assert_eq!(net(&env, FREELANCER), 1_000);
    assert_eq!(net(&env, CONTRACT), held(&env, id) - 7);
    let done = EscrowContract::get_escrow_ids_by_status(&env, EscrowStatus::Completed, 0, 10);
    assert_eq!(listed(&done), vec![id]);
    let active = EscrowContract::get_escrow_ids_by_status(&env, EscrowStatus::Active, 0, 10);
    assert_eq!(active.len(), 0);
}

#[test]
fn an_undecided_dispute_is_shared_evenly() {
    let mut env = initialized();
    let id = EscrowContract::create_escrow_dispute_timeout(
        &mut env, CLIENT, FREELANCER, TOKEN, 101, hash(1), None, None, None, 5,
    )
    .unwrap();
    EscrowContract::raise_dispute(&mut env, CLIENT, id, None).unwrap();
    env.sequence = 4;
    assert_eq!(
        EscrowContract::claim_dispute_timeout(&mut env, FREELANCER, id),
        Err(EscrowError::E23)
    );
    env.sequence = 5;
    EscrowContract::claim_dispute_timeout(&mut env, FREELANCER, id).unwrap();
    assert_eq!(net(&env, CLIENT), -131 + 50);
    assert_eq!(net(&env, FREELANCER), 51);
    assert_eq!(meta(&env, id).status, EscrowStatus::Completed);
}

#[test]
fn an_arbiter_is_paid_its_part() {
    let mut env = initialized();
    EscrowContract::add_to_arbiter_allowlist(&mut env, ADMIN, ARBITER).unwrap();
    let policy = no_multisig(&env);
    let id = EscrowContract::create_escrow(
        &mut env,
        CLIENT,
        FREELANCER,
        TOKEN,
        1_999,
        hash(1),
        Some(ARBITER),
        None,
        None,
        None,
        policy,
        None,
    )
    .unwrap();
    EscrowContract::set_arbiter_fee_bps(&mut env, ADMIN, id, 50).unwrap();
    EscrowContract::raise_dispute(&mut env, CLIENT, id, None).unwrap();
    env.sequence = DISPUTE_COOLDOWN_LEDGERS;
    EscrowContract::resolve_dispute(&mut env, ARBITER, id, 1_000, 999).unwrap();
    assert_eq!(net(&env, ARBITER), 9);
}

#[test]
fn a_large_dispute_goes_to_governance() {
    let mut env = initialized();
    let id = create(&mut env, HIGH_VALUE_THRESHOLD, 1);
    EscrowContract::raise_dispute(&mut env, CLIENT, id, None).unwrap();
    assert!(matches!(
        EscrowContract::governance_proposal(&env, CLIENT, id),
        Err(EscrowError::E2)
    ));
    EscrowContract::set_governance_contract(&mut env, ADMIN, OTHER).unwrap();
    assert_eq!(
        EscrowContract::governance_proposal(&env, CLIENT, id),
        Ok(ProposalCall {
            governance: OTHER,
            recipient: CONTRACT,
            token: TOKEN,
            amount: HIGH_VALUE_THRESHOLD,
        })
    );
    assert_eq!(
        EscrowContract::escalate_dispute_to_governance(&mut env, CLIENT, id, 77),
        Ok(77)
    );
}

#[test]
fn a_cancellation_costs_a_tenth_rounded_down() {
    assert_eq!(EscrowContract::calculate_slash_amount(199), 19);
    assert_eq!(EscrowContract::calculate_slash_amount(9), 0);
    let mut env = initialized();
    let id = create(&mut env, 199, 1);
    EscrowContract::request_cancellation(&mut env, FREELANCER, id, text("r")).unwrap();
    assert_eq!(
        listed(&EscrowContract::list_cancellations_by_requester(&env, FREELANCER)),
        vec![id]
    );
    EscrowContract::client_approve_cancellation(&mut env, CLIENT, id).unwrap();
    EscrowContract::execute_cancellation(&mut env, id).unwrap();
    assert_eq!(net(&env, FREELANCER), -30 + 180);
    assert_eq!(EscrowContract::list_cancellations_by_requester(&env, FREELANCER).len(), 0);
    let slashes = EscrowContract::get_slash_records_by_address(&env, FREELANCER);
    assert_eq!(slashes.items.len(), 1);
    assert_eq!(slashes.items[0].amount, 19);
}

#[test]
fn a_reversed_slash_restores_the_record() {
    let mut env = initialized();
    EscrowContract::update_reputation(&mut env, CLIENT, true, false, 5_500).unwrap();
    let before = EscrowContract::get_reputation(&env, CLIENT).unwrap();
    assert_eq!(before.total_score, 15);
    let id = create(&mut env, 100, 1);
    EscrowContract::request_cancellation(&mut env, CLIENT, id, text("r")).unwrap();
    EscrowContract::client_approve_cancellation(&mut env, FREELANCER, id).unwrap();
    EscrowContract::execute_cancellation(&mut env, id).unwrap();
    assert_eq!(EscrowContract::get_reputation(&env, CLIENT).unwrap().total_score, 5);
    EscrowContract::dispute_slash(&mut env, CLIENT, id).unwrap();
    EscrowContract::resolve_slash_dispute(&mut env, ADMIN, id, false).unwrap();
    assert_eq!(EscrowContract::get_reputation(&env, CLIENT), Ok(before));
}

#[test]
fn ratings_add_up() {
    let mut env = initialized();
    EscrowContract::update_reputation(&mut env, OTHER, true, false, 25_000).unwrap();
    let r = EscrowContract::get_reputation(&env, OTHER).unwrap();
    assert_eq!((r.total_score, r.completed_escrows, r.total_volume), (20, 1, 25_000));
    EscrowContract::update_reputation(&mut env, OTHER, false, true, 7).unwrap();
    let r = EscrowContract::get_reputation(&env, OTHER).unwrap();
    assert_eq!((r.total_score, r.disputed_escrows, r.total_volume), (15, 1, 25_000));
}

#[test]
fn a_template_is_kept_and_used() {
    let mut env = initialized();
    let mut ms = MilestoneTemplates::new();
    ms.push(MilestoneTemplate { title: text("A"), description_hash: hash(2), amount: 40 });
    ms.push(MilestoneTemplate { title: text("B"), description_hash: hash(3), amount: 60 });
    let tid = EscrowContract::create_template(&mut env, CLIENT, text("T"), ms).unwrap();
    let t = EscrowContract::get_template(&env, tid).unwrap();
    assert_eq!((t.id, t.creator, t.milestones.items.len()), (tid, CLIENT, 2));
    assert_eq!(t.milestones.items[1].amount, 60);
    let id = EscrowContract::create_escrow_from_template(
        &mut env, CLIENT, tid, CLIENT, FREELANCER, TOKEN, 100, hash(1), None, None,
    )
    .unwrap();
    let state = EscrowContract::get_escrow(&mut env, id).unwrap();
    assert_eq!(state.milestones.items.len(), 2);
    assert_eq!(state.milestones.items[1].title.bytes, "B".as_bytes());
    assert_eq!(meta(&env, id).allocated_amount, 100);
}

#[test]
fn evidence_is_only_added() {
    let mut env = initialized();
    let id = create(&mut env, 100, 1);
    EscrowContract::raise_dispute(&mut env, CLIENT, id, None).unwrap();
    assert_eq!(
        EscrowContract::add_evidence(&mut env, CLIENT, id, hash(5), text("first")),
        Ok(1)
    );
    assert_eq!(
        EscrowContract::add_evidence(&mut env, FREELANCER, id, hash(6), text("second")),
        Ok(2)
    );
    let all = EscrowContract::get_evidence(&env, id).unwrap();
    assert_eq!(all.items[0].submitted_by, CLIENT);
    assert_eq!(all.items[0].description.bytes, "first".as_bytes());
    assert_eq!(all.items[1].evidence_hash, hash(6));
}

#[test]
fn a_price_releases_a_milestone() {
    let mut env = initialized();
    let id = create(&mut env, 100, 1);
    let condition =
        PriceCondition { asset: OTHER, target_price_usd: 50, direction: PriceDirection::Below };
    let mid = EscrowContract::create_price_indexed_milestone(
        &mut env, CLIENT, id, text("P"), hash(2), 100, condition,
    )
    .unwrap();
    env.prices.set(OTHER, 51);
    assert_eq!(EscrowContract::get_price(&env, OTHER), Ok(51));
    assert_eq!(
        EscrowContract::trigger_oracle_release(&mut env, OTHER, id, mid),
        Err(EscrowError::E14)
    );
    env.prices.set(OTHER, 50);
    EscrowContract::trigger_oracle_release(&mut env, OTHER, id, mid).unwrap();
    assert_eq!(net(&env, FREELANCER), 100);
    assert_eq!(meta(&env, id).status, EscrowStatus::Completed);
}

#[test]
fn schedules_are_counted() {
    let count = |end: Option<u64>, n: Option<u32>| {
        EscrowContract::resolve_total_payments(100, RecurringInterval::Daily, end, n)
    };
    assert_eq!(count(Some(100), None), Ok(1));
    assert_eq!(count(Some(100 + 86_400), None), Ok(2));
    assert_eq!(count(Some(99 + 2 * 86_400), None), Ok(2));
    assert_eq!(count(Some(100 + 86_400), Some(5)), Ok(2));
    assert_eq!(count(Some(100 + 9 * 86_400), Some(5)), Ok(5));
    assert_eq!(
        EscrowContract::next_schedule_time(7, &RecurringInterval::Weekly),
        Ok(7 + 7 * 86_400)
    );
    assert_eq!(
        EscrowContract::next_schedule_time(7, &RecurringInterval::Monthly),
        Ok(7 + 30 * 86_400)
    );
}

#[test]
fn roles_change_hands() {
    let mut env = initialized();
    let id = create(&mut env, 100, 1);
    assert_eq!(
        EscrowContract::transfer_client_role(&mut env, id, FREELANCER),
        Err(EscrowError::E3)
    );
    EscrowContract::transfer_client_role(&mut env, id, OTHER).unwrap();
    assert_eq!(meta(&env, id).client, OTHER);
    assert_eq!(
        EscrowContract::update_arbiter(&mut env, id, Some(OTHER)),
        Err(EscrowError::E3)
    );
    EscrowContract::update_arbiter(&mut env, id, Some(ARBITER)).unwrap();
    assert_eq!(
        EscrowContract::transfer_client_role(&mut env, id, ARBITER),
        Err(EscrowError::E3)
    );
    assert!(env.log.contains(&Effect::RequireAuth(FREELANCER)));
}

#[test]
fn bridged_tokens_are_noted() {
    let mut env = initialized();
    let info = WrappedTokenInfo {
        stellar_address: TOKEN,
        origin_chain: text("ethereum"),
        is_approved: true,
    };
    EscrowContract::register_wrapped_token(&mut env, ADMIN, info).unwrap();
    let found = EscrowContract::get_wrapped_token_info(&env, TOKEN).unwrap();
    assert_eq!(found.origin_chain.bytes, "ethereum".as_bytes());
    assert!(EscrowContract::get_wrapped_token_info(&env, OTHER).is_none());
    EscrowContract::update_bridge_confirmation(
        &mut env,
        TOKEN,
        BridgeProtocol::Wormhole,
        14,
        15,
    )
    .unwrap();
    assert!(!EscrowContract::get_bridge_confirmation(&env, TOKEN).unwrap().is_finalized);
    EscrowContract::update_bridge_confirmation(
        &mut env,
        TOKEN,
        BridgeProtocol::Wormhole,
        15,
        15,
    )
    .unwrap();
    assert!(EscrowContract::get_bridge_confirmation(&env, TOKEN).unwrap().is_finalized);
}

#[test]
fn requests_ask_for_signatures() {
    let mut env = initialized();
    let id = create(&mut env, 100, 1);
    assert!(env.log.contains(&Effect::RequireAuth(CLIENT)));
    let from = env.log.len();
    EscrowContract::split_escrow(&mut env, FREELANCER, id, 40, hash(2)).unwrap();
    let asked: Vec<&Effect> =
        env.log[from..].iter().filter(|e| matches!(e, Effect::RequireAuth(_))).collect();
    assert_eq!(asked[0], &Effect::RequireAuth(FREELANCER));
    assert!(asked.contains(&&Effect::RequireAuth(CLIENT)));
}

#[test]
fn a_dispute_freezes_the_escrow() {
    let mut env = initialized();
    let id = create(&mut env, 100, 1);
    let mid = add(&mut env, id, "A", 2, 60);
    EscrowContract::submit_milestone(&mut env, FREELANCER, id, mid).unwrap();
    EscrowContract::raise_dispute(&mut env, CLIENT, id, None).unwrap();
    let one = weights_of(&env, &[mid]);
    assert_eq!(
        EscrowContract::approve_milestone(&mut env, CLIENT, id, mid),
        Err(EscrowError::E9)
    );
    assert_eq!(
        EscrowContract::batch_approve_milestones(&mut env, CLIENT, id, &one),
        Err(EscrowError::E9)
    );
    assert_eq!(EscrowContract::cancel_escrow(&mut env, CLIENT, id), Err(EscrowError::E9));
    assert_eq!(EscrowContract::partial_cancel(&mut env, CLIENT, id), Err(EscrowError::E9));
    assert_eq!(
        EscrowContract::request_cancellation(&mut env, CLIENT, id, text("r")),
        Err(EscrowError::E9)
    );
    assert_eq!(net(&env, FREELANCER), 0);
}

#[test]
fn children_of_a_split_keep_the_protection() {
    let mut env = initialized();
    let mut policy = no_multisig(&env);
    policy.approvers.push_back(21);
    policy.approvers.push_back(22);
    policy.weights.push_back(1);
    policy.weights.push_back(2);
    policy.threshold = 3;
    let timelock = Some(Timelock { duration_ledger: 500, start_ledger: 0 });
    let id = EscrowContract::create_escrow(
        &mut env,
        CLIENT,
        FREELANCER,
        TOKEN,
        100,
        hash(1),
        None,
        None,
        Some(400),
        timelock,
        policy,
        None,
    )
    .unwrap();
    env.timestamp = 300;
    let (one, two) = EscrowContract::split_escrow(&mut env, CLIENT, id, 30, hash(2)).unwrap();
    for child in [one, two] {
        let m = meta(&env, child);
        assert_eq!(m.multisig_threshold, 3);
        assert_eq!(listed(&m.buyer_signers), vec![21, 22]);
        assert_eq!(m.multisig_weights.get(1), Some(2));
        assert_eq!(m.lock_time, Some(400));
        assert_eq!(m.timelock, Some(Timelock { duration_ledger: 500, start_ledger: 300 }));
    }
    assert_eq!(meta(&env, one).total_amount, 30);
    assert_eq!(meta(&env, two).total_amount, 70);
}

#[test]
fn an_objection_blocks_and_a_consent_speeds_up() {
    let mut env = initialized();
    let first = create(&mut env, 100, 1);
    let second = create(&mut env, 100, 1);
    EscrowContract::request_cancellation(&mut env, CLIENT, first, text("r")).unwrap();
    EscrowContract::request_cancellation(&mut env, CLIENT, second, text("r")).unwrap();
    EscrowContract::client_approve_cancellation(&mut env, FREELANCER, first).unwrap();
    EscrowContract::execute_cancellation(&mut env, first).unwrap();
    EscrowContract::dispute_cancellation(&mut env, FREELANCER, second).unwrap();
    advance(&mut env, 2 * RENT_PERIOD_SECONDS);
    assert_eq!(
        EscrowContract::execute_cancellation(&mut env, second),
        Err(EscrowError::E37)
    );
    let disputed = EscrowContract::get_escrow_ids_by_status(&env, EscrowStatus::Disputed, 0, 9);
    assert_eq!(listed(&disputed), vec![second]);
}
