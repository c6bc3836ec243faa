use escrow_contract::constants::{MIN_ESCROW_AMOUNT, RENT_PERIOD_SECONDS, RENT_RESERVE_PERIODS};
use escrow_contract::contract::EscrowContract;
use escrow_contract::errors::EscrowError;
use escrow_contract::events::{Effect, Event};
use escrow_contract::host::{Ids, Weights};
use escrow_contract::ledger::Ledger;
use escrow_contract::storage::ContractStorage;
use escrow_contract::types::{
    Address, EscrowMeta, EscrowStatus, Hash32, MilestoneStatus, MultisigConfig, PackedDataKey,
    RecurringInterval, Text, MS_APPROVED, MS_PENDING,
};

const CONTRACT: Address = Address { id: 1000 };
const ADMIN: Address = Address { id: 1 };
const CLIENT: Address = Address { id: 2 };
const FREELANCER: Address = Address { id: 3 };
const TOKEN: Address = Address { id: 4 };
const TREASURY: Address = Address { id: 5 };

fn setup() -> Ledger {
    Ledger::new(soroban_sdk::Env::default(), CONTRACT)
}

fn initialized() -> Ledger {
    let mut env = setup();
    EscrowContract::initialize(&mut env, ADMIN).unwrap();
    env
}

fn no_multisig(env: &Ledger) -> MultisigConfig {
    MultisigConfig {
        approvers: Ids::new(&env.host),
        weights: Weights::new(&env.host),
        threshold: 0,
    }
}

fn hash(byte: u8) -> Hash32 {
    let half = u128::from_be_bytes([byte; 16]);
    Hash32 { hi: half, lo: half }
}

fn text(s: &str) -> Text {
    Text { bytes: s.as_bytes().to_vec() }
}

fn advance(env: &mut Ledger, seconds: u64) {
    env.timestamp += seconds;
}

/// What the transfers so far have added to an account.
fn net(env: &Ledger, who: Address) -> i128 {
    let mut sum: i128 = 0;
    for e in env.log.iter() {
        if let Effect::Transfer { token, from, to, amount } = e {
            assert_eq!(*token, TOKEN);
            if *from == who {
                sum -= amount;
            }
            if *to == who {
                sum += amount;
            }
        }
    }
    sum
}

fn create_with(env: &mut Ledger, amount: i128, brief: u8) -> Result<u64, EscrowError> {
    let policy = no_multisig(env);
    EscrowContract::create_escrow(
        env,
        CLIENT,
        FREELANCER,
        TOKEN,
        amount,
        hash(brief),
        None,
        None,
        None,
        None,
        policy,
        None,
    )
}

fn create(env: &mut Ledger, amount: i128, brief: u8) -> u64 {
    create_with(env, amount, brief).unwrap()
}

fn add(env: &mut Ledger, id: u64, title: &str, brief: u8, amount: i128) -> u32 {
    EscrowContract::add_milestone(env, CLIENT, id, text(title), hash(brief), amount).unwrap()
}

fn meta(env: &Ledger, id: u64) -> EscrowMeta {
    env.book.metas.get(PackedDataKey::EscrowMeta(id)).unwrap()
}

fn set_depends_on(env: &mut Ledger, id: u64, mid: u32, prereq: u32) {
    let mut m = ContractStorage::load_milestone(env, id, mid).unwrap();
    m.depends_on = Some(prereq);
    ContractStorage::save_milestone(env, id, &m);
}

fn set_milestone_status(env: &mut Ledger, id: u64, mid: u32, status: MilestoneStatus) {
    let mut m = ContractStorage::load_milestone(env, id, mid).unwrap();
    m.status = status;
    ContractStorage::save_milestone(env, id, &m);
}

fn recurring(
    env: &mut Ledger,
    amount: i128,
    interval: RecurringInterval,
    start: u64,
    count: u32,
    brief: u8,
) -> Result<u64, EscrowError> {
    EscrowContract::create_recurring_escrow(
        env,
        CLIENT,
        FREELANCER,
        TOKEN,
        amount,
        interval,
        start,
        None,
        Some(count),
        hash(brief),
    )
}

#[test]
fn test_freeze_requires_threshold_and_blocks_operations() {
    let mut env = initialized();
    let admin2 = Address { id: 11 };
    let admin3 = Address { id: 12 };
    let mut admins = Ids::new(&env.host);
    admins.push_back(ADMIN.id);
    admins.push_back(admin2.id);
    admins.push_back(admin3.id);
    EscrowContract::set_admin_multisig(&mut env, ADMIN, admins, 2).unwrap();

    let id = create(&mut env, 1_000, 90);

    let mut one = Ids::new(&env.host);
    one.push_back(ADMIN.id);
    assert_eq!(
        EscrowContract::freeze_escrow(&mut env, id, &one).unwrap_err(),
        EscrowError::E62
    );

    let mut two = Ids::new(&env.host);
    two.push_back(ADMIN.id);
    two.push_back(admin2.id);
    EscrowContract::freeze_escrow(&mut env, id, &two).unwrap();

    let err =
        EscrowContract::add_milestone(&mut env, CLIENT, id, text("Blocked"), hash(1), 1_000)
            .unwrap_err();
    assert_eq!(err, EscrowError::E61);

    assert_eq!(
        EscrowContract::unfreeze_escrow(&mut env, id, &one).unwrap_err(),
        EscrowError::E62
    );
    EscrowContract::unfreeze_escrow(&mut env, id, &two).unwrap();

    let mid = add(&mut env, id, "Ok", 2, 1_000);
    assert_eq!(mid, 0_u32);
}

#[test]
fn test_dependency_linear_chain_activation_rejected_until_satisfied() {
    let mut env = initialized();
    let id = create(&mut env, 3_000, 50);
    let a = add(&mut env, id, "A", 1, 1_000);
    let b = add(&mut env, id, "B", 2, 1_000);
    let c = add(&mut env, id, "C", 3, 1_000);
    set_depends_on(&mut env, id, b, a);
    set_depends_on(&mut env, id, c, b);

    let err = EscrowContract::submit_milestone(&mut env, FREELANCER, id, b).unwrap_err();
    assert_eq!(err, EscrowError::E14);

    EscrowContract::submit_milestone(&mut env, FREELANCER, id, a).unwrap();
    EscrowContract::approve_milestone(&mut env, CLIENT, id, a).unwrap();

    EscrowContract::submit_milestone(&mut env, FREELANCER, id, b).unwrap();
}

#[test]
fn test_dependency_branched_dependencies() {
    let mut env = initialized();
    let id = create(&mut env, 4_000, 51);
    let a = add(&mut env, id, "A", 4, 1_000);
    let b = add(&mut env, id, "B", 5, 1_000);
    let c = add(&mut env, id, "C", 6, 1_000);
    let d = add(&mut env, id, "D", 7, 1_000);
    set_depends_on(&mut env, id, b, a);
    set_depends_on(&mut env, id, c, a);
    set_depends_on(&mut env, id, d, b);

    assert_eq!(
        EscrowContract::submit_milestone(&mut env, FREELANCER, id, b).unwrap_err(),
        EscrowError::E14
    );
    assert_eq!(
        EscrowContract::submit_milestone(&mut env, FREELANCER, id, c).unwrap_err(),
        EscrowError::E14
    );

    EscrowContract::submit_milestone(&mut env, FREELANCER, id, a).unwrap();
    EscrowContract::approve_milestone(&mut env, CLIENT, id, a).unwrap();

    EscrowContract::submit_milestone(&mut env, FREELANCER, id, b).unwrap();
    EscrowContract::submit_milestone(&mut env, FREELANCER, id, c).unwrap();
    assert_eq!(
        EscrowContract::submit_milestone(&mut env, FREELANCER, id, d).unwrap_err(),
        EscrowError::E14
    );
}

#[test]
fn test_emits_unlocked_event_when_prereq_completes() {
    let mut env = initialized();
    let id = create(&mut env, 2_000, 52);
    let a = add(&mut env, id, "A", 8, 1_000);
    let b = add(&mut env, id, "B", 9, 1_000);
    set_depends_on(&mut env, id, b, a);
    EscrowContract::submit_milestone(&mut env, FREELANCER, id, a).unwrap();
    EscrowContract::approve_milestone(&mut env, CLIENT, id, a).unwrap();

    assert!(env.log.contains(&Effect::Publish(Event::MilestoneUnlocked {
        escrow_id: id,
        milestone_id: b,
        prerequisite: a,
    })));
}

#[test]
fn test_create_recurring_escrow_stores_schedule() {
    let mut env = initialized();
    let start = env.timestamp + 100;
    let id =
        recurring(&mut env, MIN_ESCROW_AMOUNT, RecurringInterval::Weekly, start, 3, 12).unwrap();

    let state = EscrowContract::get_escrow(&mut env, id).unwrap();
    let config = EscrowContract::get_recurring_config(&mut env, id).unwrap();
    assert_eq!(state.total_amount, 3 * MIN_ESCROW_AMOUNT);
    assert_eq!(config.total_payments, 3);
    assert_eq!(config.payments_remaining, 3);
    assert_eq!(config.next_payment_at, start);
}

#[test]
fn test_process_recurring_payments_releases_due_amounts() {
    let mut env = initialized();
    let start = env.timestamp + 10;
    let id =
        recurring(&mut env, MIN_ESCROW_AMOUNT, RecurringInterval::Daily, start, 2, 13).unwrap();

    advance(&mut env, 10);
    assert_eq!(EscrowContract::process_recurring_payments(&mut env, id), Ok(1));
    assert_eq!(net(&env, FREELANCER), MIN_ESCROW_AMOUNT);
    assert_eq!(
        EscrowContract::get_escrow(&mut env, id).unwrap().remaining_balance,
        MIN_ESCROW_AMOUNT
    );

    advance(&mut env, 86_400);
    assert_eq!(EscrowContract::process_recurring_payments(&mut env, id), Ok(1));
    assert_eq!(net(&env, FREELANCER), 2 * MIN_ESCROW_AMOUNT);
    assert_eq!(
        EscrowContract::get_escrow(&mut env, id).unwrap().status,
        EscrowStatus::Completed
    );
}

#[test]
fn test_process_recurring_payments_multi_period_catchup() {
    let mut env = initialized();
    let payment_amount = 100_i128;
    let total_payments = 5_u32;
    let interval_seconds: u64 = 86_400;
    let start = env.timestamp + 10;
    let id = recurring(
        &mut env,
        payment_amount,
        RecurringInterval::Daily,
        start,
        total_payments,
        99,
    )
    .unwrap();

    env.timestamp = start + 3 * interval_seconds - 1;

    let processed = EscrowContract::process_recurring_payments(&mut env, id).unwrap();
    assert_eq!(processed, 3);

    let config = EscrowContract::get_recurring_config(&mut env, id).unwrap();
    assert_eq!(config.payments_remaining, total_payments - 3);
    assert_eq!(config.processed_payments, 3);
    assert_eq!(config.next_payment_at, start + 3 * interval_seconds);
    assert_eq!(net(&env, FREELANCER), payment_amount * 3);
}

#[test]
fn test_pause_and_resume_recurring_schedule() {
    let mut env = initialized();
    let start = env.timestamp + 10;
    let id =
        recurring(&mut env, MIN_ESCROW_AMOUNT, RecurringInterval::Daily, start, 2, 14).unwrap();

    EscrowContract::pause_recurring_schedule(&mut env, CLIENT, id).unwrap();
    advance(&mut env, 10);
    let paused_result = EscrowContract::process_recurring_payments(&mut env, id);
    assert!(matches!(paused_result, Err(EscrowError::E46)));

    EscrowContract::resume_recurring_schedule(&mut env, CLIENT, id).unwrap();
    let config = EscrowContract::get_recurring_config(&mut env, id).unwrap();
    assert!(!config.paused);
    assert_eq!(EscrowContract::process_recurring_payments(&mut env, id), Ok(1));
}

#[test]
fn test_cancel_recurring_escrow_refunds_unreleased_balance() {
    let mut env = initialized();
    let minted = 3 * MIN_ESCROW_AMOUNT + 2 * ContractStorage::reserve_for_entries(1);
    let start = env.timestamp + 10;
    let id =
        recurring(&mut env, MIN_ESCROW_AMOUNT, RecurringInterval::Daily, start, 3, 15).unwrap();

    advance(&mut env, 10);
    EscrowContract::process_recurring_payments(&mut env, id).unwrap();
    EscrowContract::cancel_recurring_escrow(&mut env, CLIENT, id).unwrap();

    assert_eq!(minted + net(&env, CLIENT), 2 * MIN_ESCROW_AMOUNT);
    assert_eq!(
        EscrowContract::get_escrow(&mut env, id).unwrap().status,
        EscrowStatus::Cancelled
    );
    assert!(EscrowContract::get_recurring_config(&mut env, id).unwrap().cancelled);
}

#[test]
fn test_initialize_uses_instance_storage() {
    let env = initialized();
    assert_eq!(env.config.admin, Some(ADMIN));
    assert_eq!(env.config.escrow_counter, 0);
    assert!(!env.book.metas.has(PackedDataKey::EscrowMeta(0)));
}

#[test]
fn test_get_admin_returns_initialized_admin() {
    let env = initialized();
    assert_eq!(EscrowContract::get_admin(&env), Ok(ADMIN));
}

#[test]
#[should_panic]
fn test_get_admin_not_initialized_panics() {
    let env = setup();
    EscrowContract::get_admin(&env).unwrap();
}

#[test]
fn test_create_escrow_min_amount_boundary() {
    let mut env = initialized();
    let below_min = MIN_ESCROW_AMOUNT - 1;
    let rejected = create_with(&mut env, below_min, 21);
    assert_eq!(rejected.unwrap_err(), EscrowError::E19);

    let accepted = create(&mut env, MIN_ESCROW_AMOUNT, 22);
    assert_eq!(
        EscrowContract::get_escrow(&mut env, accepted).unwrap().total_amount,
        MIN_ESCROW_AMOUNT
    );
}

#[test]
fn test_create_recurring_escrow_rejects_below_min_payment_amount() {
    let mut env = initialized();
    let start = env.timestamp + 100;
    let result =
        recurring(&mut env, MIN_ESCROW_AMOUNT - 1, RecurringInterval::Daily, start, 1, 23);
    assert_eq!(result.unwrap_err(), EscrowError::E19);
}

#[test]
fn test_create_escrow_packs_metadata_separately() {
    let mut env = initialized();
    let reserve = ContractStorage::reserve_for_entries(1);
    let id = create(&mut env, 1_000, 1);
    assert_eq!(id, 0);
    assert_eq!(net(&env, CONTRACT), 1_000 + reserve);
    assert!(env.book.metas.has(PackedDataKey::EscrowMeta(id)));
    assert_eq!(meta(&env, id).rent_balance, reserve);
}

#[test]
fn test_get_milestone_reads_granular_storage_entry() {
    let mut env = initialized();
    let id = create(&mut env, 1_000, 2);
    let mid = add(&mut env, id, "Design", 3, 300);

    let milestone = EscrowContract::get_milestone(&mut env, id, mid).unwrap();
    assert_eq!(milestone.id, mid);
    assert_eq!(milestone.amount, 300_i128);
    assert!(env.book.milestones.has(PackedDataKey::Milestone(id, mid)));
}

#[test]
fn test_get_reputation_returns_default_record() {
    let env = setup();
    let user = Address { id: 77 };
    let record = EscrowContract::get_reputation(&env, user).unwrap();
    assert_eq!(record.address, user);
    assert_eq!(record.total_score, 0);
    assert_eq!(record.completed_escrows, 0);
}

#[test]
fn test_approve_milestone_o1_completion_check() {
    let mut env = initialized();
    let id = create(&mut env, 500, 4);
    let mid = add(&mut env, id, "Dev", 5, 500);
    EscrowContract::submit_milestone(&mut env, FREELANCER, id, mid).unwrap();
    EscrowContract::approve_milestone(&mut env, CLIENT, id, mid).unwrap();

    let state = EscrowContract::get_escrow(&mut env, id).unwrap();
    assert_eq!(state.status, EscrowStatus::Completed);
    let m = meta(&env, id);
    assert_eq!(m.approved_count, 1);
    assert_eq!(m.milestone_count, 1);
}

#[test]
fn test_cancel_escrow() {
    let mut env = initialized();
    EscrowContract::set_platform_treasury(&mut env, ADMIN, TREASURY).unwrap();
    let minted = 200 + ContractStorage::reserve_for_entries(1);
    let id = create(&mut env, 200, 6);

    EscrowContract::cancel_escrow(&mut env, CLIENT, id).unwrap();

    let state = EscrowContract::get_escrow(&mut env, id).unwrap();
    assert_eq!(state.status, EscrowStatus::Cancelled);
    assert_eq!(net(&env, TREASURY), 4_i128);
    assert_eq!(minted + net(&env, CLIENT), 196_i128);
    assert_eq!(net(&env, FREELANCER), 0_i128);
    assert!(env.log.contains(&Effect::Publish(Event::CancellationBreakdown {
        escrow_id: id,
        freelancer_payout: 0,
        client_refund: 196,
        fee: 4,
    })));
}

#[test]
fn test_cancel_escrow_partial_completion_splits_balance() {
    let mut env = initialized();
    EscrowContract::set_platform_treasury(&mut env, ADMIN, TREASURY).unwrap();
    let minted = 2_000 + ContractStorage::reserve_for_entries(3);
    let id = create(&mut env, 2_000, 60);
    let m0 = add(&mut env, id, "M0", 61, 1_000);
    let m1 = add(&mut env, id, "M1", 62, 1_000);

    set_milestone_status(&mut env, id, m0, MS_APPROVED);
    set_milestone_status(&mut env, id, m1, MS_PENDING);

    EscrowContract::cancel_escrow(&mut env, CLIENT, id).unwrap();

    assert_eq!(net(&env, TREASURY), 30_i128);
    assert_eq!(net(&env, FREELANCER), 1_000_i128);
    assert_eq!(minted + net(&env, CLIENT), 970_i128);
}

#[test]
fn test_collect_rent_transfers_periodic_fees_to_admin() {
    let mut env = initialized();
    let start = env.timestamp;
    let id = create(&mut env, 1_000, 7);
    advance(&mut env, 3 * RENT_PERIOD_SECONDS);

    let collected = EscrowContract::collect_rent(&mut env, id).unwrap();
    assert_eq!(collected, 3);
    assert_eq!(net(&env, ADMIN), 3);

    let m = meta(&env, id);
    assert_eq!(m.rent_balance, 27);
    assert_eq!(m.last_rent_collection_at, start + 3 * RENT_PERIOD_SECONDS);
}

#[test]
fn test_expired_escrow_is_cleaned_up_by_collect_rent() {
    let mut env = initialized();
    let minted = 200 + 2 * ContractStorage::reserve_for_entries(1);
    let id = create(&mut env, 200, 8);
    let mid = add(&mut env, id, "Scope", 9, 200);
    advance(&mut env, (RENT_RESERVE_PERIODS + 1) * RENT_PERIOD_SECONDS);

    let collected = EscrowContract::collect_rent(&mut env, id).unwrap();
    assert_eq!(collected, 60);
    assert_eq!(net(&env, ADMIN), 60);
    assert_eq!(minted + net(&env, CLIENT), 200);

    let result = EscrowContract::get_milestone(&mut env, id, mid);
    assert!(matches!(result, Err(EscrowError::E8)));
    assert!(!env.book.metas.has(PackedDataKey::EscrowMeta(id)));
    assert!(!env.book.milestones.has(PackedDataKey::Milestone(id, mid)));
}

#[test]
fn test_top_up_rent_extends_escrow_lifetime() {
    let mut env = initialized();
    let id = create(&mut env, 100, 10);
    let topped_up = EscrowContract::top_up_rent(&mut env, CLIENT, id, 5).unwrap();
    assert_eq!(topped_up, 5);

    advance(&mut env, (RENT_RESERVE_PERIODS + 3) * RENT_PERIOD_SECONDS);

    let state = EscrowContract::get_escrow(&mut env, id).unwrap();
    assert_eq!(state.status, EscrowStatus::Active);
    let m = meta(&env, id);
    assert_eq!(m.rent_balance, 2);
    assert_eq!(
        m.last_rent_collection_at,
        state.created_at + (RENT_RESERVE_PERIODS + 3) * RENT_PERIOD_SECONDS
    );
}

#[test]
fn test_cancellation_request_funds_extra_storage_rent() {
    let mut env = initialized();
    let id = create(&mut env, 250, 11);
    EscrowContract::request_cancellation(&mut env, CLIENT, id, text("Need to stop")).unwrap();
    assert_eq!(net(&env, CONTRACT), 250 + 2 * ContractStorage::reserve_for_entries(1));

    advance(&mut env, RENT_PERIOD_SECONDS);

    let collected = EscrowContract::collect_rent(&mut env, id).unwrap();
    assert_eq!(collected, 2);
    assert_eq!(net(&env, ADMIN), 2);
    assert_eq!(meta(&env, id).rent_balance, 58);
    assert!(env.book.cancellations.has(id));
}

#[test]
fn test_expire_escrow_rent_depletion_complete_cleanup() {
    let mut env = initialized();
    let escrow_amount = 500_i128;
    let minted = escrow_amount + 2 * ContractStorage::reserve_for_entries(1);
    let id = create(&mut env, escrow_amount, 42);
    let mid = add(&mut env, id, "Deliverable", 43, escrow_amount);
    let balance_after_create = minted + net(&env, CLIENT);

    advance(&mut env, (RENT_RESERVE_PERIODS + 2) * RENT_PERIOD_SECONDS);
    EscrowContract::collect_rent(&mut env, id).unwrap();

    let balance_after_expiry = minted + net(&env, CLIENT);
    assert!(balance_after_expiry > balance_after_create, "Client must receive refund after expiry");
    assert!(balance_after_expiry >= escrow_amount, "Client refund must cover remaining_balance");

    let result = EscrowContract::get_escrow(&mut env, id);
    assert!(matches!(result, Err(EscrowError::E8)));
    let milestone_result = EscrowContract::get_milestone(&mut env, id, mid);
    assert!(matches!(milestone_result, Err(EscrowError::E8)));
    assert!(!env.book.metas.has(PackedDataKey::EscrowMeta(id)));
    assert!(!env.book.milestones.has(PackedDataKey::Milestone(id, mid)));
}
