use escrow_contract::constants::DISPUTE_COOLDOWN_LEDGERS;
use escrow_contract::contract::EscrowContract;
use escrow_contract::errors::EscrowError;
use escrow_contract::events::{Effect, Event};
use escrow_contract::host::{Amounts, Ids, Weights};
use escrow_contract::ledger::Ledger;
use escrow_contract::storage::ContractStorage;
use escrow_contract::types::{
    Address, EscrowMeta, EscrowStatus, Hash32, Hashes, MultisigConfig, PackedDataKey,
    PriceCondition, PriceDirection, RecurringInterval, Text, Texts, Timelock, WrappedTokenInfo,
    MS_RELEASED,
};

const CONTRACT: Address = Address { id: 1000 };
const ADMIN: Address = Address { id: 1 };
const CLIENT: Address = Address { id: 2 };
const FREELANCER: Address = Address { id: 3 };
const TOKEN: Address = Address { id: 4 };
const OTHER: Address = Address { id: 7 };

fn setup() -> Ledger {
    Ledger::new(soroban_sdk::Env::default(), CONTRACT)
}

fn initialized() -> Ledger {
    let mut env = setup();
    EscrowContract::initialize(&mut env, ADMIN).unwrap();
    env
}

fn no_multisig(env: &Ledger) -> MultisigConfig {
    MultisigConfig {
        approvers: Ids::new(&env.host),
        weights: Weights::new(&env.host),
        threshold: 0,
    }
}

fn hash(byte: u8) -> Hash32 {
    let half = u128::from_be_bytes([byte; 16]);
    Hash32 { hi: half, lo: half }
}

fn text(s: &str) -> Text {
    Text { bytes: s.as_bytes().to_vec() }
}

/// What the transfers so far have added to an account.
fn net(env: &Ledger, who: Address) -> i128 {
    let mut sum: i128 = 0;
    for e in env.log.iter() {
        if let Effect::Transfer { from, to, amount, .. } = e {
            if *from == who {
                sum -= amount;
            }
            if *to == who {
                sum += amount;
            }
        }
    }
    sum
}

fn create_with(env: &mut Ledger, amount: i128, brief: u8) -> Result<u64, EscrowError> {
    let policy = no_multisig(env);
    EscrowContract::create_escrow(
        env,
        CLIENT,
        FREELANCER,
        TOKEN,
        amount,
        hash(brief),
        None,
        None,
        None,
        None,
        policy,
        None,
    )
}

fn create(env: &mut Ledger, amount: i128, brief: u8) -> u64 {
    create_with(env, amount, brief).unwrap()
}

fn add(env: &mut Ledger, id: u64, title: &str, brief: u8, amount: i128) -> u32 {
    EscrowContract::add_milestone(env, CLIENT, id, text(title), hash(brief), amount).unwrap()
}

fn meta(env: &Ledger, id: u64) -> EscrowMeta {
    env.book.metas.get(PackedDataKey::EscrowMeta(id)).unwrap()
}

fn weights_of(env: &Ledger, ids: &[u32]) -> Weights {
    let mut w = Weights::new(&env.host);
    for x in ids.iter() {
        w.push_back(*x);
    }
    w
}

fn listed(ids: &Ids) -> Vec<u64> {
    let mut v = Vec::new();
    for i in 0..ids.len() {
        v.push(ids.get(i).unwrap());
    }
    v
}

/// An escrow with one approved milestone of two that nothing has paid yet.
fn approved(env: &mut Ledger, terms: Option<Hash32>, lock_time: Option<u64>) -> (u64, u32) {
    let policy = no_multisig(env);
    let timelock = Some(Timelock { duration_ledger: 1_000_000, start_ledger: 0 });
    let id = EscrowContract::create_escrow(
        env,
        CLIENT,
        FREELANCER,
        TOKEN,
        1_000,
        hash(1),
        None,
        None,
        lock_time,
        timelock,
        policy,
        terms,
    )
    .unwrap();
    let mid = add(env, id, "A", 2, 400);
    add(env, id, "B", 3, 600);
    EscrowContract::submit_milestone(env, FREELANCER, id, mid).unwrap();
    if let Some(at) = lock_time {
        env.timestamp = at;
    }
    EscrowContract::approve_milestone(env, CLIENT, id, mid).unwrap();
    assert_eq!(net(env, FREELANCER), 0);
    (id, mid)
}

fn by_status(env: &Ledger, status: EscrowStatus) -> Vec<u64> {
    listed(&EscrowContract::get_escrow_ids_by_status(env, status, 0, 50))
}

fn daily(env: &mut Ledger, amount: i128, count: u32) -> u64 {
    EscrowContract::create_recurring_escrow(
        env,
        CLIENT,
        FREELANCER,
        TOKEN,
        amount,
        RecurringInterval::Daily,
        10,
        None,
        Some(count),
        hash(1),
    )
    .unwrap()
}

fn priced(env: &mut Ledger, id: u64, amount: i128) -> Result<u32, EscrowError> {
    let condition =
        PriceCondition { asset: OTHER, target_price_usd: 50, direction: PriceDirection::Below };
    EscrowContract::create_price_indexed_milestone(
        env,
        CLIENT,
        id,
        text("P"),
        hash(2),
        amount,
        condition,
    )
}

fn policy_of(env: &Ledger, members: &[(u64, u32)], threshold: u32) -> MultisigConfig {
    let mut p = no_multisig(env);
    for (who, weight) in members.iter() {
        p.approvers.push_back(*who);
        p.weights.push_back(*weight);
    }
    p.threshold = threshold;
    p
}

#[test]
fn a_release_is_the_admins() {
    let mut env = initialized();
    let (id, mid) = approved(&mut env, None, None);
    for who in [CLIENT, FREELANCER, OTHER] {
        assert_eq!(
            EscrowContract::release_funds(&mut env, who, id, mid),
            Err(EscrowError::E4)
        );
    }
    // Nor does the end of the timelock let anybody else release.
    env.timestamp = 1_000_001;
    assert_eq!(
        EscrowContract::release_funds(&mut env, CLIENT, id, mid),
        Err(EscrowError::E4)
    );
    EscrowContract::release_funds(&mut env, ADMIN, id, mid).unwrap();
    assert_eq!(net(&env, FREELANCER), 400);
    assert!(env.log.contains(&Effect::RequireAuth(ADMIN)));
}

#[test]
fn a_timelock_ends_on_time() {
    let mut env = initialized();
    env.timestamp = 49;
    let timelock = Timelock { duration_ledger: 50, start_ledger: 0 };
    assert_eq!(
        ContractStorage::check_timelock_expired(&mut env, 0, Some(timelock)),
        Err(EscrowError::E53)
    );
    env.timestamp = 50;
    assert_eq!(
        ContractStorage::check_timelock_expired(&mut env, 0, Some(timelock)),
        Ok(())
    );
}

#[test]
fn a_disputed_escrow_releases_nothing() {
    let mut env = initialized();
    let (id, mid) = approved(&mut env, None, None);
    EscrowContract::raise_dispute(&mut env, CLIENT, id, None).unwrap();
    let one = weights_of(&env, &[mid]);
    assert_eq!(
        EscrowContract::release_funds(&mut env, ADMIN, id, mid),
        Err(EscrowError::E9)
    );
    assert_eq!(
        EscrowContract::batch_release_funds(&mut env, ADMIN, id, &one),
        Err(EscrowError::E9)
    );
    assert_eq!(net(&env, FREELANCER), 0);
}

#[test]
fn a_scheduled_payment_is_settled() {
    let mut env = initialized();
    let id = daily(&mut env, 100, 2);
    env.timestamp = 10;
    assert_eq!(EscrowContract::process_recurring_payments(&mut env, id), Ok(1));
    let paid = EscrowContract::get_milestone(&mut env, id, 0).unwrap();
    assert_eq!((paid.amount, paid.status), (100, MS_RELEASED));
    assert_eq!(meta(&env, id).released_count, 1);
    assert_eq!(EscrowContract::release_funds(&mut env, ADMIN, id, 0), Err(EscrowError::E14));
    let one = weights_of(&env, &[0]);
    assert_eq!(
        EscrowContract::batch_release_funds(&mut env, ADMIN, id, &one),
        Err(EscrowError::E14)
    );
    assert_eq!(net(&env, FREELANCER), 100);
    assert_eq!(meta(&env, id).remaining_balance, 100);
}

#[test]
fn waiting_milestones_are_counted() {
    let mut env = initialized();
    let id = create(&mut env, 1_000, 1);
    add(&mut env, id, "A", 2, 100);
    add(&mut env, id, "B", 2, 100);
    add(&mut env, id, "C", 2, 100);
    for mid in 0..3 {
        EscrowContract::submit_milestone(&mut env, FREELANCER, id, mid).unwrap();
    }
    assert_eq!(meta(&env, id).submitted_count, 3);
    EscrowContract::approve_milestone(&mut env, CLIENT, id, 0).unwrap();
    assert_eq!(meta(&env, id).submitted_count, 2);
    EscrowContract::reject_milestone(&mut env, CLIENT, id, 1).unwrap();
    assert_eq!(meta(&env, id).submitted_count, 1);
}

#[test]
fn a_batch_counts_what_still_waits() {
    let mut env = initialized();
    let id = create(&mut env, 1_000, 1);
    for mid in 0..3 {
        add(&mut env, id, "A", 2, 100);
        EscrowContract::submit_milestone(&mut env, FREELANCER, id, mid).unwrap();
    }
    let two = weights_of(&env, &[2, 0]);
    assert_eq!(
        EscrowContract::batch_approve_milestones(&mut env, CLIENT, id, &two),
        Ok(200)
    );
    assert_eq!(meta(&env, id).submitted_count, 1);
}

#[test]
fn a_priced_milestone_is_added_like_any_other() {
    let mut env = initialized();
    EscrowContract::set_max_milestones(&mut env, ADMIN, 2).unwrap();
    let id = create(&mut env, 1_000, 1);
    let rent = meta(&env, id).rent_balance;
    let before = net(&env, CLIENT);
    assert_eq!(priced(&mut env, id, 0), Err(EscrowError::E17));
    assert_eq!(priced(&mut env, id, 1_001), Err(EscrowError::E15));
    assert_eq!(priced(&mut env, id, 600), Ok(0));
    assert_eq!(meta(&env, id).rent_balance - rent, 30);
    assert_eq!(net(&env, CLIENT) - before, -30);
    assert_eq!(meta(&env, id).allocated_amount, 600);
    assert_eq!(priced(&mut env, id, 100), Ok(1));
    assert_eq!(priced(&mut env, id, 100), Err(EscrowError::E16));
    let mut signers = Ids::new(&env.host);
    signers.push_back(ADMIN.id);
    EscrowContract::freeze_escrow(&mut env, id, &signers).unwrap();
    assert_eq!(priced(&mut env, id, 100), Err(EscrowError::E61));
}

#[test]
fn an_upheld_slash_is_paid() {
    let mut env = initialized();
    let id = create(&mut env, 100, 1);
    EscrowContract::request_cancellation(&mut env, CLIENT, id, text("r")).unwrap();
    EscrowContract::client_approve_cancellation(&mut env, FREELANCER, id).unwrap();
    EscrowContract::execute_cancellation(&mut env, id).unwrap();
    EscrowContract::dispute_slash(&mut env, CLIENT, id).unwrap();
    let before = net(&env, FREELANCER);
    let held = net(&env, CONTRACT);
    EscrowContract::resolve_slash_dispute(&mut env, ADMIN, id, true).unwrap();
    assert_eq!(net(&env, FREELANCER) - before, 10);
    assert_eq!(held - net(&env, CONTRACT), 10);
    assert!(env.book.slashes.get(id).is_none());
}

#[test]
fn a_batch_names_each_milestone_once() {
    let mut env = initialized();
    let id = create(&mut env, 1_000, 1);
    let mid = add(&mut env, id, "A", 2, 400);
    add(&mut env, id, "B", 2, 400);
    EscrowContract::submit_milestone(&mut env, FREELANCER, id, mid).unwrap();
    let twice = weights_of(&env, &[mid, mid]);
    assert_eq!(
        EscrowContract::batch_approve_milestones(&mut env, CLIENT, id, &twice),
        Err(EscrowError::E14)
    );
    let (other, first) = approved(&mut env, None, None);
    let twice = weights_of(&env, &[first, first]);
    assert_eq!(
        EscrowContract::batch_release_funds(&mut env, ADMIN, other, &twice),
        Err(EscrowError::E14)
    );
    assert_eq!(net(&env, FREELANCER), 0);
}

#[test]
fn schedules_move_their_escrow_between_the_lists() {
    let mut env = initialized();
    let done = daily(&mut env, 100, 1);
    let stopped = daily(&mut env, 100, 2);
    assert_eq!(by_status(&env, EscrowStatus::Active), vec![done, stopped]);
    env.timestamp = 10;
    EscrowContract::process_recurring_payments(&mut env, done).unwrap();
    assert_eq!(by_status(&env, EscrowStatus::Active), vec![stopped]);
    assert_eq!(by_status(&env, EscrowStatus::Completed), vec![done]);
    EscrowContract::cancel_recurring_escrow(&mut env, CLIENT, stopped).unwrap();
    assert_eq!(by_status(&env, EscrowStatus::Active), Vec::<u64>::new());
    assert_eq!(by_status(&env, EscrowStatus::Cancelled), vec![stopped]);
}

#[test]
fn payments_move_their_escrow_between_the_lists() {
    let mut env = initialized();
    let a = create(&mut env, 100, 1);
    add(&mut env, a, "A", 2, 100);
    EscrowContract::submit_milestone(&mut env, FREELANCER, a, 0).unwrap();
    let one = weights_of(&env, &[0]);
    EscrowContract::batch_approve_milestones(&mut env, CLIENT, a, &one).unwrap();
    assert_eq!(by_status(&env, EscrowStatus::Completed), vec![a]);

    let b = create(&mut env, 100, 1);
    priced(&mut env, b, 100).unwrap();
    env.prices.set(OTHER, 50);
    EscrowContract::trigger_oracle_release(&mut env, OTHER, b, 0).unwrap();
    assert_eq!(by_status(&env, EscrowStatus::Completed), vec![a, b]);

    let c = create(&mut env, 100, 1);
    EscrowContract::start_timelock(&mut env, CLIENT, c, 1_000).unwrap();
    EscrowContract::set_timelock(&mut env, CLIENT, c, 30).unwrap();
    add(&mut env, c, "C", 2, 100);
    EscrowContract::submit_milestone(&mut env, FREELANCER, c, 0).unwrap();
    EscrowContract::approve_milestone(&mut env, CLIENT, c, 0).unwrap();
    env.timestamp = 30;
    EscrowContract::release_with_timelock(&mut env, CLIENT, c, 0).unwrap();
    assert_eq!(by_status(&env, EscrowStatus::Completed), vec![a, b, c]);
    assert_eq!(by_status(&env, EscrowStatus::Active), Vec::<u64>::new());
    assert_eq!(meta(&env, c).status, EscrowStatus::Completed);
}

#[test]
fn a_new_client_is_listed() {
    let mut env = initialized();
    let id = create(&mut env, 100, 1);
    EscrowContract::transfer_client_role(&mut env, id, OTHER).unwrap();
    let of = |env: &Ledger, who: Address| {
        listed(&EscrowContract::get_escrow_ids_by_participant(env, who, 0, 10))
    };
    assert_eq!(of(&env, OTHER), vec![id]);
    assert_eq!(of(&env, CLIENT), Vec::<u64>::new());
    assert_eq!(of(&env, FREELANCER), vec![id]);
}

#[test]
fn a_decision_ends_the_dispute() {
    let mut env = initialized();
    let id = create(&mut env, 100, 1);
    EscrowContract::raise_dispute(&mut env, CLIENT, id, None).unwrap();
    assert_eq!(meta(&env, id).dispute_started_ledger, Some(0));
    assert_eq!(meta(&env, id).dispute_start_ledger, Some(0));
    env.sequence = DISPUTE_COOLDOWN_LEDGERS;
    EscrowContract::resolve_dispute(&mut env, ADMIN, id, 50, 50).unwrap();
    assert_eq!(meta(&env, id).dispute_started_ledger, None);
    assert_eq!(meta(&env, id).dispute_start_ledger, None);
}

#[test]
fn terms_come_before_every_payment() {
    let mut env = initialized();
    let refused = EscrowError::ClientHasNotAcceptedTerms;
    let (id, mid) = approved(&mut env, Some(hash(7)), None);
    let one = weights_of(&env, &[mid]);
    assert_eq!(EscrowContract::release_funds(&mut env, ADMIN, id, mid), Err(refused));
    assert_eq!(EscrowContract::batch_release_funds(&mut env, ADMIN, id, &one), Err(refused));
    EscrowContract::set_timelock(&mut env, CLIENT, id, 30).unwrap();
    env.timestamp = 1_000_000;
    assert_eq!(
        EscrowContract::release_with_timelock(&mut env, CLIENT, id, mid),
        Err(refused)
    );
    EscrowContract::submit_milestone(&mut env, FREELANCER, id, 1).unwrap();
    let other = weights_of(&env, &[1]);
    assert_eq!(EscrowContract::approve_milestone(&mut env, CLIENT, id, 1), Err(refused));
    assert_eq!(
        EscrowContract::batch_approve_milestones(&mut env, CLIENT, id, &other),
        Err(refused)
    );
    EscrowContract::accept_terms(&mut env, CLIENT, id).unwrap();
    EscrowContract::release_with_timelock(&mut env, CLIENT, id, mid).unwrap();
    EscrowContract::approve_milestone(&mut env, CLIENT, id, 1).unwrap();
    assert_eq!(net(&env, FREELANCER), 1_000);
}

#[test]
fn terms_come_before_a_price() {
    let mut env = initialized();
    let policy = no_multisig(&env);
    let id = EscrowContract::create_escrow(
        &mut env,
        CLIENT,
        FREELANCER,
        TOKEN,
        100,
        hash(1),
        None,
        None,
        Some(20),
        None,
        policy,
        Some(hash(7)),
    )
    .unwrap();
    priced(&mut env, id, 100).unwrap();
    env.prices.set(OTHER, 50);
    assert_eq!(
        EscrowContract::trigger_oracle_release(&mut env, OTHER, id, 0),
        Err(EscrowError::E28)
    );
    env.timestamp = 20;
    assert_eq!(
        EscrowContract::trigger_oracle_release(&mut env, OTHER, id, 0),
        Err(EscrowError::ClientHasNotAcceptedTerms)
    );
    EscrowContract::accept_terms(&mut env, CLIENT, id).unwrap();
    EscrowContract::trigger_oracle_release(&mut env, OTHER, id, 0).unwrap();
    assert_eq!(net(&env, FREELANCER), 100);
}

#[test]
fn a_moved_price_stops_every_payment() {
    let mut env = initialized();
    let (id, mid) = approved(&mut env, None, None);
    env.prices.set(TOKEN, 10_000);
    EscrowContract::set_slippage_bps(&mut env, CLIENT, id, 100).unwrap();
    EscrowContract::set_timelock(&mut env, CLIENT, id, 30).unwrap();
    EscrowContract::submit_milestone(&mut env, FREELANCER, id, 1).unwrap();
    env.timestamp = 1_000_000;
    env.prices.set(TOKEN, 9_899);
    let one = weights_of(&env, &[mid]);
    let other = weights_of(&env, &[1]);
    assert_eq!(
        EscrowContract::release_with_timelock(&mut env, CLIENT, id, mid),
        Err(EscrowError::E86)
    );
    assert_eq!(
        EscrowContract::batch_release_funds(&mut env, ADMIN, id, &one),
        Err(EscrowError::E86)
    );
    assert_eq!(
        EscrowContract::batch_approve_milestones(&mut env, CLIENT, id, &other),
        Err(EscrowError::E86)
    );
    env.prices.set(TOKEN, 9_900);
    assert_eq!(EscrowContract::batch_release_funds(&mut env, ADMIN, id, &one), Ok(400));
    assert_eq!(
        EscrowContract::batch_approve_milestones(&mut env, CLIENT, id, &other),
        Ok(600)
    );
    assert_eq!(net(&env, FREELANCER), 1_000);
}

#[test]
fn a_lock_time_stops_a_release_by_time() {
    let mut env = initialized();
    let (id, mid) = approved(&mut env, None, Some(50));
    EscrowContract::extend_lock_time(&mut env, CLIENT, id, 200).unwrap();
    EscrowContract::set_timelock(&mut env, CLIENT, id, 100).unwrap();
    env.timestamp = 150;
    assert_eq!(
        EscrowContract::release_with_timelock(&mut env, CLIENT, id, mid),
        Err(EscrowError::E28)
    );
    env.timestamp = 200;
    EscrowContract::release_with_timelock(&mut env, CLIENT, id, mid).unwrap();
    assert_eq!(net(&env, FREELANCER), 400);
}

#[test]
fn observers_are_told_the_whole() {
    let mut env = initialized();
    let id = create(&mut env, 100, 1);
    add(&mut env, id, "A", 2, 100);
    env.sequence = 7;
    env.timestamp = 9;
    let mut signers = Ids::new(&env.host);
    signers.push_back(ADMIN.id);
    let mut same = Ids::new(&env.host);
    same.push_back(ADMIN.id);
    EscrowContract::freeze_escrow(&mut env, id, &signers).unwrap();
    let frozen = Event::EscrowFrozen { escrow_id: id, sequence: 7, timestamp: 9 };
    assert_eq!(env.log.last(), Some(&Effect::PublishIds(frozen, same)));
    EscrowContract::unfreeze_escrow(&mut env, id, &signers).unwrap();
    let thawed = Event::EscrowUnfrozen { escrow_id: id, sequence: 7, timestamp: 9 };
    assert_eq!(env.log.last(), Some(&Effect::PublishIds(thawed, signers)));
    EscrowContract::update_milestone_title(&mut env, CLIENT, id, 0, text("New")).unwrap();
    let renamed = Event::MilestoneTitleUpdated { escrow_id: id, milestone_id: 0 };
    assert_eq!(env.log.last(), Some(&Effect::PublishText(renamed, text("New"))));
    let info = WrappedTokenInfo {
        stellar_address: TOKEN,
        origin_chain: text("ethereum"),
        is_approved: true,
    };
    EscrowContract::register_wrapped_token(&mut env, ADMIN, info).unwrap();
    let noted = Event::WrappedTokenRegistered { token: TOKEN };
    assert_eq!(env.log.last(), Some(&Effect::PublishText(noted, text("ethereum"))));
}

#[test]
fn a_volume_below_zero_brings_no_bonus() {
    let mut env = initialized();
    EscrowContract::update_reputation(&mut env, OTHER, true, false, -999).unwrap();
    let r = EscrowContract::get_reputation(&env, OTHER).unwrap();
    assert_eq!((r.total_score, r.completed_escrows, r.total_volume), (10, 1, -999));
}

#[test]
fn a_policy_reads_the_same_in_any_order() {
    let env = setup();
    let check = |members: &[(u64, u32)], threshold: u32| {
        EscrowContract::validate_multisig_config(&policy_of(&env, members, threshold))
    };
    let verdict = check(&[(21, 1), (22, 2), (23, 3)], 4);
    assert!(verdict.is_ok());
    assert_eq!(check(&[(23, 3), (21, 1), (22, 2)], 4), verdict);
    for (one, two) in [
        ([(21, 1), (22, 2), (21, 3)], [(22, 2), (21, 3), (21, 1)]),
        ([(21, 0), (22, 2), (23, 3)], [(23, 3), (22, 2), (21, 0)]),
        ([(21, 1), (22, 1), (23, 1)], [(22, 1), (23, 1), (21, 1)]),
    ] {
        assert!(check(&one, 4).is_err());
        assert_eq!(check(&one, 4), check(&two, 4));
    }
}

#[test]
fn a_batch_adds_what_single_requests_add() {
    let mut env = initialized();
    let one = create(&mut env, 1_000, 1);
    let two = create(&mut env, 1_000, 1);
    let mut titles = Texts::new();
    titles.push(text("A"));
    titles.push(text("B"));
    let hashes = Hashes { items: vec![hash(2), hash(3)] };
    let mut amounts = Amounts::new(&env.host);
    amounts.push_back(400);
    amounts.push_back(600);
    let start = net(&env, CLIENT);
    assert_eq!(
        EscrowContract::batch_add_milestones(&mut env, CLIENT, one, &titles, &hashes, &amounts),
        Ok(0)
    );
    let after_batch = net(&env, CLIENT);
    assert_eq!(add(&mut env, two, "A", 2, 400), 0);
    assert_eq!(add(&mut env, two, "B", 3, 600), 1);
    assert_eq!(after_batch - start, net(&env, CLIENT) - after_batch);
    let (a, b) = (meta(&env, one), meta(&env, two));
    assert_eq!(a.milestone_count, b.milestone_count);
    assert_eq!(a.allocated_amount, b.allocated_amount);
    assert_eq!(a.rent_balance, b.rent_balance);
    for mid in 0..2 {
        let x = EscrowContract::get_milestone(&mut env, one, mid).unwrap();
        let y = EscrowContract::get_milestone(&mut env, two, mid).unwrap();
        assert_eq!((x.id, x.amount, x.status), (y.id, y.amount, y.status));
        assert_eq!(x.title, y.title);
        assert_eq!(x.description_hash, y.description_hash);
    }
}

#[test]
fn a_refused_creation_leaves_no_trace() {
    let mut env = initialized();
    create(&mut env, 100, 1);
    let told = env.log.len();
    assert!(create_with(&mut env, 0, 1).is_err());
    assert_eq!(env.config.escrow_counter, 1);
    assert_eq!(env.log.len(), told);
}

#[test]
fn a_split_leaves_nothing_to_allocate() {
    let mut env = initialized();
    let id = create(&mut env, 1_000, 1);
    add(&mut env, id, "A", 2, 400);
    let (one, two) =
        EscrowContract::split_escrow(&mut env, CLIENT, id, 250, hash(3)).unwrap();
    assert_eq!(meta(&env, id).total_amount, 1_000);
    assert_eq!(meta(&env, id).allotted_amount, 400);
    for amount in [600, 1] {
        assert_eq!(
            EscrowContract::add_milestone(&mut env, CLIENT, id, text("B"), hash(2), amount),
            Err(EscrowError::E15)
        );
        assert_eq!(priced(&mut env, id, amount), Err(EscrowError::E15));
        let mut titles = Texts::new();
        titles.push(text("B"));
        let hashes = Hashes { items: vec![hash(2)] };
        let mut amounts = Amounts::new(&env.host);
        amounts.push_back(amount);
        assert_eq!(
            EscrowContract::batch_add_milestones(&mut env, CLIENT, id, &titles, &hashes, &amounts),
            Err(EscrowError::E15)
        );
    }
    EscrowContract::submit_milestone(&mut env, FREELANCER, id, 0).unwrap();
    EscrowContract::approve_milestone(&mut env, CLIENT, id, 0).unwrap();
    assert_eq!(meta(&env, id).remaining_balance, 0);
    // The children allocate what they were given.
    add(&mut env, one, "C", 2, 250);
    add(&mut env, two, "D", 2, 350);
    assert_eq!(
        EscrowContract::add_milestone(&mut env, CLIENT, one, text("E"), hash(2), 1),
        Err(EscrowError::E15)
    );
}

#[test]
fn a_split_leaves_what_was_paid_out_of_account() {
    let mut env = initialized();
    let id = create(&mut env, 1_000, 1);
    add(&mut env, id, "A", 2, 400);
    add(&mut env, id, "B", 2, 100);
    EscrowContract::submit_milestone(&mut env, FREELANCER, id, 0).unwrap();
    EscrowContract::approve_milestone(&mut env, CLIENT, id, 0).unwrap();
    EscrowContract::split_escrow(&mut env, CLIENT, id, 40, hash(3)).unwrap();
    assert_eq!(meta(&env, id).remaining_balance, 500);
    assert_eq!(meta(&env, id).allotted_amount, 900);
    add(&mut env, id, "C", 2, 400);
    assert_eq!(
        EscrowContract::add_milestone(&mut env, CLIENT, id, text("D"), hash(2), 1),
        Err(EscrowError::E15)
    );
    for mid in 1..3 {
        EscrowContract::submit_milestone(&mut env, FREELANCER, id, mid).unwrap();
        EscrowContract::approve_milestone(&mut env, CLIENT, id, mid).unwrap();
    }
    assert_eq!(net(&env, FREELANCER), 900);
    assert_eq!(meta(&env, id).remaining_balance, 0);
    assert_eq!(meta(&env, id).status, EscrowStatus::Completed);
}

#[test]
fn a_schedule_is_completed_by_its_last_payment() {
    let mut env = initialized();
    let id = daily(&mut env, 100, 3);
    env.timestamp = 10;
    assert_eq!(EscrowContract::process_recurring_payments(&mut env, id), Ok(1));
    let mid = add(&mut env, id, "Extra", 2, 50);
    EscrowContract::submit_milestone(&mut env, FREELANCER, id, mid).unwrap();
    EscrowContract::approve_milestone(&mut env, CLIENT, id, mid).unwrap();
    assert_eq!(meta(&env, id).status, EscrowStatus::Active);
    let other = add(&mut env, id, "More", 2, 20);
    EscrowContract::submit_milestone(&mut env, FREELANCER, id, other).unwrap();
    let one = weights_of(&env, &[other]);
    EscrowContract::batch_approve_milestones(&mut env, CLIENT, id, &one).unwrap();
    assert_eq!(meta(&env, id).status, EscrowStatus::Active);
    let third = priced(&mut env, id, 10).unwrap();
    env.prices.set(OTHER, 50);
    EscrowContract::trigger_oracle_release(&mut env, OTHER, id, third).unwrap();
    assert_eq!(meta(&env, id).status, EscrowStatus::Active);
    env.timestamp = 10 + 86_400;
    assert_eq!(EscrowContract::process_recurring_payments(&mut env, id), Ok(1));
    assert_eq!(meta(&env, id).status, EscrowStatus::Active);
    env.timestamp = 10 + 2 * 86_400;
    assert_eq!(EscrowContract::process_recurring_payments(&mut env, id), Ok(1));
    assert_eq!(meta(&env, id).status, EscrowStatus::Completed);
    assert_eq!(net(&env, FREELANCER), 380);
}

#[test]
fn a_schedule_is_not_completed_by_a_release() {
    let mut env = initialized();
    let id = daily(&mut env, 100, 2);
    EscrowContract::start_timelock(&mut env, CLIENT, id, 1_000).unwrap();
    EscrowContract::set_timelock(&mut env, CLIENT, id, 5).unwrap();
    for _ in 0..3 {
        add(&mut env, id, "Extra", 2, 10);
    }
    for mid in 0..3 {
        EscrowContract::submit_milestone(&mut env, FREELANCER, id, mid).unwrap();
        EscrowContract::approve_milestone(&mut env, CLIENT, id, mid).unwrap();
    }
    env.timestamp = 5;
    EscrowContract::release_funds(&mut env, ADMIN, id, 0).unwrap();
    EscrowContract::release_with_timelock(&mut env, CLIENT, id, 1).unwrap();
    let one = weights_of(&env, &[2]);
    EscrowContract::batch_release_funds(&mut env, ADMIN, id, &one).unwrap();
    assert_eq!(meta(&env, id).status, EscrowStatus::Active);
    assert_eq!(net(&env, FREELANCER), 30);
}

#[test]
fn a_schedule_keeps_its_money_from_a_split() {
    let mut env = initialized();
    let id = daily(&mut env, 100, 2);
    assert_eq!(
        EscrowContract::split_escrow(&mut env, CLIENT, id, 50, hash(3)),
        Err(EscrowError::E19)
    );
    assert_eq!(meta(&env, id).remaining_balance, 200);
}
