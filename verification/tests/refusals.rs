use escrow_contract::constants::{
    CANCELLATION_DISPUTE_PERIOD, DEFAULT_HIGH_VALUE_THRESHOLD, DISPUTE_COOLDOWN_LEDGERS,
    MAX_ESCROW_AMOUNT, MAX_ORACLE_STALE_SECONDS, MAX_TIMELOCK_DURATION_SECONDS,
};
use escrow_contract::contract::EscrowContract;
use escrow_contract::errors::EscrowError;
use escrow_contract::events::Effect;
use escrow_contract::host::{Amounts, Ids, Weights};
use escrow_contract::ledger::Ledger;
use escrow_contract::storage::ContractStorage;
use escrow_contract::types::{
    Address, ApprovalRecord, DexConfig, EscrowFeeSnapshot, EscrowMeta, EscrowStatus, FeeTier,
    FeeTiers, Hash32, Hashes, MilestoneTemplate, MilestoneTemplates, MultisigConfig,
    OracleResolutionPayload, PackedDataKey, RecurringInterval, Signature64, Text, Texts, Timelock,
    TokenPair,
};

const CONTRACT: Address = Address { id: 1000 };
const ADMIN: Address = Address { id: 1 };
const CLIENT: Address = Address { id: 2 };
const FREELANCER: Address = Address { id: 3 };
const TOKEN: Address = Address { id: 4 };
const ARBITER: Address = Address { id: 6 };
const OTHER: Address = Address { id: 7 };

fn setup() -> Ledger {
    Ledger::new(soroban_sdk::Env::default(), CONTRACT)
}

fn initialized() -> Ledger {
    let mut env = setup();
    EscrowContract::initialize(&mut env, ADMIN).unwrap();
    env
}

fn no_multisig(env: &Ledger) -> MultisigConfig {
    MultisigConfig {
        approvers: Ids::new(&env.host),
        weights: Weights::new(&env.host),
        threshold: 0,
    }
}

fn hash(byte: u8) -> Hash32 {
    let half = u128::from_be_bytes([byte; 16]);
    Hash32 { hi: half, lo: half }
}

fn text(s: &str) -> Text {
    Text { bytes: s.as_bytes().to_vec() }
}

fn advance(env: &mut Ledger, seconds: u64) {
    env.timestamp += seconds;
}

/// What the transfers so far have added to an account.
fn net(env: &Ledger, who: Address) -> i128 {
    let mut sum: i128 = 0;
    for e in env.log.iter() {
        if let Effect::Transfer { from, to, amount, .. } = e {
            if *from == who {
                sum -= amount;
            }
            if *to == who {
                sum += amount;
            }
        }
    }
    sum
}

fn create_with(env: &mut Ledger, amount: i128, brief: u8) -> Result<u64, EscrowError> {
    let policy = no_multisig(env);
    EscrowContract::create_escrow(
        env,
        CLIENT,
        FREELANCER,
        TOKEN,
        amount,
        hash(brief),
        None,
        None,
        None,
        None,
        policy,
        None,
    )
}

fn create(env: &mut Ledger, amount: i128, brief: u8) -> u64 {
    create_with(env, amount, brief).unwrap()
}

fn add(env: &mut Ledger, id: u64, title: &str, brief: u8, amount: i128) -> u32 {
    EscrowContract::add_milestone(env, CLIENT, id, text(title), hash(brief), amount).unwrap()
}

fn meta(env: &Ledger, id: u64) -> EscrowMeta {
    env.book.metas.get(PackedDataKey::EscrowMeta(id)).unwrap()
}

/// What a new escrow is made of.
struct Args {
    client: Address,
    freelancer: Address,
    token: Address,
    amount: i128,
    brief: Hash32,
    arbiter: Option<Address>,
    deadline: Option<u64>,
    lock_time: Option<u64>,
    timelock: Option<Timelock>,
    terms: Option<Hash32>,
}

fn plain() -> Args {
    Args {
        client: CLIENT,
        freelancer: FREELANCER,
        token: TOKEN,
        amount: 1_000,
        brief: hash(1),
        arbiter: None,
        deadline: None,
        lock_time: None,
        timelock: None,
        terms: None,
    }
}

fn create_under(env: &mut Ledger, a: Args, policy: MultisigConfig) -> Result<u64, EscrowError> {
    EscrowContract::create_escrow(
        env,
        a.client,
        a.freelancer,
        a.token,
        a.amount,
        a.brief,
        a.arbiter,
        a.deadline,
        a.lock_time,
        a.timelock,
        policy,
        a.terms,
    )
}

fn create_from(env: &mut Ledger, a: Args) -> Result<u64, EscrowError> {
    let policy = no_multisig(env);
    create_under(env, a, policy)
}

/// A policy over addresses with their weights.
fn policy_of(env: &Ledger, members: &[(u64, u32)], threshold: u32) -> MultisigConfig {
    let mut p = no_multisig(env);
    for (who, weight) in members.iter() {
        p.approvers.push_back(*who);
        p.weights.push_back(*weight);
    }
    p.threshold = threshold;
    p
}

fn payload_for(id: u64, expires_at: u64) -> OracleResolutionPayload {
    OracleResolutionPayload {
        escrow_id: id,
        client_bps: 5_000,
        freelancer_bps: 5_000,
        expires_at,
        oracle_pubkey: hash(9),
        signature: Signature64 { first: hash(0), second: hash(0) },
    }
}

fn weekly(env: &mut Ledger, start: u64) -> u64 {
    EscrowContract::create_recurring_escrow(
        env,
        CLIENT,
        FREELANCER,
        TOKEN,
        100,
        RecurringInterval::Weekly,
        start,
        None,
        Some(2),
        hash(1),
    )
    .unwrap()
}

#[test]
fn setting_up_is_refused_twice_or_with_a_bad_threshold() {
    let mut env = setup();
    assert_eq!(EscrowContract::get_admin(&env), Err(EscrowError::E2));
    assert_eq!(create_from(&mut env, plain()), Err(EscrowError::E2));
    let none = Ids::new(&env.host);
    assert_eq!(
        EscrowContract::initialize_with_admin_signers(&mut env, ADMIN, none, 1),
        Err(EscrowError::E63)
    );
    EscrowContract::initialize(&mut env, ADMIN).unwrap();
    assert_eq!(EscrowContract::initialize(&mut env, OTHER), Err(EscrowError::E1));
    assert_eq!(EscrowContract::get_admin(&env), Ok(ADMIN));
}

#[test]
fn only_the_admin_configures() {
    let mut env = initialized();
    assert_eq!(
        EscrowContract::set_platform_treasury(&mut env, OTHER, OTHER),
        Err(EscrowError::E4)
    );
    assert_eq!(EscrowContract::accept_admin(&mut env, OTHER), Err(EscrowError::E3));
    assert_eq!(
        EscrowContract::upgrade(&mut env, OTHER, hash(1), Ok(())),
        Err(EscrowError::E87)
    );
    assert_eq!(
        EscrowContract::upgrade(&mut env, ADMIN, hash(1), Err(EscrowError::E20)),
        Err(EscrowError::E20)
    );
    assert_eq!(EscrowContract::set_max_milestones(&mut env, ADMIN, 0), Err(EscrowError::E17));
    assert_eq!(EscrowContract::set_max_milestones(&mut env, ADMIN, 101), Err(EscrowError::E17));
    assert_eq!(
        EscrowContract::set_oracle_stale_threshold(&mut env, ADMIN, 0),
        Err(EscrowError::E19)
    );
    assert_eq!(
        EscrowContract::set_oracle_stale_threshold(&mut env, ADMIN, MAX_ORACLE_STALE_SECONDS + 1),
        Err(EscrowError::E19)
    );
    assert_eq!(
        EscrowContract::set_platform_fee_tiers(&mut env, ADMIN, FeeTiers::new()),
        Err(EscrowError::E19)
    );
    let mut falling = FeeTiers::new();
    falling.items.push(FeeTier { min_total_amount: 5, fee_bps: 1 });
    falling.items.push(FeeTier { min_total_amount: 5, fee_bps: 2 });
    assert_eq!(
        EscrowContract::set_platform_fee_tiers(&mut env, ADMIN, falling),
        Err(EscrowError::E19)
    );
    EscrowContract::add_to_arbiter_allowlist(&mut env, ADMIN, ARBITER).unwrap();
    assert_eq!(
        EscrowContract::add_to_arbiter_allowlist(&mut env, ADMIN, ARBITER),
        Err(EscrowError::E91)
    );
    EscrowContract::remove_from_arbiter_allowlist(&mut env, ADMIN, ARBITER).unwrap();
    assert_eq!(
        EscrowContract::remove_from_arbiter_allowlist(&mut env, ADMIN, ARBITER),
        Err(EscrowError::E92)
    );
}

#[test]
fn an_escrow_is_refused_for_its_parties() {
    let mut env = initialized();
    assert_eq!(
        create_from(&mut env, Args { freelancer: CLIENT, ..plain() }),
        Err(EscrowError::E3)
    );
    assert_eq!(
        create_from(&mut env, Args { arbiter: Some(CLIENT), ..plain() }),
        Err(EscrowError::E3)
    );
    assert_eq!(
        create_from(&mut env, Args { arbiter: Some(FREELANCER), ..plain() }),
        Err(EscrowError::E3)
    );
    assert_eq!(
        create_from(&mut env, Args { arbiter: Some(ARBITER), ..plain() }),
        Err(EscrowError::E90)
    );
    EscrowContract::add_to_arbiter_allowlist(&mut env, ADMIN, ARBITER).unwrap();
    EscrowContract::update_reputation(&mut env, ARBITER, true, false, 0).unwrap();
    assert_eq!(
        create_from(&mut env, Args { arbiter: Some(ARBITER), ..plain() }),
        Err(EscrowError::E3)
    );
    EscrowContract::set_min_arbiter_reputation(&mut env, ADMIN, 10).unwrap();
    assert_eq!(create_from(&mut env, Args { arbiter: Some(ARBITER), ..plain() }), Ok(0));
}

#[test]
fn an_escrow_is_refused_for_its_terms() {
    let mut env = initialized();
    env.timestamp = 100;
    assert_eq!(create_from(&mut env, Args { amount: 0, ..plain() }), Err(EscrowError::E19));
    assert_eq!(
        EscrowContract::validate_escrow_inputs(&env, 0, None, None),
        Err(EscrowError::E84)
    );
    assert_eq!(
        create_from(&mut env, Args { amount: MAX_ESCROW_AMOUNT + 1, ..plain() }),
        Err(EscrowError::E85)
    );
    assert_eq!(
        create_from(&mut env, Args { deadline: Some(100), ..plain() }),
        Err(EscrowError::E19)
    );
    assert_eq!(
        create_from(&mut env, Args { lock_time: Some(100), ..plain() }),
        Err(EscrowError::E30)
    );
    assert_eq!(
        create_from(&mut env, Args { brief: hash(0), ..plain() }),
        Err(EscrowError::InvalidBriefHash)
    );
    assert_eq!(
        create_from(&mut env, Args { terms: Some(hash(0)), ..plain() }),
        Err(EscrowError::TermsHashEmpty)
    );
    let long = Timelock { duration_ledger: MAX_TIMELOCK_DURATION_SECONDS + 1, start_ledger: 0 };
    assert_eq!(
        create_from(&mut env, Args { timelock: Some(long), ..plain() }),
        Err(EscrowError::E51)
    );
    EscrowContract::set_token_whitelist_enabled(&mut env, ADMIN, true).unwrap();
    assert_eq!(create_from(&mut env, plain()), Err(EscrowError::E3));
    EscrowContract::add_approved_token(&mut env, ADMIN, TOKEN).unwrap();
    assert_eq!(create_from(&mut env, plain()), Ok(0));
    env.barred.set(TOKEN, EscrowError::E14);
    assert_eq!(create_from(&mut env, plain()), Err(EscrowError::E14));
}

#[test]
fn a_policy_has_to_work() {
    let mut env = initialized();
    let unreachable_threshold = policy_of(&env, &[(21, 1), (22, 1)], 3);
    assert_eq!(
        create_under(&mut env, plain(), unreachable_threshold),
        Err(EscrowError::MultisigInvalidConfig)
    );
    let mut lopsided = policy_of(&env, &[(21, 1)], 1);
    lopsided.approvers.push_back(22);
    assert_eq!(
        create_under(&mut env, plain(), lopsided),
        Err(EscrowError::MultisigInvalidConfig)
    );
    let twice = policy_of(&env, &[(21, 1), (21, 1)], 2);
    assert_eq!(
        create_under(&mut env, plain(), twice),
        Err(EscrowError::MultisigInvalidConfig)
    );
    let many: Vec<(u64, u32)> = (0..11).map(|i| (100 + i, 1)).collect();
    let crowd = policy_of(&env, &many, 2);
    assert_eq!(
        create_under(&mut env, plain(), crowd),
        Err(EscrowError::MultisigTooManySigners)
    );
    let large = Args { amount: DEFAULT_HIGH_VALUE_THRESHOLD, ..plain() };
    assert_eq!(
        create_from(&mut env, large),
        Err(EscrowError::MultisigRequiredForHighValue)
    );
    let alone = policy_of(&env, &[(21, 5), (22, 1)], 5);
    let large = Args { amount: DEFAULT_HIGH_VALUE_THRESHOLD, ..plain() };
    assert_eq!(
        create_under(&mut env, large, alone),
        Err(EscrowError::MultisigRequiredForHighValue)
    );
    let both = policy_of(&env, &[(21, 5), (22, 1)], 6);
    let large = Args { amount: DEFAULT_HIGH_VALUE_THRESHOLD, ..plain() };
    assert_eq!(create_under(&mut env, large, both), Ok(0));
}

#[test]
fn a_policy_counts_each_signature_once() {
    let mut env = initialized();
    let p = policy_of(&env, &[(21, 1), (22, 2)], 3);
    let id = create_under(&mut env, plain(), p).unwrap();
    let mid = add(&mut env, id, "M", 2, 1_000);
    EscrowContract::submit_milestone(&mut env, FREELANCER, id, mid).unwrap();
    assert_eq!(
        EscrowContract::approve_milestone(&mut env, CLIENT, id, mid),
        Err(EscrowError::MultisigNotApprover)
    );
    EscrowContract::approve_milestone(&mut env, Address { id: 21 }, id, mid).unwrap();
    assert_eq!(net(&env, FREELANCER), 0);
    assert_eq!(EscrowContract::get_multisig_progress(&mut env, id, mid), Ok((1, 3)));
    assert_eq!(
        EscrowContract::approve_milestone(&mut env, Address { id: 21 }, id, mid),
        Err(EscrowError::MultisigDuplicateApproval)
    );
    let mut ids = Weights::new(&env.host);
    ids.push_back(mid);
    assert_eq!(
        EscrowContract::batch_approve_milestones(&mut env, Address { id: 21 }, id, &ids),
        Err(EscrowError::MultisigDuplicateApproval)
    );
    EscrowContract::approve_milestone(&mut env, Address { id: 22 }, id, mid).unwrap();
    assert_eq!(net(&env, FREELANCER), 1_000);
    let signed = EscrowContract::get_milestone_approvals(&mut env, id, mid).unwrap();
    assert_eq!(
        signed.items,
        vec![
            ApprovalRecord { signer: Address { id: 21 }, approved_at: 0 },
            ApprovalRecord { signer: Address { id: 22 }, approved_at: 0 },
        ]
    );
}

#[test]
fn a_gate_and_a_template_refuse() {
    let mut env = initialized();
    assert_eq!(
        EscrowContract::create_escrow_with_nft_gate(
            &mut env, CLIENT, OTHER, 1, 0, FREELANCER, TOKEN, 100, hash(1), None, None, None,
        ),
        Err(EscrowError::E3)
    );
    assert_eq!(
        EscrowContract::create_escrow_with_nft_gate(
            &mut env, CLIENT, OTHER, 1, 2, FREELANCER, TOKEN, 100, hash(1), None, None, None,
        ),
        Ok(0)
    );
    assert!(matches!(EscrowContract::get_template(&env, 0), Err(EscrowError::E8)));
    assert_eq!(
        EscrowContract::create_escrow_from_template(
            &mut env, CLIENT, 0, CLIENT, FREELANCER, TOKEN, 100, hash(1), None, None,
        ),
        Err(EscrowError::E8)
    );
    let mut ms = MilestoneTemplates::new();
    ms.push(MilestoneTemplate {
        title: text(&"t".repeat(257)),
        description_hash: hash(2),
        amount: 10,
    });
    let tid = EscrowContract::create_template(&mut env, CLIENT, text("T"), ms).unwrap();
    assert_eq!(
        EscrowContract::create_escrow_from_template(
            &mut env, CLIENT, tid, CLIENT, FREELANCER, TOKEN, 100, hash(1), None, None,
        ),
        Err(EscrowError::E55)
    );
    assert_eq!(EscrowContract::escrow_count(&env), 1);
    assert_eq!(
        EscrowContract::create_escrow_from_template(
            &mut env, OTHER, tid, CLIENT, FREELANCER, TOKEN, 100, hash(1), None, None,
        ),
        Err(EscrowError::E3)
    );
}

#[test]
fn a_milestone_is_refused() {
    let mut env = initialized();
    EscrowContract::set_max_milestones(&mut env, ADMIN, 1).unwrap();
    let id = create(&mut env, 1_000, 1);
    let try_add = |env: &mut Ledger, who: Address, id: u64, title: &str, amount: i128| {
        EscrowContract::add_milestone(env, who, id, text(title), hash(2), amount)
    };
    assert_eq!(try_add(&mut env, CLIENT, id, "M", 0), Err(EscrowError::E17));
    assert_eq!(try_add(&mut env, CLIENT, id, "M", MAX_ESCROW_AMOUNT + 1), Err(EscrowError::E85));
    assert_eq!(try_add(&mut env, CLIENT, id, &"t".repeat(257), 1), Err(EscrowError::E19));
    assert_eq!(try_add(&mut env, CLIENT, 9, "M", 1), Err(EscrowError::E8));
    assert_eq!(try_add(&mut env, FREELANCER, id, "M", 1), Err(EscrowError::E5));
    assert_eq!(try_add(&mut env, CLIENT, id, "M", 1_001), Err(EscrowError::E15));
    assert_eq!(try_add(&mut env, CLIENT, id, "M", 600), Ok(0));
    assert_eq!(try_add(&mut env, CLIENT, id, "M", 401), Err(EscrowError::E15));
    assert_eq!(try_add(&mut env, CLIENT, id, "M", 400), Err(EscrowError::E16));

    let mut titles = Texts::new();
    titles.push(text("B"));
    let hashes = Hashes { items: vec![hash(2)] };
    let mut amounts = Amounts::new(&env.host);
    amounts.push_back(400);
    assert_eq!(
        EscrowContract::batch_add_milestones(&mut env, CLIENT, id, &titles, &hashes, &amounts),
        Err(EscrowError::E16)
    );
    let none = Amounts::new(&env.host);
    assert_eq!(
        EscrowContract::batch_add_milestones(&mut env, CLIENT, id, &titles, &hashes, &none),
        Err(EscrowError::E17)
    );

    assert_eq!(
        EscrowContract::submit_milestone(&mut env, FREELANCER, id, 7),
        Err(EscrowError::E13)
    );
    assert_eq!(
        EscrowContract::submit_milestone(&mut env, CLIENT, id, 0),
        Err(EscrowError::E3)
    );
    assert_eq!(
        EscrowContract::reject_milestone(&mut env, CLIENT, id, 0),
        Err(EscrowError::E14)
    );
    assert_eq!(
        EscrowContract::reject_milestone_with_reason(&mut env, CLIENT, id, 0, hash(0)),
        Err(EscrowError::E19)
    );
    assert_eq!(
        EscrowContract::approve_milestone(&mut env, OTHER, id, 0),
        Err(EscrowError::E3)
    );
    assert_eq!(
        EscrowContract::approve_milestone(&mut env, CLIENT, id, 0),
        Err(EscrowError::E14)
    );
}

#[test]
fn locks_hold() {
    let mut env = initialized();
    env.timestamp = 100;
    let id = create_from(&mut env, Args { lock_time: Some(200), ..plain() }).unwrap();
    let mid = add(&mut env, id, "M", 2, 1_000);
    EscrowContract::submit_milestone(&mut env, FREELANCER, id, mid).unwrap();
    assert_eq!(
        EscrowContract::approve_milestone(&mut env, CLIENT, id, mid),
        Err(EscrowError::E28)
    );
    assert_eq!(
        EscrowContract::extend_lock_time(&mut env, CLIENT, id, 100),
        Err(EscrowError::E30)
    );
    env.timestamp = 200;
    EscrowContract::approve_milestone(&mut env, CLIENT, id, mid).unwrap();
    assert_eq!(net(&env, FREELANCER), 1_000);
}

#[test]
fn timelocks_hold() {
    let mut env = initialized();
    let id = create(&mut env, 1_000, 1);
    assert_eq!(
        EscrowContract::start_timelock(&mut env, CLIENT, id, 0),
        Err(EscrowError::E51)
    );
    assert_eq!(
        EscrowContract::start_timelock(&mut env, OTHER, id, 50),
        Err(EscrowError::E3)
    );
    EscrowContract::start_timelock(&mut env, CLIENT, id, 50).unwrap();
    assert_eq!(
        EscrowContract::start_timelock(&mut env, CLIENT, id, 50),
        Err(EscrowError::E51)
    );
    let mid = add(&mut env, id, "M", 2, 1_000);
    EscrowContract::submit_milestone(&mut env, FREELANCER, id, mid).unwrap();
    EscrowContract::approve_milestone(&mut env, CLIENT, id, mid).unwrap();
    assert_eq!(net(&env, FREELANCER), 0);
    assert_eq!(
        EscrowContract::release_funds(&mut env, CLIENT, id, mid),
        Err(EscrowError::E4)
    );
    EscrowContract::release_funds(&mut env, ADMIN, id, mid).unwrap();
    assert_eq!(net(&env, FREELANCER), 1_000);
}

#[test]
fn a_release_time_holds() {
    let mut env = initialized();
    let timelock = Some(Timelock { duration_ledger: 50, start_ledger: 0 });
    let id = create_from(&mut env, Args { timelock, ..plain() }).unwrap();
    let mid = add(&mut env, id, "M", 2, 400);
    add(&mut env, id, "N", 2, 600);
    assert_eq!(
        EscrowContract::release_with_timelock(&mut env, CLIENT, id, mid),
        Err(EscrowError::TimelockNotSet)
    );
    assert_eq!(
        EscrowContract::set_timelock(&mut env, CLIENT, id, 0),
        Err(EscrowError::TimelockReleasetimeInvalid)
    );
    EscrowContract::set_timelock(&mut env, CLIENT, id, 30).unwrap();
    assert_eq!(
        EscrowContract::set_timelock(&mut env, CLIENT, id, 40),
        Err(EscrowError::TimelockAlreadySet)
    );
    assert_eq!(
        EscrowContract::release_with_timelock(&mut env, CLIENT, id, mid),
        Err(EscrowError::TimelockNotExpired)
    );
    env.timestamp = 30;
    assert_eq!(
        EscrowContract::release_with_timelock(&mut env, CLIENT, id, mid),
        Err(EscrowError::E44)
    );
    EscrowContract::submit_milestone(&mut env, FREELANCER, id, mid).unwrap();
    EscrowContract::approve_milestone(&mut env, CLIENT, id, mid).unwrap();
    EscrowContract::release_with_timelock(&mut env, FREELANCER, id, mid).unwrap();
    assert_eq!(net(&env, FREELANCER), 400);
    assert_eq!(meta(&env, id).remaining_balance, 600);
}

#[test]
fn terms_come_before_a_release() {
    let mut env = initialized();
    let timelock = Some(Timelock { duration_ledger: 50, start_ledger: 0 });
    let id =
        create_from(&mut env, Args { timelock, terms: Some(hash(7)), ..plain() }).unwrap();
    let mid = add(&mut env, id, "M", 2, 1_000);
    EscrowContract::submit_milestone(&mut env, FREELANCER, id, mid).unwrap();
    EscrowContract::approve_milestone(&mut env, CLIENT, id, mid).unwrap();
    env.timestamp = 50;
    assert_eq!(
        EscrowContract::check_terms_accepted(&mut env, id),
        Err(EscrowError::ClientHasNotAcceptedTerms)
    );
    assert_eq!(
        EscrowContract::release_funds(&mut env, ADMIN, id, mid),
        Err(EscrowError::ClientHasNotAcceptedTerms)
    );
    assert_eq!(EscrowContract::accept_terms(&mut env, FREELANCER, id), Err(EscrowError::E5));
    EscrowContract::accept_terms(&mut env, CLIENT, id).unwrap();
    assert_eq!(
        EscrowContract::accept_terms(&mut env, CLIENT, id),
        Err(EscrowError::ClientAlreadyAcceptedTerms)
    );
    assert_eq!(EscrowContract::check_terms_accepted(&mut env, id), Ok(true));
    EscrowContract::release_funds(&mut env, ADMIN, id, mid).unwrap();
    assert_eq!(net(&env, FREELANCER), 1_000);
    let bare = create(&mut env, 10, 1);
    assert_eq!(
        EscrowContract::accept_terms(&mut env, CLIENT, bare),
        Err(EscrowError::TermsHashEmpty)
    );
}

#[test]
fn the_guard_and_the_state_refuse() {
    let mut env = initialized();
    let id = create(&mut env, 1_000, 1);
    env.config.reentrancy_lock = true;
    assert_eq!(EscrowContract::cancel_escrow(&mut env, CLIENT, id), Err(EscrowError::E22));
    env.config.reentrancy_lock = false;
    assert_eq!(EscrowContract::cancel_escrow(&mut env, FREELANCER, id), Err(EscrowError::E5));
    EscrowContract::cancel_escrow(&mut env, CLIENT, id).unwrap();
    assert_eq!(EscrowContract::cancel_escrow(&mut env, CLIENT, id), Err(EscrowError::E9));
    assert_eq!(
        EscrowContract::split_escrow(&mut env, CLIENT, id, 1, hash(2)),
        Err(EscrowError::E9)
    );
    let open = create(&mut env, 1_000, 1);
    assert_eq!(
        EscrowContract::split_escrow(&mut env, CLIENT, open, 1_000, hash(2)),
        Err(EscrowError::E19)
    );
    let none = Weights::new(&env.host);
    assert_eq!(
        EscrowContract::batch_release_funds(&mut env, CLIENT, open, &none),
        Err(EscrowError::E4)
    );
}

#[test]
fn a_schedule_refuses() {
    let mut env = initialized();
    assert_eq!(
        EscrowContract::resolve_total_payments(10, RecurringInterval::Daily, None, None),
        Err(EscrowError::E44)
    );
    assert_eq!(
        EscrowContract::resolve_total_payments(10, RecurringInterval::Daily, Some(9), None),
        Err(EscrowError::E44)
    );
    assert_eq!(
        EscrowContract::next_schedule_time(u64::MAX, &RecurringInterval::Daily),
        Err(EscrowError::E44)
    );
    let plain = create(&mut env, 100, 1);
    assert_eq!(
        EscrowContract::process_recurring_payments(&mut env, plain),
        Err(EscrowError::E43)
    );
    let id = weekly(&mut env, 10);
    assert_eq!(EscrowContract::process_recurring_payments(&mut env, id), Err(EscrowError::E45));
    EscrowContract::pause_recurring_schedule(&mut env, CLIENT, id).unwrap();
    assert_eq!(EscrowContract::process_recurring_payments(&mut env, id), Err(EscrowError::E46));
    assert_eq!(
        EscrowContract::cancel_recurring_escrow(&mut env, FREELANCER, id),
        Err(EscrowError::E5)
    );
    EscrowContract::cancel_recurring_escrow(&mut env, CLIENT, id).unwrap();
    assert!(EscrowContract::process_recurring_payments(&mut env, id).is_err());
    let mut config = env.book.recurring.get(PackedDataKey::RecurringConfig(plain));
    assert_eq!(config, None);
    config = env.book.recurring.get(PackedDataKey::RecurringConfig(id));
    assert!(config.unwrap().cancelled);
}

#[test]
fn a_cancelled_schedule_is_named() {
    let mut env = initialized();
    let id = weekly(&mut env, 10);
    let mut c = ContractStorage::load_recurring_config(&env, id).unwrap();
    c.cancelled = true;
    ContractStorage::save_recurring_config(&mut env, id, &c);
    assert_eq!(EscrowContract::process_recurring_payments(&mut env, id), Err(EscrowError::E47));
}

#[test]
fn cancellations_and_slashes_refuse() {
    let mut env = initialized();
    let id = create(&mut env, 100, 1);
    assert_eq!(EscrowContract::execute_cancellation(&mut env, id), Err(EscrowError::E32));
    assert_eq!(
        EscrowContract::request_cancellation(&mut env, OTHER, id, text("r")),
        Err(EscrowError::E3)
    );
    assert_eq!(
        EscrowContract::request_cancellation(&mut env, CLIENT, id, text(&"r".repeat(257))),
        Err(EscrowError::E19)
    );
    EscrowContract::request_cancellation(&mut env, CLIENT, id, text("r")).unwrap();
    assert_eq!(
        EscrowContract::request_cancellation(&mut env, CLIENT, id, text("r")),
        Err(EscrowError::E9)
    );
    assert_eq!(
        EscrowContract::client_approve_cancellation(&mut env, CLIENT, id),
        Err(EscrowError::E3)
    );
    assert_eq!(
        EscrowContract::dispute_cancellation(&mut env, CLIENT, id),
        Err(EscrowError::E3)
    );
    advance(&mut env, CANCELLATION_DISPUTE_PERIOD);
    assert_eq!(
        EscrowContract::dispute_cancellation(&mut env, FREELANCER, id),
        Err(EscrowError::E36)
    );
    assert_eq!(EscrowContract::finalize_slash(&mut env, id), Err(EscrowError::E38));
    EscrowContract::execute_cancellation(&mut env, id).unwrap();
    assert_eq!(
        ContractStorage::load_slash_record(&env, id).map(|s| s.reason.bytes),
        Ok("Escrow cancellation".as_bytes().to_vec())
    );
    assert_eq!(
        EscrowContract::apply_slash(&mut env, CLIENT, FREELANCER, 1, text("again"), id),
        Err(EscrowError::E41)
    );
    assert_eq!(EscrowContract::dispute_slash(&mut env, FREELANCER, id), Err(EscrowError::E3));
    assert_eq!(
        EscrowContract::resolve_slash_dispute(&mut env, ADMIN, id, true),
        Err(EscrowError::E38)
    );
    EscrowContract::dispute_slash(&mut env, CLIENT, id).unwrap();
    assert_eq!(EscrowContract::dispute_slash(&mut env, CLIENT, id), Err(EscrowError::E39));
    assert_eq!(EscrowContract::finalize_slash(&mut env, id), Err(EscrowError::E39));
}

#[test]
fn a_second_request_and_a_second_objection_are_refused() {
    let mut env = initialized();
    let id = create(&mut env, 100, 1);
    EscrowContract::request_cancellation(&mut env, CLIENT, id, text("r")).unwrap();
    EscrowContract::dispute_cancellation(&mut env, FREELANCER, id).unwrap();
    assert_eq!(
        EscrowContract::dispute_cancellation(&mut env, FREELANCER, id),
        Err(EscrowError::E34)
    );
    let mut m = meta(&env, id);
    m.status = EscrowStatus::Active;
    ContractStorage::save_escrow_meta(&mut env, &m);
    assert_eq!(
        EscrowContract::request_cancellation(&mut env, CLIENT, id, text("r")),
        Err(EscrowError::E33)
    );
}

#[test]
fn disputes_refuse() {
    let mut env = initialized();
    env.sequence = 1;
    let id = create(&mut env, 100, 1);
    assert_eq!(
        EscrowContract::resolve_dispute(&mut env, ADMIN, id, 50, 50),
        Err(EscrowError::E10)
    );
    assert_eq!(
        EscrowContract::add_evidence(&mut env, CLIENT, id, hash(1), text("d")),
        Err(EscrowError::E82)
    );
    assert_eq!(
        EscrowContract::raise_dispute(&mut env, OTHER, id, None),
        Err(EscrowError::E3)
    );
    assert_eq!(
        EscrowContract::raise_dispute(&mut env, CLIENT, id, Some(3)),
        Err(EscrowError::E13)
    );
    EscrowContract::raise_dispute(&mut env, CLIENT, id, None).unwrap();
    assert_eq!(
        EscrowContract::resolve_dispute(&mut env, OTHER, id, 50, 50),
        Err(EscrowError::E4)
    );
    assert_eq!(
        EscrowContract::resolve_dispute(&mut env, ADMIN, id, 50, 49),
        Err(EscrowError::E20)
    );
    env.sequence = DISPUTE_COOLDOWN_LEDGERS;
    assert_eq!(
        EscrowContract::resolve_dispute(&mut env, ADMIN, id, 50, 50),
        Err(EscrowError::E64)
    );
    assert_eq!(
        EscrowContract::claim_dispute_timeout(&mut env, CLIENT, id),
        Err(EscrowError::E23)
    );
    assert_eq!(
        EscrowContract::add_evidence(&mut env, OTHER, id, hash(1), text("d")),
        Err(EscrowError::E83)
    );
    assert_eq!(
        EscrowContract::add_evidence(&mut env, CLIENT, id, hash(0), text("d")),
        Err(EscrowError::E80)
    );
    assert_eq!(
        EscrowContract::add_evidence(&mut env, CLIENT, id, hash(1), text(&"d".repeat(257))),
        Err(EscrowError::E81)
    );
    assert_eq!(
        EscrowContract::oracle_resolve_dispute(&mut env, id, payload_for(id, 10), 0),
        Err(EscrowError::E54)
    );
    assert_eq!(
        EscrowContract::escalate_dispute_to_governance(&mut env, CLIENT, id, 5),
        Err(EscrowError::E19)
    );
    env.sequence = DISPUTE_COOLDOWN_LEDGERS + 1;
    EscrowContract::resolve_dispute(&mut env, ADMIN, id, 50, 50).unwrap();
}

#[test]
fn a_dispute_over_a_cancellation_is_decided() {
    let mut env = initialized();
    env.sequence = 5;
    env.timestamp = 7;
    let id = create(&mut env, 100, 1);
    EscrowContract::request_cancellation(&mut env, CLIENT, id, text("r")).unwrap();
    assert_eq!(
        EscrowContract::dispute_cancellation(&mut env, CLIENT, id),
        Err(EscrowError::E3)
    );
    assert_eq!(
        EscrowContract::dispute_cancellation(&mut env, OTHER, id),
        Err(EscrowError::E3)
    );
    assert_eq!(
        EscrowContract::dispute_cancellation(&mut env, ADMIN, id),
        Err(EscrowError::E3)
    );
    EscrowContract::dispute_cancellation(&mut env, FREELANCER, id).unwrap();
    assert_eq!(meta(&env, id).dispute_started_ledger, Some(5));
    assert_eq!(meta(&env, id).dispute_start_ledger, Some(7));
    assert_eq!(
        EscrowContract::resolve_dispute(&mut env, ADMIN, id, 50, 50),
        Err(EscrowError::E64)
    );
    env.sequence = 5 + DISPUTE_COOLDOWN_LEDGERS;
    EscrowContract::resolve_dispute(&mut env, ADMIN, id, 30, 70).unwrap();
    assert_eq!(net(&env, FREELANCER), 70);
}

#[test]
fn a_dispute_without_a_start_is_not_decided() {
    let mut env = initialized();
    let id = create(&mut env, 100, 1);
    let mut m = meta(&env, id);
    m.status = EscrowStatus::Disputed;
    ContractStorage::save_escrow_meta(&mut env, &m);
    assert_eq!(
        EscrowContract::resolve_dispute(&mut env, ADMIN, id, 50, 50),
        Err(EscrowError::E10)
    );
    assert_eq!(
        EscrowContract::oracle_resolve_dispute(&mut env, id, payload_for(id, 10), 0),
        Err(EscrowError::E60)
    );
}

#[test]
fn an_arbiter_off_the_list_decides_nothing() {
    let mut env = initialized();
    EscrowContract::add_to_arbiter_allowlist(&mut env, ADMIN, ARBITER).unwrap();
    let id = create_from(&mut env, Args { arbiter: Some(ARBITER), ..plain() }).unwrap();
    EscrowContract::set_arbiter_fee_bps(&mut env, ADMIN, id, 10_000).unwrap();
    assert_eq!(
        EscrowContract::set_arbiter_fee_bps(&mut env, ADMIN, id, 10_001),
        Err(EscrowError::E88)
    );
    EscrowContract::raise_dispute(&mut env, CLIENT, id, None).unwrap();
    env.sequence = DISPUTE_COOLDOWN_LEDGERS;
    EscrowContract::remove_from_arbiter_allowlist(&mut env, ADMIN, ARBITER).unwrap();
    assert_eq!(
        EscrowContract::resolve_dispute(&mut env, ARBITER, id, 500, 500),
        Err(EscrowError::E90)
    );
    ContractStorage::save_fee_snapshot(
        &mut env,
        id,
        &EscrowFeeSnapshot { fee_bps: 1, fee_amount: 1, collected: false },
    );
    assert_eq!(
        EscrowContract::resolve_dispute(&mut env, ADMIN, id, 500, 500),
        Err(EscrowError::E89)
    );
}

#[test]
fn a_price_that_moved_blocks() {
    let mut env = initialized();
    let id = create(&mut env, 1_000, 1);
    let mid = add(&mut env, id, "M", 2, 1_000);
    assert_eq!(
        EscrowContract::set_slippage_bps(&mut env, CLIENT, id, 10_001),
        Err(EscrowError::E85)
    );
    assert_eq!(
        EscrowContract::set_slippage_bps(&mut env, CLIENT, id, 100),
        Err(env.no_price)
    );
    env.prices.set(TOKEN, 10_000);
    EscrowContract::set_slippage_bps(&mut env, CLIENT, id, 100).unwrap();
    EscrowContract::submit_milestone(&mut env, FREELANCER, id, mid).unwrap();
    env.prices.set(TOKEN, 9_899);
    assert_eq!(
        EscrowContract::approve_milestone(&mut env, CLIENT, id, mid),
        Err(EscrowError::E86)
    );
    env.prices.set(TOKEN, 9_900);
    EscrowContract::approve_milestone(&mut env, CLIENT, id, mid).unwrap();
    assert_eq!(net(&env, FREELANCER), 1_000);
}

#[test]
fn a_swap_needs_an_exchange() {
    let mut env = initialized();
    let id = create(&mut env, 1_000, 1);
    let swap = |env: &mut Ledger, out: Address, amount: i128| {
        EscrowContract::swap_asset_via_dex(env, CLIENT, id, TOKEN, out, amount, 1)
    };
    assert_eq!(swap(&mut env, OTHER, 10), Err(EscrowError::DexNotConfigured));
    env.config.dex_config =
        Some(DexConfig { items: vec![TokenPair { from: TOKEN, to: OTHER }] });
    assert_eq!(swap(&mut env, ADMIN, 10), Err(EscrowError::InvalidSwapParameters));
    assert_eq!(swap(&mut env, OTHER, 1_001), Err(EscrowError::InvalidSwapParameters));
    let record = swap(&mut env, OTHER, 10).unwrap();
    assert_eq!(record.amount_out, Some(10));
    assert_eq!(meta(&env, id).remaining_balance, 990);
}
