use escrow_contract::contract::EscrowContract;
use escrow_contract::errors::EscrowError;
use escrow_contract::events::Effect;
use escrow_contract::host::{Ids, Weights};
use escrow_contract::ledger::Ledger;
use escrow_contract::types::{Address, EscrowStatus, Hash32, MultisigConfig, Text};

const CONTRACT: Address = Address { id: 1000 };
const ADMIN: Address = Address { id: 1 };
const CLIENT: Address = Address { id: 2 };
const FREELANCER: Address = Address { id: 3 };
const TOKEN: Address = Address { id: 4 };
const TREASURY: Address = Address { id: 5 };

fn setup() -> Ledger {
    Ledger::new(soroban_sdk::Env::default(), CONTRACT)
}

fn initialized() -> Ledger {
    let mut env = setup();
    EscrowContract::initialize(&mut env, ADMIN).unwrap();
    env
}

fn no_multisig(env: &Ledger) -> MultisigConfig {
    MultisigConfig {
        approvers: Ids::new(&env.host),
        weights: Weights::new(&env.host),
        threshold: 0,
    }
}

fn hash(byte: u8) -> Hash32 {
    let half = u128::from_be_bytes([byte; 16]);
    Hash32 { hi: half, lo: half }
}

fn text(s: &str) -> Text {
    Text { bytes: s.as_bytes().to_vec() }
}

/// What the transfers so far have added to an account.
fn net(env: &Ledger, who: Address) -> i128 {
    let mut sum: i128 = 0;
    for e in env.log.iter() {
        if let Effect::Transfer { from, to, amount, .. } = e {
            if *from == who {
                sum -= amount;
            }
            if *to == who {
                sum += amount;
            }
        }
    }
    sum
}

fn create_with(env: &mut Ledger, amount: i128, brief: u8) -> Result<u64, EscrowError> {
    let policy = no_multisig(env);
    EscrowContract::create_escrow(
        env,
        CLIENT,
        FREELANCER,
        TOKEN,
        amount,
        hash(brief),
        None,
        None,
        None,
        None,
        policy,
        None,
    )
}

fn create(env: &mut Ledger, amount: i128, brief: u8) -> u64 {
    create_with(env, amount, brief).unwrap()
}

fn add(env: &mut Ledger, id: u64, title: &str, brief: u8, amount: i128) -> u32 {
    EscrowContract::add_milestone(env, CLIENT, id, text(title), hash(brief), amount).unwrap()
}

fn parent_with_one_milestone(env: &mut Ledger, total: i128, milestone: i128) -> u64 {
    let id = create(env, total, 1);
    add(env, id, "Milestone 1", 2, milestone);
    id
}

fn status(env: &mut Ledger, id: u64) -> EscrowStatus {
    EscrowContract::get_escrow_meta(env, id).unwrap().status
}

#[test]
fn test_two_way_split_cancel_each_refunds_correct_share() {
    let mut env = initialized();
    let parent = parent_with_one_milestone(&mut env, 1_000, 400);
    let (child1, child2) =
        EscrowContract::split_escrow(&mut env, CLIENT, parent, 250, hash(3)).unwrap();

    let before = net(&env, CLIENT);
    EscrowContract::cancel_escrow(&mut env, CLIENT, child1).unwrap();
    let after_c1 = net(&env, CLIENT);
    assert_eq!(after_c1 - before, 250);

    EscrowContract::cancel_escrow(&mut env, CLIENT, child2).unwrap();
    let after_c2 = net(&env, CLIENT);
    assert_eq!(after_c2 - after_c1, 350);

    assert_eq!(status(&mut env, child1), EscrowStatus::Cancelled);
    assert_eq!(status(&mut env, child2), EscrowStatus::Cancelled);
}

#[test]
fn test_multi_party_split_cancel_sums_to_unallocated() {
    let mut env = initialized();
    let parent = parent_with_one_milestone(&mut env, 3_000, 300);
    let (child_a, rem) =
        EscrowContract::split_escrow(&mut env, CLIENT, parent, 900, hash(10)).unwrap();
    let (child_b, child_c) =
        EscrowContract::split_escrow(&mut env, CLIENT, rem, 800, hash(11)).unwrap();

    let before = net(&env, CLIENT);
    EscrowContract::cancel_escrow(&mut env, CLIENT, child_a).unwrap();
    EscrowContract::cancel_escrow(&mut env, CLIENT, child_b).unwrap();
    EscrowContract::cancel_escrow(&mut env, CLIENT, child_c).unwrap();
    assert_eq!(net(&env, CLIENT) - before, 2_700);
}

#[test]
fn test_partial_release_before_cancellation_not_double_counted() {
    let mut env = initialized();
    let parent = parent_with_one_milestone(&mut env, 2_000, 500);
    let (child1, child2) =
        EscrowContract::split_escrow(&mut env, CLIENT, parent, 700, hash(20)).unwrap();
    let mid = add(&mut env, child1, "Sub-milestone", 21, 300);
    // A second milestone keeps the escrow open after the first is paid.
    add(&mut env, child1, "Later", 22, 400);
    EscrowContract::submit_milestone(&mut env, FREELANCER, child1, mid).unwrap();
    EscrowContract::approve_milestone(&mut env, CLIENT, child1, mid).unwrap();
    // The approval has paid the milestone: it cannot be paid again.
    assert_eq!(
        EscrowContract::release_funds(&mut env, CLIENT, child1, mid),
        Err(EscrowError::E14)
    );

    let released = net(&env, FREELANCER);
    assert_eq!(released, 300);
    let before = net(&env, CLIENT);
    EscrowContract::cancel_escrow(&mut env, CLIENT, child1).unwrap();
    assert_eq!(net(&env, CLIENT) - before, 400);
    assert_eq!(net(&env, FREELANCER), released);
    assert_eq!(status(&mut env, child2), EscrowStatus::Active);
}

#[test]
fn test_rounding_residue_not_lost_on_cancel() {
    let mut env = initialized();
    let parent = parent_with_one_milestone(&mut env, 1_001, 1);
    let (child1, child2) =
        EscrowContract::split_escrow(&mut env, CLIENT, parent, 499, hash(30)).unwrap();
    let before = net(&env, CLIENT);
    EscrowContract::cancel_escrow(&mut env, CLIENT, child1).unwrap();
    EscrowContract::cancel_escrow(&mut env, CLIENT, child2).unwrap();
    assert_eq!(net(&env, CLIENT) - before, 1_000);
}

#[test]
fn test_child_no_milestones_full_refund_on_cancel() {
    let mut env = initialized();
    let parent = parent_with_one_milestone(&mut env, 800, 200);
    let (child, _sibling) =
        EscrowContract::split_escrow(&mut env, CLIENT, parent, 300, hash(40)).unwrap();
    let before = net(&env, CLIENT);
    EscrowContract::cancel_escrow(&mut env, CLIENT, child).unwrap();
    assert_eq!(net(&env, CLIENT) - before, 300);
}

#[test]
fn test_cancel_one_child_does_not_affect_sibling() {
    let mut env = initialized();
    let parent = parent_with_one_milestone(&mut env, 2_000, 500);
    let (child1, child2) =
        EscrowContract::split_escrow(&mut env, CLIENT, parent, 600, hash(50)).unwrap();
    add(&mut env, child2, "Child2 work", 51, 400);
    EscrowContract::cancel_escrow(&mut env, CLIENT, child1).unwrap();

    assert_eq!(status(&mut env, child1), EscrowStatus::Cancelled);
    let sibling = EscrowContract::get_escrow_meta(&mut env, child2).unwrap();
    assert_eq!(sibling.status, EscrowStatus::Active);
    assert_eq!(sibling.total_amount, 900);
    assert_eq!(sibling.milestone_count, 1);
}

#[test]
fn a_cancelled_child_pays_no_fee() {
    let mut env = initialized();
    EscrowContract::set_platform_treasury(&mut env, ADMIN, TREASURY).unwrap();
    let parent = parent_with_one_milestone(&mut env, 1_000, 400);
    let (child1, child2) =
        EscrowContract::split_escrow(&mut env, CLIENT, parent, 250, hash(3)).unwrap();
    EscrowContract::cancel_escrow(&mut env, CLIENT, child1).unwrap();
    EscrowContract::cancel_escrow(&mut env, CLIENT, child2).unwrap();
    assert_eq!(net(&env, TREASURY), 0);
    // What is left of the parent is charged as any escrow is.
    EscrowContract::cancel_escrow(&mut env, CLIENT, parent).unwrap();
    assert_eq!(net(&env, TREASURY), 15);
}

#[test]
fn a_split_moves_what_is_unallocated() {
    let mut env = initialized();
    let parent = parent_with_one_milestone(&mut env, 1_000, 400);
    let before = net(&env, CLIENT);
    let held = net(&env, CONTRACT);
    let (child1, child2) =
        EscrowContract::split_escrow(&mut env, CLIENT, parent, 250, hash(3)).unwrap();
    // The client pays the rent of two new escrows and nothing else.
    assert_eq!(net(&env, CLIENT) - before, -60);
    assert_eq!(net(&env, CONTRACT) - held, 60);
    let parent = EscrowContract::get_escrow_meta(&mut env, parent).unwrap();
    assert_eq!(parent.remaining_balance, 400);
    assert_eq!(parent.status, EscrowStatus::Active);
    let child1 = EscrowContract::get_escrow_meta(&mut env, child1).unwrap();
    let child2 = EscrowContract::get_escrow_meta(&mut env, child2).unwrap();
    assert_eq!(child1.remaining_balance, 250);
    assert_eq!(child2.remaining_balance, 350);
}
