//! What holds in every state that requests lead to.
use vstd::prelude::*;

use crate::cancellation::clamped_sub;
use crate::constants::{MAX_ESCROW_AMOUNT, MIN_ESCROW_AMOUNT};
use crate::creation::NewEscrow;
use crate::errors::EscrowError;
use crate::laws::distinct_parties;
use crate::ledger::{ConfigView, LedgerView};
use crate::recurring::Run;
use crate::release::lemma_waiting_told;
use crate::storage::reserve;
use crate::types::{
    Address, Hash32, MetaView, MilestoneTemplateView, MilestoneView, OracleResolutionPayload,
    PackedDataKey, PriceCondition, RecurringInterval,
};

verus! {

/// An escrow's header as requests leave it: it stands under its own id, which
/// was handed out; its parties differ; its total amount is within the limits;
/// and its prepaid rent is not negative.
pub open spec fn sound_meta(k: PackedDataKey, m: MetaView, counter: u64) -> bool {
    &&& k == PackedDataKey::EscrowMeta(m.escrow_id)
    &&& m.escrow_id < counter
    &&& distinct_parties(m)
    &&& MIN_ESCROW_AMOUNT <= m.total_amount <= MAX_ESCROW_AMOUNT
    &&& m.rent_balance >= 0
}

impl LedgerView {
    /// All headers are sound, milestones stand under their own ids, and there is
    /// nothing before the contract is set up.
    pub open spec fn sound(self) -> bool {
        &&& forall|k: PackedDataKey| #[trigger]
            self.book.metas.contains_key(k) ==> sound_meta(
                k,
                self.book.metas[k],
                self.config.escrow_counter,
            )
        &&& forall|k: PackedDataKey| #[trigger]
            self.book.milestones.contains_key(k) ==> (k matches PackedDataKey::Milestone(_, mid)
                && self.book.milestones[k].id == mid)
        &&& self.config.admin is None ==> (forall|k: PackedDataKey|
            !(#[trigger] self.book.metas.contains_key(k)))
    }
}

/// A fresh contract is sound, and setting it up keeps it so.
pub proof fn law_start_sound(env: LedgerView, admin: Address, signers: Seq<u64>, threshold: u32)
    requires
        env.config == crate::ledger::Config::blank(),
        env.book == crate::ledger::Book::blank(),
    ensures
        env.sound(),
        env.initialize(admin) is Ok ==> env.initialize(admin)->Ok_0.0.sound(),
        env.initialize_signers(admin, signers, threshold) is Ok ==> env.initialize_signers(
            admin,
            signers,
            threshold,
        )->Ok_0.0.sound(),
{
}

/// Changes of the configuration that leave the admin and the counter alone keep
/// a state sound.
pub proof fn law_configuring_sound(
    env: LedgerView,
    caller: Address,
    config: ConfigView,
    event: crate::events::Event,
    paused: bool,
)
    requires
        env.sound(),
        config.admin == env.config.admin,
        config.escrow_counter == env.config.escrow_counter,
    ensures
        env.by_admin(caller, config) is Ok ==> env.by_admin(caller, config)->Ok_0.0.sound(),
        env.by_admin_told(caller, config, event) is Ok ==> env.by_admin_told(
            caller,
            config,
            event,
        )->Ok_0.0.sound(),
        env.set_paused(caller, paused) is Ok ==> env.set_paused(caller, paused)->Ok_0.0.sound(),
        env.accept_admin(caller) is Ok ==> env.accept_admin(caller)->Ok_0.0.sound(),
{
}

/// Looking an escrow up keeps a state sound.
pub proof fn lemma_access_sound(env: LedgerView, id: u64)
    requires
        env.sound(),
        env.accessed(id) is Ok,
    ensures
        env.accessed(id)->Ok_0.0.sound(),
        env.accessed(id)->Ok_0.0.has_meta(id),
        env.accessed(id)->Ok_0.0.meta(id) == env.accessed(id)->Ok_0.1,
        env.accessed(id)->Ok_0.0.config == env.config,
        env.accessed(id)->Ok_0.0.timestamp == env.timestamp,
        sound_meta(
            PackedDataKey::EscrowMeta(id),
            env.accessed(id)->Ok_0.1,
            env.config.escrow_counter,
        ),
{
    let m = env.meta(id);
    assert(env.book.metas.contains_key(PackedDataKey::EscrowMeta(id)));
    let elapsed = crate::storage::rent_periods(env.timestamp, m.last_rent_collection_at);
    crate::rent::lemma_rent_end_kept(env, m, elapsed);
}

/// Creating escrows keeps a state sound.
#[verifier::rlimit(40)]
pub proof fn law_creating_sound(
    env: LedgerView,
    a: NewEscrow,
    client: Address,
    freelancer: Address,
    token: Address,
    payment_amount: i128,
    interval: RecurringInterval,
    start_time: u64,
    end_date: Option<u64>,
    count: Option<u32>,
    hash: Hash32,
)
    requires
        env.sound(),
        env.config.escrow_counter < u64::MAX,
    ensures
        env.created(a) is Ok ==> env.created(a)->Ok_0.0.sound(),
        env.recurring_created(
            client,
            freelancer,
            token,
            payment_amount,
            interval,
            start_time,
            end_date,
            count,
            hash,
        ) is Ok ==> env.recurring_created(
            client,
            freelancer,
            token,
            payment_amount,
            interval,
            start_time,
            end_date,
            count,
            hash,
        )->Ok_0.0.sound(),
{
    let n = crate::schedule::total_payments(start_time, interval, end_date, count);
    if n is Ok {
        assert(payment_amount >= 1 && n->Ok_0 >= 1 ==> payment_amount * n->Ok_0 >= 1)
            by (nonlinear_arith);
        if env.recurring_created(
            client,
            freelancer,
            token,
            payment_amount,
            interval,
            start_time,
            end_date,
            count,
            hash,
        ) is Ok {
            assert(n->Ok_0 >= 1) by {
                if end_date is Some && start_time <= end_date->Some_0 {
                    crate::schedule::lemma_payments_until(
                        start_time,
                        end_date->Some_0,
                        interval,
                        0,
                    );
                }
            }
        }
    }
}

/// Working on milestones keeps a state sound.
#[verifier::rlimit(40)]
pub proof fn law_milestones_sound(
    env: LedgerView,
    caller: Address,
    id: u64,
    mid: u32,
    title: Seq<u8>,
    hash: Hash32,
    amount: i128,
    condition: PriceCondition,
)
    requires
        env.sound(),
    ensures
        env.add_milestone(caller, id, title, hash, amount) is Ok ==> env.add_milestone(
            caller,
            id,
            title,
            hash,
            amount,
        )->Ok_0.0.sound(),
        env.add_price_milestone(caller, id, title, hash, amount, condition) is Ok
            ==> env.add_price_milestone(
            caller,
            id,
            title,
            hash,
            amount,
            condition,
        )->Ok_0.0.sound(),
        env.retitle(caller, id, mid, title) is Ok ==> env.retitle(
            caller,
            id,
            mid,
            title,
        )->Ok_0.0.sound(),
        env.submit(caller, id, mid) is Ok ==> env.submit(caller, id, mid)->Ok_0.0.sound(),
        env.reject(caller, id, mid) is Ok ==> env.reject(caller, id, mid)->Ok_0.0.sound(),
        env.reject_with_reason(caller, id, mid, hash) is Ok ==> env.reject_with_reason(
            caller,
            id,
            mid,
            hash,
        )->Ok_0.0.sound(),
        env.oracle_release(caller, id, mid) is Ok ==> env.oracle_release(
            caller,
            id,
            mid,
        )->Ok_0.0.sound(),
{
    if env.authed(caller).accessed(id) is Ok {
        lemma_access_sound(env.authed(caller), id);
    }
}

/// Telling observers of dependents keeps a state sound.
proof fn lemma_dependents_sound(env: LedgerView, id: u64, prereq: u32)
    requires
        env.sound(),
    ensures
        env.dependents_told(id, prereq).sound(),
        env.dependents_told(id, prereq).config == env.config,
{
    if env.accessed(id) is Ok {
        lemma_access_sound(env, id);
        let (post, m) = env.accessed(id)->Ok_0;
        lemma_waiting_told(post, id, prereq, m.milestone_count as nat);
    }
}

proof fn lemma_approval_sound(
    env: LedgerView,
    caller: Address,
    id: u64,
    mid: u32,
    m: MetaView,
    ms: MilestoneView,
)
    requires
        env.sound(),
        env.config.admin is Some,
        sound_meta(PackedDataKey::EscrowMeta(id), m, env.config.escrow_counter),
        ms.id == mid,
        env.approval_done(caller, id, mid, m, ms) is Ok,
    ensures
        env.approval_done(caller, id, mid, m, ms)->Ok_0.0.sound(),
{
    let seen = env.timelock_seen(id, m.timelock);
    let over = env.timelock_over(id, m.timelock) is Ok;
    let paid = if over {
        seen.paid(m.token, m.freelancer, ms.amount).told(
            crate::events::Event::FundsReleased {
                escrow_id: id,
                to: m.freelancer,
                amount: ms.amount,
            },
        )
    } else {
        seen
    };
    let ms2 = MilestoneView {
        status: if over {
            crate::types::MS_RELEASED
        } else {
            crate::types::MS_APPROVED
        },
        resolved_at: Some(env.timestamp),
        ..ms
    };
    lemma_dependents_sound(paid.saved_milestone(id, ms2), id, mid);
}

/// Approving keeps a state sound.
#[verifier::rlimit(40)]
pub proof fn law_approving_sound(env: LedgerView, caller: Address, id: u64, mid: u32)
    requires
        env.sound(),
        env.approve(caller, id, mid) is Ok,
    ensures
        env.approve(caller, id, mid)->Ok_0.0.sound(),
{
    let asked = env.authed(caller);
    lemma_access_sound(asked, id);
    let (seen, m) = asked.accessed(id)->Ok_0;
    assert(env.book.metas.contains_key(PackedDataKey::EscrowMeta(id)));
    let open = seen.unlocked(id, m.lock_time)->Ok_0.0;
    let ms = open.milestone(id, mid);
    assert(open.book.milestones.contains_key(PackedDataKey::Milestone(id, mid)));
    if m.multisig_threshold == 0 {
        lemma_approval_sound(open, caller, id, mid, m, ms);
    } else {
        let signed = open.signed(ms, caller);
        let weight = crate::multisig::accrued(m, signed.approvals);
        let noted = open.told(
            crate::events::Event::MultisigApprovalRecorded {
                escrow_id: id,
                milestone_id: mid,
                signer: caller,
                accrued: weight as u32,
                threshold: m.multisig_threshold,
            },
        );
        if weight >= m.multisig_threshold {
            lemma_approval_sound(noted, caller, id, mid, m, signed);
        }
    }
}

proof fn lemma_release_paid_sound(
    env: LedgerView,
    caller: Address,
    id: u64,
    mid: u32,
    m: MetaView,
    ms: MilestoneView,
)
    requires
        env.sound(),
        env.config.admin is Some,
        sound_meta(PackedDataKey::EscrowMeta(id), m, env.config.escrow_counter),
        ms.id == mid,
        env.release_paid(caller, id, mid, m, ms) is Ok,
    ensures
        env.release_paid(caller, id, mid, m, ms)->Ok_0.0.sound(),
{
    let done = m.released_count + 1 == m.milestone_count && !env.scheduled(id);
    let feed = env.last_fee(id, m.token, done)->Ok_0.0;
    let shown = feed.paid(m.token, m.freelancer, ms.amount).saved_milestone(
        id,
        MilestoneView { status: crate::types::MS_RELEASED, ..ms },
    );
    lemma_dependents_sound(shown, id, mid);
}

/// Releasing keeps a state sound.
#[verifier::rlimit(40)]
pub proof fn law_releasing_sound(env: LedgerView, caller: Address, id: u64, mid: u32)
    requires
        env.sound(),
    ensures
        env.release(caller, id, mid) is Ok ==> env.release(caller, id, mid)->Ok_0.0.sound(),
        env.timed_release(caller, id, mid) is Ok ==> env.timed_release(
            caller,
            id,
            mid,
        )->Ok_0.0.sound(),
{
    let asked = env.authed(caller);
    if asked.accessed(id) is Ok && env.has_milestone(id, mid) {
        lemma_access_sound(asked, id);
        let (seen, m) = asked.accessed(id)->Ok_0;
        assert(env.book.metas.contains_key(PackedDataKey::EscrowMeta(id)));
        assert(env.book.milestones.contains_key(PackedDataKey::Milestone(id, mid)));
        let ms = env.milestone(id, mid);
        if env.release(caller, id, mid) is Ok {
            let open = seen.timelock_seen(id, m.timelock).unlocked(id, m.lock_time)->Ok_0.0;
            lemma_release_paid_sound(open, caller, id, mid, m, ms);
        }
        if env.timed_release(caller, id, mid) is Ok {
            let open = seen.lock_seen(id, m.lock_time);
            let dated = MilestoneView { resolved_at: Some(env.timestamp), ..ms };
            lemma_release_paid_sound(open, caller, id, mid, m, dated);
        }
    }
}

proof fn lemma_batch_saved_sound(
    env: LedgerView,
    id: u64,
    first: u32,
    titles: Seq<Seq<u8>>,
    hashes: Seq<Hash32>,
    amounts: Seq<i128>,
    k: nat,
)
    requires
        env.sound(),
    ensures
        env.batch_saved(id, first, titles, hashes, amounts, k).sound(),
        env.batch_saved(id, first, titles, hashes, amounts, k).config == env.config,
    decreases k,
{
    if k > 0 {
        lemma_batch_saved_sound(env, id, first, titles, hashes, amounts, (k - 1) as nat);
    }
}

proof fn lemma_batch_marked_sound(
    env: LedgerView,
    caller: Address,
    id: u64,
    m: MetaView,
    ids: Seq<u32>,
    over: bool,
    k: nat,
)
    requires
        env.sound(),
        sound_meta(PackedDataKey::EscrowMeta(id), m, env.config.escrow_counter),
        env.batch_marked(caller, id, m, ids, over, k) is Ok,
    ensures
        env.batch_marked(caller, id, m, ids, over, k)->Ok_0.0.sound(),
        env.batch_marked(caller, id, m, ids, over, k)->Ok_0.0.config == env.config,
        sound_meta(
            PackedDataKey::EscrowMeta(id),
            env.batch_marked(caller, id, m, ids, over, k)->Ok_0.1,
            env.config.escrow_counter,
        ),
    decreases k,
{
    if k > 0 {
        lemma_batch_marked_sound(env, caller, id, m, ids, over, (k - 1) as nat);
        let (before, m1) = env.batch_marked(caller, id, m, ids, over, (k - 1) as nat)->Ok_0;
        let mid = ids[k - 1];
        assert(before.book.milestones.contains_key(PackedDataKey::Milestone(id, mid)));
        let policy = m1.multisig_threshold > 0;
        let found = before.milestone(id, mid);
        let ms = if policy {
            before.signed(found, caller)
        } else {
            found
        };
        let weight = crate::multisig::accrued(m1, ms.approvals);
        let noted = if policy {
            before.told(
                crate::events::Event::MultisigApprovalRecorded {
                    escrow_id: id,
                    milestone_id: mid,
                    signer: caller,
                    accrued: weight as u32,
                    threshold: m1.multisig_threshold,
                },
            )
        } else {
            before
        };
        let marked = noted.saved_milestone(
            id,
            MilestoneView {
                resolved_at: Some(before.timestamp),
                status: if over {
                    crate::types::MS_RELEASED
                } else {
                    crate::types::MS_APPROVED
                },
                ..ms
            },
        );
        lemma_dependents_sound(marked, id, mid);
    }
}

proof fn lemma_release_marked_sound(
    env: LedgerView,
    id: u64,
    to: Address,
    ids: Seq<u32>,
    n: nat,
    k: nat,
)
    requires
        env.sound(),
        k <= n <= ids.len(),
        forall|i: int| 0 <= i < n ==> env.has_milestone(id, #[trigger] ids[i]),
    ensures
        env.release_marked(id, to, ids, k).sound(),
        env.release_marked(id, to, ids, k).config == env.config,
        forall|i: int|
            0 <= i < n ==> env.release_marked(id, to, ids, k).has_milestone(id, #[trigger] ids[i]),
    decreases k,
{
    if k > 0 {
        lemma_release_marked_sound(env, id, to, ids, n, (k - 1) as nat);
        let before = env.release_marked(id, to, ids, (k - 1) as nat);
        assert(before.has_milestone(id, ids[k - 1]));
        assert(before.book.milestones.contains_key(PackedDataKey::Milestone(id, ids[k - 1])));
    }
}

proof fn lemma_release_due_all(env: LedgerView, id: u64, ids: Seq<u32>, n: nat)
    requires
        n <= ids.len(),
        env.release_due(id, ids, n) is Ok,
    ensures
        forall|i: int| 0 <= i < n ==> env.has_milestone(id, #[trigger] ids[i]),
    decreases n,
{
    if n > 0 {
        lemma_release_due_all(env, id, ids, (n - 1) as nat);
    }
}

#[verifier::rlimit(40)]
proof fn lemma_batch_add_sound(
    env: LedgerView,
    caller: Address,
    id: u64,
    titles: Seq<Seq<u8>>,
    hashes: Seq<Hash32>,
    amounts: Seq<i128>,
)
    requires
        env.sound(),
        env.batch_add(caller, id, titles, hashes, amounts) is Ok,
    ensures
        env.batch_add(caller, id, titles, hashes, amounts)->Ok_0.0.sound(),
{
    lemma_access_sound(env.authed(caller), id);
    assert(env.book.metas.contains_key(PackedDataKey::EscrowMeta(id)));
    let (seen, m) = env.authed(caller).accessed(id)->Ok_0;
    let n = titles.len();
    let charged = seen.charged(m.token, caller, reserve(n as int) as i128);
    lemma_batch_saved_sound(charged, id, m.milestone_count, titles, hashes, amounts, n);
}

#[verifier::rlimit(40)]
proof fn lemma_batch_approve_sound(env: LedgerView, caller: Address, id: u64, ids: Seq<u32>)
    requires
        env.sound(),
        env.batch_approve(caller, id, ids) is Ok,
    ensures
        env.batch_approve(caller, id, ids)->Ok_0.0.sound(),
{
    lemma_access_sound(env.authed(caller), id);
    assert(env.book.metas.contains_key(PackedDataKey::EscrowMeta(id)));
    let (seen, m) = env.authed(caller).accessed(id)->Ok_0;
    let open = seen.unlocked(id, m.lock_time)->Ok_0.0;
    let over = open.timelock_over(id, m.timelock) is Ok;
    let base = open.timelock_seen(id, m.timelock);
    lemma_batch_marked_sound(base, caller, id, m, ids, over, ids.len());
}

#[verifier::rlimit(40)]
proof fn lemma_batch_release_sound(env: LedgerView, caller: Address, id: u64, ids: Seq<u32>)
    requires
        env.sound(),
        env.batch_release(caller, id, ids) is Ok,
    ensures
        env.batch_release(caller, id, ids)->Ok_0.0.sound(),
{
    lemma_access_sound(env.authed(caller), id);
    assert(env.book.metas.contains_key(PackedDataKey::EscrowMeta(id)));
    let (seen, m) = env.authed(caller).accessed(id)->Ok_0;
    let open = seen.unlocked(id, m.lock_time)->Ok_0.0;
    lemma_release_due_all(open, id, ids, ids.len());
    lemma_release_marked_sound(open, id, m.freelancer, ids, ids.len(), ids.len());
}

/// Requests on several milestones keep a state sound.
pub proof fn law_batches_sound(
    env: LedgerView,
    caller: Address,
    id: u64,
    titles: Seq<Seq<u8>>,
    hashes: Seq<Hash32>,
    amounts: Seq<i128>,
    ids: Seq<u32>,
)
    requires
        env.sound(),
    ensures
        env.batch_add(caller, id, titles, hashes, amounts) is Ok ==> env.batch_add(
            caller,
            id,
            titles,
            hashes,
            amounts,
        )->Ok_0.0.sound(),
        env.batch_approve(caller, id, ids) is Ok ==> env.batch_approve(
            caller,
            id,
            ids,
        )->Ok_0.0.sound(),
        env.batch_release(caller, id, ids) is Ok ==> env.batch_release(
            caller,
            id,
            ids,
        )->Ok_0.0.sound(),
{
    if env.batch_add(caller, id, titles, hashes, amounts) is Ok {
        lemma_batch_add_sound(env, caller, id, titles, hashes, amounts);
    }
    if env.batch_approve(caller, id, ids) is Ok {
        lemma_batch_approve_sound(env, caller, id, ids);
    }
    if env.batch_release(caller, id, ids) is Ok {
        lemma_batch_release_sound(env, caller, id, ids);
    }
}

proof fn lemma_run_sound(run: Run, id: u64)
    requires
        run.env.sound(),
        sound_meta(PackedDataKey::EscrowMeta(id), run.m, run.env.config.escrow_counter),
        run.paid_all(id) is Ok,
    ensures
        run.paid_all(id)->Ok_0.env.sound(),
        run.paid_all(id)->Ok_0.env.config == run.env.config,
        sound_meta(
            PackedDataKey::EscrowMeta(id),
            run.paid_all(id)->Ok_0.m,
            run.env.config.escrow_counter,
        ),
    decreases run.c.payments_remaining,
{
    if run.due() {
        lemma_run_sound(run.paid_once(id)->Ok_0, id);
    }
}

/// Schedules keep a state sound.
#[verifier::rlimit(40)]
pub proof fn law_schedules_sound(env: LedgerView, caller: Address, id: u64)
    requires
        env.sound(),
    ensures
        env.process_recurring(id) is Ok ==> env.process_recurring(id)->Ok_0.0.sound(),
        env.pause_schedule(caller, id) is Ok ==> env.pause_schedule(caller, id)->Ok_0.0.sound(),
        env.resume_schedule(caller, id) is Ok ==> env.resume_schedule(caller, id)->Ok_0.0.sound(),
        env.cancel_schedule(caller, id) is Ok ==> env.cancel_schedule(caller, id)->Ok_0.0.sound(),
{
    if env.accessed(id) is Ok {
        lemma_access_sound(env, id);
        if env.process_recurring(id) is Ok {
            let (seen, m) = env.accessed(id)->Ok_0;
            let run = Run { env: seen, m, c: seen.recurring(id), count: 0, total: 0 };
            lemma_run_sound(run, id);
        }
    }
    if env.authed(caller).accessed(id) is Ok {
        lemma_access_sound(env.authed(caller), id);
    }
}

/// Cancelling keeps a state sound.
#[verifier::rlimit(40)]
pub proof fn law_cancelling_sound(env: LedgerView, caller: Address, id: u64, reason: Seq<u8>)
    requires
        env.sound(),
    ensures
        env.cancel(caller, id) is Ok ==> env.cancel(caller, id)->Ok_0.0.sound(),
        env.cancel_rest(caller, id) is Ok ==> env.cancel_rest(caller, id)->Ok_0.0.sound(),
        env.ask_cancellation(caller, id, reason) is Ok ==> env.ask_cancellation(
            caller,
            id,
            reason,
        )->Ok_0.0.sound(),
        env.agree_cancellation(caller, id) is Ok ==> env.agree_cancellation(
            caller,
            id,
        )->Ok_0.0.sound(),
        env.object_cancellation(caller, id) is Ok ==> env.object_cancellation(
            caller,
            id,
        )->Ok_0.0.sound(),
{
    if env.authed(caller).accessed(id) is Ok {
        lemma_access_sound(env.authed(caller), id);
    }
}

/// Splitting keeps a state sound.
#[verifier::rlimit(40)]
pub proof fn law_splitting_sound(
    env: LedgerView,
    caller: Address,
    id: u64,
    amount: i128,
    hash: Hash32,
)
    requires
        env.sound(),
        env.config.escrow_counter < u64::MAX - 1,
        env.split(caller, id, amount, hash) is Ok,
    ensures
        env.split(caller, id, amount, hash)->Ok_0.0.sound(),
{
    lemma_access_sound(env.authed(caller), id);
    let (seen, m) = env.authed(caller).accessed(id)->Ok_0;
    let moved = m.remaining_balance - m.allocated_amount;
    let lowered = seen.both_authed(caller, m).saved_meta(
        MetaView {
            remaining_balance: m.allocated_amount,
            allotted_amount: clamped_sub(m.allotted_amount, moved as i128),
            ..m
        },
    );
    assert(env.book.metas.contains_key(PackedDataKey::EscrowMeta(id)));
    assert(lowered.sound());
    lemma_created_sound(lowered, LedgerView::child(m, amount, hash), false);
    let one = lowered.child_created(m, amount, hash)->Ok_0.0;
    lemma_created_sound(one, LedgerView::child(m, (moved - amount) as i128, hash), false);
}

/// Slashing keeps a state sound.
#[verifier::rlimit(40)]
pub proof fn law_slashing_sound(env: LedgerView, caller: Address, id: u64, upheld: bool)
    requires
        env.sound(),
    ensures
        env.execute_cancellation(id) is Ok ==> env.execute_cancellation(id)->Ok_0.0.sound(),
        env.finalize(id) is Ok ==> env.finalize(id)->Ok_0.0.sound(),
        env.object_slash(caller, id) is Ok ==> env.object_slash(caller, id)->Ok_0.0.sound(),
        env.resolve_slash(caller, id, upheld) is Ok ==> env.resolve_slash(
            caller,
            id,
            upheld,
        )->Ok_0.0.sound(),
{
    if env.accessed(id) is Ok {
        lemma_access_sound(env, id);
    }
    if env.authed(caller).accessed(id) is Ok {
        lemma_access_sound(env.authed(caller), id);
    }
}

proof fn lemma_created_sound(env: LedgerView, a: NewEscrow, pays: bool)
    requires
        env.sound(),
        env.config.escrow_counter < u64::MAX,
        env.created_from(a, pays) is Ok,
    ensures
        env.created_from(a, pays)->Ok_0.0.sound(),
        env.created_from(a, pays)->Ok_0.0.config.escrow_counter == env.config.escrow_counter + 1,
{
}

/// Disputing keeps a state sound.
#[verifier::rlimit(40)]
pub proof fn law_disputes_sound(
    env: LedgerView,
    caller: Address,
    id: u64,
    milestone: Option<u32>,
    hash: Hash32,
    text: Seq<u8>,
)
    requires
        env.sound(),
    ensures
        env.raise(caller, id, milestone) is Ok ==> env.raise(
            caller,
            id,
            milestone,
        )->Ok_0.0.sound(),
        env.add_evidence(caller, id, hash, text) is Ok ==> env.add_evidence(
            caller,
            id,
            hash,
            text,
        )->Ok_0.0.sound(),
{
    if env.authed(caller).accessed(id) is Ok {
        lemma_access_sound(env.authed(caller), id);
        if env.raise(caller, id, milestone) is Ok && milestone is Some {
            let (seen, m) = env.authed(caller).accessed(id)->Ok_0;
            let mid = milestone->Some_0;
            if seen.has_milestone(id, mid) {
                assert(seen.book.milestones.contains_key(PackedDataKey::Milestone(id, mid)));
            }
        }
    }
}

#[verifier::rlimit(40)]
proof fn lemma_timeout_sound(env: LedgerView, caller: Address, id: u64)
    requires
        env.sound(),
        env.claim_timeout(caller, id) is Ok,
    ensures
        env.claim_timeout(caller, id)->Ok_0.0.sound(),
{
    lemma_access_sound(env.authed(caller), id);
}

#[verifier::rlimit(40)]
proof fn lemma_decision_sound(env: LedgerView, caller: Address, id: u64, a: i128, b: i128)
    requires
        env.sound(),
        env.resolve(caller, id, a, b) is Ok,
    ensures
        env.resolve(caller, id, a, b)->Ok_0.0.sound(),
{
    lemma_access_sound(env.authed(caller), id);
}

#[verifier::rlimit(40)]
proof fn lemma_oracle_sound(env: LedgerView, id: u64, p: OracleResolutionPayload, grace: u64)
    requires
        env.sound(),
        env.oracle_resolve(id, p, grace) is Ok,
    ensures
        env.oracle_resolve(id, p, grace)->Ok_0.0.sound(),
{
    lemma_access_sound(env, id);
}

/// Deciding a dispute keeps a state sound.
pub proof fn law_decisions_sound(
    env: LedgerView,
    caller: Address,
    id: u64,
    client_amount: i128,
    freelancer_amount: i128,
    p: OracleResolutionPayload,
    grace: u64,
)
    requires
        env.sound(),
    ensures
        env.claim_timeout(caller, id) is Ok ==> env.claim_timeout(caller, id)->Ok_0.0.sound(),
        env.resolve(caller, id, client_amount, freelancer_amount) is Ok ==> env.resolve(
            caller,
            id,
            client_amount,
            freelancer_amount,
        )->Ok_0.0.sound(),
        env.oracle_resolve(id, p, grace) is Ok ==> env.oracle_resolve(
            id,
            p,
            grace,
        )->Ok_0.0.sound(),
{
    if env.claim_timeout(caller, id) is Ok {
        lemma_timeout_sound(env, caller, id);
    }
    if env.resolve(caller, id, client_amount, freelancer_amount) is Ok {
        lemma_decision_sound(env, caller, id, client_amount, freelancer_amount);
    }
    if env.oracle_resolve(id, p, grace) is Ok {
        lemma_oracle_sound(env, id, p, grace);
    }
}

/// Changes of an escrow's terms and rent keep a state sound.
#[verifier::rlimit(40)]
pub proof fn law_terms_sound(
    env: LedgerView,
    caller: Address,
    id: u64,
    who: Address,
    arbiter: Option<Address>,
    time: u64,
    bps: u32,
    amount: i128,
)
    requires
        env.sound(),
    ensures
        env.transfer_client(id, who) is Ok ==> env.transfer_client(id, who)->Ok_0.0.sound(),
        env.replace_arbiter(id, arbiter) is Ok ==> env.replace_arbiter(id, arbiter)->Ok_0.0.sound(),
        env.accept(caller, id) is Ok ==> env.accept(caller, id)->Ok_0.0.sound(),
        env.set_slippage(caller, id, bps) is Ok ==> env.set_slippage(
            caller,
            id,
            bps,
        )->Ok_0.0.sound(),
        env.set_arbiter_fee(caller, id, bps) is Ok ==> env.set_arbiter_fee(
            caller,
            id,
            bps,
        )->Ok_0.0.sound(),
        env.start_timelock(caller, id, time) is Ok ==> env.start_timelock(
            caller,
            id,
            time,
        )->Ok_0.0.sound(),
        env.extend_lock(caller, id, time) is Ok ==> env.extend_lock(
            caller,
            id,
            time,
        )->Ok_0.0.sound(),
        env.set_release_time(caller, id, time) is Ok ==> env.set_release_time(
            caller,
            id,
            time,
        )->Ok_0.0.sound(),
        env.top_up(caller, id, time) is Ok ==> env.top_up(caller, id, time)->Ok_0.0.sound(),
        env.withdraw_rent(caller, id, amount) is Ok ==> env.withdraw_rent(
            caller,
            id,
            amount,
        )->Ok_0.0.sound(),
{
    if env.has_meta(id) {
        assert(env.book.metas.contains_key(PackedDataKey::EscrowMeta(id)));
    }
    if env.accessed(id) is Ok {
        lemma_access_sound(env, id);
    }
    if env.authed(caller).accessed(id) is Ok {
        lemma_access_sound(env.authed(caller), id);
        let (seen, m) = env.authed(caller).accessed(id)->Ok_0;
        assert(0 <= seen.rent_per_period(m) * time) by (nonlinear_arith)
            requires
                1 <= seen.rent_per_period(m),
                0 <= time,
        ;
        assert(seen.entries(m) >= 1);
    }
}

proof fn lemma_cleared_sound(env: LedgerView, id: u64, n: nat)
    requires
        env.sound(),
    ensures
        env.cleared(id, n).sound(),
        env.cleared(id, n).config == env.config,
    decreases n,
{
    if n > 0 {
        lemma_cleared_sound(env, id, (n - 1) as nat);
    }
}

/// Collecting rent, and winding up what has none left, keep a state sound.
pub proof fn law_collecting_sound(env: LedgerView, id: u64)
    requires
        env.sound(),
    ensures
        env.collect(id) is Ok ==> env.collect(id)->Ok_0.0.sound(),
{
    if env.has_meta(id) {
        assert(env.book.metas.contains_key(PackedDataKey::EscrowMeta(id)));
        let m = env.meta(id);
        let elapsed = crate::storage::rent_periods(env.timestamp, m.last_rent_collection_at);
        crate::rent::lemma_rent_end_kept(env, m, elapsed);
        if env.collect(id) is Ok {
            let (paid, (m2, amount)) = env.rent_collected(m)->Ok_0;
            let refund = m2.remaining_balance + m2.rent_balance;
            let refunded = if refund > 0 {
                paid.paid(m2.token, m2.client, refund as i128)
            } else {
                paid
            };
            lemma_cleared_sound(refunded, id, m2.milestone_count as nat);
        }
    }
}

proof fn lemma_template_sound(
    env: LedgerView,
    client: Address,
    id: u64,
    ts: Seq<MilestoneTemplateView>,
    k: nat,
)
    requires
        env.sound(),
        env.template_added(client, id, ts, k) is Ok,
    ensures
        env.template_added(client, id, ts, k)->Ok_0.0.sound(),
    decreases k,
{
    if k > 0 {
        lemma_template_sound(env, client, id, ts, (k - 1) as nat);
        let before = env.template_added(client, id, ts, (k - 1) as nat)->Ok_0.0;
        lemma_access_sound(before, id);
    }
}

/// What is created from a template keeps a state sound.
pub proof fn law_templates_sound(
    env: LedgerView,
    caller: Address,
    template_id: u64,
    a: NewEscrow,
    name: Seq<u8>,
    milestones: Seq<MilestoneTemplateView>,
)
    requires
        env.sound(),
        env.config.escrow_counter < u64::MAX,
    ensures
        env.template_created(caller, name, milestones) is Ok ==> env.template_created(
            caller,
            name,
            milestones,
        )->Ok_0.0.sound(),
        env.from_template(caller, template_id, a) is Ok ==> env.from_template(
            caller,
            template_id,
            a,
        )->Ok_0.0.sound(),
{
    if env.from_template(caller, template_id, a) is Ok {
        let ts = env.book.templates[template_id].milestones;
        lemma_created_sound(env.authed(caller), a, true);
        let (post, id) = env.authed(caller).created(a)->Ok_0;
        lemma_template_sound(post, a.client, id, ts, ts.len());
    }
}

proof fn lemma_all_authed_sound(env: LedgerView, presented: Seq<u64>, k: nat)
    requires
        env.sound(),
    ensures
        env.all_authed(presented, k).sound(),
    decreases k,
{
    if k > 0 {
        lemma_all_authed_sound(env, presented, (k - 1) as nat);
    }
}

/// Freezing, swaps, escalations, the arbiters' list, upgrades and nonces keep a
/// state sound.
#[verifier::rlimit(40)]
pub proof fn law_others_sound(
    env: LedgerView,
    caller: Address,
    id: u64,
    presented: Seq<u64>,
    frozen: bool,
    token_in: Address,
    token_out: Address,
    amount_in: i128,
    min_amount_out: i128,
    number: u64,
    code: Hash32,
    migrated: Result<(), EscrowError>,
)
    requires
        env.sound(),
    ensures
        env.set_frozen(id, presented, frozen) is Ok ==> env.set_frozen(
            id,
            presented,
            frozen,
        )->Ok_0.0.sound(),
        env.swap(caller, id, token_in, token_out, amount_in, min_amount_out) is Ok ==> env.swap(
            caller,
            id,
            token_in,
            token_out,
            amount_in,
            min_amount_out,
        )->Ok_0.0.sound(),
        env.escalate(caller, id, number) is Ok ==> env.escalate(
            caller,
            id,
            number,
        )->Ok_0.0.sound(),
        env.allow_arbiter(caller, token_in) is Ok ==> env.allow_arbiter(
            caller,
            token_in,
        )->Ok_0.0.sound(),
        env.disallow_arbiter(caller, token_in) is Ok ==> env.disallow_arbiter(
            caller,
            token_in,
        )->Ok_0.0.sound(),
        env.upgrade(caller, code, migrated) is Ok ==> env.upgrade(
            caller,
            code,
            migrated,
        )->Ok_0.0.sound(),
        env.nonce_used(caller, number) is Ok ==> env.nonce_used(caller, number)->Ok_0.0.sound(),
{
    if env.accessed(id) is Ok {
        lemma_access_sound(env, id);
        lemma_all_authed_sound(env.accessed(id)->Ok_0.0, presented, presented.len());
    }
    if env.authed(caller).accessed(id) is Ok {
        lemma_access_sound(env.authed(caller), id);
    }
}

} // verus!
