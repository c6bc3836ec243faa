//! What has to hold before money is paid out, and what is kept of it.
use vstd::prelude::*;

use crate::events::Event;
use crate::ledger::LedgerView;
use crate::milestones::one_less;
use crate::multisig::accrued;
use crate::recurring::Run;
use crate::release::lemma_waiting_told;
use crate::types::{
    Address, Hash32, MetaView, MilestoneView, PackedDataKey, MS_APPROVED, MS_RELEASED, MS_SUBMITTED,
};

verus! {

/// Telling observers of dependents touches neither milestones nor terms nor
/// schedules nor prices.
pub proof fn lemma_dependents_kept(env: LedgerView, id: u64, prereq: u32)
    ensures
        env.dependents_told(id, prereq).book.milestones == env.book.milestones,
        env.dependents_told(id, prereq).book.terms == env.book.terms,
        env.dependents_told(id, prereq).book.recurring == env.book.recurring,
        env.dependents_told(id, prereq).prices == env.prices,
        env.dependents_told(id, prereq).no_price == env.no_price,
        env.dependents_told(id, prereq).timestamp == env.timestamp,
{
    if env.accessed(id) is Ok {
        let (post, m) = env.accessed(id)->Ok_0;
        lemma_waiting_told(post, id, prereq, m.milestone_count as nat);
    }
}

/// Marking a milestone of a batch writes that milestone and counts it.
proof fn lemma_mark_kept(
    env: LedgerView,
    caller: Address,
    id: u64,
    m: MetaView,
    mid: u32,
    over: bool,
)
    requires
        env.batch_mark(caller, id, m, mid, over) is Ok,
    ensures
        ({
            let (post, m2) = env.batch_mark(caller, id, m, mid, over)->Ok_0;
            let (was, is) = (env.milestone(id, mid), post.milestone(id, mid));
            &&& post.book.terms == env.book.terms
            &&& post.book.recurring == env.book.recurring
            &&& post.prices == env.prices
            &&& post.no_price == env.no_price
            &&& m2 == (MetaView {
                approved_count: m2.approved_count,
                submitted_count: m2.submitted_count,
                released_count: m2.released_count,
                ..m
            })
            &&& was.id == mid ==> {
                &&& post.book.milestones == env.book.milestones.insert(
                    PackedDataKey::Milestone(id, mid),
                    is,
                )
                &&& was.status == MS_SUBMITTED ==> m2.submitted_count == if is.status
                    == MS_SUBMITTED {
                    m.submitted_count
                } else {
                    one_less(m.submitted_count)
                }
            }
        }),
{
    let policy = m.multisig_threshold > 0;
    let found = env.milestone(id, mid);
    let ms = if policy {
        env.signed(found, caller)
    } else {
        found
    };
    let weight = accrued(m, ms.approvals);
    let noted = if policy {
        env.told(
            Event::MultisigApprovalRecorded {
                escrow_id: id,
                milestone_id: mid,
                signer: caller,
                accrued: weight as u32,
                threshold: m.multisig_threshold,
            },
        )
    } else {
        env
    };
    let marked = noted.saved_milestone(
        id,
        MilestoneView {
            resolved_at: Some(env.timestamp),
            status: if over {
                MS_RELEASED
            } else {
                MS_APPROVED
            },
            ..ms
        },
    );
    lemma_dependents_kept(marked, id, mid);
}

/// Marking the milestones of a batch counts them, and changes nothing else of the
/// header.
pub proof fn lemma_batch_marked_kept(
    env: LedgerView,
    caller: Address,
    id: u64,
    m: MetaView,
    ids: Seq<u32>,
    over: bool,
    k: nat,
)
    requires
        env.batch_marked(caller, id, m, ids, over, k) is Ok,
    ensures
        ({
            let (post, m2) = env.batch_marked(caller, id, m, ids, over, k)->Ok_0;
            &&& post.book.terms == env.book.terms
            &&& post.book.recurring == env.book.recurring
            &&& post.prices == env.prices
            &&& post.no_price == env.no_price
            &&& m2 == (MetaView {
                approved_count: m2.approved_count,
                submitted_count: m2.submitted_count,
                released_count: m2.released_count,
                ..m
            })
        }),
    decreases k,
{
    if k > 0 {
        lemma_batch_marked_kept(env, caller, id, m, ids, over, (k - 1) as nat);
        let (before, m1) = env.batch_marked(caller, id, m, ids, over, (k - 1) as nat)->Ok_0;
        lemma_mark_kept(before, caller, id, m1, ids[k - 1], over);
    }
}

/// Nothing of an escrow may be paid.
spec fn stopped(env: LedgerView, id: u64) -> bool {
    let m = env.meta(id);
    ||| env.timelock_over(id, m.timelock) is Err
    ||| env.terms_check(id, m) is Err
    ||| env.slippage_check(m) is Err
}

/// What an approval leaves of the balance, where nothing may be paid.
#[verifier::rlimit(60)]
proof fn lemma_approval_pays_nothing(env: LedgerView, caller: Address, id: u64, mid: u32)
    requires
        env.has_meta(id),
        env.meta(id).escrow_id == id,
        stopped(env, id),
    ensures
        env.approve(caller, id, mid) is Ok ==> env.approve(caller, id, mid)->Ok_0.0.meta(
            id,
        ).remaining_balance == env.meta(id).remaining_balance,
{
}

/// The same for the approval of several milestones.
#[verifier::rlimit(60)]
proof fn lemma_batch_pays_nothing(env: LedgerView, caller: Address, id: u64, ids: Seq<u32>)
    requires
        env.has_meta(id),
        env.meta(id).escrow_id == id,
        stopped(env, id),
    ensures
        env.batch_approve(caller, id, ids) is Ok ==> env.batch_approve(
            caller,
            id,
            ids,
        )->Ok_0.0.meta(id).remaining_balance == env.meta(id).remaining_balance,
{
    if env.batch_approve(caller, id, ids) is Ok {
        let (seen, m) = env.authed(caller).accessed(id)->Ok_0;
        let open = seen.unlocked(id, m.lock_time)->Ok_0.0;
        let over = open.timelock_over(id, m.timelock) is Ok;
        let base = open.timelock_seen(id, m.timelock);
        lemma_batch_marked_kept(base, caller, id, m, ids, over, ids.len());
    }
}

/// Before its client has accepted the terms, nothing of an escrow with terms is
/// released, and an approval pays nothing.
#[verifier::rlimit(40)]
pub proof fn law_terms_come_first(
    env: LedgerView,
    caller: Address,
    id: u64,
    mid: u32,
    ids: Seq<u32>,
)
    requires
        env.has_meta(id),
        env.meta(id).escrow_id == id,
        env.meta(id).terms_hash is Some,
        env.book.terms.contains_key(id) ==> !env.book.terms[id].accepted,
    ensures
        env.release(caller, id, mid) is Err,
        env.batch_release(caller, id, ids) is Err,
        env.timed_release(caller, id, mid) is Err,
        env.oracle_release(caller, id, mid) is Err,
        env.approve(caller, id, mid) is Ok ==> env.approve(caller, id, mid)->Ok_0.0.meta(
            id,
        ).remaining_balance == env.meta(id).remaining_balance,
        env.batch_approve(caller, id, ids) is Ok ==> env.batch_approve(
            caller,
            id,
            ids,
        )->Ok_0.0.meta(id).remaining_balance == env.meta(id).remaining_balance,
{
    lemma_approval_pays_nothing(env, caller, id, mid);
    lemma_batch_pays_nothing(env, caller, id, ids);
}

/// What a price that has moved too far stops.
#[verifier::rlimit(40)]
proof fn lemma_slippage_releases(
    env: LedgerView,
    caller: Address,
    id: u64,
    mid: u32,
    ids: Seq<u32>,
)
    requires
        env.has_meta(id),
        env.slippage_check(env.meta(id)) is Err,
    ensures
        env.release(caller, id, mid) is Err,
        env.batch_release(caller, id, ids) is Err,
        env.timed_release(caller, id, mid) is Err,
        env.oracle_release(caller, id, mid) is Err,
        env.process_recurring(id) is Err,
{
}

/// While the price has moved further than an escrow tolerates, nothing of it is
/// released, no scheduled payment is made, and an approval pays nothing.
#[verifier::rlimit(40)]
pub proof fn law_slippage_holds(
    env: LedgerView,
    caller: Address,
    id: u64,
    mid: u32,
    ids: Seq<u32>,
)
    requires
        env.has_meta(id),
        env.meta(id).escrow_id == id,
        env.slippage_check(env.meta(id)) is Err,
    ensures
        env.release(caller, id, mid) is Err,
        env.batch_release(caller, id, ids) is Err,
        env.timed_release(caller, id, mid) is Err,
        env.oracle_release(caller, id, mid) is Err,
        env.process_recurring(id) is Err,
        env.approve(caller, id, mid) is Ok ==> env.approve(caller, id, mid)->Ok_0.0.meta(
            id,
        ).remaining_balance == env.meta(id).remaining_balance,
        env.batch_approve(caller, id, ids) is Ok ==> env.batch_approve(
            caller,
            id,
            ids,
        )->Ok_0.0.meta(id).remaining_balance == env.meta(id).remaining_balance,
{
    lemma_slippage_releases(env, caller, id, mid, ids);
    lemma_approval_pays_nothing(env, caller, id, mid);
    lemma_batch_pays_nothing(env, caller, id, ids);
}

/// While a timelock is running, an approval pays nothing.
#[verifier::rlimit(40)]
pub proof fn law_timelock_holds(
    env: LedgerView,
    caller: Address,
    id: u64,
    mid: u32,
    ids: Seq<u32>,
)
    requires
        env.has_meta(id),
        env.meta(id).escrow_id == id,
        env.meta(id).timelock matches Some(t) && env.timestamp < t.start_ledger + t.duration_ledger,
    ensures
        env.approve(caller, id, mid) is Ok ==> env.approve(caller, id, mid)->Ok_0.0.meta(
            id,
        ).remaining_balance == env.meta(id).remaining_balance,
        env.batch_approve(caller, id, ids) is Ok ==> env.batch_approve(
            caller,
            id,
            ids,
        )->Ok_0.0.meta(id).remaining_balance == env.meta(id).remaining_balance,
{
    lemma_approval_pays_nothing(env, caller, id, mid);
    lemma_batch_pays_nothing(env, caller, id, ids);
}

/// Before the lock time nothing is approved or released.
#[verifier::rlimit(40)]
pub proof fn law_lock_time_holds(env: LedgerView, caller: Address, id: u64, mid: u32, ids: Seq<u32>)
    requires
        env.has_meta(id),
        env.meta(id).lock_time matches Some(t) && env.timestamp < t,
    ensures
        env.approve(caller, id, mid) is Err,
        env.release(caller, id, mid) is Err,
        env.batch_approve(caller, id, ids) is Err,
        env.batch_release(caller, id, ids) is Err,
        env.timed_release(caller, id, mid) is Err,
        env.oracle_release(caller, id, mid) is Err,
{
}

/// What a run of payments leaves behind.
proof fn lemma_run_settled(run: Run, id: u64)
    requires
        run.paid_all(id) is Ok,
    ensures
        ({
            let end = run.paid_all(id)->Ok_0;
            let made = end.m.milestone_count - run.m.milestone_count;
            &&& made >= 0
            &&& end.count == run.count + made
            &&& end.m.released_count == run.m.released_count + made
            &&& end.m.escrow_id == run.m.escrow_id
            &&& forall|mid: u32|
                mid < run.m.milestone_count ==> {
                    &&& (#[trigger] end.env.has_milestone(id, mid)) == run.env.has_milestone(
                        id,
                        mid,
                    )
                    &&& end.env.milestone(id, mid) == run.env.milestone(id, mid)
                }
            &&& forall|mid: u32|
                run.m.milestone_count <= mid < end.m.milestone_count ==> (
                #[trigger] end.env.has_milestone(id, mid)) && end.env.milestone(id, mid).status
                    == MS_RELEASED
        }),
    decreases run.c.payments_remaining,
{
    if run.due() {
        let next = run.paid_once(id)->Ok_0;
        lemma_run_settled(next, id);
        let made = run.m.milestone_count;
        assert(next.env.has_milestone(id, made));
        assert(run.paid_all(id)->Ok_0.env.has_milestone(id, made));
    }
}

/// Each payment that a schedule makes is kept as a milestone that was paid.
pub proof fn law_payments_are_settled(env: LedgerView, id: u64, mid: u32)
    requires
        env.process_recurring(id) is Ok,
        env.meta(id).escrow_id == id,
        env.meta(id).milestone_count <= mid < env.meta(id).milestone_count
            + env.process_recurring(id)->Ok_0.1,
    ensures
        ({
            let (post, made) = env.process_recurring(id)->Ok_0;
            &&& post.has_milestone(id, mid)
            &&& post.milestone(id, mid).status == MS_RELEASED
            &&& post.meta(id).milestone_count == env.meta(id).milestone_count + made
            &&& post.meta(id).released_count == env.meta(id).released_count + made
        }),
{
    let (seen, m) = env.accessed(id)->Ok_0;
    let run = Run { env: seen, m, c: seen.recurring(id), count: 0, total: 0 };
    lemma_run_settled(run, id);
    assert(run.paid_all(id)->Ok_0.env.has_milestone(id, mid));
}

pub proof fn lemma_due_once(
    env: LedgerView,
    caller: Address,
    id: u64,
    m: MetaView,
    ids: Seq<u32>,
    k: nat,
)
    requires
        k <= ids.len(),
    ensures
        env.batch_due(caller, id, m, ids, k) is Ok || env.release_due(id, ids, k) is Ok
            ==> forall|i: int, j: int| 0 <= i < j < k ==> ids[i] != ids[j],
    decreases k,
{
    if k > 0 {
        lemma_due_once(env, caller, id, m, ids, (k - 1) as nat);
        assert forall|i: int| 0 <= i < k - 1 implies ids.take(k - 1).contains(
            #[trigger] ids[i],
        ) by {
            assert(ids.take(k - 1)[i] == ids[i]);
        }
    }
}

/// No milestone is paid twice by one request that names it twice.
#[verifier::rlimit(40)]
pub proof fn law_batches_name_once(
    env: LedgerView,
    caller: Address,
    id: u64,
    ids: Seq<u32>,
    i: int,
    j: int,
)
    requires
        env.batch_approve(caller, id, ids) is Ok || env.batch_release(caller, id, ids) is Ok,
        0 <= i < j < ids.len(),
    ensures
        ids[i] != ids[j],
{
    let (seen, m) = env.authed(caller).accessed(id)->Ok_0;
    let open = seen.lock_seen(id, m.lock_time);
    if env.batch_approve(caller, id, ids) is Ok {
        lemma_due_once(open.timelock_seen(id, m.timelock), caller, id, m, ids, ids.len());
    } else {
        lemma_due_once(open, caller, id, m, ids, ids.len());
    }
}

/// How many of the first `n` milestones of an escrow wait for approval.
pub open spec fn waiting(env: LedgerView, id: u64, n: nat) -> nat
    decreases n,
{
    if n == 0 {
        0
    } else {
        let mid = (n - 1) as u32;
        waiting(env, id, (n - 1) as nat) + (if env.has_milestone(id, mid) && env.milestone(
            id,
            mid,
        ).status == MS_SUBMITTED {
            1nat
        } else {
            0
        })
    }
}

/// What one milestone that is written changes about that.
proof fn lemma_waiting_set(
    a: LedgerView,
    b: LedgerView,
    id: u64,
    mid: u32,
    ms: MilestoneView,
    n: nat,
)
    requires
        a.has_milestone(id, mid),
        b.book.milestones == a.book.milestones.insert(PackedDataKey::Milestone(id, mid), ms),
        n <= u32::MAX,
    ensures
        mid >= n ==> waiting(b, id, n) == waiting(a, id, n),
        mid < n ==> waiting(b, id, n) + (if a.milestone(id, mid).status == MS_SUBMITTED {
            1nat
        } else {
            0
        }) == waiting(a, id, n) + (if ms.status == MS_SUBMITTED {
            1nat
        } else {
            0
        }),
    decreases n,
{
    if n > 0 {
        lemma_waiting_set(a, b, id, mid, ms, (n - 1) as nat);
    }
}

/// The milestones that wait for approval are counted: submitting, rejecting and
/// approving keep the count right.
#[verifier::rlimit(40)]
pub proof fn law_waiting_counted(
    env: LedgerView,
    caller: Address,
    id: u64,
    mid: u32,
    reason: Hash32,
)
    requires
        env.has_meta(id),
        env.meta(id).escrow_id == id,
        env.milestone(id, mid).id == mid,
        mid < env.meta(id).milestone_count,
        env.meta(id).submitted_count == waiting(env, id, env.meta(id).milestone_count as nat),
    ensures
        env.submit(caller, id, mid) is Ok ==> counted(env.submit(caller, id, mid)->Ok_0.0, id),
        env.reject(caller, id, mid) is Ok ==> counted(env.reject(caller, id, mid)->Ok_0.0, id),
        env.reject_with_reason(caller, id, mid, reason) is Ok ==> counted(
            env.reject_with_reason(caller, id, mid, reason)->Ok_0.0,
            id,
        ),
        env.approve(caller, id, mid) is Ok ==> counted(env.approve(caller, id, mid)->Ok_0.0, id),
{
    let n = env.meta(id).milestone_count as nat;
    if env.submit(caller, id, mid) is Ok {
        let post = env.submit(caller, id, mid)->Ok_0.0;
        lemma_waiting_set(env, post, id, mid, post.milestone(id, mid), n);
    }
    if env.reject(caller, id, mid) is Ok {
        let post = env.reject(caller, id, mid)->Ok_0.0;
        lemma_waiting_set(env, post, id, mid, post.milestone(id, mid), n);
    }
    if env.reject_with_reason(caller, id, mid, reason) is Ok {
        let post = env.reject_with_reason(caller, id, mid, reason)->Ok_0.0;
        lemma_waiting_set(env, post, id, mid, post.milestone(id, mid), n);
    }
    if env.approve(caller, id, mid) is Ok {
        let (seen, m) = env.authed(caller).accessed(id)->Ok_0;
        let open = seen.unlocked(id, m.lock_time)->Ok_0.0;
        let ms = env.milestone(id, mid);
        if m.multisig_threshold == 0 {
            lemma_approval_counted(open, caller, id, mid, m, ms);
        } else {
            let signed = open.signed(ms, caller);
            let weight = accrued(m, signed.approvals);
            let noted = open.told(
                Event::MultisigApprovalRecorded {
                    escrow_id: id,
                    milestone_id: mid,
                    signer: caller,
                    accrued: weight as u32,
                    threshold: m.multisig_threshold,
                },
            );
            if weight >= m.multisig_threshold {
                lemma_approval_counted(noted, caller, id, mid, m, signed);
            }
        }
        let post = env.approve(caller, id, mid)->Ok_0.0;
        lemma_waiting_set(env, post, id, mid, post.milestone(id, mid), n);
    }
}

/// The header of an escrow counts the milestones that wait for approval.
pub open spec fn counted(env: LedgerView, id: u64) -> bool {
    env.meta(id).submitted_count == waiting(env, id, env.meta(id).milestone_count as nat)
}

proof fn lemma_approval_counted(
    env: LedgerView,
    caller: Address,
    id: u64,
    mid: u32,
    m: MetaView,
    ms: MilestoneView,
)
    requires
        ms.id == mid,
        m.escrow_id == id,
        env.approval_done(caller, id, mid, m, ms) is Ok,
    ensures
        ({
            let post = env.approval_done(caller, id, mid, m, ms)->Ok_0.0;
            &&& post.book.milestones == env.book.milestones.insert(
                PackedDataKey::Milestone(id, mid),
                post.milestone(id, mid),
            )
            &&& post.milestone(id, mid).status != MS_SUBMITTED
            &&& post.meta(id).submitted_count == one_less(m.submitted_count)
            &&& post.meta(id).milestone_count == m.milestone_count
        }),
{
    let seen = env.timelock_seen(id, m.timelock);
    let over = env.timelock_over(id, m.timelock) is Ok;
    let paid = if over {
        seen.paid(m.token, m.freelancer, ms.amount).told(
            Event::FundsReleased {
                escrow_id: id,
                to: m.freelancer,
                amount: ms.amount,
            },
        )
    } else {
        seen
    };
    let ms2 = MilestoneView {
        status: if over {
            MS_RELEASED
        } else {
            MS_APPROVED
        },
        resolved_at: Some(env.timestamp),
        ..ms
    };
    lemma_dependents_kept(paid.saved_milestone(id, ms2), id, mid);
}

/// The count depends on the milestones alone.
proof fn lemma_waiting_same(a: LedgerView, b: LedgerView, id: u64, n: nat)
    requires
        a.book.milestones == b.book.milestones,
    ensures
        waiting(a, id, n) == waiting(b, id, n),
    decreases n,
{
    if n > 0 {
        lemma_waiting_same(a, b, id, (n - 1) as nat);
    }
}

/// What a batch approves was submitted.
pub proof fn lemma_due_submitted(
    env: LedgerView,
    caller: Address,
    id: u64,
    m: MetaView,
    ids: Seq<u32>,
    k: nat,
)
    requires
        env.batch_due(caller, id, m, ids, k) is Ok,
    ensures
        forall|i: int|
            0 <= i < k ==> env.has_milestone(id, #[trigger] ids[i]) && env.milestone(
                id,
                ids[i],
            ).status == MS_SUBMITTED,
    decreases k,
{
    if k > 0 {
        lemma_due_submitted(env, caller, id, m, ids, (k - 1) as nat);
    }
}

/// Marking a batch keeps the count right, up to some place.
proof fn lemma_batch_counted(
    env: LedgerView,
    caller: Address,
    id: u64,
    m: MetaView,
    ids: Seq<u32>,
    over: bool,
    k: nat,
)
    requires
        env.batch_marked(caller, id, m, ids, over, k) is Ok,
        k <= ids.len(),
        m.submitted_count == waiting(env, id, m.milestone_count as nat),
        forall|i: int, j: int| 0 <= i < j < ids.len() ==> ids[i] != ids[j],
        forall|i: int|
            0 <= i < ids.len() ==> {
                &&& env.has_milestone(id, #[trigger] ids[i])
                &&& env.milestone(id, ids[i]).id == ids[i]
                &&& env.milestone(id, ids[i]).status == MS_SUBMITTED
                &&& ids[i] < m.milestone_count
            },
    ensures
        ({
            let (post, m2) = env.batch_marked(caller, id, m, ids, over, k)->Ok_0;
            &&& m2.milestone_count == m.milestone_count
            &&& m2.submitted_count == waiting(post, id, m.milestone_count as nat)
            &&& forall|i: int|
                k <= i < ids.len() ==> post.has_milestone(id, #[trigger] ids[i]) && post.milestone(
                    id,
                    ids[i],
                ) == env.milestone(id, ids[i])
        }),
    decreases k,
{
    if k > 0 {
        lemma_batch_counted(env, caller, id, m, ids, over, (k - 1) as nat);
        let (before, m1) = env.batch_marked(caller, id, m, ids, over, (k - 1) as nat)->Ok_0;
        let (post, m2) = env.batch_marked(caller, id, m, ids, over, k)->Ok_0;
        let mid = ids[k - 1];
        lemma_mark_kept(before, caller, id, m1, mid, over);
        lemma_waiting_set(
            before,
            post,
            id,
            mid,
            post.milestone(id, mid),
            m.milestone_count as nat,
        );
    }
}

/// Approving a batch keeps that count right.
#[verifier::rlimit(40)]
pub proof fn law_batch_waiting_counted(
    env: LedgerView,
    caller: Address,
    id: u64,
    ids: Seq<u32>,
)
    requires
        env.sound(),
        env.has_meta(id),
        counted(env, id),
        forall|i: int| 0 <= i < ids.len() ==> #[trigger] ids[i] < env.meta(id).milestone_count,
        env.batch_approve(caller, id, ids) is Ok,
    ensures
        counted(env.batch_approve(caller, id, ids)->Ok_0.0, id),
{
    let (seen, m) = env.authed(caller).accessed(id)->Ok_0;
    assert(env.book.metas.contains_key(PackedDataKey::EscrowMeta(id)));
    let open = seen.unlocked(id, m.lock_time)->Ok_0.0;
    let over = open.timelock_over(id, m.timelock) is Ok;
    let base = open.timelock_seen(id, m.timelock);
    let n = m.milestone_count as nat;
    lemma_due_once(base, caller, id, m, ids, ids.len());
    lemma_due_submitted(base, caller, id, m, ids, ids.len());
    lemma_waiting_same(env, base, id, n);
    assert forall|i: int| 0 <= i < ids.len() implies base.milestone(id, #[trigger] ids[i]).id
        == ids[i] by {
        assert(env.book.milestones.contains_key(PackedDataKey::Milestone(id, ids[i])));
    }
    lemma_batch_counted(base, caller, id, m, ids, over, ids.len());
    let marked = base.batch_marked(caller, id, m, ids, over, ids.len())->Ok_0.0;
    lemma_batch_marked_kept(base, caller, id, m, ids, over, ids.len());
    lemma_waiting_same(marked, env.batch_approve(caller, id, ids)->Ok_0.0, id, n);
}

} // verus!
