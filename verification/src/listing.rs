//! The lists of escrows by status and by participant.
use vstd::prelude::*;

use crate::creation::NewEscrow;
use crate::events::Event;
use crate::index::{appended, dropped, listed};
use crate::laws::lemma_without_gone;
use crate::ledger::LedgerView;
use crate::multisig::accrued;
use crate::recurring::Run;
use crate::release::lemma_waiting_told;
use crate::sound::lemma_access_sound;
use crate::types::{
    Address, EscrowStatus, MetaView, MilestoneView, OracleResolutionPayload, PackedDataKey,
    MS_APPROVED, MS_RELEASED,
};

verus! {

impl LedgerView {
    /// An escrow stands in the list of its status, and in no other.
    pub open spec fn well_listed(self, id: u64) -> bool {
        self.has_meta(id) ==> forall|s: EscrowStatus|
            (#[trigger] listed(self.book.by_status, s)).contains(id) <==> s == self.meta(id).status
    }

    /// An id that was not handed out stands in no list.
    pub open spec fn unlisted(self, id: u64) -> bool {
        forall|s: EscrowStatus| !(#[trigger] listed(self.book.by_status, s)).contains(id)
    }
}

/// What stands in a list after an id was put at its end.
proof fn lemma_pushed(s: Seq<u64>, id: u64, x: u64)
    ensures
        s.push(id).contains(x) <==> s.contains(x) || x == id,
{
    if s.contains(x) {
        let i = choose|i: int| 0 <= i < s.len() && s[i] == x;
        assert(s.push(id)[i] == x);
    }
    if x == id {
        assert(s.push(id)[s.len() as int] == x);
    }
    if s.push(id).contains(x) && x != id {
        let i = choose|i: int| 0 <= i < s.push(id).len() && s.push(id)[i] == x;
        assert(s[i] == x);
    }
}

/// Where an id stands after one was moved from the list of a status to that of
/// another.
proof fn lemma_moved(
    env: LedgerView,
    id: u64,
    from: EscrowStatus,
    to: EscrowStatus,
    s: EscrowStatus,
    x: u64,
)
    requires
        from != to,
    ensures
        listed(env.moved(id, from, to).book.by_status, s).contains(x) <==> (if x == id {
            s == to || (s != from && listed(env.book.by_status, s).contains(id))
        } else {
            listed(env.book.by_status, s).contains(x)
        }),
{
    let old_lists = env.book.by_status;
    let taken = dropped(old_lists, from, id);
    lemma_without_gone(listed(old_lists, from), id);
    assert(listed(old_lists, s).contains(x) || !listed(old_lists, s).contains(x));
    lemma_pushed(listed(taken, to), id, x);
    assert(appended(taken, to, id)[to] == listed(taken, to).push(id));
}

/// An escrow that takes a step together with its place in the lists stays well
/// listed, and so does every other.
proof fn lemma_step_listed(
    env: LedgerView,
    post: LedgerView,
    id: u64,
    from: EscrowStatus,
    to: EscrowStatus,
    x: u64,
)
    requires
        env.well_listed(x),
        env.has_meta(id),
        env.meta(id).status == from,
        from != to,
        post.book.by_status == env.moved(id, from, to).book.by_status,
        post.has_meta(id) ==> post.meta(id).status == to,
        x != id ==> post.has_meta(x) == env.has_meta(x),
        x != id && env.has_meta(x) ==> post.meta(x) == env.meta(x),
    ensures
        post.well_listed(x),
{
    assert forall|s: EscrowStatus| post.has_meta(x) implies ((#[trigger] listed(
        post.book.by_status,
        s,
    )).contains(x) <==> s == post.meta(x).status) by {
        lemma_moved(env, id, from, to, s, x);
        assert(listed(env.book.by_status, s).contains(x) || !listed(env.book.by_status, s).contains(
            x,
        ));
    }
}

/// A new escrow is listed as active, and under both parties; every other one
/// stays where it was.
pub proof fn law_created_is_listed(env: LedgerView, a: NewEscrow, x: u64)
    requires
        env.created(a) is Ok,
        env.unlisted(env.config.escrow_counter),
        env.well_listed(x),
    ensures
        env.created(a)->Ok_0.0.well_listed(env.created(a)->Ok_0.1),
        env.created(a)->Ok_0.0.well_listed(x),
        listed(env.created(a)->Ok_0.0.book.by_participant, a.client).contains(
            env.created(a)->Ok_0.1,
        ),
        listed(env.created(a)->Ok_0.0.book.by_participant, a.freelancer).contains(
            env.created(a)->Ok_0.1,
        ),
{
    let (post, id) = env.created(a)->Ok_0;
    let lists = env.book.by_status;
    assert forall|s: EscrowStatus, y: u64|
        (#[trigger] listed(post.book.by_status, s)).contains(y) <==> (listed(lists, s).contains(y)
            || (#[trigger] same_id(y, id) && s == EscrowStatus::Active)) by {
        lemma_pushed(listed(lists, EscrowStatus::Active), id, y);
    }
    assert(same_id(id, id));
    assert forall|s: EscrowStatus|
        (#[trigger] listed(post.book.by_status, s)).contains(id) <==> s == post.meta(id).status by {
        assert(same_id(id, id));
        assert(!listed(lists, s).contains(id));
    }
    if x != id && post.has_meta(x) {
        assert forall|s: EscrowStatus|
            (#[trigger] listed(post.book.by_status, s)).contains(x) <==> s == post.meta(
                x,
            ).status by {
            assert(!same_id(x, id));
            assert(listed(lists, s).contains(x) || !listed(lists, s).contains(x));
        }
    }
    let people = env.book.by_participant;
    lemma_pushed(listed(people, a.client), id, id);
    lemma_pushed(listed(appended(people, a.client, id), a.freelancer), id, id);
}

spec fn same_id(a: u64, b: u64) -> bool {
    a == b
}

/// A dispute moves an escrow to the list of its new status.
#[verifier::rlimit(40)]
pub proof fn law_dispute_listed(
    env: LedgerView,
    caller: Address,
    id: u64,
    milestone: Option<u32>,
    x: u64,
)
    requires
        env.sound(),
        env.well_listed(x),
        env.raise(caller, id, milestone) is Ok,
    ensures
        env.raise(caller, id, milestone)->Ok_0.0.well_listed(x),
{
    assert(env.book.metas.contains_key(PackedDataKey::EscrowMeta(id)));
    lemma_access_sound(env.authed(caller), id);
    let post = env.raise(caller, id, milestone)->Ok_0.0;
    lemma_step_listed(env, post, id, EscrowStatus::Active, EscrowStatus::Disputed, x);
}

/// So does its end, when nobody decides in time.
#[verifier::rlimit(40)]
pub proof fn law_timeout_listed(env: LedgerView, caller: Address, id: u64, x: u64)
    requires
        env.sound(),
        env.well_listed(x),
        env.claim_timeout(caller, id) is Ok,
    ensures
        env.claim_timeout(caller, id)->Ok_0.0.well_listed(x),
{
    assert(env.book.metas.contains_key(PackedDataKey::EscrowMeta(id)));
    lemma_access_sound(env.authed(caller), id);
    let post = env.claim_timeout(caller, id)->Ok_0.0;
    lemma_step_listed(env, post, id, EscrowStatus::Disputed, EscrowStatus::Completed, x);
}

/// So does a decision.
#[verifier::rlimit(40)]
pub proof fn law_decision_listed(
    env: LedgerView,
    caller: Address,
    id: u64,
    client_amount: i128,
    freelancer_amount: i128,
    x: u64,
)
    requires
        env.sound(),
        env.well_listed(x),
        env.resolve(caller, id, client_amount, freelancer_amount) is Ok,
    ensures
        env.resolve(caller, id, client_amount, freelancer_amount)->Ok_0.0.well_listed(x),
{
    assert(env.book.metas.contains_key(PackedDataKey::EscrowMeta(id)));
    lemma_access_sound(env.authed(caller), id);
    let post = env.resolve(caller, id, client_amount, freelancer_amount)->Ok_0.0;
    lemma_step_listed(env, post, id, EscrowStatus::Disputed, EscrowStatus::Completed, x);
}

/// So does a signed decision.
#[verifier::rlimit(40)]
pub proof fn law_oracle_decision_listed(
    env: LedgerView,
    id: u64,
    p: OracleResolutionPayload,
    grace: u64,
    x: u64,
)
    requires
        env.sound(),
        env.well_listed(x),
        env.oracle_resolve(id, p, grace) is Ok,
    ensures
        env.oracle_resolve(id, p, grace)->Ok_0.0.well_listed(x),
{
    assert(env.book.metas.contains_key(PackedDataKey::EscrowMeta(id)));
    lemma_access_sound(env, id);
    let post = env.oracle_resolve(id, p, grace)->Ok_0.0;
    lemma_step_listed(env, post, id, EscrowStatus::Disputed, EscrowStatus::Completed, x);
}

/// Cancellations move an escrow to the list of its new status. An escrow whose
/// cancellation was asked for counts as pending.
#[verifier::rlimit(40)]
pub proof fn law_cancellations_listed(
    env: LedgerView,
    caller: Address,
    id: u64,
    reason: Seq<u8>,
    x: u64,
)
    requires
        env.sound(),
        env.well_listed(x),
        env.has_meta(id) && env.book.cancellations.contains_key(id)
            && !env.book.cancellations[id].disputed ==> env.meta(id).status
            == EscrowStatus::CancellationPending,
    ensures
        env.cancel(caller, id) is Ok ==> env.cancel(caller, id)->Ok_0.0.well_listed(x),
        env.ask_cancellation(caller, id, reason) is Ok ==> env.ask_cancellation(
            caller,
            id,
            reason,
        )->Ok_0.0.well_listed(x),
        env.object_cancellation(caller, id) is Ok ==> env.object_cancellation(
            caller,
            id,
        )->Ok_0.0.well_listed(x),
        env.execute_cancellation(id) is Ok ==> env.execute_cancellation(id)->Ok_0.0.well_listed(x),
{
    let active = EscrowStatus::Active;
    let pending = EscrowStatus::CancellationPending;
    let cancelled = EscrowStatus::Cancelled;
    if env.has_meta(id) {
        assert(env.book.metas.contains_key(PackedDataKey::EscrowMeta(id)));
    }
    if env.authed(caller).accessed(id) is Ok {
        lemma_access_sound(env.authed(caller), id);
        if env.cancel(caller, id) is Ok {
            lemma_step_listed(env, env.cancel(caller, id)->Ok_0.0, id, active, cancelled, x);
        }
        if env.ask_cancellation(caller, id, reason) is Ok {
            let post = env.ask_cancellation(caller, id, reason)->Ok_0.0;
            lemma_step_listed(env, post, id, active, pending, x);
        }
        if env.object_cancellation(caller, id) is Ok {
            let post = env.object_cancellation(caller, id)->Ok_0.0;
            lemma_step_listed(env, post, id, pending, EscrowStatus::Disputed, x);
        }
    }
    if env.accessed(id) is Ok {
        lemma_access_sound(env, id);
        if env.execute_cancellation(id) is Ok {
            let post = env.execute_cancellation(id)->Ok_0.0;
            lemma_step_listed(env, post, id, pending, cancelled, x);
        }
    }
}

/// Telling observers of dependents moves no escrow.
proof fn lemma_dependents_lists(env: LedgerView, id: u64, prereq: u32, x: u64)
    requires
        env.has_meta(id) ==> env.meta(id).escrow_id == id,
    ensures
        env.dependents_told(id, prereq).book.by_status == env.book.by_status,
        x != id ==> env.dependents_told(id, prereq).has_meta(x) == env.has_meta(x),
        x != id && env.has_meta(x) ==> env.dependents_told(id, prereq).meta(x) == env.meta(x),
{
    if env.accessed(id) is Ok {
        let (post, m) = env.accessed(id)->Ok_0;
        lemma_waiting_told(post, id, prereq, m.milestone_count as nat);
    }
}

proof fn lemma_approval_listed(
    env: LedgerView,
    caller: Address,
    id: u64,
    mid: u32,
    m: MetaView,
    ms: MilestoneView,
    x: u64,
)
    requires
        env.well_listed(x),
        env.has_meta(id),
        env.meta(id).status == EscrowStatus::Active,
        env.meta(id).escrow_id == id,
        m.status == EscrowStatus::Active,
        m.escrow_id == id,
        env.approval_done(caller, id, mid, m, ms) is Ok,
    ensures
        env.approval_done(caller, id, mid, m, ms)->Ok_0.0.well_listed(x),
{
    let seen = env.timelock_seen(id, m.timelock);
    let over = env.timelock_over(id, m.timelock) is Ok;
    let paid = if over {
        seen.paid(m.token, m.freelancer, ms.amount).told(
            Event::FundsReleased { escrow_id: id, to: m.freelancer, amount: ms.amount },
        )
    } else {
        seen
    };
    let ms2 = MilestoneView {
        status: if over {
            MS_RELEASED
        } else {
            MS_APPROVED
        },
        resolved_at: Some(env.timestamp),
        ..ms
    };
    lemma_dependents_lists(paid.saved_milestone(id, ms2), id, mid, x);
    let post = env.approval_done(caller, id, mid, m, ms)->Ok_0.0;
    if post.meta(id).status == EscrowStatus::Completed {
        lemma_step_listed(env, post, id, EscrowStatus::Active, EscrowStatus::Completed, x);
    } else {
        assert(post.book.by_status == env.book.by_status);
    }
}

/// An approval that completes an escrow moves it to the list of those that are
/// completed; any other leaves it where it is.
#[verifier::rlimit(40)]
pub proof fn law_approval_listed(env: LedgerView, caller: Address, id: u64, mid: u32, x: u64)
    requires
        env.sound(),
        env.well_listed(x),
        env.approve(caller, id, mid) is Ok,
    ensures
        env.approve(caller, id, mid)->Ok_0.0.well_listed(x),
{
    assert(env.book.metas.contains_key(PackedDataKey::EscrowMeta(id)));
    lemma_access_sound(env.authed(caller), id);
    let (seen, m) = env.authed(caller).accessed(id)->Ok_0;
    let open = seen.unlocked(id, m.lock_time)->Ok_0.0;
    assert(open.well_listed(x));
    let ms = open.milestone(id, mid);
    if m.multisig_threshold == 0 {
        lemma_approval_listed(open, caller, id, mid, m, ms, x);
    } else {
        let signed = open.signed(ms, caller);
        let weight = accrued(m, signed.approvals);
        let noted = open.told(
            Event::MultisigApprovalRecorded {
                escrow_id: id,
                milestone_id: mid,
                signer: caller,
                accrued: weight as u32,
                threshold: m.multisig_threshold,
            },
        );
        if weight >= m.multisig_threshold {
            lemma_approval_listed(noted, caller, id, mid, m, signed, x);
        }
    }
}

/// A release that completes an escrow moves it to the list of those that
/// are completed; any other leaves it where it is.
#[verifier::rlimit(40)]
pub proof fn law_release_listed(env: LedgerView, caller: Address, id: u64, mid: u32, x: u64)
    requires
        env.sound(),
        env.well_listed(x),
        env.release(caller, id, mid) is Ok,
    ensures
        env.release(caller, id, mid)->Ok_0.0.well_listed(x),
{
    assert(env.book.metas.contains_key(PackedDataKey::EscrowMeta(id)));
    lemma_access_sound(env.authed(caller), id);
    let (seen, m) = env.authed(caller).accessed(id)->Ok_0;
    let open = seen.timelock_seen(id, m.timelock).unlocked(id, m.lock_time)->Ok_0.0;
    let ms = env.milestone(id, mid);
    let done = m.released_count + 1 == m.milestone_count && !env.scheduled(id);
    let feed = open.last_fee(id, m.token, done)->Ok_0.0;
    let paid = feed.paid(m.token, m.freelancer, ms.amount).saved_milestone(
        id,
        MilestoneView { status: MS_RELEASED, ..ms },
    );
    lemma_dependents_lists(paid, id, mid, x);
    let post = env.release(caller, id, mid)->Ok_0.0;
    if done {
        lemma_step_listed(env, post, id, EscrowStatus::Active, EscrowStatus::Completed, x);
    } else {
        assert(post.book.by_status == env.book.by_status);
    }
}

/// Marking milestones as released moves no escrow.
proof fn lemma_release_marked_lists(
    env: LedgerView,
    id: u64,
    to: Address,
    ids: Seq<u32>,
    k: nat,
)
    ensures
        env.release_marked(id, to, ids, k).book.by_status == env.book.by_status,
        env.release_marked(id, to, ids, k).book.metas == env.book.metas,
    decreases k,
{
    if k > 0 {
        lemma_release_marked_lists(env, id, to, ids, (k - 1) as nat);
    }
}

/// So does the release of several milestones.
#[verifier::rlimit(40)]
pub proof fn law_batch_release_listed(
    env: LedgerView,
    caller: Address,
    id: u64,
    ids: Seq<u32>,
    x: u64,
)
    requires
        env.sound(),
        env.well_listed(x),
        env.batch_release(caller, id, ids) is Ok,
    ensures
        env.batch_release(caller, id, ids)->Ok_0.0.well_listed(x),
{
    assert(env.book.metas.contains_key(PackedDataKey::EscrowMeta(id)));
    lemma_access_sound(env.authed(caller), id);
    let (seen, m) = env.authed(caller).accessed(id)->Ok_0;
    let open = seen.unlocked(id, m.lock_time)->Ok_0.0;
    lemma_release_marked_lists(open, id, m.freelancer, ids, ids.len());
    let post = env.batch_release(caller, id, ids)->Ok_0.0;
    if m.released_count + ids.len() == m.milestone_count && !env.scheduled(id) {
        lemma_step_listed(env, post, id, EscrowStatus::Active, EscrowStatus::Completed, x);
    } else {
        assert(post.book.by_status == env.book.by_status);
    }
}

/// So does a release by time.
#[verifier::rlimit(40)]
pub proof fn law_timed_release_listed(env: LedgerView, caller: Address, id: u64, mid: u32, x: u64)
    requires
        env.sound(),
        env.well_listed(x),
        env.timed_release(caller, id, mid) is Ok,
    ensures
        env.timed_release(caller, id, mid)->Ok_0.0.well_listed(x),
{
    assert(env.book.metas.contains_key(PackedDataKey::EscrowMeta(id)));
    lemma_access_sound(env.authed(caller), id);
    let (seen, m) = env.authed(caller).accessed(id)->Ok_0;
    let open = seen.lock_seen(id, m.lock_time);
    let ms = MilestoneView { resolved_at: Some(env.timestamp), ..env.milestone(id, mid) };
    let done = m.released_count + 1 == m.milestone_count && !env.scheduled(id);
    let feed = open.last_fee(id, m.token, done)->Ok_0.0;
    let paid = feed.paid(m.token, m.freelancer, ms.amount).saved_milestone(
        id,
        MilestoneView { status: MS_RELEASED, ..ms },
    );
    lemma_dependents_lists(paid, id, mid, x);
    let post = env.timed_release(caller, id, mid)->Ok_0.0;
    if done {
        lemma_step_listed(env, post, id, EscrowStatus::Active, EscrowStatus::Completed, x);
    } else {
        assert(post.book.by_status == env.book.by_status);
    }
}

/// So does a release by a price.
#[verifier::rlimit(40)]
pub proof fn law_price_release_listed(env: LedgerView, caller: Address, id: u64, mid: u32, x: u64)
    requires
        env.sound(),
        env.well_listed(x),
        env.oracle_release(caller, id, mid) is Ok,
    ensures
        env.oracle_release(caller, id, mid)->Ok_0.0.well_listed(x),
{
    assert(env.book.metas.contains_key(PackedDataKey::EscrowMeta(id)));
    lemma_access_sound(env.authed(caller), id);
    let post = env.oracle_release(caller, id, mid)->Ok_0.0;
    if post.meta(id).status == EscrowStatus::Completed {
        lemma_step_listed(env, post, id, EscrowStatus::Active, EscrowStatus::Completed, x);
    } else {
        assert(post.book.by_status == env.book.by_status);
    }
}

/// A run of payments moves no escrow.
proof fn lemma_run_lists(run: Run, id: u64)
    requires
        run.paid_all(id) is Ok,
    ensures
        ({
            let end = run.paid_all(id)->Ok_0;
            &&& end.env.book.by_status == run.env.book.by_status
            &&& end.env.book.metas == run.env.book.metas
            &&& end.m.status == run.m.status
            &&& end.m.escrow_id == run.m.escrow_id
        }),
    decreases run.c.payments_remaining,
{
    if run.due() {
        lemma_run_lists(run.paid_once(id)->Ok_0, id);
    }
}

/// The last payment of a schedule moves its escrow to the list of those that are
/// completed, and cancelling a schedule to that of the cancelled ones.
#[verifier::rlimit(40)]
pub proof fn law_schedules_listed(env: LedgerView, caller: Address, id: u64, x: u64)
    requires
        env.sound(),
        env.well_listed(x),
    ensures
        env.process_recurring(id) is Ok ==> env.process_recurring(id)->Ok_0.0.well_listed(x),
        env.cancel_schedule(caller, id) is Ok ==> env.cancel_schedule(
            caller,
            id,
        )->Ok_0.0.well_listed(x),
{
    if env.has_meta(id) {
        assert(env.book.metas.contains_key(PackedDataKey::EscrowMeta(id)));
    }
    if env.process_recurring(id) is Ok {
        lemma_access_sound(env, id);
        let (seen, m) = env.accessed(id)->Ok_0;
        let run = Run { env: seen, m, c: seen.recurring(id), count: 0, total: 0 };
        lemma_run_lists(run, id);
        let post = env.process_recurring(id)->Ok_0.0;
        if post.meta(id).status == EscrowStatus::Completed {
            lemma_step_listed(env, post, id, EscrowStatus::Active, EscrowStatus::Completed, x);
        } else {
            assert(post.book.by_status == env.book.by_status);
        }
    }
    if env.cancel_schedule(caller, id) is Ok {
        lemma_access_sound(env.authed(caller), id);
        let post = env.cancel_schedule(caller, id)->Ok_0.0;
        lemma_step_listed(env, post, id, EscrowStatus::Active, EscrowStatus::Cancelled, x);
    }
}

/// Marking the milestones of a batch moves no escrow.
proof fn lemma_batch_marked_lists(
    env: LedgerView,
    caller: Address,
    id: u64,
    m: MetaView,
    ids: Seq<u32>,
    over: bool,
    k: nat,
    x: u64,
)
    requires
        env.has_meta(id) ==> env.meta(id).escrow_id == id,
        env.batch_marked(caller, id, m, ids, over, k) is Ok,
    ensures
        ({
            let (post, m2) = env.batch_marked(caller, id, m, ids, over, k)->Ok_0;
            &&& post.book.by_status == env.book.by_status
            &&& x != id ==> post.has_meta(x) == env.has_meta(x)
            &&& x != id && env.has_meta(x) ==> post.meta(x) == env.meta(x)
            &&& post.has_meta(id) ==> post.meta(id).escrow_id == id
            &&& m2.status == m.status
            &&& m2.escrow_id == m.escrow_id
        }),
    decreases k,
{
    if k > 0 {
        lemma_batch_marked_lists(env, caller, id, m, ids, over, (k - 1) as nat, x);
        let (before, m1) = env.batch_marked(caller, id, m, ids, over, (k - 1) as nat)->Ok_0;
        let mid = ids[k - 1];
        let policy = m1.multisig_threshold > 0;
        let found = before.milestone(id, mid);
        let ms = if policy {
            before.signed(found, caller)
        } else {
            found
        };
        let weight = accrued(m1, ms.approvals);
        let noted = if policy {
            before.told(
                Event::MultisigApprovalRecorded {
                    escrow_id: id,
                    milestone_id: mid,
                    signer: caller,
                    accrued: weight as u32,
                    threshold: m1.multisig_threshold,
                },
            )
        } else {
            before
        };
        let marked = noted.saved_milestone(
            id,
            MilestoneView {
                resolved_at: Some(before.timestamp),
                status: if over {
                    MS_RELEASED
                } else {
                    MS_APPROVED
                },
                ..ms
            },
        );
        lemma_dependents_lists(marked, id, mid, x);
        if marked.accessed(id) is Ok {
            let (seen, y) = marked.accessed(id)->Ok_0;
            lemma_waiting_told(seen, id, mid, y.milestone_count as nat);
        }
    }
}

/// The approval of several milestones that completes an escrow moves it to the
/// list of those that are completed; any other leaves it where it is.
#[verifier::rlimit(40)]
pub proof fn law_batch_approval_listed(
    env: LedgerView,
    caller: Address,
    id: u64,
    ids: Seq<u32>,
    x: u64,
)
    requires
        env.sound(),
        env.well_listed(x),
        env.batch_approve(caller, id, ids) is Ok,
    ensures
        env.batch_approve(caller, id, ids)->Ok_0.0.well_listed(x),
{
    assert(env.book.metas.contains_key(PackedDataKey::EscrowMeta(id)));
    lemma_access_sound(env.authed(caller), id);
    let (seen, m) = env.authed(caller).accessed(id)->Ok_0;
    let open = seen.unlocked(id, m.lock_time)->Ok_0.0;
    let over = open.timelock_over(id, m.timelock) is Ok;
    let base = open.timelock_seen(id, m.timelock);
    lemma_batch_marked_lists(base, caller, id, m, ids, over, ids.len(), x);
    let post = env.batch_approve(caller, id, ids)->Ok_0.0;
    if post.meta(id).status == EscrowStatus::Completed {
        lemma_step_listed(env, post, id, EscrowStatus::Active, EscrowStatus::Completed, x);
    } else {
        assert(post.book.by_status == env.book.by_status);
    }
}

/// The client's role is handed on together with the escrow's place in the list
/// of who takes part.
pub proof fn law_role_listed(env: LedgerView, id: u64, new_client: Address)
    requires
        env.transfer_client(id, new_client) is Ok,
    ensures
        ({
            let old_client = env.meta(id).client;
            let lists = env.transfer_client(id, new_client)->Ok_0.0.book.by_participant;
            &&& listed(lists, new_client).contains(id)
            &&& old_client != new_client ==> !listed(lists, old_client).contains(id)
        }),
{
    let old_client = env.meta(id).client;
    let lists = env.book.by_participant;
    lemma_without_gone(listed(lists, old_client), id);
    let taken = dropped(lists, old_client, id);
    lemma_pushed(listed(taken, new_client), id, id);
}

} // verus!
