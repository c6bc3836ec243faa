//! How work on milestones goes: they are added, submitted and rejected.
use vstd::prelude::*;

use crate::funds::lemma_gained_push;
use crate::gains::{gains, lemma_access_gained, outsider};
use crate::ledger::{LedgerView, Outcome};
use crate::types::{
    Address, EscrowStatus, Hash32, MetaView, MilestoneView, PriceCondition,
    MS_APPROVED, MS_PENDING, MS_REJECTED, MS_RELEASED, MS_SUBMITTED,
};

verus! {

/// An escrow takes one more milestone of an amount: it is active, the amount fits
/// what no milestone claims of the total, and there are not too many already.
pub open spec fn fits_another(env: LedgerView, id: u64, amount: i128) -> bool {
    let m = env.meta(id);
    let cap = match env.config.max_milestones {
        Some(n) => n,
        None => 20,
    };
    &&& m.status == EscrowStatus::Active
    &&& 0 < amount <= 100_000_000_000_000_000
    &&& m.allocated_amount + amount <= m.total_amount
    &&& m.allocated_amount + amount <= m.allotted_amount
    &&& m.milestone_count < cap
}

/// The client of an escrow added a milestone as it was asked for, and paid thirty
/// for it; the other milestones are as they were.
pub open spec fn added_as_asked(
    env: LedgerView,
    r: Outcome<u32>,
    caller: Address,
    id: u64,
    title: Seq<u8>,
    hash: Hash32,
    amount: i128,
    condition: Option<PriceCondition>,
) -> bool {
    let m = env.meta(id);
    let (post, mid) = r->Ok_0;
    let ms = post.milestone(id, mid);
    &&& mid == m.milestone_count
    &&& post.has_milestone(id, mid)
    &&& ms.id == mid && ms.title == title && ms.description_hash == hash && ms.amount == amount
    &&& ms.status == MS_PENDING && ms.approvals.len() == 0
    &&& ms.submitted_at is None && ms.resolved_at is None && ms.rejection_reason is None
    &&& ms.depends_on is None && ms.price_condition == condition
    &&& post.meta(id).milestone_count == m.milestone_count + 1
    &&& post.meta(id).allocated_amount == m.allocated_amount + amount
    &&& post.meta(id).total_amount == m.total_amount
    &&& post.meta(id).remaining_balance == m.remaining_balance
    &&& post.meta(id).status == m.status
    &&& forall|x: u64, y: u32|
        (x != id || y != mid) ==> #[trigger] post.milestone(x, y) == env.milestone(x, y)
    &&& outsider(env, caller) ==> gains(env, post, id, caller) == -30
}

/// The client, and nobody else, adds a milestone where it fits.
#[verifier::rlimit(60)]
pub proof fn law_adding_does(
    env: LedgerView,
    caller: Address,
    id: u64,
    title: Seq<u8>,
    hash: Hash32,
    amount: i128,
    condition: PriceCondition,
)
    requires
        !env.config.paused,
        !env.is_frozen(id),
        env.authed(caller).accessed(id) is Ok,
        env.authed(caller).accessed(id)->Ok_0.1.rent_balance + 30 <= i128::MAX,
        env.meta(id).escrow_id == id,
        env.meta(id).allocated_amount >= 0,
    ensures
        ({
            let plain = env.add_milestone(caller, id, title, hash, amount);
            let priced = env.add_price_milestone(caller, id, title, hash, amount, condition);
            let fits = caller == env.meta(id).client && title.len() <= 256 && fits_another(
                env,
                id,
                amount,
            );
            &&& plain is Ok <==> fits
            &&& plain is Ok ==> added_as_asked(env, plain, caller, id, title, hash, amount, None)
            &&& priced is Ok <==> fits
            &&& priced is Ok ==> added_as_asked(
                env,
                priced,
                caller,
                id,
                title,
                hash,
                amount,
                Some(condition),
            )
        }),
{
    broadcast use lemma_gained_push;

    if outsider(env, caller) {
        lemma_access_gained(env.authed(caller), id, env.meta(id).token, caller);
    }
}

/// A title changes as long as nobody has worked on the milestone, and nothing else
/// about it does.
#[verifier::rlimit(40)]
pub proof fn law_title_changes(env: LedgerView, caller: Address, id: u64, mid: u32, title: Seq<u8>)
    requires
        !env.config.paused,
        env.authed(caller).accessed(id) is Ok,
        env.milestone(id, mid).id == mid,
    ensures
        ({
            let r = env.retitle(caller, id, mid, title);
            &&& r is Ok <==> {
                &&& caller == env.meta(id).client
                &&& env.has_milestone(id, mid)
                &&& env.milestone(id, mid).status == MS_PENDING
                &&& 1 <= title.len() <= 256
            }
            &&& r is Ok ==> r->Ok_0.0.milestone(id, mid) == (MilestoneView {
                title,
                ..env.milestone(id, mid)
            })
        }),
{
}

/// When work may be submitted: the milestone is open or was rejected, and the one
/// it waits for is approved or released.
pub open spec fn submittable(env: LedgerView, id: u64, mid: u32) -> bool {
    let ms = env.milestone(id, mid);
    &&& env.has_milestone(id, mid)
    &&& ms.status == MS_PENDING || ms.status == MS_REJECTED
    &&& ms.depends_on matches Some(p) ==> env.has_milestone(id, p) && (env.milestone(id, p).status
        == MS_APPROVED || env.milestone(id, p).status == MS_RELEASED)
}

/// The freelancer submits what may be submitted. A deadline that is less than a
/// week off moves to a week from now, unless that reaches the lock time; any other
/// stays.
#[verifier::rlimit(60)]
pub proof fn law_submission_does(env: LedgerView, caller: Address, id: u64, mid: u32)
    requires
        !env.config.paused,
        !env.is_frozen(id),
        env.authed(caller).accessed(id) is Ok,
        env.meta(id).escrow_id == id,
        env.meta(id).submitted_count < u32::MAX,
        env.milestone(id, mid).id == mid,
        env.timestamp + 604_800 <= u64::MAX,
    ensures
        ({
            let r = env.submit(caller, id, mid);
            let m = env.meta(id);
            let post = r->Ok_0.0;
            let now = env.timestamp;
            &&& r is Ok <==> caller == m.freelancer && submittable(env, id, mid)
            &&& r is Ok ==> {
                &&& post.milestone(id, mid) == (MilestoneView {
                    status: MS_SUBMITTED,
                    submitted_at: Some(now),
                    ..env.milestone(id, mid)
                })
                &&& post.meta(id).submitted_count == m.submitted_count + 1
                &&& post.meta(id).remaining_balance == m.remaining_balance
                &&& post.meta(id).status == m.status
                &&& m.deadline is None ==> post.meta(id).deadline is None
                &&& m.deadline matches Some(d) ==> {
                    let late = now < d && d - now < 604_800;
                    let free = m.lock_time is None || now + 604_800 < m.lock_time->Some_0;
                    post.meta(id).deadline is Some && post.meta(id).deadline->Some_0 == if late
                        && free {
                        now + 604_800
                    } else {
                        d as int
                    }
                }
            }
        }),
{
    let (seen, m) = env.authed(caller).accessed(id)->Ok_0;
    assert(seen.book.milestones == env.book.milestones);
}

/// The client rejects what was submitted, with a reason or without. The milestone
/// is then open to be submitted again; nothing is paid.
#[verifier::rlimit(60)]
pub proof fn law_rejection_does(
    env: LedgerView,
    caller: Address,
    id: u64,
    mid: u32,
    reason: Hash32,
)
    requires
        !env.config.paused,
        !env.is_frozen(id),
        !reason.zero(),
        env.authed(caller).accessed(id) is Ok,
        env.meta(id).escrow_id == id,
        env.meta(id).submitted_count > 0,
        env.milestone(id, mid).id == mid,
    ensures
        ({
            let plain = env.reject(caller, id, mid);
            let told = env.reject_with_reason(caller, id, mid, reason);
            let m = env.meta(id);
            let ms = env.milestone(id, mid);
            let due = caller == m.client && m.status == EscrowStatus::Active && env.has_milestone(
                id,
                mid,
            ) && ms.status == MS_SUBMITTED;
            &&& plain is Ok <==> due
            &&& told is Ok <==> due
            &&& due ==> {
                &&& plain->Ok_0.0.milestone(id, mid) == (MilestoneView {
                    status: MS_REJECTED,
                    resolved_at: Some(env.timestamp),
                    ..ms
                })
                &&& told->Ok_0.0.milestone(id, mid) == (MilestoneView {
                    status: MS_REJECTED,
                    resolved_at: Some(env.timestamp),
                    rejection_reason: Some(reason),
                    ..ms
                })
                &&& plain->Ok_0.0.meta(id).submitted_count == m.submitted_count - 1
                &&& told->Ok_0.0.meta(id).submitted_count == m.submitted_count - 1
                &&& plain->Ok_0.0.meta(id).remaining_balance == m.remaining_balance
                &&& told->Ok_0.0.meta(id).remaining_balance == m.remaining_balance
            }
        }),
{
}

/// What was rejected can be submitted again, and counts once while it waits.
#[verifier::rlimit(60)]
pub proof fn law_rejected_again(env: LedgerView, client: Address, id: u64, mid: u32)
    requires
        !env.config.paused,
        !env.is_frozen(id),
        env.meta(id).escrow_id == id,
        env.meta(id).submitted_count > 0,
        env.milestone(id, mid).id == mid,
        env.milestone(id, mid).depends_on is None,
        env.reject(client, id, mid) is Ok,
    ensures
        ({
            let post = env.reject(client, id, mid)->Ok_0.0;
            let again = post.submit(env.meta(id).freelancer, id, mid);
            &&& again is Ok
            &&& again->Ok_0.0.meta(id).submitted_count == env.meta(id).submitted_count
            &&& again->Ok_0.0.milestone(id, mid).status == MS_SUBMITTED
        }),
{
    let (seen, m) = env.authed(client).accessed(id)->Ok_0;
    let post = env.reject(client, id, mid)->Ok_0.0;
    crate::laws::law_rent_collected_once(env.authed(client), id);
    let freelancer = env.meta(id).freelancer;
    let again = post.authed(freelancer);
    assert(again.meta(id) == (MetaView {
        submitted_count: (m.submitted_count - 1) as u32,
        ..m
    }));
    assert(again.has_recurring(id) == seen.has_recurring(id));
    assert(again.rent_expired(again.meta(id)) == seen.rent_expired(m));
    assert(again.accessed(id) is Ok);
}

} // verus!
