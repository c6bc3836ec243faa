//! When a request has to be granted.
use vstd::prelude::*;

use crate::batches::batch_sum;
use crate::calendar::due_at;
use crate::events::Event;
use crate::ledger::LedgerView;
use crate::multisig::{accrued, has_signed, signature_weight, weight_of};
use crate::payouts::lemma_dependents_kept;
use crate::releasing::sum_of;
use crate::schedule::{interval_seconds, lemma_payments_until, payments_until};
use crate::types::{
    Address, ApprovalRecord, EscrowStatus, Hash32, MetaView, MilestoneView, RecurringInterval,
    MS_APPROVED, MS_RELEASED, MS_SUBMITTED,
};

verus! {

/// Nothing about the contract stands against a request on an escrow.
pub open spec fn running(env: LedgerView, caller: Address, id: u64) -> bool {
    &&& env.config.admin is Some
    &&& !env.config.paused
    &&& !env.config.reentrancy_lock
    &&& !env.is_frozen(id)
    &&& env.has_meta(id)
    &&& env.meta(id).escrow_id == id
    &&& env.authed(caller).accessed(id) is Ok
}

/// Nothing about the terms of an escrow holds a payment of an amount up.
pub open spec fn unhindered(env: LedgerView, id: u64, amount: i128) -> bool {
    let m = env.meta(id);
    &&& m.lock_time matches Some(t) ==> t <= env.timestamp
    &&& m.timelock is None
    &&& m.terms_hash is Some ==> env.book.terms.contains_key(id) && env.book.terms[id].accepted
    &&& m.slippage_bps == 0
    &&& 0 <= amount <= m.remaining_balance
    &&& m.approved_count < u32::MAX
    &&& m.released_count < u32::MAX
}

/// The milestone that another one waits for, if any, is approved or released.
pub open spec fn free_to_go(env: LedgerView, id: u64, mid: u32) -> bool {
    env.milestone(id, mid).depends_on matches Some(p) ==> env.has_milestone(id, p) && (
    env.milestone(id, p).status == MS_APPROVED || env.milestone(id, p).status == MS_RELEASED)
}

/// A submitted milestone can be approved, by the client or a named signer, or under
/// a policy by each of its approvers once; and by nobody else.
#[verifier::rlimit(60)]
pub proof fn law_approval_due(env: LedgerView, caller: Address, id: u64, mid: u32)
    requires
        running(env, caller, id),
        unhindered(env, id, env.milestone(id, mid).amount),
        free_to_go(env, id, mid),
        accrued(env.meta(id), env.milestone(id, mid).approvals) + signature_weight(
            env.meta(id),
            caller,
        ) <= u32::MAX,
    ensures
        ({
            let m = env.meta(id);
            let ms = env.milestone(id, mid);
            env.approve(caller, id, mid) is Ok <==> {
                &&& m.status == EscrowStatus::Active
                &&& env.has_milestone(id, mid)
                &&& ms.status == MS_SUBMITTED
                &&& if m.multisig_threshold > 0 {
                    weight_of(m, caller) is Some && !has_signed(ms.approvals, caller)
                } else {
                    caller == m.client || m.buyer_signers.contains(caller.id)
                }
            }
        }),
{
    let (seen, m) = env.authed(caller).accessed(id)->Ok_0;
    let ms = env.milestone(id, mid);
    assert(seen.book.milestones == env.book.milestones);
    crate::solvency::lemma_accrued_same(env.meta(id), m, ms.approvals);
    crate::multisig::lemma_accrued_push(
        m,
        ms.approvals,
        ApprovalRecord { signer: caller, approved_at: env.timestamp },
    );
    assert(weight_of(m, caller) == weight_of(env.meta(id), caller));
}

/// The admin can release what is approved. So can a party from the release time on,
/// where one is set.
#[verifier::rlimit(60)]
pub proof fn law_release_due(env: LedgerView, caller: Address, id: u64, mid: u32)
    requires
        running(env, caller, id),
        unhindered(env, id, env.milestone(id, mid).amount),
        free_to_go(env, id, mid),
        env.config.platform_treasury is Some,
    ensures
        ({
            let m = env.meta(id);
            let ready = m.status == EscrowStatus::Active && env.has_milestone(id, mid)
                && env.milestone(id, mid).status == MS_APPROVED;
            &&& env.release(caller, id, mid) is Ok <==> ready && env.config.admin == Some(caller)
            &&& env.timed_release(caller, id, mid) is Ok <==> {
                &&& ready
                &&& caller == m.client || caller == m.freelancer
                &&& env.book.release_times.contains_key(id)
                &&& env.book.release_times[id] <= env.timestamp
            }
        }),
{
    let (seen, m) = env.authed(caller).accessed(id)->Ok_0;
    assert(seen.book.milestones == env.book.milestones);
}

/// The client manages its own schedule, and nobody else does, until it is
/// cancelled. It is cancelled while the escrow is active.
#[verifier::rlimit(40)]
pub proof fn law_schedule_managed(env: LedgerView, caller: Address, id: u64)
    requires
        running(env, caller, id),
    ensures
        ({
            let m = env.meta(id);
            let own = caller == m.client && env.has_recurring(id) && !env.recurring(id).cancelled;
            &&& env.pause_schedule(caller, id) is Ok <==> own
            &&& env.resume_schedule(caller, id) is Ok <==> own
            &&& env.cancel_schedule(caller, id) is Ok <==> own && m.status == EscrowStatus::Active
        }),
{
}

/// A party takes a dispute to governance from a total of ten billion on, where
/// there is a governance contract; nobody else does.
pub proof fn law_escalation_due(env: LedgerView, caller: Address, id: u64)
    requires
        running(env, caller, id),
    ensures
        ({
            let m = env.meta(id);
            env.escalation(caller, id) is Ok <==> {
                &&& caller == m.client || caller == m.freelancer
                &&& m.status == EscrowStatus::Disputed
                &&& m.total_amount >= 10_000_000_000
                &&& env.config.governance_contract is Some
            }
        }),
{
}

/// A child of a split keeps the parties and the dates of its parent, and a part of
/// what the parent held; it owes no fee.
pub open spec fn child_of(
    env: LedgerView,
    post: LedgerView,
    id: u64,
    child: u64,
    amount: int,
    hash: Hash32,
) -> bool {
    let m = env.meta(id);
    let c = post.meta(child);
    &&& post.has_meta(child)
    &&& c.client == m.client && c.freelancer == m.freelancer && c.token == m.token
    &&& c.arbiter == m.arbiter && c.deadline == m.deadline && c.lock_time == m.lock_time
    &&& c.dispute_timeout_ledger == m.dispute_timeout_ledger
    &&& c.total_amount == amount && c.remaining_balance == amount
    &&& c.brief_hash == hash
    &&& c.status == EscrowStatus::Active && c.milestone_count == 0
    &&& post.fee_snapshot(child).collected && post.fee_snapshot(child).fee_amount == 0
}

/// A split gives the first child what was asked for and the second the rest of what
/// no milestone claims. The parent keeps what its milestones claim, and may claim no
/// more.
#[verifier::rlimit(60)]
pub proof fn law_split_does(env: LedgerView, caller: Address, id: u64, amount: i128, hash: Hash32)
    requires
        env.split(caller, id, amount, hash) is Ok,
        env.config.escrow_counter < u64::MAX - 1,
        env.has_meta(id),
        env.meta(id).escrow_id == id,
        id < env.config.escrow_counter,
        env.meta(id).allocated_amount >= 0,
        env.meta(id).remaining_balance >= 0,
        env.meta(id).allotted_amount >= env.meta(id).remaining_balance,
    ensures
        ({
            let m = env.meta(id);
            let (post, (one, two)) = env.split(caller, id, amount, hash)->Ok_0;
            let free = m.remaining_balance - m.allocated_amount;
            &&& m.status == EscrowStatus::Active
            &&& !env.scheduled(id)
            &&& 0 < amount < free
            &&& one == env.config.escrow_counter
            &&& two == one + 1
            &&& post.config.escrow_counter == one + 2
            &&& child_of(env, post, id, one, amount as int, hash)
            &&& child_of(env, post, id, two, free - amount, hash)
            &&& post.meta(id).remaining_balance == m.allocated_amount
            &&& post.meta(id).allotted_amount == m.allotted_amount - free
            &&& post.meta(id).allocated_amount == m.allocated_amount
            &&& post.meta(id).status == EscrowStatus::Active
        }),
{
}

/// An active escrow that is nothing but an amount between two parties can be split
/// by either of them, or by anybody both sign for, as long as both parts are worth
/// something and no schedule is running.
#[verifier::rlimit(60)]
pub proof fn law_split_due(env: LedgerView, caller: Address, id: u64, amount: i128, hash: Hash32)
    requires
        running(env, caller, id),
        env.config.escrow_counter < u64::MAX - 1,
        id < env.config.escrow_counter,
        env.meta(id).client != env.meta(id).freelancer,
        0 <= env.meta(id).allocated_amount,
        0 <= env.meta(id).remaining_balance <= 100_000_000_000_000_000,
        env.meta(id).remaining_balance < crate::creating::high_from(env),
        env.meta(id).arbiter is None,
        env.meta(id).deadline is None,
        env.meta(id).lock_time is None,
        env.meta(id).timelock is None,
        env.meta(id).multisig_threshold == 0,
        hash.hi != 0 || hash.lo != 0,
        !env.barred.contains_key(env.meta(id).token),
        !env.config.token_whitelist_enabled,
    ensures
        env.split(caller, id, amount, hash) is Ok <==> {
            &&& env.meta(id).status == EscrowStatus::Active
            &&& !env.scheduled(id)
            &&& 0 < amount < env.meta(id).remaining_balance - env.meta(id).allocated_amount
        },
{
}

/// What the first `k` of some amounts come to.
pub open spec fn worth(amounts: Seq<i128>, k: nat) -> int
    decreases k,
{
    if k == 0 {
        0
    } else {
        worth(amounts, (k - 1) as nat) + amounts[k - 1]
    }
}

/// The first `k` milestones of a batch are each worth something, under a title that
/// is not too long.
pub open spec fn each_fine(titles: Seq<Seq<u8>>, amounts: Seq<i128>, k: nat) -> bool {
    forall|i: int| 0 <= i < k ==> (#[trigger] amounts[i]) > 0 && titles[i].len() <= 256
}

proof fn lemma_batch_worth(titles: Seq<Seq<u8>>, amounts: Seq<i128>, k: nat)
    ensures
        batch_sum(titles, amounts, k) is Ok <==> each_fine(titles, amounts, k) && worth(amounts, k)
            <= i128::MAX,
        batch_sum(titles, amounts, k) matches Ok(sum) ==> sum == worth(amounts, k),
        each_fine(titles, amounts, k) ==> worth(amounts, k) >= 0,
    decreases k,
{
    if k > 0 {
        lemma_batch_worth(titles, amounts, (k - 1) as nat);
        if each_fine(titles, amounts, k) {
            assert(amounts[k - 1] > 0);
        }
        if each_fine(titles, amounts, (k - 1) as nat) && amounts[k - 1] > 0 && titles[k - 1].len()
            <= 256 {
            assert(each_fine(titles, amounts, k));
        }
    }
}

/// The client, and nobody else, adds several milestones at once where each is fine
/// and all of them together fit.
#[verifier::rlimit(40)]
pub proof fn law_batch_adding_due(
    env: LedgerView,
    caller: Address,
    id: u64,
    titles: Seq<Seq<u8>>,
    hashes: Seq<Hash32>,
    amounts: Seq<i128>,
)
    requires
        running(env, caller, id),
        env.meta(id).allocated_amount >= 0,
        env.authed(caller).accessed(id)->Ok_0.1.rent_balance + 30 * titles.len() <= i128::MAX,
    ensures
        ({
            let m = env.meta(id);
            let n = titles.len();
            let cap = if env.config.max_milestones is Some {
                env.config.max_milestones->Some_0
            } else {
                20
            };
            env.batch_add(caller, id, titles, hashes, amounts) is Ok <==> {
                &&& caller == m.client
                &&& m.status == EscrowStatus::Active
                &&& n > 0 && hashes.len() == n && amounts.len() == n
                &&& m.milestone_count + n <= cap
                &&& each_fine(titles, amounts, n)
                &&& m.allocated_amount + worth(amounts, n) <= m.total_amount
                &&& m.allocated_amount + worth(amounts, n) <= m.allotted_amount
            }
        }),
{
    lemma_batch_worth(titles, amounts, titles.len());
}

/// The first `k` milestones that are named are approved, and none is named twice.
pub open spec fn all_ready(env: LedgerView, id: u64, ids: Seq<u32>, k: nat) -> bool {
    &&& forall|i: int|
        0 <= i < k ==> env.has_milestone(id, #[trigger] ids[i]) && env.milestone(id, ids[i]).status
            == MS_APPROVED
    &&& forall|i: int, j: int| 0 <= i < j < k ==> (#[trigger] ids[i]) != (#[trigger] ids[j])
}

proof fn lemma_release_ready(env: LedgerView, seen: LedgerView, id: u64, ids: Seq<u32>, k: nat)
    requires
        k <= ids.len(),
        seen.book.milestones == env.book.milestones,
        forall|i: int| 0 <= i < ids.len() ==> env.milestone(id, #[trigger] ids[i]).amount >= 0,
        sum_of(env, id, ids, k) <= i128::MAX,
    ensures
        seen.release_due(id, ids, k) is Ok <==> all_ready(env, id, ids, k),
        seen.release_due(id, ids, k) matches Ok(due) ==> due == sum_of(env, id, ids, k),
        sum_of(env, id, ids, k) >= 0,
    decreases k,
{
    if k > 0 {
        assert(env.milestone(id, ids[k - 1]).amount >= 0);
        lemma_release_ready(env, seen, id, ids, (k - 1) as nat);
        let before = ids.take(k - 1);
        if before.contains(ids[k - 1]) {
            let i = choose|i: int| 0 <= i < before.len() && before[i] == ids[k - 1];
            assert(ids[i] == ids[k - 1]);
        } else {
            assert forall|i: int| 0 <= i < k - 1 implies #[trigger] ids[i] != ids[k - 1] by {
                assert(before[i] == ids[i]);
            }
        }
    }
}

proof fn lemma_marking_configured(env: LedgerView, id: u64, to: Address, ids: Seq<u32>, k: nat)
    ensures
        env.release_marked(id, to, ids, k).config == env.config,
    decreases k,
{
    if k > 0 {
        lemma_marking_configured(env, id, to, ids, (k - 1) as nat);
    }
}

/// The admin, and nobody else, releases several milestones at once where all of
/// them are approved and none is named twice.
#[verifier::rlimit(60)]
pub proof fn law_batch_release_due(env: LedgerView, caller: Address, id: u64, ids: Seq<u32>)
    requires
        running(env, caller, id),
        forall|i: int| 0 <= i < ids.len() ==> env.milestone(id, #[trigger] ids[i]).amount >= 0,
        sum_of(env, id, ids, ids.len()) <= i128::MAX,
        unhindered(env, id, sum_of(env, id, ids, ids.len()) as i128),
        env.meta(id).released_count + ids.len() <= u32::MAX,
        env.config.platform_treasury is Some,
    ensures
        env.batch_release(caller, id, ids) is Ok <==> {
            &&& env.config.admin == Some(caller)
            &&& env.meta(id).status == EscrowStatus::Active
            &&& ids.len() > 0
            &&& all_ready(env, id, ids, ids.len())
        },
{
    let (seen, m) = env.authed(caller).accessed(id)->Ok_0;
    let open = seen.lock_seen(id, m.lock_time);
    lemma_release_ready(env, open, id, ids, ids.len());
    lemma_marking_configured(open, id, m.freelancer, ids, ids.len());
}

/// The first `k` milestones that are named can be approved by the caller: they are
/// submitted and free to go, none is named twice, and the caller has signed none.
pub open spec fn all_submitted(
    env: LedgerView,
    caller: Address,
    id: u64,
    ids: Seq<u32>,
    k: nat,
) -> bool {
    &&& forall|i: int| 0 <= i < k ==> signable(env, caller, id, #[trigger] ids[i])
    &&& forall|i: int, j: int| 0 <= i < j < k ==> (#[trigger] ids[i]) != (#[trigger] ids[j])
}

/// The same of one milestone.
pub open spec fn signable(env: LedgerView, caller: Address, id: u64, mid: u32) -> bool {
    let ms = env.milestone(id, mid);
    &&& env.has_milestone(id, mid)
    &&& ms.status == MS_SUBMITTED
    &&& free_to_go(env, id, mid)
    &&& env.meta(id).multisig_threshold > 0 ==> !has_signed(ms.approvals, caller)
}

/// No signature takes the weight under a milestone out of range.
pub open spec fn weighable(env: LedgerView, caller: Address, id: u64, ids: Seq<u32>) -> bool {
    forall|i: int|
        0 <= i < ids.len() ==> {
            let ms = env.milestone(id, #[trigger] ids[i]);
            &&& ms.amount >= 0
            &&& ms.id == ids[i]
            &&& accrued(env.meta(id), ms.approvals) + signature_weight(env.meta(id), caller)
                <= u32::MAX
        }
}

proof fn lemma_batch_ready(
    env: LedgerView,
    seen: LedgerView,
    caller: Address,
    id: u64,
    m: MetaView,
    ids: Seq<u32>,
    k: nat,
)
    requires
        k <= ids.len(),
        seen.book.milestones == env.book.milestones,
        m.multisig_threshold == env.meta(id).multisig_threshold,
        m.buyer_signers == env.meta(id).buyer_signers,
        m.multisig_weights == env.meta(id).multisig_weights,
        weighable(env, caller, id, ids),
        sum_of(env, id, ids, k) <= i128::MAX,
    ensures
        seen.batch_due(caller, id, m, ids, k) is Ok <==> all_submitted(env, caller, id, ids, k),
        seen.batch_due(caller, id, m, ids, k) matches Ok(due) ==> 0 <= due <= sum_of(
            env,
            id,
            ids,
            k,
        ),
        sum_of(env, id, ids, k) >= 0,
    decreases k,
{
    if k > 0 {
        let mid = ids[k - 1];
        let ms = env.milestone(id, mid);
        assert(ms.amount >= 0);
        lemma_batch_ready(env, seen, caller, id, m, ids, (k - 1) as nat);
        crate::solvency::lemma_accrued_same(env.meta(id), m, ms.approvals);
        assert(weight_of(m, caller) == weight_of(env.meta(id), caller));
        let before = ids.take(k - 1);
        if before.contains(mid) {
            let i = choose|i: int| 0 <= i < before.len() && before[i] == mid;
            assert(ids[i] == ids[k - 1]);
        } else {
            assert forall|i: int| 0 <= i < k - 1 implies #[trigger] ids[i] != mid by {
                assert(before[i] == ids[i]);
            }
        }
        if all_submitted(env, caller, id, ids, k) {
            assert(signable(env, caller, id, ids[k - 1]));
        }
    }
}

proof fn lemma_batch_marks(
    env: LedgerView,
    seen: LedgerView,
    caller: Address,
    id: u64,
    m: MetaView,
    ids: Seq<u32>,
    over: bool,
    k: nat,
)
    requires
        k <= ids.len(),
        seen.book.milestones == env.book.milestones,
        m.multisig_threshold == env.meta(id).multisig_threshold,
        m.buyer_signers == env.meta(id).buyer_signers,
        m.multisig_weights == env.meta(id).multisig_weights,
        weighable(env, caller, id, ids),
        all_submitted(env, caller, id, ids, ids.len()),
        m.approved_count + k <= u32::MAX,
        m.released_count + k <= u32::MAX,
    ensures
        seen.batch_marked(caller, id, m, ids, over, k) is Ok,
        ({
            let (post, m2) = seen.batch_marked(caller, id, m, ids, over, k)->Ok_0;
            &&& m2.approved_count <= m.approved_count + k
            &&& m2.released_count <= m.released_count + k
            &&& m2.buyer_signers == m.buyer_signers
            &&& m2.multisig_weights == m.multisig_weights
            &&& m2.multisig_threshold == m.multisig_threshold
            &&& m2.remaining_balance == m.remaining_balance
            &&& m2.terms_hash == m.terms_hash
            &&& m2.slippage_bps == m.slippage_bps
            &&& post.book.terms == seen.book.terms
            &&& forall|i: int|
                k <= i < ids.len() ==> post.has_milestone(id, #[trigger] ids[i]) && post.milestone(
                    id,
                    ids[i],
                ) == env.milestone(id, ids[i])
        }),
    decreases k,
{
    if k == 0 {
        assert forall|i: int| 0 <= i < ids.len() implies seen.has_milestone(
            id,
            #[trigger] ids[i],
        ) by {
            assert(signable(env, caller, id, ids[i]));
        }
    } else {
        lemma_batch_marks(env, seen, caller, id, m, ids, over, (k - 1) as nat);
        let (before, m1) = seen.batch_marked(caller, id, m, ids, over, (k - 1) as nat)->Ok_0;
        let mid = ids[k - 1];
        let ms = env.milestone(id, mid);
        assert(before.milestone(id, mid) == ms);
        assert(ms.id == mid);
        crate::solvency::lemma_accrued_same(env.meta(id), m1, ms.approvals);
        assert(weight_of(m1, caller) == weight_of(env.meta(id), caller));
        crate::multisig::lemma_accrued_push(
            m1,
            ms.approvals,
            ApprovalRecord { signer: caller, approved_at: before.timestamp },
        );
        let signed = if m1.multisig_threshold > 0 {
            before.signed(ms, caller)
        } else {
            ms
        };
        let noted = if m1.multisig_threshold > 0 {
            before.told(
                Event::MultisigApprovalRecorded {
                    escrow_id: id,
                    milestone_id: mid,
                    signer: caller,
                    accrued: accrued(m1, signed.approvals) as u32,
                    threshold: m1.multisig_threshold,
                },
            )
        } else {
            before
        };
        let marked = noted.saved_milestone(
            id,
            MilestoneView {
                resolved_at: Some(before.timestamp),
                status: if over {
                    MS_RELEASED
                } else {
                    MS_APPROVED
                },
                ..signed
            },
        );
        lemma_dependents_kept(marked, id, mid);
    }
}

/// Several milestones are approved at once, by whoever may approve them one by one,
/// where each of them can be; and else none is.
#[verifier::rlimit(60)]
pub proof fn law_batch_approval_due(env: LedgerView, caller: Address, id: u64, ids: Seq<u32>)
    requires
        running(env, caller, id),
        weighable(env, caller, id, ids),
        sum_of(env, id, ids, ids.len()) <= i128::MAX,
        unhindered(env, id, sum_of(env, id, ids, ids.len()) as i128),
        env.meta(id).approved_count + ids.len() <= u32::MAX,
        env.meta(id).released_count + ids.len() <= u32::MAX,
    ensures
        ({
            let m = env.meta(id);
            env.batch_approve(caller, id, ids) is Ok <==> {
                &&& m.status == EscrowStatus::Active
                &&& ids.len() > 0
                &&& all_submitted(env, caller, id, ids, ids.len())
                &&& if m.multisig_threshold > 0 {
                    weight_of(m, caller) is Some
                } else {
                    caller == m.client || m.buyer_signers.contains(caller.id)
                }
            }
        }),
{
    let (seen, m) = env.authed(caller).accessed(id)->Ok_0;
    let open = seen.lock_seen(id, m.lock_time);
    let base = open.timelock_seen(id, m.timelock);
    assert(weight_of(m, caller) == weight_of(env.meta(id), caller));
    lemma_batch_ready(env, base, caller, id, m, ids, ids.len());
    lemma_batch_ready(env, open, caller, id, m, ids, ids.len());
    if all_submitted(env, caller, id, ids, ids.len()) {
        lemma_batch_marks(env, base, caller, id, m, ids, true, ids.len());
    }
}

/// A schedule of a number of payments is granted from a start in the future, where
/// the payments together stay within the limit.
#[verifier::rlimit(40)]
pub proof fn law_schedule_due(
    env: LedgerView,
    client: Address,
    freelancer: Address,
    token: Address,
    amount: i128,
    interval: RecurringInterval,
    start: u64,
    count: u32,
    hash: Hash32,
)
    ensures
        env.recurring_created(
            client,
            freelancer,
            token,
            amount,
            interval,
            start,
            None,
            Some(count),
            hash,
        ) is Ok <==> {
            &&& env.config.admin is Some
            &&& !env.config.paused
            &&& client != freelancer
            &&& amount >= 1
            &&& hash.hi != 0 || hash.lo != 0
            &&& env.timestamp < start
            &&& count >= 1
            &&& amount * count <= 100_000_000_000_000_000
        },
{
}

/// A schedule up to a date makes the payments that fall on that date or before, and
/// is granted under the same conditions.
#[verifier::rlimit(40)]
pub proof fn law_dated_schedule_due(
    env: LedgerView,
    client: Address,
    freelancer: Address,
    token: Address,
    amount: i128,
    interval: RecurringInterval,
    start: u64,
    end: u64,
    count: u32,
    hash: Hash32,
)
    requires
        count >= 1,
        start <= end,
        due_at(start as int, interval, count - 1) <= end,
        end < due_at(start as int, interval, count as int),
        due_at(start as int, interval, count as int) <= u64::MAX,
    ensures
        env.recurring_created(
            client,
            freelancer,
            token,
            amount,
            interval,
            start,
            Some(end),
            None,
            hash,
        ) is Ok <==> {
            &&& env.config.admin is Some
            &&& !env.config.paused
            &&& client != freelancer
            &&& amount >= 1
            &&& hash.hi != 0 || hash.lo != 0
            &&& env.timestamp < start
            &&& amount * count <= 100_000_000_000_000_000
        },
{
    assert(payments_until(start, end, interval) == count) by {
        let n = payments_until(start, end, interval);
        lemma_payments_until(start, end, interval, count - 1);
        lemma_payments_until(start, end, interval, count as int);
    }
    assert(start + count * interval_seconds(interval) == due_at(
        start as int,
        interval,
        count as int,
    ));
}

} // verus!
