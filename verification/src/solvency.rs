//! An escrow has what its milestones are still owed.
use vstd::prelude::*;

use crate::batches::batch_sum;
use crate::creation::NewEscrow;
use crate::endings::lemma_run_named;
use crate::errors::EscrowError;
use crate::events::Event;
use crate::ledger::LedgerView;
use crate::multisig::{accrued, lemma_accrued_push, signature_weight, weight_of};
use crate::payouts::{lemma_dependents_kept, lemma_due_once, lemma_due_submitted};
use crate::recurring::Run;
use crate::storage::reserve;
use crate::types::{
    Address, ApprovalRecord, Hash32, MetaView, MilestoneTemplateView, MilestoneView,
    OptionalPriceCondition, PackedDataKey, PriceCondition, RecurringInterval, MS_APPROVED,
    MS_RELEASED,
};

verus! {

/// What a milestone is still owed.
pub open spec fn owed(ms: MilestoneView) -> int {
    if ms.status == MS_RELEASED {
        0
    } else {
        ms.amount as int
    }
}

/// What the first `n` milestones of an escrow are still owed.
pub open spec fn unpaid(env: LedgerView, id: u64, n: nat) -> int
    decreases n,
{
    if n == 0 {
        0
    } else {
        let mid = (n - 1) as u32;
        unpaid(env, id, (n - 1) as nat) + (if env.has_milestone(id, mid) {
            owed(env.milestone(id, mid))
        } else {
            0
        })
    }
}

/// What all milestones of an escrow are still owed.
pub open spec fn all_unpaid(env: LedgerView, id: u64) -> int {
    unpaid(env, id, env.meta(id).milestone_count as nat)
}

/// The milestones of an escrow are numbered and of no negative amount. The escrow
/// holds what they are still owed, that is no more than what they were allocated,
/// and what can still be allocated is held beside it.
pub open spec fn solvent(env: LedgerView, id: u64) -> bool {
    let m = env.meta(id);
    &&& env.has_meta(id)
    &&& m.escrow_id == id
    &&& forall|mid: u32| #[trigger]
        env.has_milestone(id, mid) ==> {
            &&& mid < m.milestone_count
            &&& env.milestone(id, mid).id == mid
            &&& env.milestone(id, mid).amount >= 0
        }
    &&& all_unpaid(env, id) <= m.remaining_balance
    &&& all_unpaid(env, id) <= m.allocated_amount
    &&& m.allotted_amount - m.allocated_amount <= m.remaining_balance - all_unpaid(env, id)
}

/// What is owed depends on the milestones alone.
proof fn lemma_unpaid_same(a: LedgerView, b: LedgerView, id: u64, n: nat)
    requires
        a.book.milestones == b.book.milestones,
    ensures
        unpaid(a, id, n) == unpaid(b, id, n),
    decreases n,
{
    if n > 0 {
        lemma_unpaid_same(a, b, id, (n - 1) as nat);
    }
}

/// What one milestone that is written changes about it.
proof fn lemma_unpaid_set(
    a: LedgerView,
    b: LedgerView,
    id: u64,
    mid: u32,
    ms: MilestoneView,
    n: nat,
)
    requires
        b.book.milestones == a.book.milestones.insert(PackedDataKey::Milestone(id, mid), ms),
        n <= u32::MAX,
    ensures
        mid >= n ==> unpaid(b, id, n) == unpaid(a, id, n),
        mid < n ==> unpaid(b, id, n) == unpaid(a, id, n) + owed(ms) - (if a.has_milestone(
            id,
            mid,
        ) {
            owed(a.milestone(id, mid))
        } else {
            0
        }),
    decreases n,
{
    if n > 0 {
        lemma_unpaid_set(a, b, id, mid, ms, (n - 1) as nat);
    }
}

/// Nothing negative is owed.
proof fn lemma_unpaid_pos(env: LedgerView, id: u64, n: nat)
    requires
        forall|mid: u32| #[trigger]
            env.has_milestone(id, mid) ==> env.milestone(id, mid).amount >= 0,
    ensures
        unpaid(env, id, n) >= 0,
    decreases n,
{
    if n > 0 {
        lemma_unpaid_pos(env, id, (n - 1) as nat);
    }
}

/// A solvent escrow has no negative balance, and holds what its milestones are
/// still owed.
pub proof fn law_solvent(env: LedgerView, id: u64)
    requires
        solvent(env, id),
    ensures
        0 <= all_unpaid(env, id) <= env.meta(id).remaining_balance,
{
    lemma_unpaid_pos(env, id, env.meta(id).milestone_count as nat);
}

/// What leaves the milestones and the amounts alone keeps an escrow solvent.
proof fn lemma_same_solvent(pre: LedgerView, post: LedgerView, id: u64)
    requires
        solvent(pre, id),
        post.book.milestones == pre.book.milestones,
        post.has_meta(id),
        ({
            let (a, b) = (pre.meta(id), post.meta(id));
            &&& b.escrow_id == id
            &&& b.milestone_count == a.milestone_count
            &&& b.allotted_amount == a.allotted_amount
            &&& b.allocated_amount == a.allocated_amount
            &&& b.remaining_balance == a.remaining_balance
        }),
    ensures
        solvent(post, id),
        all_unpaid(post, id) == all_unpaid(pre, id),
{
    let m = post.meta(id);
    lemma_unpaid_same(pre, post, id, m.milestone_count as nat);
    assert forall|mid: u32| #[trigger] post.has_milestone(id, mid) implies {
        &&& mid < m.milestone_count
        &&& post.milestone(id, mid).id == mid
        &&& post.milestone(id, mid).amount >= 0
    } by {
        assert(pre.has_milestone(id, mid));
    }
}

/// Looking an escrow up changes nothing about it.
proof fn lemma_seen_solvent(env: LedgerView, id: u64)
    requires
        solvent(env, id),
        env.accessed(id) is Ok,
    ensures
        ({
            let (seen, m) = env.accessed(id)->Ok_0;
            &&& solvent(seen, id)
            &&& seen.meta(id) == m
            &&& seen.book.milestones == env.book.milestones
            &&& all_unpaid(seen, id) == all_unpaid(env, id)
        }),
{
    lemma_same_solvent(env, env.accessed(id)->Ok_0.0, id);
}

/// A milestone was written, and the balance fell by what it is owed less.
proof fn lemma_written_solvent(
    pre: LedgerView,
    post: LedgerView,
    id: u64,
    mid: u32,
    ms: MilestoneView,
)
    requires
        solvent(pre, id),
        pre.has_milestone(id, mid),
        post.book.milestones == pre.book.milestones.insert(PackedDataKey::Milestone(id, mid), ms),
        ms.id == mid,
        ms.amount >= 0,
        post.has_meta(id),
        post.meta(id).escrow_id == id,
        post.meta(id).milestone_count == pre.meta(id).milestone_count,
        post.meta(id).allocated_amount == pre.meta(id).allocated_amount,
        post.meta(id).allotted_amount == pre.meta(id).allotted_amount,
        owed(ms) <= owed(pre.milestone(id, mid)),
        pre.meta(id).remaining_balance - post.meta(id).remaining_balance == owed(
            pre.milestone(id, mid),
        ) - owed(ms),
    ensures
        solvent(post, id),
{
    let n = pre.meta(id).milestone_count as nat;
    lemma_unpaid_set(pre, post, id, mid, ms, n);
    assert forall|k: u32| #[trigger] post.has_milestone(id, k) implies {
        &&& k < n
        &&& post.milestone(id, k).id == k
        &&& post.milestone(id, k).amount >= 0
    } by {
        assert(pre.has_milestone(id, k));
    }
}

/// A new escrow is solvent.
pub proof fn law_new_solvent(env: LedgerView, a: NewEscrow, pays: bool)
    requires
        env.created_from(a, pays) is Ok,
        forall|mid: u32| !(#[trigger] env.has_milestone(env.config.escrow_counter, mid)),
    ensures
        solvent(env.created_from(a, pays)->Ok_0.0, env.config.escrow_counter),
{
    let post = env.created_from(a, pays)->Ok_0.0;
    let id = env.config.escrow_counter;
    assert forall|mid: u32| !(#[trigger] post.has_milestone(id, mid)) by {
        assert(!env.has_milestone(id, mid));
    }
}

proof fn lemma_added_solvent(
    env: LedgerView,
    caller: Address,
    id: u64,
    title: Seq<u8>,
    hash: Hash32,
    amount: i128,
    condition: OptionalPriceCondition,
    too_long: EscrowError,
)
    requires
        solvent(env, id),
        env.milestone_added(caller, id, title, hash, amount, condition, too_long) is Ok,
    ensures
        solvent(
            env.milestone_added(caller, id, title, hash, amount, condition, too_long)->Ok_0.0,
            id,
        ),
{
    lemma_seen_solvent(env, id);
    let (seen, m) = env.accessed(id)->Ok_0;
    let post = env.milestone_added(
        caller,
        id,
        title,
        hash,
        amount,
        condition,
        too_long,
    )->Ok_0.0;
    let mid = m.milestone_count;
    lemma_unpaid_set(seen, post, id, mid, post.milestone(id, mid), mid as nat);
    lemma_unpaid_set(seen, post, id, mid, post.milestone(id, mid), (mid + 1) as nat);
    assert(!seen.has_milestone(id, mid));
    assert(unpaid(seen, id, (mid + 1) as nat) == unpaid(seen, id, mid as nat));
    assert forall|k: u32| #[trigger] post.has_milestone(id, k) implies {
        &&& k < mid + 1
        &&& post.milestone(id, k).id == k
        &&& post.milestone(id, k).amount >= 0
    } by {
        if k != mid {
            assert(seen.has_milestone(id, k));
        }
    }
}

proof fn lemma_template_solvent(
    env: LedgerView,
    client: Address,
    id: u64,
    milestones: Seq<MilestoneTemplateView>,
    k: nat,
)
    requires
        solvent(env, id),
        env.template_added(client, id, milestones, k) is Ok,
    ensures
        solvent(env.template_added(client, id, milestones, k)->Ok_0.0, id),
    decreases k,
{
    if k > 0 {
        lemma_template_solvent(env, client, id, milestones, (k - 1) as nat);
        let before = env.template_added(client, id, milestones, (k - 1) as nat)->Ok_0.0;
        let t = milestones[k - 1];
        lemma_added_solvent(
            before,
            client,
            id,
            t.title,
            t.description_hash,
            t.amount,
            None,
            EscrowError::E55,
        );
    }
}

/// So is a new escrow with the milestones of a template.
pub proof fn law_template_solvent(
    env: LedgerView,
    caller: Address,
    template_id: u64,
    a: NewEscrow,
)
    requires
        env.from_template(caller, template_id, a) is Ok,
        forall|mid: u32| !(#[trigger] env.has_milestone(env.config.escrow_counter, mid)),
    ensures
        solvent(env.from_template(caller, template_id, a)->Ok_0.0, env.config.escrow_counter),
{
    let asked = env.authed(caller);
    let id = env.config.escrow_counter;
    assert forall|mid: u32| !(#[trigger] asked.has_milestone(id, mid)) by {
        assert(!env.has_milestone(id, mid));
    }
    law_new_solvent(asked, a, true);
    let ts = env.book.templates[template_id].milestones;
    lemma_template_solvent(asked.created(a)->Ok_0.0, a.client, id, ts, ts.len());
}

/// Adding a milestone, with a price or without, keeps an escrow solvent.
pub proof fn law_adding_solvent(
    env: LedgerView,
    caller: Address,
    id: u64,
    title: Seq<u8>,
    hash: Hash32,
    amount: i128,
    condition: PriceCondition,
)
    requires
        solvent(env, id),
    ensures
        env.add_milestone(caller, id, title, hash, amount) is Ok ==> solvent(
            env.add_milestone(caller, id, title, hash, amount)->Ok_0.0,
            id,
        ),
        env.add_price_milestone(caller, id, title, hash, amount, condition) is Ok ==> solvent(
            env.add_price_milestone(caller, id, title, hash, amount, condition)->Ok_0.0,
            id,
        ),
{
    let asked = env.authed(caller);
    lemma_same_solvent(env, asked, id);
    if env.add_milestone(caller, id, title, hash, amount) is Ok {
        lemma_added_solvent(
            asked,
            caller,
            id,
            title,
            hash,
            amount,
            None,
            EscrowError::E19,
        );
    }
    if env.add_price_milestone(caller, id, title, hash, amount, condition) is Ok {
        lemma_added_solvent(
            asked,
            caller,
            id,
            title,
            hash,
            amount,
            Some(condition),
            EscrowError::E19,
        );
    }
}

/// Adding several milestones keeps an escrow solvent.
#[verifier::rlimit(40)]
pub proof fn law_batch_adding_solvent(
    env: LedgerView,
    caller: Address,
    id: u64,
    titles: Seq<Seq<u8>>,
    hashes: Seq<Hash32>,
    amounts: Seq<i128>,
)
    requires
        solvent(env, id),
        env.batch_add(caller, id, titles, hashes, amounts) is Ok,
    ensures
        solvent(env.batch_add(caller, id, titles, hashes, amounts)->Ok_0.0, id),
{
    let asked = env.authed(caller);
    let n = titles.len();
    lemma_same_solvent(env, asked, id);
    lemma_seen_solvent(asked, id);
    let (seen, m) = asked.accessed(id)->Ok_0;
    let charged = seen.charged(m.token, caller, reserve(n as int) as i128);
    lemma_same_solvent(seen, charged, id);
    lemma_batch_saved_unpaid(charged, id, m.milestone_count, titles, hashes, amounts, n);
    let saved = charged.batch_saved(id, m.milestone_count, titles, hashes, amounts, n);
    let post = env.batch_add(caller, id, titles, hashes, amounts)->Ok_0.0;
    lemma_unpaid_same(saved, post, id, (m.milestone_count + n) as nat);
    assert forall|k: u32| #[trigger] post.has_milestone(id, k) implies {
        &&& k < m.milestone_count + n
        &&& post.milestone(id, k).id == k
        &&& post.milestone(id, k).amount >= 0
    } by {
        assert(saved.has_milestone(id, k));
    }
}

/// The milestones of a batch are owed what they sum up to.
proof fn lemma_batch_saved_unpaid(
    env: LedgerView,
    id: u64,
    first: u32,
    titles: Seq<Seq<u8>>,
    hashes: Seq<Hash32>,
    amounts: Seq<i128>,
    k: nat,
)
    requires
        solvent(env, id),
        env.meta(id).milestone_count == first,
        first + k <= u32::MAX,
        batch_sum(titles, amounts, k) is Ok,
    ensures
        ({
            let post = env.batch_saved(id, first, titles, hashes, amounts, k);
            &&& unpaid(post, id, (first + k) as nat) == all_unpaid(env, id) + batch_sum(
                titles,
                amounts,
                k,
            )->Ok_0
            &&& forall|mid: u32| #[trigger]
                post.has_milestone(id, mid) ==> {
                    &&& mid < first + k
                    &&& post.milestone(id, mid).id == mid
                    &&& post.milestone(id, mid).amount >= 0
                }
        }),
    decreases k,
{
    if k > 0 {
        lemma_batch_saved_unpaid(env, id, first, titles, hashes, amounts, (k - 1) as nat);
        let before = env.batch_saved(id, first, titles, hashes, amounts, (k - 1) as nat);
        let post = env.batch_saved(id, first, titles, hashes, amounts, k);
        let mid = (first + k - 1) as u32;
        lemma_unpaid_set(before, post, id, mid, post.milestone(id, mid), mid as nat);
        assert(!before.has_milestone(id, mid));
        assert forall|j: u32| #[trigger] post.has_milestone(id, j) implies {
            &&& j < first + k
            &&& post.milestone(id, j).id == j
            &&& post.milestone(id, j).amount >= 0
        } by {
            if j != mid {
                assert(before.has_milestone(id, j));
            }
        }
    }
}

/// What an approval does to a milestone and to the amounts.
proof fn lemma_approval_solvent(
    env: LedgerView,
    caller: Address,
    id: u64,
    mid: u32,
    m: MetaView,
    ms: MilestoneView,
)
    requires
        solvent(env, id),
        env.meta(id) == m,
        env.has_milestone(id, mid),
        ms.id == mid,
        ms.amount == env.milestone(id, mid).amount,
        env.milestone(id, mid).status != MS_RELEASED,
        env.approval_done(caller, id, mid, m, ms) is Ok,
    ensures
        solvent(env.approval_done(caller, id, mid, m, ms)->Ok_0.0, id),
{
    let seen = env.timelock_seen(id, m.timelock);
    let over = env.timelock_over(id, m.timelock) is Ok;
    let paid = if over {
        seen.paid(m.token, m.freelancer, ms.amount).told(
            Event::FundsReleased { escrow_id: id, to: m.freelancer, amount: ms.amount },
        )
    } else {
        seen
    };
    let ms2 = MilestoneView {
        status: if over {
            MS_RELEASED
        } else {
            MS_APPROVED
        },
        resolved_at: Some(env.timestamp),
        ..ms
    };
    lemma_dependents_kept(paid.saved_milestone(id, ms2), id, mid);
    let post = env.approval_done(caller, id, mid, m, ms)->Ok_0.0;
    lemma_written_solvent(env, post, id, mid, ms2);
}

/// Approving a milestone keeps an escrow solvent.
#[verifier::rlimit(40)]
pub proof fn law_approval_solvent(env: LedgerView, caller: Address, id: u64, mid: u32)
    requires
        solvent(env, id),
        env.approve(caller, id, mid) is Ok,
    ensures
        solvent(env.approve(caller, id, mid)->Ok_0.0, id),
{
    let asked = env.authed(caller);
    lemma_same_solvent(env, asked, id);
    lemma_seen_solvent(asked, id);
    let (seen, m) = asked.accessed(id)->Ok_0;
    let open = seen.unlocked(id, m.lock_time)->Ok_0.0;
    lemma_same_solvent(seen, open, id);
    let ms = open.milestone(id, mid);
    assert(env.has_milestone(id, mid));
    if m.multisig_threshold == 0 {
        lemma_approval_solvent(open, caller, id, mid, m, ms);
    } else {
        let signed = open.signed(ms, caller);
        let weight = accrued(m, signed.approvals);
        let noted = open.told(
            Event::MultisigApprovalRecorded {
                escrow_id: id,
                milestone_id: mid,
                signer: caller,
                accrued: weight as u32,
                threshold: m.multisig_threshold,
            },
        );
        lemma_same_solvent(open, noted, id);
        if weight < m.multisig_threshold {
            lemma_written_solvent(noted, env.approve(caller, id, mid)->Ok_0.0, id, mid, signed);
        } else {
            lemma_approval_solvent(noted, caller, id, mid, m, signed);
        }
    }
}

proof fn lemma_release_paid_solvent(
    env: LedgerView,
    caller: Address,
    id: u64,
    mid: u32,
    m: MetaView,
    ms: MilestoneView,
)
    requires
        solvent(env, id),
        env.meta(id) == m,
        env.has_milestone(id, mid),
        ms.id == mid,
        ms.amount == env.milestone(id, mid).amount,
        env.milestone(id, mid).status != MS_RELEASED,
        env.release_paid(caller, id, mid, m, ms) is Ok,
    ensures
        solvent(env.release_paid(caller, id, mid, m, ms)->Ok_0.0, id),
{
    let done = m.released_count + 1 == m.milestone_count && !env.scheduled(id);
    let feed = env.last_fee(id, m.token, done)->Ok_0.0;
    let ms2 = MilestoneView { status: MS_RELEASED, ..ms };
    lemma_dependents_kept(
        feed.paid(m.token, m.freelancer, ms.amount).saved_milestone(id, ms2),
        id,
        mid,
    );
    let post = env.release_paid(caller, id, mid, m, ms)->Ok_0.0;
    lemma_written_solvent(env, post, id, mid, ms2);
}

/// Releasing a milestone, on request, by time or by a price, keeps an escrow
/// solvent.
#[verifier::rlimit(40)]
pub proof fn law_release_solvent(env: LedgerView, caller: Address, id: u64, mid: u32)
    requires
        solvent(env, id),
    ensures
        env.release(caller, id, mid) is Ok ==> solvent(
            env.release(caller, id, mid)->Ok_0.0,
            id,
        ),
        env.timed_release(caller, id, mid) is Ok ==> solvent(
            env.timed_release(caller, id, mid)->Ok_0.0,
            id,
        ),
        env.oracle_release(caller, id, mid) is Ok ==> solvent(
            env.oracle_release(caller, id, mid)->Ok_0.0,
            id,
        ),
{
    let asked = env.authed(caller);
    lemma_same_solvent(env, asked, id);
    if asked.accessed(id) is Ok {
        lemma_seen_solvent(asked, id);
        let (seen, m) = asked.accessed(id)->Ok_0;
        let ms = env.milestone(id, mid);
        if env.release(caller, id, mid) is Ok {
            let open = seen.timelock_seen(id, m.timelock).unlocked(id, m.lock_time)->Ok_0.0;
            lemma_same_solvent(seen, open, id);
            assert(env.has_milestone(id, mid));
            lemma_release_paid_solvent(open, caller, id, mid, m, ms);
        }
        if env.timed_release(caller, id, mid) is Ok {
            let open = seen.lock_seen(id, m.lock_time);
            lemma_same_solvent(seen, open, id);
            assert(env.has_milestone(id, mid));
            let dated = MilestoneView { resolved_at: Some(env.timestamp), ..ms };
            lemma_release_paid_solvent(open, caller, id, mid, m, dated);
            let paid = open.release_paid(caller, id, mid, m, dated)->Ok_0.0;
            lemma_same_solvent(paid, env.timed_release(caller, id, mid)->Ok_0.0, id);
        }
        if env.oracle_release(caller, id, mid) is Ok {
            assert(env.has_milestone(id, mid));
            let post = env.oracle_release(caller, id, mid)->Ok_0.0;
            lemma_written_solvent(seen, post, id, mid, post.milestone(id, mid));
        }
    }
}

/// What is done to a milestone without paying it keeps an escrow solvent.
#[verifier::rlimit(40)]
pub proof fn law_work_solvent(
    env: LedgerView,
    caller: Address,
    id: u64,
    mid: u32,
    reason: Hash32,
    title: Seq<u8>,
)
    requires
        solvent(env, id),
    ensures
        env.submit(caller, id, mid) is Ok ==> solvent(env.submit(caller, id, mid)->Ok_0.0, id),
        env.reject(caller, id, mid) is Ok ==> solvent(env.reject(caller, id, mid)->Ok_0.0, id),
        env.reject_with_reason(caller, id, mid, reason) is Ok ==> solvent(
            env.reject_with_reason(caller, id, mid, reason)->Ok_0.0,
            id,
        ),
        env.retitle(caller, id, mid, title) is Ok ==> solvent(
            env.retitle(caller, id, mid, title)->Ok_0.0,
            id,
        ),
{
    let asked = env.authed(caller);
    lemma_same_solvent(env, asked, id);
    if asked.accessed(id) is Ok && env.has_milestone(id, mid) {
        lemma_seen_solvent(asked, id);
        let seen = asked.accessed(id)->Ok_0.0;
        if env.submit(caller, id, mid) is Ok {
            let post = env.submit(caller, id, mid)->Ok_0.0;
            lemma_written_solvent(seen, post, id, mid, post.milestone(id, mid));
        }
        if env.reject(caller, id, mid) is Ok {
            let post = env.reject(caller, id, mid)->Ok_0.0;
            lemma_written_solvent(seen, post, id, mid, post.milestone(id, mid));
        }
        if env.reject_with_reason(caller, id, mid, reason) is Ok {
            let post = env.reject_with_reason(caller, id, mid, reason)->Ok_0.0;
            lemma_written_solvent(seen, post, id, mid, post.milestone(id, mid));
        }
        if env.retitle(caller, id, mid, title) is Ok {
            let post = env.retitle(caller, id, mid, title)->Ok_0.0;
            lemma_written_solvent(seen, post, id, mid, post.milestone(id, mid));
        }
    }
}

/// The weight of signatures depends on the policy alone.
pub proof fn lemma_accrued_same(a: MetaView, b: MetaView, approvals: Seq<ApprovalRecord>)
    requires
        a.buyer_signers == b.buyer_signers,
        a.multisig_weights == b.multisig_weights,
    ensures
        accrued(a, approvals) == accrued(b, approvals),
    decreases approvals.len(),
{
    if approvals.len() > 0 {
        lemma_accrued_same(a, b, approvals.drop_last());
        assert(weight_of(a, approvals.last().signer) == weight_of(b, approvals.last().signer));
    }
}

/// What marking a batch pays, up to some place, is no longer owed.
#[verifier::rlimit(40)]
proof fn lemma_batch_marked_unpaid(
    env: LedgerView,
    caller: Address,
    id: u64,
    m: MetaView,
    ids: Seq<u32>,
    over: bool,
    k: nat,
)
    requires
        solvent(env, id),
        env.meta(id) == m,
        k <= ids.len(),
        env.batch_due(caller, id, m, ids, k) is Ok,
        env.batch_marked(caller, id, m, ids, over, k) is Ok,
        forall|i: int, j: int| 0 <= i < j < ids.len() ==> ids[i] != ids[j],
        forall|i: int|
            0 <= i < ids.len() ==> env.has_milestone(id, #[trigger] ids[i]) && env.milestone(
                id,
                ids[i],
            ).status != MS_RELEASED,
    ensures
        ({
            let (post, m2) = env.batch_marked(caller, id, m, ids, over, k)->Ok_0;
            let due = env.batch_due(caller, id, m, ids, k)->Ok_0;
            let n = m.milestone_count as nat;
            &&& due >= 0
            &&& unpaid(post, id, n) == unpaid(env, id, n) - (if over {
                due as int
            } else {
                0
            })
            &&& m2 == (MetaView {
                approved_count: m2.approved_count,
                submitted_count: m2.submitted_count,
                released_count: m2.released_count,
                ..m
            })
            &&& forall|mid: u32| #[trigger]
                post.has_milestone(id, mid) ==> {
                    &&& mid < n
                    &&& post.milestone(id, mid).id == mid
                    &&& post.milestone(id, mid).amount >= 0
                }
            &&& forall|i: int|
                k <= i < ids.len() ==> post.has_milestone(id, #[trigger] ids[i]) && post.milestone(
                    id,
                    ids[i],
                ) == env.milestone(id, ids[i])
        }),
    decreases k,
{
    if k > 0 {
        lemma_batch_marked_unpaid(env, caller, id, m, ids, over, (k - 1) as nat);
        let (before, m1) = env.batch_marked(caller, id, m, ids, over, (k - 1) as nat)->Ok_0;
        let (post, m2) = env.batch_marked(caller, id, m, ids, over, k)->Ok_0;
        let mid = ids[k - 1];
        let found = before.milestone(id, mid);
        let policy = m1.multisig_threshold > 0;
        let ms = if policy {
            before.signed(found, caller)
        } else {
            found
        };
        let weight = accrued(m1, ms.approvals);
        if policy {
            lemma_accrued_push(
                m1,
                found.approvals,
                ApprovalRecord { signer: caller, approved_at: before.timestamp },
            );
            lemma_accrued_same(m1, m, found.approvals);
            assert(weight_of(m1, caller) == weight_of(m, caller));
            assert(weight == accrued(m, found.approvals) + signature_weight(m, caller));
        }
        let noted = if policy {
            before.told(
                Event::MultisigApprovalRecorded {
                    escrow_id: id,
                    milestone_id: mid,
                    signer: caller,
                    accrued: weight as u32,
                    threshold: m1.multisig_threshold,
                },
            )
        } else {
            before
        };
        let marked = noted.saved_milestone(
            id,
            MilestoneView {
                resolved_at: Some(before.timestamp),
                status: if over {
                    MS_RELEASED
                } else {
                    MS_APPROVED
                },
                ..ms
            },
        );
        lemma_dependents_kept(marked, id, mid);
        let n = m.milestone_count as nat;
        lemma_unpaid_set(before, post, id, mid, post.milestone(id, mid), n);
        assert forall|j: u32| #[trigger] post.has_milestone(id, j) implies {
            &&& j < n
            &&& post.milestone(id, j).id == j
            &&& post.milestone(id, j).amount >= 0
        } by {
            assert(before.has_milestone(id, j));
        }
    }
}

/// Approving several milestones keeps an escrow solvent.
#[verifier::rlimit(40)]
pub proof fn law_batch_approval_solvent(
    env: LedgerView,
    caller: Address,
    id: u64,
    ids: Seq<u32>,
)
    requires
        solvent(env, id),
        env.batch_approve(caller, id, ids) is Ok,
    ensures
        solvent(env.batch_approve(caller, id, ids)->Ok_0.0, id),
{
    let asked = env.authed(caller);
    lemma_same_solvent(env, asked, id);
    lemma_seen_solvent(asked, id);
    let (seen, m) = asked.accessed(id)->Ok_0;
    let open = seen.unlocked(id, m.lock_time)->Ok_0.0;
    let over = open.timelock_over(id, m.timelock) is Ok;
    let base = open.timelock_seen(id, m.timelock);
    lemma_same_solvent(seen, base, id);
    lemma_due_once(base, caller, id, m, ids, ids.len());
    lemma_due_submitted(base, caller, id, m, ids, ids.len());
    lemma_batch_marked_unpaid(base, caller, id, m, ids, over, ids.len());
    let marked = base.batch_marked(caller, id, m, ids, over, ids.len())->Ok_0.0;
    let post = env.batch_approve(caller, id, ids)->Ok_0.0;
    lemma_unpaid_same(marked, post, id, m.milestone_count as nat);
    assert forall|mid: u32| #[trigger] post.has_milestone(id, mid) implies {
        &&& mid < m.milestone_count
        &&& post.milestone(id, mid).id == mid
        &&& post.milestone(id, mid).amount >= 0
    } by {
        assert(marked.has_milestone(id, mid));
    }
}

/// What is released of a batch was approved.
pub proof fn lemma_release_due_approved(env: LedgerView, id: u64, ids: Seq<u32>, k: nat)
    requires
        env.release_due(id, ids, k) is Ok,
    ensures
        forall|i: int|
            0 <= i < k ==> env.has_milestone(id, #[trigger] ids[i]) && env.milestone(
                id,
                ids[i],
            ).status == MS_APPROVED,
    decreases k,
{
    if k > 0 {
        lemma_release_due_approved(env, id, ids, (k - 1) as nat);
    }
}

/// What a batch releases, up to some place, is no longer owed.
proof fn lemma_release_marked_unpaid(
    env: LedgerView,
    id: u64,
    to: Address,
    ids: Seq<u32>,
    k: nat,
)
    requires
        solvent(env, id),
        k <= ids.len(),
        env.release_due(id, ids, k) is Ok,
        forall|i: int, j: int| 0 <= i < j < ids.len() ==> ids[i] != ids[j],
        forall|i: int|
            0 <= i < ids.len() ==> env.has_milestone(id, #[trigger] ids[i]) && env.milestone(
                id,
                ids[i],
            ).status != MS_RELEASED,
    ensures
        ({
            let post = env.release_marked(id, to, ids, k);
            let due = env.release_due(id, ids, k)->Ok_0;
            let n = env.meta(id).milestone_count as nat;
            &&& due >= 0
            &&& post.book.metas == env.book.metas
            &&& unpaid(post, id, n) == unpaid(env, id, n) - due
            &&& forall|mid: u32| #[trigger]
                post.has_milestone(id, mid) ==> {
                    &&& mid < n
                    &&& post.milestone(id, mid).id == mid
                    &&& post.milestone(id, mid).amount >= 0
                }
            &&& forall|i: int|
                k <= i < ids.len() ==> post.has_milestone(id, #[trigger] ids[i]) && post.milestone(
                    id,
                    ids[i],
                ) == env.milestone(id, ids[i])
        }),
    decreases k,
{
    if k > 0 {
        lemma_release_marked_unpaid(env, id, to, ids, (k - 1) as nat);
        let before = env.release_marked(id, to, ids, (k - 1) as nat);
        let post = env.release_marked(id, to, ids, k);
        let mid = ids[k - 1];
        let n = env.meta(id).milestone_count as nat;
        lemma_unpaid_set(before, post, id, mid, post.milestone(id, mid), n);
        assert forall|j: u32| #[trigger] post.has_milestone(id, j) implies {
            &&& j < n
            &&& post.milestone(id, j).id == j
            &&& post.milestone(id, j).amount >= 0
        } by {
            assert(before.has_milestone(id, j));
        }
    }
}

/// Releasing several milestones keeps an escrow solvent.
#[verifier::rlimit(40)]
pub proof fn law_batch_release_solvent(
    env: LedgerView,
    caller: Address,
    id: u64,
    ids: Seq<u32>,
)
    requires
        solvent(env, id),
        env.batch_release(caller, id, ids) is Ok,
    ensures
        solvent(env.batch_release(caller, id, ids)->Ok_0.0, id),
{
    let asked = env.authed(caller);
    lemma_same_solvent(env, asked, id);
    lemma_seen_solvent(asked, id);
    let (seen, m) = asked.accessed(id)->Ok_0;
    let open = seen.lock_seen(id, m.lock_time);
    lemma_same_solvent(seen, open, id);
    lemma_due_once(open, caller, id, m, ids, ids.len());
    lemma_release_due_approved(open, id, ids, ids.len());
    lemma_release_marked_unpaid(open, id, m.freelancer, ids, ids.len());
    let marked = open.release_marked(id, m.freelancer, ids, ids.len());
    let post = env.batch_release(caller, id, ids)->Ok_0.0;
    lemma_unpaid_same(marked, post, id, m.milestone_count as nat);
    assert forall|mid: u32| #[trigger] post.has_milestone(id, mid) implies {
        &&& mid < m.milestone_count
        &&& post.milestone(id, mid).id == mid
        &&& post.milestone(id, mid).amount >= 0
    } by {
        assert(marked.has_milestone(id, mid));
    }
}

/// A run of payments that fit what may be claimed.
proof fn lemma_run_solvent(run: Run, id: u64)
    requires
        run.paid_all(id) is Ok,
        run.c.payment_amount >= 0,
        run.c.final_payment_amount matches Some(a) ==> a >= 0,
        solvent(run.env.saved_meta(run.m), id),
        run.m.escrow_id == id,
        run.paid_all(id)->Ok_0.m.allocated_amount <= run.m.allotted_amount,
    ensures
        solvent(run.paid_all(id)->Ok_0.env.saved_meta(run.paid_all(id)->Ok_0.m), id),
        run.m.allocated_amount <= run.paid_all(id)->Ok_0.m.allocated_amount,
    decreases run.c.payments_remaining,
{
    if run.due() {
        let next = run.paid_once(id)->Ok_0;
        let pre = run.env.saved_meta(run.m);
        let post = next.env.saved_meta(next.m);
        let mid = run.m.milestone_count;
        assert(pre.meta(id) == run.m);
        assert(post.meta(id) == next.m);
        lemma_run_grows(next, id);
        lemma_unpaid_set(pre, post, id, mid, post.milestone(id, mid), mid as nat);
        assert(!pre.has_milestone(id, mid));
        assert(unpaid(post, id, (mid + 1) as nat) == unpaid(pre, id, mid as nat));
        assert forall|k: u32| #[trigger] post.has_milestone(id, k) implies {
            &&& k < mid + 1
            &&& post.milestone(id, k).id == k
            &&& post.milestone(id, k).amount >= 0
        } by {
            if k != mid {
                assert(pre.has_milestone(id, k));
            }
        }
        lemma_run_solvent(next, id);
    }
}

/// Payments only add to what is allocated.
proof fn lemma_run_grows(run: Run, id: u64)
    requires
        run.paid_all(id) is Ok,
        run.c.payment_amount >= 0,
        run.c.final_payment_amount matches Some(a) ==> a >= 0,
    ensures
        run.m.allocated_amount <= run.paid_all(id)->Ok_0.m.allocated_amount,
        run.m.allotted_amount == run.paid_all(id)->Ok_0.m.allotted_amount,
    decreases run.c.payments_remaining,
{
    if run.due() {
        lemma_run_grows(run.paid_once(id)->Ok_0, id);
    }
}

/// The payments of a schedule keep an escrow solvent, where they and its other
/// milestones together claim no more than they may.
#[verifier::rlimit(40)]
pub proof fn law_payments_solvent(env: LedgerView, id: u64)
    requires
        solvent(env, id),
        env.process_recurring(id) is Ok,
        env.recurring(id).payment_amount >= 0,
        env.recurring(id).final_payment_amount matches Some(a) ==> a >= 0,
        env.process_recurring(id)->Ok_0.0.meta(id).allocated_amount <= env.meta(id).allotted_amount,
    ensures
        solvent(env.process_recurring(id)->Ok_0.0, id),
{
    lemma_seen_solvent(env, id);
    let (seen, m) = env.accessed(id)->Ok_0;
    let run = Run { env: seen, m, c: seen.recurring(id), count: 0, total: 0 };
    lemma_same_solvent(seen, seen.saved_meta(m), id);
    let end = run.paid_all(id)->Ok_0;
    lemma_run_named(run, id);
    lemma_run_solvent(run, id);
    let post = env.process_recurring(id)->Ok_0.0;
    lemma_same_solvent(end.env.saved_meta(end.m), post, id);
}

/// A solvent escrow whose schedule can make all its payments beside what was
/// allocated.
pub open spec fn backed(env: LedgerView, id: u64) -> bool {
    let c = env.recurring(id);
    &&& solvent(env, id)
    &&& env.has_recurring(id) ==> {
        &&& c.payment_amount >= 0
        &&& c.final_payment_amount is None
        &&& env.meta(id).allocated_amount + c.payments_remaining * c.payment_amount <= env.meta(
            id,
        ).allotted_amount
    }
}

/// A new escrow that pays on a schedule is backed.
pub proof fn law_schedule_backed(
    env: LedgerView,
    client: Address,
    freelancer: Address,
    token: Address,
    payment_amount: i128,
    interval: RecurringInterval,
    start: u64,
    end: Option<u64>,
    count: Option<u32>,
    hash: Hash32,
)
    requires
        env.recurring_created(
            client,
            freelancer,
            token,
            payment_amount,
            interval,
            start,
            end,
            count,
            hash,
        ) is Ok,
        forall|mid: u32| !(#[trigger] env.has_milestone(env.config.escrow_counter, mid)),
    ensures
        backed(
            env.recurring_created(
                client,
                freelancer,
                token,
                payment_amount,
                interval,
                start,
                end,
                count,
                hash,
            )->Ok_0.0,
            env.config.escrow_counter,
        ),
{
    let post = env.recurring_created(
        client,
        freelancer,
        token,
        payment_amount,
        interval,
        start,
        end,
        count,
        hash,
    )->Ok_0.0;
    let id = env.config.escrow_counter;
    assert forall|mid: u32| !(#[trigger] post.has_milestone(id, mid)) by {
        assert(!env.has_milestone(id, mid));
    }
    let n = post.recurring(id).payments_remaining;
    assert(payment_amount * n == n * payment_amount) by (nonlinear_arith);
    assert(payment_amount * n >= 0) by (nonlinear_arith)
        requires
            payment_amount >= 0,
            n >= 0,
    ;
}

/// A run of payments takes from what is left to pay.
proof fn lemma_run_backed(run: Run, id: u64)
    requires
        run.paid_all(id) is Ok,
        run.c.payment_amount >= 0,
        run.c.final_payment_amount is None,
    ensures
        ({
            let end = run.paid_all(id)->Ok_0;
            &&& end.c.payment_amount == run.c.payment_amount
            &&& end.c.final_payment_amount is None
            &&& end.m.allocated_amount + end.c.payments_remaining * end.c.payment_amount
                <= run.m.allocated_amount + run.c.payments_remaining * run.c.payment_amount
        }),
    decreases run.c.payments_remaining,
{
    if run.due() {
        let next = run.paid_once(id)->Ok_0;
        let (a, r, s) = (
            run.c.payment_amount as int,
            run.c.payments_remaining as int,
            next.c.payments_remaining as int,
        );
        assert(s * a + a <= r * a) by (nonlinear_arith)
            requires
                a >= 0,
                s <= r - 1,
        ;
        lemma_run_backed(next, id);
    }
}

/// The payments of a schedule keep a backed escrow backed: it has what it still
/// has to pay.
#[verifier::rlimit(40)]
pub proof fn law_payments_backed(env: LedgerView, id: u64)
    requires
        backed(env, id),
        env.process_recurring(id) is Ok,
    ensures
        backed(env.process_recurring(id)->Ok_0.0, id),
{
    let (seen, m) = env.accessed(id)->Ok_0;
    let run = Run { env: seen, m, c: seen.recurring(id), count: 0, total: 0 };
    let end = run.paid_all(id)->Ok_0;
    lemma_seen_solvent(env, id);
    lemma_run_backed(run, id);
    lemma_run_named(run, id);
    lemma_run_grows(run, id);
    let (a, s) = (end.c.payment_amount as int, end.c.payments_remaining as int);
    assert(s * a >= 0) by (nonlinear_arith)
        requires
            a >= 0,
            s >= 0,
    ;
    law_payments_solvent(env, id);
}

/// A split keeps the escrow solvent, and its children are.
#[verifier::rlimit(40)]
pub proof fn law_split_solvent(
    env: LedgerView,
    caller: Address,
    id: u64,
    amount: i128,
    hash: Hash32,
)
    requires
        solvent(env, id),
        env.split(caller, id, amount, hash) is Ok,
        env.config.escrow_counter < u64::MAX - 1,
        id < env.config.escrow_counter,
        i128::MIN <= env.meta(id).remaining_balance - env.meta(id).allocated_amount <= i128::MAX,
        i128::MIN <= env.meta(id).allotted_amount - env.meta(id).remaining_balance
            + env.meta(id).allocated_amount,
        forall|mid: u32| !(#[trigger] env.has_milestone(env.config.escrow_counter, mid)),
        forall|mid: u32|
            !(#[trigger] env.has_milestone((env.config.escrow_counter + 1) as u64, mid)),
    ensures
        ({
            let (post, (one, two)) = env.split(caller, id, amount, hash)->Ok_0;
            solvent(post, id) && solvent(post, one) && solvent(post, two)
        }),
{
    let asked = env.authed(caller);
    lemma_same_solvent(env, asked, id);
    lemma_seen_solvent(asked, id);
    let (seen, m) = asked.accessed(id)->Ok_0;
    let (post, (one, two)) = env.split(caller, id, amount, hash)->Ok_0;
    lemma_unpaid_same(seen, post, id, m.milestone_count as nat);
    assert forall|mid: u32| #[trigger] post.has_milestone(id, mid) implies {
        &&& mid < m.milestone_count
        &&& post.milestone(id, mid).id == mid
        &&& post.milestone(id, mid).amount >= 0
    } by {
        assert(seen.has_milestone(id, mid));
    }
    assert forall|mid: u32| !(#[trigger] post.has_milestone(one, mid)) by {
        assert(!env.has_milestone(one, mid));
    }
    assert forall|mid: u32| !(#[trigger] post.has_milestone(two, mid)) by {
        assert(!env.has_milestone(two, mid));
    }
}

/// After a split, no milestone is accepted that the escrow could not pay beside
/// those that it has.
#[verifier::rlimit(40)]
pub proof fn law_split_allocates_no_more(
    env: LedgerView,
    caller: Address,
    id: u64,
    amount: i128,
    hash: Hash32,
    who: Address,
    title: Seq<u8>,
    more: i128,
    condition: PriceCondition,
    titles: Seq<Seq<u8>>,
    hashes: Seq<Hash32>,
    amounts: Seq<i128>,
)
    requires
        solvent(env, id),
        env.split(caller, id, amount, hash) is Ok,
        env.config.escrow_counter < u64::MAX - 1,
        id < env.config.escrow_counter,
        i128::MIN <= env.meta(id).remaining_balance - env.meta(id).allocated_amount <= i128::MAX,
        i128::MIN <= env.meta(id).allotted_amount - env.meta(id).remaining_balance
            + env.meta(id).allocated_amount,
        forall|mid: u32| !(#[trigger] env.has_milestone(env.config.escrow_counter, mid)),
        forall|mid: u32|
            !(#[trigger] env.has_milestone((env.config.escrow_counter + 1) as u64, mid)),
    ensures
        ({
            let post = env.split(caller, id, amount, hash)->Ok_0.0;
            let free = post.meta(id).remaining_balance - all_unpaid(post, id);
            &&& more > free ==> post.add_milestone(who, id, title, hash, more) is Err
            &&& more > free ==> post.add_price_milestone(
                who,
                id,
                title,
                hash,
                more,
                condition,
            ) is Err
            &&& batch_sum(titles, amounts, titles.len()) matches Ok(sum) ==> sum > free
                ==> post.batch_add(who, id, titles, hashes, amounts) is Err
        }),
{
    law_split_solvent(env, caller, id, amount, hash);
    let post = env.split(caller, id, amount, hash)->Ok_0.0;
    let asked = post.authed(who);
    lemma_same_solvent(post, asked, id);
    if asked.accessed(id) is Ok {
        lemma_seen_solvent(asked, id);
    }
}

} // verus!
