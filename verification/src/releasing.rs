//! What a release pays, and what it takes.
use vstd::prelude::*;

use crate::funds::{gained, lemma_gained_push};
use crate::gains::{gains, lemma_access_gained, lemma_dependents_gained, outsider};
use crate::ledger::LedgerView;
use crate::payouts::{lemma_dependents_kept, lemma_due_once};
use crate::solvency::lemma_release_due_approved;
use crate::types::{
    Address, EscrowStatus, MetaView, MilestoneView, PackedDataKey, PriceDirection, MS_APPROVED,
    MS_PENDING, MS_RELEASED,
};

verus! {

/// What the price of the asset that a milestone waits for has to be: at least the
/// target, or at most.
pub open spec fn price_is_right(env: LedgerView, id: u64, mid: u32) -> bool {
    let c = env.milestone(id, mid).price_condition->Some_0;
    let price = env.prices[c.asset];
    &&& env.prices.contains_key(c.asset)
    &&& c.direction == PriceDirection::Above ==> price >= c.target_price_usd
    &&& c.direction == PriceDirection::Below ==> price <= c.target_price_usd
}

/// A price releases a milestone that waits for it, and only where it has reached
/// the target from the right side. The freelancer gains the amount, and the balance
/// loses it.
#[verifier::rlimit(40)]
pub proof fn law_price_release_does(
    env: LedgerView,
    caller: Address,
    id: u64,
    mid: u32,
    who: Address,
)
    requires
        env.oracle_release(caller, id, mid) is Ok,
        env.meta(id).escrow_id == id,
        env.milestone(id, mid).id == mid,
        env.meta(id).freelancer != env.contract,
        outsider(env, who),
    ensures
        ({
            let post = env.oracle_release(caller, id, mid)->Ok_0.0;
            let m = env.meta(id);
            let amount = env.milestone(id, mid).amount;
            &&& env.has_milestone(id, mid)
            &&& env.milestone(id, mid).status == MS_PENDING
            &&& env.milestone(id, mid).price_condition is Some
            &&& price_is_right(env, id, mid)
            &&& m.status == EscrowStatus::Active
            &&& post.milestone(id, mid).status == MS_RELEASED
            &&& post.milestone(id, mid).amount == amount
            &&& post.meta(id).remaining_balance == m.remaining_balance - amount
            &&& post.meta(id).released_count == m.released_count + 1
            &&& gains(env, post, id, who) == if who == m.freelancer {
                amount as int
            } else {
                0
            }
        }),
{
    broadcast use lemma_gained_push;

    lemma_access_gained(env.authed(caller), id, env.meta(id).token, who);
}

/// Where nothing else stands against it, anybody can have a milestone released as
/// soon as the price is right, and not before.
#[verifier::rlimit(40)]
pub proof fn law_price_release_due(env: LedgerView, caller: Address, id: u64, mid: u32)
    requires
        env.config.admin is Some,
        !env.config.paused,
        !env.config.reentrancy_lock,
        env.authed(caller).accessed(id) is Ok,
        env.meta(id).status == EscrowStatus::Active,
        env.meta(id).lock_time is None,
        env.meta(id).terms_hash is None,
        env.meta(id).slippage_bps == 0,
        env.has_milestone(id, mid),
        env.milestone(id, mid).status == MS_PENDING,
        env.milestone(id, mid).price_condition is Some,
        0 <= env.milestone(id, mid).amount <= env.meta(id).remaining_balance,
        env.meta(id).approved_count < u32::MAX,
        env.meta(id).released_count < u32::MAX,
    ensures
        env.oracle_release(caller, id, mid) is Ok <==> price_is_right(env, id, mid),
{
}

/// What an escrow owes the platform with its last release.
pub open spec fn fee_due(env: LedgerView, id: u64, last: bool) -> int {
    if last && env.book.fee_snapshots.contains_key(id) && !env.book.fee_snapshots[id].collected {
        env.book.fee_snapshots[id].fee_amount as int
    } else {
        0
    }
}

/// A release of so many milestones leaves none, and no schedule pays on.
pub open spec fn is_last(env: LedgerView, id: u64, n: int) -> bool {
    let m = env.meta(id);
    m.released_count + n == m.milestone_count && !(env.has_recurring(id) && !env.recurring(
        id,
    ).cancelled && env.recurring(id).payments_remaining > 0)
}

proof fn lemma_release_pays(
    env: LedgerView,
    caller: Address,
    id: u64,
    mid: u32,
    m: MetaView,
    ms: MilestoneView,
    who: Address,
)
    requires
        env.release_paid(caller, id, mid, m, ms) is Ok,
        env.meta(id) == m,
        m.escrow_id == id,
        ms.id == mid,
        m.freelancer != env.contract,
        env.config.platform_treasury != Some(m.freelancer),
        outsider(env, who),
    ensures
        ({
            let post = env.release_paid(caller, id, mid, m, ms)->Ok_0.0;
            let last = is_last(env, id, 1);
            &&& post.milestone(id, mid).status == MS_RELEASED
            &&& post.milestone(id, mid).amount == ms.amount
            &&& post.meta(id).remaining_balance == m.remaining_balance - ms.amount
            &&& post.meta(id).status == if last {
                EscrowStatus::Completed
            } else {
                m.status
            }
            &&& gained(post.log, m.token, who) - gained(env.log, m.token, who) == if who
                == m.freelancer {
                ms.amount as int
            } else if env.config.platform_treasury == Some(who) {
                fee_due(env, id, last)
            } else {
                0
            }
        }),
{
    broadcast use lemma_gained_push;

    let last = m.released_count + 1 == m.milestone_count && !env.scheduled(id);
    let feed = env.last_fee(id, m.token, last)->Ok_0.0;
    let shown = feed.paid(m.token, m.freelancer, ms.amount).saved_milestone(
        id,
        MilestoneView { status: MS_RELEASED, ..ms },
    );
    lemma_dependents_kept(shown, id, mid);
    lemma_dependents_gained(shown, id, mid, m.token, who);
}

/// The admin's release pays an approved milestone: the freelancer gains its
/// amount, the balance loses it, and with the last one the treasury gains the fee
/// that is still owed and the escrow is completed.
#[verifier::rlimit(40)]
pub proof fn law_release_does(env: LedgerView, caller: Address, id: u64, mid: u32, who: Address)
    requires
        env.release(caller, id, mid) is Ok,
        env.meta(id).escrow_id == id,
        env.milestone(id, mid).id == mid,
        env.meta(id).freelancer != env.contract,
        env.config.platform_treasury != Some(env.meta(id).freelancer),
        outsider(env, who),
    ensures
        ({
            let post = env.release(caller, id, mid)->Ok_0.0;
            let m = env.meta(id);
            let amount = env.milestone(id, mid).amount;
            let last = is_last(env, id, 1);
            &&& env.config.admin == Some(caller)
            &&& env.milestone(id, mid).status == MS_APPROVED
            &&& m.status == EscrowStatus::Active
            &&& post.milestone(id, mid).status == MS_RELEASED
            &&& post.milestone(id, mid).amount == amount
            &&& post.meta(id).remaining_balance == m.remaining_balance - amount
            &&& post.meta(id).status == if last {
                EscrowStatus::Completed
            } else {
                EscrowStatus::Active
            }
            &&& gains(env, post, id, who) == if who == m.freelancer {
                amount as int
            } else if env.config.platform_treasury == Some(who) {
                fee_due(env, id, last)
            } else {
                0
            }
        }),
{
    broadcast use lemma_gained_push;

    let asked = env.authed(caller);
    let (seen, m) = asked.accessed(id)->Ok_0;
    lemma_access_gained(asked, id, m.token, who);
    let open = seen.timelock_seen(id, m.timelock).unlocked(id, m.lock_time)->Ok_0.0;
    lemma_release_pays(open, caller, id, mid, m, env.milestone(id, mid), who);
}

/// A release by time pays what the admin's release would pay, once the release
/// time has come, to whichever party asks for it.
#[verifier::rlimit(40)]
pub proof fn law_timed_release_does(
    env: LedgerView,
    caller: Address,
    id: u64,
    mid: u32,
    who: Address,
)
    requires
        env.timed_release(caller, id, mid) is Ok,
        env.meta(id).escrow_id == id,
        env.milestone(id, mid).id == mid,
        env.meta(id).freelancer != env.contract,
        env.config.platform_treasury != Some(env.meta(id).freelancer),
        outsider(env, who),
    ensures
        ({
            let post = env.timed_release(caller, id, mid)->Ok_0.0;
            let m = env.meta(id);
            let amount = env.milestone(id, mid).amount;
            let last = is_last(env, id, 1);
            &&& caller == m.client || caller == m.freelancer
            &&& env.book.release_times.contains_key(id)
            &&& env.book.release_times[id] <= env.timestamp
            &&& env.milestone(id, mid).status == MS_APPROVED
            &&& m.status == EscrowStatus::Active
            &&& post.milestone(id, mid).status == MS_RELEASED
            &&& post.milestone(id, mid).amount == amount
            &&& post.meta(id).remaining_balance == m.remaining_balance - amount
            &&& post.meta(id).status == if last {
                EscrowStatus::Completed
            } else {
                EscrowStatus::Active
            }
            &&& gains(env, post, id, who) == if who == m.freelancer {
                amount as int
            } else if env.config.platform_treasury == Some(who) {
                fee_due(env, id, last)
            } else {
                0
            }
        }),
{
    broadcast use lemma_gained_push;

    let asked = env.authed(caller);
    let (seen, m) = asked.accessed(id)->Ok_0;
    lemma_access_gained(asked, id, m.token, who);
    let open = seen.lock_seen(id, m.lock_time);
    let dated = MilestoneView { resolved_at: Some(env.timestamp), ..env.milestone(id, mid) };
    lemma_release_pays(open, caller, id, mid, m, dated, who);
}

/// What the first `k` named milestones come to.
pub open spec fn sum_of(env: LedgerView, id: u64, ids: Seq<u32>, k: nat) -> int
    decreases k,
{
    if k == 0 {
        0
    } else {
        sum_of(env, id, ids, (k - 1) as nat) + env.milestone(id, ids[k - 1]).amount
    }
}

proof fn lemma_batch_release_marks(
    env: LedgerView,
    id: u64,
    to: Address,
    ids: Seq<u32>,
    k: nat,
    token: Address,
    who: Address,
)
    requires
        k <= ids.len(),
        env.release_due(id, ids, k) is Ok,
        forall|i: int, j: int| 0 <= i < j < ids.len() ==> ids[i] != ids[j],
        forall|i: int| 0 <= i < ids.len() ==> env.milestone(id, #[trigger] ids[i]).id == ids[i],
    ensures
        ({
            let post = env.release_marked(id, to, ids, k);
            &&& env.release_due(id, ids, k)->Ok_0 == sum_of(env, id, ids, k)
            &&& gained(post.log, token, who) == gained(env.log, token, who)
            &&& post == (LedgerView {
                book: crate::ledger::BookView {
                    milestones: post.book.milestones,
                    ..env.book
                },
                log: post.log,
                ..env
            })
            &&& forall|i: int|
                0 <= i < k ==> post.milestone(id, #[trigger] ids[i]) == (MilestoneView {
                    status: MS_RELEASED,
                    ..env.milestone(id, ids[i])
                })
            &&& forall|i: int|
                k <= i < ids.len() ==> post.milestone(id, #[trigger] ids[i]) == env.milestone(
                    id,
                    ids[i],
                )
        }),
    decreases k,
{
    broadcast use lemma_gained_push;

    if k > 0 {
        lemma_batch_release_marks(env, id, to, ids, (k - 1) as nat, token, who);
    }
}

/// The admin's release of several milestones pays each of them, all approved: the
/// freelancer gains their sum, and so on as for one.
#[verifier::rlimit(40)]
pub proof fn law_batch_release_does(
    env: LedgerView,
    caller: Address,
    id: u64,
    ids: Seq<u32>,
    i: int,
    who: Address,
)
    requires
        env.sound(),
        env.batch_release(caller, id, ids) is Ok,
        0 <= i < ids.len(),
        env.meta(id).freelancer != env.contract,
        env.config.platform_treasury != Some(env.meta(id).freelancer),
        outsider(env, who),
    ensures
        ({
            let (post, due) = env.batch_release(caller, id, ids)->Ok_0;
            let m = env.meta(id);
            let sum = sum_of(env, id, ids, ids.len());
            let last = is_last(env, id, ids.len() as int);
            &&& env.config.admin == Some(caller)
            &&& m.status == EscrowStatus::Active
            &&& env.milestone(id, ids[i]).status == MS_APPROVED
            &&& post.milestone(id, ids[i]).status == MS_RELEASED
            &&& post.milestone(id, ids[i]).amount == env.milestone(id, ids[i]).amount
            &&& due == sum
            &&& post.meta(id).remaining_balance == m.remaining_balance - sum
            &&& post.meta(id).released_count == m.released_count + ids.len()
            &&& post.meta(id).status == if last {
                EscrowStatus::Completed
            } else {
                EscrowStatus::Active
            }
            &&& gains(env, post, id, who) == if who == m.freelancer {
                sum
            } else if env.config.platform_treasury == Some(who) {
                fee_due(env, id, last)
            } else {
                0
            }
        }),
{
    broadcast use lemma_gained_push;

    let asked = env.authed(caller);
    let (seen, m) = asked.accessed(id)->Ok_0;
    assert(env.book.metas.contains_key(PackedDataKey::EscrowMeta(id)));
    lemma_access_gained(asked, id, m.token, who);
    let open = seen.lock_seen(id, m.lock_time);
    lemma_due_once(open, caller, id, m, ids, ids.len());
    lemma_release_due_approved(open, id, ids, ids.len());
    assert forall|j: int| 0 <= j < ids.len() implies open.milestone(id, #[trigger] ids[j]).id
        == ids[j] by {
        assert(open.has_milestone(id, ids[j]));
        assert(env.book.milestones.contains_key(PackedDataKey::Milestone(id, ids[j])));
    }
    lemma_batch_release_marks(open, id, m.freelancer, ids, ids.len(), m.token, who);
    lemma_sum_seen(env, open, id, ids, ids.len());
}

proof fn lemma_sum_seen(a: LedgerView, b: LedgerView, id: u64, ids: Seq<u32>, k: nat)
    requires
        a.book.milestones == b.book.milestones,
    ensures
        sum_of(a, id, ids, k) == sum_of(b, id, ids, k),
    decreases k,
{
    if k > 0 {
        lemma_sum_seen(a, b, id, ids, (k - 1) as nat);
    }
}

/// The price of a token with a reference price has moved too far exactly when the
/// move, in ten-thousandths of the reference, is more than what is tolerated. No
/// tolerance set tolerates everything.
pub proof fn law_slippage_measured(env: LedgerView, m: MetaView)
    requires
        m.slippage_reference_price > 0,
        m.slippage_reference_price * m.slippage_bps <= i128::MAX,
        env.prices.contains_key(m.token),
    ensures
        ({
            let price = env.prices[m.token] as int;
            let reference = m.slippage_reference_price as int;
            let most = reference * m.slippage_bps;
            env.slippage_check(m) is Ok <==> m.slippage_bps == 0 || (10_000 * (price - reference)
                <= most && 10_000 * (reference - price) <= most)
        }),
{
    let most = m.slippage_reference_price * m.slippage_bps;
    assert(most >= 0) by (nonlinear_arith)
        requires
            m.slippage_reference_price > 0,
            m.slippage_bps >= 0,
            most == m.slippage_reference_price * m.slippage_bps,
    ;
}

/// A tolerance is set by the client of an active escrow, with the price of now as
/// the reference, and is at most the whole.
pub proof fn law_slippage_set(env: LedgerView, caller: Address, id: u64, bps: u32)
    requires
        env.set_slippage(caller, id, bps) is Ok,
        env.meta(id).escrow_id == id,
    ensures
        ({
            let m = env.set_slippage(caller, id, bps)->Ok_0.0.meta(id);
            &&& caller == env.meta(id).client
            &&& env.meta(id).status == EscrowStatus::Active
            &&& bps <= 10_000
            &&& m.slippage_bps == bps
            &&& env.prices.contains_key(m.token)
            &&& m.slippage_reference_price == env.prices[m.token]
            &&& m.remaining_balance == env.meta(id).remaining_balance
        }),
{
}

/// A milestone that waits for another one is neither submitted nor approved nor
/// released before that one is approved.
#[verifier::rlimit(40)]
pub proof fn law_dependency_holds(
    env: LedgerView,
    caller: Address,
    id: u64,
    mid: u32,
    ids: Seq<u32>,
    i: int,
)
    requires
        env.milestone(id, mid).depends_on is Some,
        ({
            let p = env.milestone(id, mid).depends_on->Some_0;
            env.has_milestone(id, p) ==> env.milestone(id, p).status != MS_APPROVED
                && env.milestone(id, p).status != MS_RELEASED
        }),
        0 <= i < ids.len(),
        ids[i] == mid,
    ensures
        env.submit(caller, id, mid) is Err,
        env.approve(caller, id, mid) is Err,
        env.release(caller, id, mid) is Err,
        env.timed_release(caller, id, mid) is Err,
        env.batch_approve(caller, id, ids) is Err,
{
    if env.batch_approve(caller, id, ids) is Ok {
        let (seen, m) = env.authed(caller).accessed(id)->Ok_0;
        let open = seen.unlocked(id, m.lock_time)->Ok_0.0;
        let base = open.timelock_seen(id, m.timelock);
        lemma_due_free(base, caller, id, m, ids, ids.len());
    }
}

proof fn lemma_due_free(
    env: LedgerView,
    caller: Address,
    id: u64,
    m: MetaView,
    ids: Seq<u32>,
    k: nat,
)
    requires
        env.batch_due(caller, id, m, ids, k) is Ok,
    ensures
        forall|i: int|
            0 <= i < k ==> env.dependency_check(id, env.milestone(id, #[trigger] ids[i])) is Ok,
    decreases k,
{
    if k > 0 {
        lemma_due_free(env, caller, id, m, ids, (k - 1) as nat);
    }
}

} // verus!
