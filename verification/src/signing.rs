//! What a signature does to a milestone.
use vstd::prelude::*;

use crate::events::Event;
use crate::funds::{gained, lemma_gained_push};
use crate::gains::{gains, lemma_access_gained, lemma_dependents_gained, outsider};
use crate::ledger::LedgerView;
use crate::multisig::{accrued, lemma_accrued_push, signature_weight, weight_of};
use crate::payouts::{lemma_dependents_kept, lemma_due_once, lemma_due_submitted};
use crate::solvency::lemma_accrued_same;
use crate::types::{
    Address, ApprovalRecord, EscrowStatus, MetaView, MilestoneView, PackedDataKey, MS_APPROVED,
    MS_RELEASED, MS_SUBMITTED,
};

verus! {

/// A signature weighs what the policy says of its signer, and nothing for who is
/// not on the list.
pub proof fn law_weight_is_listed(m: MetaView, who: Address, i: int)
    ensures
        0 <= i < m.buyer_signers.len() && i < m.multisig_weights.len() && m.buyer_signers[i]
            == who.id && (forall|j: int| 0 <= j < i ==> m.buyer_signers[j] != who.id)
            ==> signature_weight(m, who) == m.multisig_weights[i],
        !m.buyer_signers.contains(who.id) ==> signature_weight(m, who) == 0,
{
    m.buyer_signers.index_of_first_ensures(who.id);
}

/// Signatures add up: none weigh nothing, and each one more adds its signer's
/// weight.
pub proof fn law_weights_add_up(m: MetaView, approvals: Seq<ApprovalRecord>, x: ApprovalRecord)
    ensures
        accrued(m, Seq::<ApprovalRecord>::empty()) == 0,
        accrued(m, approvals.push(x)) == accrued(m, approvals) + signature_weight(m, x.signer),
{
    lemma_accrued_push(m, approvals, x);
}

/// With the caller's signature a milestone has the approval that it needs.
pub open spec fn reached(env: LedgerView, caller: Address, id: u64, mid: u32) -> bool {
    let m = env.meta(id);
    m.multisig_threshold == 0 || accrued(m, env.milestone(id, mid).approvals) + signature_weight(
        m,
        caller,
    ) >= m.multisig_threshold
}

/// No timelock of an escrow is running.
pub open spec fn untimed(env: LedgerView, id: u64) -> bool {
    match env.meta(id).timelock {
        None => true,
        Some(t) => t.start_ledger + t.duration_ledger <= env.timestamp,
    }
}

/// What becomes of a submitted milestone that the caller signs.
pub open spec fn marked_rightly(
    env: LedgerView,
    post: LedgerView,
    caller: Address,
    id: u64,
    mid: u32,
) -> bool {
    let (was, is) = (env.milestone(id, mid), post.milestone(id, mid));
    &&& was.status == MS_SUBMITTED
    &&& is.amount == was.amount
    &&& is.status == if !reached(env, caller, id, mid) {
        MS_SUBMITTED
    } else if untimed(env, id) {
        MS_RELEASED
    } else {
        MS_APPROVED
    }
    &&& env.meta(id).multisig_threshold > 0 ==> is.approvals == was.approvals.push(
        ApprovalRecord { signer: caller, approved_at: env.timestamp },
    )
    &&& env.meta(id).multisig_threshold == 0 ==> is.approvals == was.approvals
}

proof fn lemma_approval_marks(
    env: LedgerView,
    caller: Address,
    id: u64,
    mid: u32,
    m: MetaView,
    ms: MilestoneView,
    who: Address,
)
    requires
        m.escrow_id == id,
        ms.id == mid,
        env.approval_done(caller, id, mid, m, ms) is Ok,
        outsider(env, who),
        m.freelancer != env.contract,
    ensures
        ({
            let post = env.approval_done(caller, id, mid, m, ms)->Ok_0.0;
            let over = match m.timelock {
                None => true,
                Some(t) => t.start_ledger + t.duration_ledger <= env.timestamp,
            };
            let is = post.milestone(id, mid);
            &&& is.amount == ms.amount
            &&& is.approvals == ms.approvals
            &&& is.status == if over {
                MS_RELEASED
            } else {
                MS_APPROVED
            }
            &&& post.meta(id).remaining_balance == m.remaining_balance - if over {
                ms.amount as int
            } else {
                0
            }
            &&& gained(post.log, m.token, who) - gained(env.log, m.token, who) == if over && who
                == m.freelancer {
                ms.amount as int
            } else {
                0
            }
        }),
{
    broadcast use lemma_gained_push;

    let seen = env.timelock_seen(id, m.timelock);
    let over = env.timelock_over(id, m.timelock) is Ok;
    let paid = if over {
        seen.paid(m.token, m.freelancer, ms.amount).told(
            Event::FundsReleased { escrow_id: id, to: m.freelancer, amount: ms.amount },
        )
    } else {
        seen
    };
    let ms2 = MilestoneView {
        status: if over {
            MS_RELEASED
        } else {
            MS_APPROVED
        },
        resolved_at: Some(env.timestamp),
        ..ms
    };
    lemma_dependents_kept(paid.saved_milestone(id, ms2), id, mid);
    lemma_dependents_gained(paid.saved_milestone(id, ms2), id, mid, m.token, who);
}

/// An approval counts one more signature. Below the threshold it changes nothing
/// else; at the threshold the milestone is approved, and where no timelock runs it
/// is paid, to the freelancer and out of the balance.
#[verifier::rlimit(40)]
pub proof fn law_approval_does(env: LedgerView, caller: Address, id: u64, mid: u32, who: Address)
    requires
        env.approve(caller, id, mid) is Ok,
        env.has_meta(id),
        env.meta(id).escrow_id == id,
        env.milestone(id, mid).id == mid,
        env.meta(id).freelancer != env.contract,
        outsider(env, who),
    ensures
        ({
            let post = env.approve(caller, id, mid)->Ok_0.0;
            let m = env.meta(id);
            let pays = if reached(env, caller, id, mid) && untimed(env, id) {
                env.milestone(id, mid).amount as int
            } else {
                0
            };
            &&& m.status == EscrowStatus::Active
            &&& m.buyer_signers.contains(caller.id) || (m.multisig_threshold == 0 && caller
                == m.client)
            &&& marked_rightly(env, post, caller, id, mid)
            &&& post.meta(id).remaining_balance == m.remaining_balance - pays
            &&& gains(env, post, id, who) == if who == m.freelancer {
                pays
            } else {
                0
            }
        }),
{
    broadcast use lemma_gained_push;

    let asked = env.authed(caller);
    let (seen, m) = asked.accessed(id)->Ok_0;
    lemma_access_gained(asked, id, m.token, who);
    m.buyer_signers.index_of_first_ensures(caller.id);
    let open = seen.unlocked(id, m.lock_time)->Ok_0.0;
    let ms = env.milestone(id, mid);
    if m.multisig_threshold == 0 {
        lemma_approval_marks(open, caller, id, mid, m, ms, who);
    } else {
        let x = ApprovalRecord { signer: caller, approved_at: env.timestamp };
        lemma_accrued_push(m, ms.approvals, x);
        lemma_accrued_same(m, env.meta(id), ms.approvals);
        assert(weight_of(m, caller) == weight_of(env.meta(id), caller));
        let signed = open.signed(ms, caller);
        let weight = accrued(m, signed.approvals);
        let noted = open.told(
            Event::MultisigApprovalRecorded {
                escrow_id: id,
                milestone_id: mid,
                signer: caller,
                accrued: weight as u32,
                threshold: m.multisig_threshold,
            },
        );
        if weight >= m.multisig_threshold {
            lemma_approval_marks(noted, caller, id, mid, m, signed, who);
        }
    }
}

/// What the first `k` milestones of a batch come to that have the approval that
/// they need.
pub open spec fn payable(
    env: LedgerView,
    caller: Address,
    id: u64,
    ids: Seq<u32>,
    k: nat,
) -> int
    decreases k,
{
    if k == 0 {
        0
    } else {
        payable(env, caller, id, ids, (k - 1) as nat) + if reached(env, caller, id, ids[k - 1]) {
            env.milestone(id, ids[k - 1]).amount as int
        } else {
            0
        }
    }
}

/// What marking a batch does, up to some place.
#[verifier::rlimit(60)]
proof fn lemma_batch_marks(
    env: LedgerView,
    caller: Address,
    id: u64,
    m: MetaView,
    ids: Seq<u32>,
    k: nat,
    who: Address,
)
    requires
        env.has_meta(id),
        env.meta(id) == m,
        k <= ids.len(),
        outsider(env, who),
        env.batch_due(caller, id, m, ids, k) is Ok,
        env.batch_marked(caller, id, m, ids, untimed(env, id), k) is Ok,
        forall|i: int, j: int| 0 <= i < j < ids.len() ==> ids[i] != ids[j],
        forall|i: int|
            0 <= i < ids.len() ==> env.milestone(id, #[trigger] ids[i]).id == ids[i]
                && env.milestone(id, ids[i]).status == MS_SUBMITTED,
    ensures
        ({
            let (post, m2) = env.batch_marked(caller, id, m, ids, untimed(env, id), k)->Ok_0;
            &&& env.batch_due(caller, id, m, ids, k)->Ok_0 == payable(env, caller, id, ids, k)
            &&& gained(post.log, m.token, who) == gained(env.log, m.token, who)
            &&& post.config == env.config
            &&& post.contract == env.contract
            &&& post.timestamp == env.timestamp
            &&& m2 == (MetaView {
                approved_count: m2.approved_count,
                submitted_count: m2.submitted_count,
                released_count: m2.released_count,
                ..m
            })
            &&& forall|i: int|
                0 <= i < k ==> marked_rightly(env, post, caller, id, #[trigger] ids[i])
            &&& forall|i: int|
                k <= i < ids.len() ==> post.milestone(id, #[trigger] ids[i]) == env.milestone(
                    id,
                    ids[i],
                )
        }),
    decreases k,
{
    broadcast use lemma_gained_push;

    let over = untimed(env, id);
    if k > 0 {
        lemma_batch_marks(env, caller, id, m, ids, (k - 1) as nat, who);
        let (before, m1) = env.batch_marked(caller, id, m, ids, over, (k - 1) as nat)->Ok_0;
        let (post, m2) = env.batch_marked(caller, id, m, ids, over, k)->Ok_0;
        let mid = ids[k - 1];
        let found = before.milestone(id, mid);
        let policy = m1.multisig_threshold > 0;
        let ms = if policy {
            before.signed(found, caller)
        } else {
            found
        };
        let weight = accrued(m1, ms.approvals);
        if policy {
            lemma_accrued_push(
                m1,
                found.approvals,
                ApprovalRecord { signer: caller, approved_at: before.timestamp },
            );
            lemma_accrued_same(m1, m, found.approvals);
            assert(weight_of(m1, caller) == weight_of(m, caller));
        }
        let noted = if policy {
            before.told(
                Event::MultisigApprovalRecorded {
                    escrow_id: id,
                    milestone_id: mid,
                    signer: caller,
                    accrued: weight as u32,
                    threshold: m1.multisig_threshold,
                },
            )
        } else {
            before
        };
        let marked = noted.saved_milestone(
            id,
            MilestoneView {
                resolved_at: Some(before.timestamp),
                status: if over {
                    MS_RELEASED
                } else {
                    MS_APPROVED
                },
                ..ms
            },
        );
        lemma_dependents_kept(marked, id, mid);
        lemma_dependents_gained(marked, id, mid, m.token, who);
        assert(post.book.milestones == before.book.milestones.insert(
            PackedDataKey::Milestone(id, mid),
            post.milestone(id, mid),
        ));
        assert(marked_rightly(env, post, caller, id, mid));
        assert forall|i: int| 0 <= i < k implies marked_rightly(
            env,
            post,
            caller,
            id,
            #[trigger] ids[i],
        ) by {
            if i < k - 1 {
                assert(marked_rightly(env, before, caller, id, ids[i]));
                assert(ids[i] != mid);
            }
        }
    }
}

/// Approving a batch does to each milestone what approving it alone does: those
/// below the threshold only get the signature. What is paid, to the freelancer and
/// out of the balance, is the sum of those at the threshold, where no timelock
/// runs.
#[verifier::rlimit(60)]
pub proof fn law_batch_approval_does(
    env: LedgerView,
    caller: Address,
    id: u64,
    ids: Seq<u32>,
    i: int,
    who: Address,
)
    requires
        env.sound(),
        env.batch_approve(caller, id, ids) is Ok,
        0 <= i < ids.len(),
        env.meta(id).freelancer != env.contract,
        outsider(env, who),
        payable(env, caller, id, ids, ids.len()) >= 0,
    ensures
        ({
            let (post, due) = env.batch_approve(caller, id, ids)->Ok_0;
            let m = env.meta(id);
            let pays = if untimed(env, id) {
                payable(env, caller, id, ids, ids.len())
            } else {
                0
            };
            &&& m.status == EscrowStatus::Active
            &&& m.buyer_signers.contains(caller.id) || (m.multisig_threshold == 0 && caller
                == m.client)
            &&& marked_rightly(env, post, caller, id, ids[i])
            &&& due == payable(env, caller, id, ids, ids.len())
            &&& post.meta(id).remaining_balance == m.remaining_balance - pays
            &&& gains(env, post, id, who) == if who == m.freelancer {
                pays
            } else {
                0
            }
        }),
{
    broadcast use lemma_gained_push;

    let asked = env.authed(caller);
    let (seen, m) = asked.accessed(id)->Ok_0;
    assert(env.book.metas.contains_key(PackedDataKey::EscrowMeta(id)));
    lemma_access_gained(asked, id, m.token, who);
    m.buyer_signers.index_of_first_ensures(caller.id);
    let open = seen.unlocked(id, m.lock_time)->Ok_0.0;
    let over = open.timelock_over(id, m.timelock) is Ok;
    let base = open.timelock_seen(id, m.timelock);
    lemma_due_once(base, caller, id, m, ids, ids.len());
    lemma_due_submitted(base, caller, id, m, ids, ids.len());
    assert forall|j: int| 0 <= j < ids.len() implies base.milestone(id, #[trigger] ids[j]).id
        == ids[j] by {
        assert(base.has_milestone(id, ids[j]));
        assert(env.book.milestones.contains_key(PackedDataKey::Milestone(id, ids[j])));
    }
    lemma_batch_marks(base, caller, id, m, ids, ids.len(), who);
    lemma_payable_seen(env, base, caller, id, ids, ids.len());
    let marked = base.batch_marked(caller, id, m, ids, over, ids.len())->Ok_0.0;
    let post = env.batch_approve(caller, id, ids)->Ok_0.0;
    assert(marked_rightly(base, marked, caller, id, ids[i]));
    lemma_reached_seen(env, base, caller, id, ids[i]);
    assert(post.milestone(id, ids[i]) == marked.milestone(id, ids[i]));
}

/// Looking an escrow up does not change who has the approval that it needs.
proof fn lemma_reached_seen(
    env: LedgerView,
    seen: LedgerView,
    caller: Address,
    id: u64,
    mid: u32,
)
    requires
        seen.book.milestones == env.book.milestones,
        seen.meta(id).buyer_signers == env.meta(id).buyer_signers,
        seen.meta(id).multisig_weights == env.meta(id).multisig_weights,
        seen.meta(id).multisig_threshold == env.meta(id).multisig_threshold,
    ensures
        reached(seen, caller, id, mid) == reached(env, caller, id, mid),
{
    lemma_accrued_same(seen.meta(id), env.meta(id), env.milestone(id, mid).approvals);
    assert(weight_of(seen.meta(id), caller) == weight_of(env.meta(id), caller));
}

proof fn lemma_payable_seen(
    env: LedgerView,
    seen: LedgerView,
    caller: Address,
    id: u64,
    ids: Seq<u32>,
    k: nat,
)
    requires
        seen.book.milestones == env.book.milestones,
        seen.meta(id).buyer_signers == env.meta(id).buyer_signers,
        seen.meta(id).multisig_weights == env.meta(id).multisig_weights,
        seen.meta(id).multisig_threshold == env.meta(id).multisig_threshold,
    ensures
        payable(seen, caller, id, ids, k) == payable(env, caller, id, ids, k),
    decreases k,
{
    if k > 0 {
        lemma_payable_seen(env, seen, caller, id, ids, (k - 1) as nat);
        lemma_reached_seen(env, seen, caller, id, ids[k - 1]);
    }
}

/// A batch of one milestone does what an approval of that milestone does.
#[verifier::rlimit(60)]
pub proof fn law_batch_of_one(env: LedgerView, caller: Address, id: u64, mid: u32, who: Address)
    requires
        env.sound(),
        env.approve(caller, id, mid) is Ok,
        env.batch_approve(caller, id, seq![mid]) is Ok,
        env.meta(id).freelancer != env.contract,
        env.milestone(id, mid).amount >= 0,
        outsider(env, who),
    ensures
        ({
            let alone = env.approve(caller, id, mid)->Ok_0.0;
            let batch = env.batch_approve(caller, id, seq![mid])->Ok_0.0;
            &&& batch.milestone(id, mid).status == alone.milestone(id, mid).status
            &&& batch.milestone(id, mid).approvals == alone.milestone(id, mid).approvals
            &&& batch.meta(id).remaining_balance == alone.meta(id).remaining_balance
            &&& gains(env, batch, id, who) == gains(env, alone, id, who)
        }),
{
    let ids = seq![mid];
    assert(env.book.metas.contains_key(PackedDataKey::EscrowMeta(id)));
    assert(env.book.milestones.contains_key(PackedDataKey::Milestone(id, mid)));
    assert(payable(env, caller, id, ids, 0) == 0);
    assert(payable(env, caller, id, ids, 1) == if reached(env, caller, id, mid) {
        env.milestone(id, mid).amount as int
    } else {
        0
    });
    assert(ids.len() == 1);
    law_approval_does(env, caller, id, mid, who);
    law_batch_approval_does(env, caller, id, ids, 0, who);
    assert(ids[0] == mid);
}

} // verus!
