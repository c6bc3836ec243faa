//! Who may do what, and what a request leaves alone.
use vstd::prelude::*;

use crate::creation::NewEscrow;
use crate::events::EffectView;
use crate::ledger::LedgerView;
use crate::multisig::weight_of;
use crate::release::lemma_waiting_told;
use crate::types::{Address, EscrowStatus, Hash32, MetaView, MilestoneView, PackedDataKey};

verus! {

/// Nothing that was asked of the host before is taken back.
pub open spec fn grown(pre: LedgerView, post: LedgerView) -> bool {
    &&& pre.log.len() <= post.log.len()
    &&& forall|i: int| 0 <= i < pre.log.len() ==> (#[trigger] post.log[i]) == pre.log[i]
}

/// The request has been made dependent on somebody's signature.
pub open spec fn demands(pre: LedgerView, post: LedgerView, who: Address) -> bool {
    exists|i: int|
        pre.log.len() <= i < post.log.len() && (#[trigger] post.log[i])
            == EffectView::RequireAuth(who)
}

/// The escrow that an entry belongs to.
pub open spec fn owner(k: PackedDataKey) -> u64 {
    match k {
        PackedDataKey::EscrowMeta(id) => id,
        PackedDataKey::Milestone(id, _) => id,
        PackedDataKey::RecurringConfig(id) => id,
    }
}

/// Two collections of entries agree on all escrows but one.
pub open spec fn kept_but<V>(
    pre: Map<PackedDataKey, V>,
    post: Map<PackedDataKey, V>,
    id: u64,
) -> bool {
    forall|k: PackedDataKey|
        owner(k) != id ==> (#[trigger] post.contains_key(k) <==> pre.contains_key(k)) && (
        pre.contains_key(k) ==> post[k] == pre[k])
}

/// The same for collections by escrow.
pub open spec fn kept_but_id<V>(pre: Map<u64, V>, post: Map<u64, V>, id: u64) -> bool {
    forall|k: u64|
        k != id ==> (#[trigger] post.contains_key(k) <==> pre.contains_key(k)) && (pre.contains_key(
            k,
        ) ==> post[k] == pre[k])
}

/// No escrow but one has changed.
pub open spec fn others_kept(pre: LedgerView, post: LedgerView, id: u64) -> bool {
    &&& kept_but(pre.book.metas, post.book.metas, id)
    &&& kept_but(pre.book.milestones, post.book.milestones, id)
    &&& kept_but(pre.book.recurring, post.book.recurring, id)
    &&& kept_but_id(pre.book.cancellations, post.book.cancellations, id)
    &&& kept_but_id(pre.book.slashes, post.book.slashes, id)
    &&& kept_but_id(pre.book.frozen, post.book.frozen, id)
}

/// What two steps leave alone, both together leave alone.
proof fn lemma_kept_twice(a: LedgerView, b: LedgerView, c: LedgerView, id: u64)
    requires
        others_kept(a, b, id),
        others_kept(b, c, id),
    ensures
        others_kept(a, c, id),
{
}

/// Looking an escrow up takes nothing back and leaves the others alone.
proof fn lemma_access(env: LedgerView, id: u64)
    requires
        env.accessed(id) is Ok,
        env.meta(id).escrow_id == id,
    ensures
        grown(env, env.accessed(id)->Ok_0.0),
        others_kept(env, env.accessed(id)->Ok_0.0, id),
        env.accessed(id)->Ok_0.1 == (MetaView {
            rent_balance: env.accessed(id)->Ok_0.1.rent_balance,
            last_rent_collection_at: env.accessed(id)->Ok_0.1.last_rent_collection_at,
            ..env.meta(id)
        }),
        env.accessed(id)->Ok_0.0.has_meta(id),
        env.accessed(id)->Ok_0.0.meta(id) == env.accessed(id)->Ok_0.1,
        env.accessed(id)->Ok_0.0.config == env.config,
        env.accessed(id)->Ok_0.0.book.allowlist == env.book.allowlist,
        env.accessed(id)->Ok_0.0.book.milestones == env.book.milestones,
{
}

proof fn lemma_waiting(env: LedgerView, id: u64, prereq: u32, n: nat)
    ensures
        grown(env, env.waiting_told(id, prereq, n)),
    decreases n,
{
    if n > 0 {
        lemma_waiting(env, id, prereq, (n - 1) as nat);
    }
}

proof fn lemma_dependents(env: LedgerView, id: u64, prereq: u32)
    requires
        env.has_meta(id),
        env.meta(id).escrow_id == id,
    ensures
        grown(env, env.dependents_told(id, prereq)),
        others_kept(env, env.dependents_told(id, prereq), id),
{
    if env.accessed(id) is Ok {
        lemma_access(env, id);
        let (post, m) = env.accessed(id)->Ok_0;
        lemma_waiting(post, id, prereq, m.milestone_count as nat);
        lemma_waiting_told(post, id, prereq, m.milestone_count as nat);
    }
}

/// An escrow is created only with its client's signature, and no other escrow
/// changes.
pub proof fn law_creation_signed(env: LedgerView, a: NewEscrow)
    requires
        env.authed(a.client).created(a) is Ok,
    ensures
        demands(env, env.authed(a.client).created(a)->Ok_0.0, a.client),
        others_kept(env, env.authed(a.client).created(a)->Ok_0.0, env.config.escrow_counter),
{
    let post = env.authed(a.client).created(a)->Ok_0.0;
    assert(post.log[env.log.len() as int] == EffectView::RequireAuth(a.client));
}

/// Milestones are added by the client, with its signature, and only to its own
/// escrow.
pub proof fn law_adding_signed(
    env: LedgerView,
    caller: Address,
    id: u64,
    title: Seq<u8>,
    hash: Hash32,
    amount: i128,
)
    requires
        env.has_meta(id),
        env.meta(id).escrow_id == id,
        env.add_milestone(caller, id, title, hash, amount) is Ok,
    ensures
        caller == env.meta(id).client,
        demands(env, env.add_milestone(caller, id, title, hash, amount)->Ok_0.0, caller),
        others_kept(env, env.add_milestone(caller, id, title, hash, amount)->Ok_0.0, id),
{
    lemma_access(env.authed(caller), id);
    let post = env.add_milestone(caller, id, title, hash, amount)->Ok_0.0;
    let seen = env.authed(caller).accessed(id)->Ok_0.0;
    assert(seen.log[env.log.len() as int] == EffectView::RequireAuth(caller));
    assert(post.log[env.log.len() as int] == EffectView::RequireAuth(caller));
}

/// Work is submitted by the freelancer and rejected by the client, each with a
/// signature, and only on their own escrow.
pub proof fn law_review_signed(
    env: LedgerView,
    caller: Address,
    id: u64,
    mid: u32,
    reason: Hash32,
)
    requires
        env.has_meta(id),
        env.meta(id).escrow_id == id,
        env.milestone(id, mid).id == mid,
    ensures
        env.submit(caller, id, mid) is Ok ==> {
            &&& caller == env.meta(id).freelancer
            &&& demands(env, env.submit(caller, id, mid)->Ok_0.0, caller)
            &&& others_kept(env, env.submit(caller, id, mid)->Ok_0.0, id)
        },
        env.reject(caller, id, mid) is Ok ==> {
            &&& caller == env.meta(id).client
            &&& demands(env, env.reject(caller, id, mid)->Ok_0.0, caller)
            &&& others_kept(env, env.reject(caller, id, mid)->Ok_0.0, id)
        },
        env.reject_with_reason(caller, id, mid, reason) is Ok ==> {
            &&& caller == env.meta(id).client
            &&& demands(env, env.reject_with_reason(caller, id, mid, reason)->Ok_0.0, caller)
            &&& others_kept(env, env.reject_with_reason(caller, id, mid, reason)->Ok_0.0, id)
        },
{
    if env.authed(caller).accessed(id) is Ok {
        lemma_access(env.authed(caller), id);
        let seen = env.authed(caller).accessed(id)->Ok_0.0;
        assert(seen.log[env.log.len() as int] == EffectView::RequireAuth(caller));
        if env.submit(caller, id, mid) is Ok {
            let post = env.submit(caller, id, mid)->Ok_0.0;
            assert(post.log[env.log.len() as int] == EffectView::RequireAuth(caller));
        }
        if env.reject(caller, id, mid) is Ok {
            let post = env.reject(caller, id, mid)->Ok_0.0;
            assert(post.log[env.log.len() as int] == EffectView::RequireAuth(caller));
        }
        if env.reject_with_reason(caller, id, mid, reason) is Ok {
            let post = env.reject_with_reason(caller, id, mid, reason)->Ok_0.0;
            assert(post.log[env.log.len() as int] == EffectView::RequireAuth(caller));
        }
    }
}

/// A milestone is approved by who may approve it, with a signature, and no other
/// escrow changes.
#[verifier::rlimit(40)]
pub proof fn law_approval_signed(env: LedgerView, caller: Address, id: u64, mid: u32)
    requires
        env.has_meta(id),
        env.meta(id).escrow_id == id,
        env.milestone(id, mid).id == mid,
        env.approve(caller, id, mid) is Ok,
    ensures
        env.meta(id).multisig_threshold > 0 ==> weight_of(env.meta(id), caller) is Some,
        env.meta(id).multisig_threshold == 0 ==> caller == env.meta(id).client || env.meta(
            id,
        ).buyer_signers.contains(caller.id),
        demands(env, env.approve(caller, id, mid)->Ok_0.0, caller),
        others_kept(env, env.approve(caller, id, mid)->Ok_0.0, id),
{
    let asked = env.authed(caller);
    lemma_access(asked, id);
    let (seen, m) = asked.accessed(id)->Ok_0;
    let open = seen.unlocked(id, m.lock_time)->Ok_0.0;
    let ms = open.milestone(id, mid);
    assert(weight_of(m, caller) == weight_of(env.meta(id), caller));
    let signed = open.signed(ms, caller);
    let weight = crate::multisig::accrued(m, signed.approvals);
    let noted = open.told(
        crate::events::Event::MultisigApprovalRecorded {
            escrow_id: id,
            milestone_id: mid,
            signer: caller,
            accrued: weight as u32,
            threshold: m.multisig_threshold,
        },
    );
    assert(open.log[env.log.len() as int] == EffectView::RequireAuth(caller));
    if m.multisig_threshold == 0 {
        lemma_approval_kept(open, caller, id, mid, m, ms);
    } else if weight >= m.multisig_threshold {
        lemma_approval_kept(noted, caller, id, mid, m, signed);
    }
    let post = env.approve(caller, id, mid)->Ok_0.0;
    assert(post.log[env.log.len() as int] == EffectView::RequireAuth(caller));
    assert(others_kept(env, open, id));
    assert(others_kept(open, noted, id));
    if m.multisig_threshold == 0 {
        lemma_kept_twice(env, open, post, id);
    } else {
        lemma_kept_twice(env, open, noted, id);
        assert(others_kept(noted, post, id));
        lemma_kept_twice(env, noted, post, id);
    }
}

proof fn lemma_approval_kept(
    env: LedgerView,
    caller: Address,
    id: u64,
    mid: u32,
    m: MetaView,
    ms: MilestoneView,
)
    requires
        env.has_meta(id),
        env.meta(id) == m,
        m.escrow_id == id,
        env.approval_done(caller, id, mid, m, ms) is Ok,
    ensures
        grown(env, env.approval_done(caller, id, mid, m, ms)->Ok_0.0),
        others_kept(env, env.approval_done(caller, id, mid, m, ms)->Ok_0.0, id),
{
    let seen = env.timelock_seen(id, m.timelock);
    let over = env.timelock_over(id, m.timelock) is Ok;
    let paid = if over {
        seen.paid(m.token, m.freelancer, ms.amount).told(
            crate::events::Event::FundsReleased {
                escrow_id: id,
                to: m.freelancer,
                amount: ms.amount,
            },
        )
    } else {
        seen
    };
    let ms2 = MilestoneView {
        status: if over {
            crate::types::MS_RELEASED
        } else {
            crate::types::MS_APPROVED
        },
        resolved_at: Some(env.timestamp),
        ..ms
    };
    let marked = paid.saved_milestone(id, ms2);
    lemma_dependents(marked, id, mid);
    let shown = marked.dependents_told(id, mid);
    let post = env.approval_done(caller, id, mid, m, ms)->Ok_0.0;
    assert(others_kept(env, marked, id));
    assert(others_kept(shown, post, id));
    lemma_kept_twice(env, marked, shown, id);
    lemma_kept_twice(env, shown, post, id);
}

/// An escrow is cancelled by its client alone, with a signature, and no other
/// escrow changes.
#[verifier::rlimit(40)]
pub proof fn law_cancel_signed(env: LedgerView, caller: Address, id: u64)
    requires
        env.has_meta(id),
        env.meta(id).escrow_id == id,
    ensures
        env.cancel(caller, id) is Ok ==> {
            &&& caller == env.meta(id).client
            &&& demands(env, env.cancel(caller, id)->Ok_0.0, caller)
            &&& others_kept(env, env.cancel(caller, id)->Ok_0.0, id)
        },
        env.cancel_rest(caller, id) is Ok ==> {
            &&& caller == env.meta(id).client
            &&& demands(env, env.cancel_rest(caller, id)->Ok_0.0, caller)
            &&& others_kept(env, env.cancel_rest(caller, id)->Ok_0.0, id)
        },
{
    if env.authed(caller).accessed(id) is Ok {
        lemma_access(env.authed(caller), id);
        let seen = env.authed(caller).accessed(id)->Ok_0.0;
        assert(seen.log[env.log.len() as int] == EffectView::RequireAuth(caller));
        if env.cancel(caller, id) is Ok {
            let post = env.cancel(caller, id)->Ok_0.0;
            assert(post.log[env.log.len() as int] == EffectView::RequireAuth(caller));
        }
        if env.cancel_rest(caller, id) is Ok {
            let post = env.cancel_rest(caller, id)->Ok_0.0;
            assert(post.log[env.log.len() as int] == EffectView::RequireAuth(caller));
        }
    }
}

/// A split takes the signatures of both parties.
#[verifier::rlimit(40)]
pub proof fn law_split_signed(
    env: LedgerView,
    caller: Address,
    id: u64,
    amount: i128,
    hash: Hash32,
)
    requires
        env.has_meta(id),
        env.meta(id).escrow_id == id,
        env.split(caller, id, amount, hash) is Ok,
    ensures
        demands(env, env.split(caller, id, amount, hash)->Ok_0.0, caller),
        demands(env, env.split(caller, id, amount, hash)->Ok_0.0, env.meta(id).client),
        demands(env, env.split(caller, id, amount, hash)->Ok_0.0, env.meta(id).freelancer),
{
    lemma_access(env.authed(caller), id);
    let (seen, m) = env.authed(caller).accessed(id)->Ok_0;
    let post = env.split(caller, id, amount, hash)->Ok_0.0;
    let n = env.log.len() as int;
    let k = seen.log.len() as int;
    assert(seen.log[n] == EffectView::RequireAuth(caller));
    assert(post.log[n] == EffectView::RequireAuth(caller));
    let both = seen.both_authed(caller, m);
    assert(grown(both, post));
    if caller != m.client {
        assert(both.log[k] == EffectView::RequireAuth(m.client));
        assert(post.log[k] == EffectView::RequireAuth(m.client));
        if caller != m.freelancer {
            assert(both.log[k + 1] == EffectView::RequireAuth(m.freelancer));
            assert(post.log[k + 1] == EffectView::RequireAuth(m.freelancer));
        }
    } else if caller != m.freelancer {
        assert(both.log[k] == EffectView::RequireAuth(m.freelancer));
        assert(post.log[k] == EffectView::RequireAuth(m.freelancer));
    }
}

/// A dispute is raised by a party and decided by the escrow's arbiter, if it is
/// on the allowlist, or by the admin; each with a signature.
#[verifier::rlimit(40)]
pub proof fn law_dispute_roles(
    env: LedgerView,
    caller: Address,
    id: u64,
    mid: Option<u32>,
    client_amount: i128,
    freelancer_amount: i128,
)
    requires
        env.has_meta(id),
        env.meta(id).escrow_id == id,
    ensures
        env.raise(caller, id, mid) is Ok ==> {
            &&& caller == env.meta(id).client || caller == env.meta(id).freelancer
            &&& demands(env, env.raise(caller, id, mid)->Ok_0.0, caller)
            &&& env.raise(caller, id, mid)->Ok_0.0.meta(id).status == EscrowStatus::Disputed
            &&& others_kept(env, env.raise(caller, id, mid)->Ok_0.0, id)
        },
        env.resolve(caller, id, client_amount, freelancer_amount) is Ok ==> {
            &&& env.config.admin == Some(caller) || (env.meta(id).arbiter == Some(caller)
                && env.is_allowed(caller))
            &&& demands(
                env,
                env.resolve(caller, id, client_amount, freelancer_amount)->Ok_0.0,
                caller,
            )
            &&& others_kept(
                env,
                env.resolve(caller, id, client_amount, freelancer_amount)->Ok_0.0,
                id,
            )
        },
{
    if env.authed(caller).accessed(id) is Ok {
        lemma_access(env.authed(caller), id);
        let (seen, m) = env.authed(caller).accessed(id)->Ok_0;
        assert(seen.log[env.log.len() as int] == EffectView::RequireAuth(caller));
        if env.raise(caller, id, mid) is Ok {
            let post = env.raise(caller, id, mid)->Ok_0.0;
            assert(post.log[env.log.len() as int] == EffectView::RequireAuth(caller));
        }
        if env.resolve(caller, id, client_amount, freelancer_amount) is Ok {
            let post = env.resolve(caller, id, client_amount, freelancer_amount)->Ok_0.0;
            let paid = seen.distributed(id, m, client_amount, freelancer_amount)->Ok_0.0;
            assert(grown(seen, paid));
            assert(post.log[env.log.len() as int] == EffectView::RequireAuth(caller));
        }
    }
}

/// A release by request is the admin's alone.
pub proof fn law_release_roles(
    env: LedgerView,
    caller: Address,
    id: u64,
    mid: u32,
    ids: Seq<u32>,
)
    ensures
        env.release(caller, id, mid) is Ok ==> env.config.admin == Some(caller),
        env.batch_release(caller, id, ids) is Ok ==> env.config.admin == Some(caller),
{
}

/// The configuration is changed by the admin alone, with a signature.
#[verifier::rlimit(40)]
pub proof fn law_admin_signed(
    env: LedgerView,
    caller: Address,
    config: crate::ledger::ConfigView,
    event: crate::events::Event,
)
    ensures
        env.by_admin(caller, config) is Ok ==> env.config.admin == Some(caller) && demands(
            env,
            env.by_admin(caller, config)->Ok_0.0,
            caller,
        ),
        env.by_admin_told(caller, config, event) is Ok ==> env.config.admin == Some(caller)
            && demands(env, env.by_admin_told(caller, config, event)->Ok_0.0, caller),
{
    let n = env.log.len() as int;
    if env.by_admin(caller, config) is Ok {
        assert(env.by_admin(caller, config)->Ok_0.0.log[n] == EffectView::RequireAuth(caller));
    }
    if env.by_admin_told(caller, config, event) is Ok {
        assert(env.by_admin_told(caller, config, event)->Ok_0.0.log[n] == EffectView::RequireAuth(
            caller,
        ));
    }
}

/// A cancellation is asked for by a party, and agreed or objected to by the other
/// one. An objection starts a dispute.
#[verifier::rlimit(40)]
pub proof fn law_cancellation_roles(env: LedgerView, caller: Address, id: u64, reason: Seq<u8>)
    requires
        env.has_meta(id),
        env.meta(id).escrow_id == id,
        env.meta(id).client != env.meta(id).freelancer,
    ensures
        env.ask_cancellation(caller, id, reason) is Ok ==> {
            let post = env.ask_cancellation(caller, id, reason)->Ok_0.0;
            &&& caller == env.meta(id).client || caller == env.meta(id).freelancer
            &&& demands(env, post, caller)
            &&& others_kept(env, post, id)
            &&& post.agree_cancellation(caller, id) is Err
            &&& post.object_cancellation(caller, id) is Err
        },
        env.object_cancellation(caller, id) is Ok ==> {
            let m = env.object_cancellation(caller, id)->Ok_0.0.meta(id);
            &&& caller == env.meta(id).client || caller == env.meta(id).freelancer
            &&& caller != env.book.cancellations[id].requester
            &&& m.status == EscrowStatus::Disputed
            &&& m.dispute_started_ledger == Some(env.sequence)
            &&& m.dispute_start_ledger == Some(env.timestamp)
        },
{
    if env.ask_cancellation(caller, id, reason) is Ok {
        lemma_access(env.authed(caller), id);
        let seen = env.authed(caller).accessed(id)->Ok_0.0;
        let post = env.ask_cancellation(caller, id, reason)->Ok_0.0;
        assert(seen.log[env.log.len() as int] == EffectView::RequireAuth(caller));
        assert(post.log[env.log.len() as int] == EffectView::RequireAuth(caller));
        if post.authed(caller).accessed(id) is Ok {
            lemma_access(post.authed(caller), id);
        }
    }
}

} // verus!
