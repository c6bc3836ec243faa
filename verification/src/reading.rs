//! What can be read of an escrow, and what is on record of it.
use vstd::prelude::*;

use crate::funds::lemma_gained_push;
use crate::gains::{gains, lemma_access_gained, outsider};
use crate::index::{page, without};
use crate::ledger::LedgerView;
use crate::multisig::accrued;
use crate::settling::plain_parties;
use crate::types::{
    Address, EscrowStateView, EscrowStatus, OracleResolutionPayload, SlashView, StateHistoryEntry,
};

verus! {

/// What is shown of an escrow is what its header and its milestones say.
pub open spec fn shown_as_kept(env: LedgerView, id: u64, s: EscrowStateView) -> bool {
    let m = env.meta(id);
    &&& s.escrow_id == m.escrow_id
    &&& s.client == m.client && s.freelancer == m.freelancer && s.token == m.token
    &&& s.total_amount == m.total_amount && s.remaining_balance == m.remaining_balance
    &&& s.status == m.status && s.arbiter == m.arbiter
    &&& s.created_at == m.created_at && s.deadline == m.deadline
    &&& s.lock_time == m.lock_time && s.lock_time_extension == m.lock_time_extension
    &&& s.timelock == m.timelock && s.brief_hash == m.brief_hash
    &&& s.dispute_timeout_ledger == m.dispute_timeout_ledger
    &&& s.dispute_started_ledger == m.dispute_started_ledger
    &&& s.buyer_signers == m.buyer_signers && s.multisig_approvers == m.buyer_signers
    &&& s.multisig_weights == m.multisig_weights && s.multisig_threshold == m.multisig_threshold
    &&& s.milestones.len() == m.milestone_count
    &&& forall|i: int|
        0 <= i < s.milestones.len() ==> #[trigger] s.milestones[i] == env.milestone(id, i as u32)
}

/// An escrow is shown as it is kept, with all its milestones in order, where they
/// are all there.
pub proof fn law_escrow_shown(env: LedgerView, id: u64)
    ensures
        ({
            let r = env.state_of(id, env.meta(id));
            let n = env.meta(id).milestone_count as int;
            &&& r is Ok <==> forall|i: u32| i < n ==> #[trigger] env.has_milestone(id, i)
            &&& r is Ok ==> shown_as_kept(env, id, r->Ok_0)
        }),
{
    let n = env.meta(id).milestone_count as int;
    if forall|i: u32| i < n ==> #[trigger] env.has_milestone(id, i) {
        assert forall|i: int| 0 <= i < n implies env.has_milestone(id, #[trigger] (i as u32)) by {
            assert((i as u32) < n);
        }
    }
    if env.state_of(id, env.meta(id)) is Ok {
        assert forall|i: u32| i < n implies #[trigger] env.has_milestone(id, i) by {
            assert(env.has_milestone(id, (i as int) as u32));
        }
    }
}

/// The progress of a milestone is the weight of its signatures, against the one that
/// the policy asks for.
pub proof fn law_progress_shown(env: LedgerView, id: u64, mid: u32)
    requires
        env.accessed(id) is Ok,
        env.meta(id).escrow_id == id,
        env.has_milestone(id, mid),
        accrued(env.meta(id), env.milestone(id, mid).approvals) <= u32::MAX,
    ensures
        env.progress(id, mid) is Ok,
        env.progress(id, mid)->Ok_0.1.0 == accrued(
            env.meta(id),
            env.milestone(id, mid).approvals,
        ),
        env.progress(id, mid)->Ok_0.1.1 == env.meta(id).multisig_threshold,
{
    let seen = env.accessed(id)->Ok_0.0;
    crate::solvency::lemma_accrued_same(
        env.meta(id),
        seen.meta(id),
        env.milestone(id, mid).approvals,
    );
}

/// The short state of a schedule says what the schedule says.
pub proof fn law_schedule_shown(env: LedgerView, id: u64)
    requires
        env.accessed(id) is Ok,
    ensures
        ({
            let r = env.schedule_status(id);
            let s = r->Ok_0.1;
            let c = env.recurring(id);
            &&& r is Ok <==> env.has_recurring(id)
            &&& r is Ok ==> {
                &&& s.is_active <==> !c.paused && !c.cancelled
                &&& s.is_paused == c.paused && s.is_cancelled == c.cancelled
                &&& s.next_payment_at == c.next_payment_at
                &&& s.payments_remaining == c.payments_remaining
                &&& s.payment_amount == c.payment_amount
            }
        }),
{
}

/// A slash is among those shown of some escrows exactly when one of these has it.
pub proof fn law_slashes_shown(env: LedgerView, ids: Seq<u64>, k: nat, s: SlashView)
    requires
        k <= ids.len(),
    ensures
        env.slashes_among(ids, k).contains(s) <==> exists|i: int|
            0 <= i < k && env.book.slashes.contains_key(#[trigger] ids[i])
                && env.book.slashes[ids[i]] == s,
        env.slashes_among(ids, k).len() <= k,
    decreases k,
{
    if k > 0 {
        law_slashes_shown(env, ids, (k - 1) as nat, s);
        let before = env.slashes_among(ids, (k - 1) as nat);
        let now = env.slashes_among(ids, k);
        if env.book.slashes.contains_key(ids[k - 1]) {
            let x = env.book.slashes[ids[k - 1]];
            assert(now == before.push(x));
            assert(now[before.len() as int] == x);
            if before.contains(s) {
                let i = choose|i: int| 0 <= i < before.len() && before[i] == s;
                assert(now[i] == s);
            }
            if now.contains(s) && !before.contains(s) {
                let i = choose|i: int| 0 <= i < now.len() && now[i] == s;
                if i < before.len() {
                    assert(before[i] == s);
                }
            }
        }
    }
}

/// A page holds what the list holds from the offset on, as many as were asked for,
/// up to fifty and the end of the list.
pub proof fn law_page_shown(s: Seq<u64>, offset: int, limit: int, i: int)
    requires
        0 <= offset,
        0 <= limit,
    ensures
        ({
            let p = page(s, offset, limit, 50);
            let left = if offset < s.len() {
                s.len() - offset
            } else {
                0
            };
            &&& p.len() <= limit && p.len() <= 50 && p.len() <= left
            &&& p.len() == limit || p.len() == 50 || p.len() == left
            &&& 0 <= i < p.len() ==> p[i] == s[offset + i]
        }),
{
}

/// A list without an id holds the other ids that it held, and not that one.
pub proof fn law_without(s: Seq<u64>, id: u64, x: u64)
    ensures
        without(s, id).contains(x) <==> s.contains(x) && x != id,
    decreases s.len(),
{
    if s.len() > 0 {
        let t = s.drop_last();
        let w = without(t, id);
        law_without(t, id, x);
        assert(s =~= t.push(s.last()));
        if t.contains(x) {
            let i = choose|i: int| 0 <= i < t.len() && t[i] == x;
            assert(s[i] == x);
        }
        if s.contains(x) && !t.contains(x) {
            let i = choose|i: int| 0 <= i < s.len() && s[i] == x;
            if i < t.len() {
                assert(t[i] == x);
            }
        }
        assert(s[s.len() - 1] == s.last());
        if s.last() != id {
            let n = w.push(s.last());
            assert(n[w.len() as int] == s.last());
            if w.contains(x) {
                let i = choose|i: int| 0 <= i < w.len() && w[i] == x;
                assert(n[i] == x);
            }
            if n.contains(x) && !w.contains(x) {
                let i = choose|i: int| 0 <= i < n.len() && n[i] == x;
                if i < w.len() {
                    assert(w[i] == x);
                }
            }
        }
    }
}

/// Rating an address changes its own record, and no other.
pub proof fn law_rating_kept(
    env: LedgerView,
    who: Address,
    other: Address,
    completed: bool,
    disputed: bool,
    volume: i128,
)
    requires
        other != who,
        env.reputation(who).address == who,
    ensures
        ({
            let post = env.reputed(who, completed, disputed, volume);
            &&& post.reputation(who).address == who
            &&& post.reputation(who).last_updated == env.timestamp
            &&& post.reputation(who).slash_count == env.reputation(who).slash_count
            &&& post.reputation(other) == env.reputation(other)
            &&& post.config == env.config
        }),
{
}

/// Nothing is known of an address that has no record.
pub proof fn law_unknown_address(env: LedgerView, who: Address)
    requires
        !env.book.reputations.contains_key(who),
    ensures
        ({
            let r = env.reputation(who);
            &&& r.address == who
            &&& r.total_score == 0 && r.total_volume == 0 && r.total_slashed == 0
            &&& r.completed_escrows == 0 && r.disputed_escrows == 0 && r.disputes_won == 0
            &&& r.slash_count == 0
        }),
{
}

/// One step more is on record for an escrow, with who took it and when.
pub open spec fn records(
    env: LedgerView,
    post: LedgerView,
    id: u64,
    from: EscrowStatus,
    to: EscrowStatus,
    actor: Option<Address>,
) -> bool {
    let n = env.steps(id).len();
    &&& post.steps(id).len() == n + 1
    &&& forall|i: int| 0 <= i < n ==> #[trigger] post.steps(id)[i] == env.steps(id)[i]
    &&& post.steps(id)[n as int] == (StateHistoryEntry {
        from_status: from,
        to_status: to,
        actor,
        timestamp: env.timestamp,
    })
}

/// Cancelling, objecting to a cancellation and carrying it out are on record.
#[verifier::rlimit(60)]
pub proof fn law_cancellations_recorded(env: LedgerView, caller: Address, id: u64)
    ensures
        env.cancel(caller, id) is Ok ==> records(
            env,
            env.cancel(caller, id)->Ok_0.0,
            id,
            EscrowStatus::Active,
            EscrowStatus::Cancelled,
            Some(caller),
        ),
        env.cancel_schedule(caller, id) is Ok ==> records(
            env,
            env.cancel_schedule(caller, id)->Ok_0.0,
            id,
            EscrowStatus::Active,
            EscrowStatus::Cancelled,
            Some(caller),
        ),
        env.execute_cancellation(id) is Ok ==> records(
            env,
            env.execute_cancellation(id)->Ok_0.0,
            id,
            EscrowStatus::Active,
            EscrowStatus::Cancelled,
            None,
        ),
        env.object_cancellation(caller, id) is Ok ==> records(
            env,
            env.object_cancellation(caller, id)->Ok_0.0,
            id,
            EscrowStatus::CancellationPending,
            EscrowStatus::Disputed,
            Some(caller),
        ),
{
}

/// So are disputes that are raised, and decisions on them.
#[verifier::rlimit(60)]
pub proof fn law_disputes_recorded(
    env: LedgerView,
    caller: Address,
    id: u64,
    milestone: Option<u32>,
    a: i128,
    b: i128,
    p: OracleResolutionPayload,
    grace: u64,
)
    ensures
        env.raise(caller, id, milestone) is Ok ==> records(
            env,
            env.raise(caller, id, milestone)->Ok_0.0,
            id,
            EscrowStatus::Active,
            EscrowStatus::Disputed,
            Some(caller),
        ),
        env.resolve(caller, id, a, b) is Ok ==> records(
            env,
            env.resolve(caller, id, a, b)->Ok_0.0,
            id,
            EscrowStatus::Disputed,
            EscrowStatus::Completed,
            Some(caller),
        ),
        env.oracle_resolve(id, p, grace) is Ok ==> records(
            env,
            env.oracle_resolve(id, p, grace)->Ok_0.0,
            id,
            EscrowStatus::Disputed,
            EscrowStatus::Completed,
            None,
        ),
{
}

/// Whoever decides, the treasury gets the fee that is still open, and the arbiter
/// its part of the total, rounded down.
#[verifier::rlimit(60)]
pub proof fn law_decision_fees(
    env: LedgerView,
    caller: Address,
    id: u64,
    a: i128,
    b: i128,
    treasury: Address,
    arbiter: Address,
)
    requires
        plain_parties(env, id),
        env.meta(id).total_amount >= 0,
        env.config.platform_treasury == Some(treasury),
        env.meta(id).arbiter == Some(arbiter),
        treasury != arbiter,
        outsider(env, treasury),
        outsider(env, arbiter),
    ensures
        ({
            let m = env.meta(id);
            let fee = if env.fee_snapshot(id).collected {
                0
            } else {
                env.fee_snapshot(id).fee_amount as int
            };
            let part = m.total_amount * m.arbiter_fee_bps / 10_000;
            let decided = env.resolve(caller, id, a, b);
            let claimed = env.claim_timeout(caller, id);
            &&& decided is Ok ==> gains(env, decided->Ok_0.0, id, treasury) == fee
            &&& decided is Ok ==> gains(env, decided->Ok_0.0, id, arbiter) == part
            &&& claimed is Ok ==> gains(env, claimed->Ok_0.0, id, treasury) == fee
            &&& claimed is Ok ==> gains(env, claimed->Ok_0.0, id, arbiter) == part
            &&& (decided is Ok || claimed is Ok) && part > 0 ==> part + fee <= m.total_amount
        }),
{
    broadcast use lemma_gained_push;

    let m = env.meta(id);
    let bps = m.arbiter_fee_bps;
    assert(m.total_amount * bps >= 0 && (bps == 0 ==> m.total_amount * bps == 0))
        by (nonlinear_arith)
        requires
            m.total_amount >= 0,
            bps >= 0,
    ;
    if env.authed(caller).accessed(id) is Ok {
        lemma_access_gained(env.authed(caller), id, m.token, treasury);
        lemma_access_gained(env.authed(caller), id, m.token, arbiter);
    }
}

} // verus!
