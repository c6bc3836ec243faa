//! What a cancellation gives each party, and what it holds against whom.
use vstd::prelude::*;

use crate::cancellation::lemma_slash_part;
use crate::funds::lemma_gained_push;
use crate::gains::{gains, lemma_access_gained, outsider};
use crate::ledger::LedgerView;
use crate::settling::plain_parties;
use crate::types::{Address, EscrowStatus, SlashView, MS_APPROVED};

verus! {

/// What the approved ones among the first `n` milestones of an escrow are worth.
pub open spec fn approved_worth(env: LedgerView, id: u64, n: nat) -> int
    decreases n,
{
    if n == 0 {
        0
    } else {
        let ms = env.milestone(id, (n - 1) as u32);
        approved_worth(env, id, (n - 1) as nat) + if ms.status == MS_APPROVED {
            ms.amount as int
        } else {
            0
        }
    }
}

pub proof fn lemma_approved_worth(env: LedgerView, seen: LedgerView, id: u64, n: nat)
    requires
        seen.approved_due(id, n) is Ok,
        seen.book.milestones == env.book.milestones,
    ensures
        seen.approved_due(id, n)->Ok_0 == approved_worth(env, id, n),
    decreases n,
{
    if n > 0 {
        lemma_approved_worth(env, seen, id, (n - 1) as nat);
    }
}

/// A cancelled escrow gives the freelancer what was approved and the client the
/// rest, less the platform's fee where that is still open: the fee of the total,
/// or all that is left where the fee is more. Nothing stays behind.
#[verifier::rlimit(60)]
pub proof fn law_cancel_does(env: LedgerView, caller: Address, id: u64, treasury: Address)
    requires
        plain_parties(env, id),
        env.cancel(caller, id) is Ok,
        env.config.platform_treasury == Some(treasury),
        outsider(env, treasury),
        approved_worth(env, id, env.meta(id).milestone_count as nat) >= 0,
        env.platform_fee(env.meta(id).total_amount) is Ok,
        env.platform_fee(env.meta(id).total_amount)->Ok_0.fee_amount >= 0,
        env.meta(id).remaining_balance >= 0,
    ensures
        ({
            let m = env.meta(id);
            let post = env.cancel(caller, id)->Ok_0.0;
            let approved = approved_worth(env, id, m.milestone_count as nat);
            let whole = env.platform_fee(m.total_amount)->Ok_0.fee_amount as int;
            let fee = gains(env, post, id, treasury);
            &&& caller == m.client
            &&& m.status == EscrowStatus::Active
            &&& fee == if env.book.fee_snapshots.contains_key(id) && env.fee_snapshot(id).collected {
                0
            } else if whole < m.remaining_balance {
                whole
            } else {
                m.remaining_balance as int
            }
            &&& gains(env, post, id, m.freelancer) == approved
            &&& gains(env, post, id, m.client) == m.remaining_balance - approved - fee
            &&& approved + fee <= m.remaining_balance
            &&& post.meta(id).status == EscrowStatus::Cancelled
            &&& post.meta(id).remaining_balance == 0
            &&& !post.book.fee_snapshots.contains_key(id)
        }),
{
    broadcast use lemma_gained_push;

    let m = env.meta(id);
    let (seen, m2) = env.authed(caller).accessed(id)->Ok_0;
    lemma_access_gained(env.authed(caller), id, m.token, m.client);
    lemma_access_gained(env.authed(caller), id, m.token, m.freelancer);
    lemma_access_gained(env.authed(caller), id, m.token, treasury);
    lemma_approved_worth(env, seen, id, m.milestone_count as nat);
}

/// A client whose fee is settled can cancel an active escrow with nothing approved
/// whatever else it holds.
#[verifier::rlimit(40)]
pub proof fn law_cancel_due(env: LedgerView, caller: Address, id: u64)
    requires
        !env.config.paused,
        !env.is_frozen(id),
        !env.config.reentrancy_lock,
        env.authed(caller).accessed(id) is Ok,
        caller == env.meta(id).client,
        env.meta(id).status == EscrowStatus::Active,
        env.meta(id).milestone_count == 0,
        env.meta(id).remaining_balance >= 0,
        env.book.fee_snapshots.contains_key(id),
        env.fee_snapshot(id).collected,
    ensures
        env.cancel(caller, id) is Ok,
{
}

/// A partial cancellation gives the client what no milestone claims, and answers
/// with it; what the milestones claim stays.
#[verifier::rlimit(40)]
pub proof fn law_partial_cancel_does(env: LedgerView, caller: Address, id: u64)
    requires
        plain_parties(env, id),
        env.meta(id).allocated_amount >= 0,
        env.meta(id).remaining_balance >= 0,
        env.cancel_rest(caller, id) is Ok,
    ensures
        ({
            let m = env.meta(id);
            let (post, r) = env.cancel_rest(caller, id)->Ok_0;
            &&& caller == m.client
            &&& m.status == EscrowStatus::Active
            &&& r == if m.remaining_balance > m.allocated_amount {
                m.remaining_balance - m.allocated_amount
            } else {
                0
            }
            &&& gains(env, post, id, m.client) == r
            &&& gains(env, post, id, m.freelancer) == 0
            &&& post.meta(id).remaining_balance == m.remaining_balance - r
            &&& post.meta(id).allocated_amount == m.allocated_amount
            &&& post.meta(id).status == EscrowStatus::Active
        }),
{
    broadcast use lemma_gained_push;

    let m = env.meta(id);
    lemma_access_gained(env.authed(caller), id, m.token, m.client);
    lemma_access_gained(env.authed(caller), id, m.token, m.freelancer);
}

/// Only the client of an active escrow gives up what is unclaimed, and it can.
pub proof fn law_partial_cancel_due(env: LedgerView, caller: Address, id: u64)
    requires
        !env.config.paused,
        !env.is_frozen(id),
        !env.config.reentrancy_lock,
        env.authed(caller).accessed(id) is Ok,
    ensures
        env.cancel_rest(caller, id) is Ok <==> caller == env.meta(id).client && env.meta(id).status
            == EscrowStatus::Active,
{
}

/// Asking to cancel costs the party that asks thirty, and opens a window of
/// 120960 seconds in which the other party may object. The request is kept as it
/// was made.
#[verifier::rlimit(40)]
pub proof fn law_cancellation_asked(env: LedgerView, caller: Address, id: u64, reason: Seq<u8>)
    requires
        env.meta(id).escrow_id == id,
        outsider(env, caller),
        env.timestamp + 120_960 <= u64::MAX,
        env.ask_cancellation(caller, id, reason) is Ok,
    ensures
        ({
            let m = env.meta(id);
            let post = env.ask_cancellation(caller, id, reason)->Ok_0.0;
            let c = post.book.cancellations[id];
            &&& caller == m.client || caller == m.freelancer
            &&& m.status == EscrowStatus::Active
            &&& reason.len() <= 256
            &&& !env.book.cancellations.contains_key(id)
            &&& post.book.cancellations.contains_key(id)
            &&& c.escrow_id == id && c.requester == caller && c.reason == reason
            &&& c.requested_at == env.timestamp
            &&& c.dispute_deadline == env.timestamp + 120_960
            &&& !c.disputed && !c.counterparty_approved
            &&& post.meta(id).status == EscrowStatus::CancellationPending
            &&& post.meta(id).remaining_balance == m.remaining_balance
            &&& gains(env, post, id, caller) == -30
        }),
{
    broadcast use lemma_gained_push;

    lemma_access_gained(env.authed(caller), id, env.meta(id).token, caller);
}

/// A party of an active escrow can ask to cancel it, unless somebody has.
pub proof fn law_cancellation_askable(env: LedgerView, caller: Address, id: u64, reason: Seq<u8>)
    requires
        env.config.admin is Some,
        !env.config.paused,
        env.authed(caller).accessed(id) is Ok,
        env.authed(caller).accessed(id)->Ok_0.1.rent_balance + 30 <= i128::MAX,
    ensures
        env.ask_cancellation(caller, id, reason) is Ok <==> {
            &&& caller == env.meta(id).client || caller == env.meta(id).freelancer
            &&& env.meta(id).status == EscrowStatus::Active
            &&& !env.book.cancellations.contains_key(id)
            &&& reason.len() <= 256
        },
{
}

/// Only the party that did not ask agrees to a cancellation or objects to it; it
/// objects once, before the window closes, and that makes a dispute of it which
/// starts there and then.
#[verifier::rlimit(60)]
pub proof fn law_cancellation_replied(env: LedgerView, caller: Address, id: u64)
    requires
        env.config.admin is Some,
        !env.config.paused,
        env.authed(caller).accessed(id) is Ok,
        env.meta(id).escrow_id == id,
        env.meta(id).client != env.meta(id).freelancer,
        env.book.cancellations.contains_key(id),
        env.book.cancellations[id].escrow_id == id,
        env.book.cancellations[id].requester == env.meta(id).client
            || env.book.cancellations[id].requester == env.meta(id).freelancer,
    ensures
        ({
            let m = env.meta(id);
            let c = env.book.cancellations[id];
            let other = if c.requester == m.client {
                m.freelancer
            } else {
                m.client
            };
            let agreed = env.agree_cancellation(caller, id);
            let objected = env.object_cancellation(caller, id);
            &&& agreed is Ok <==> caller == other
            &&& agreed is Ok ==> {
                let d = agreed->Ok_0.0.book.cancellations[id];
                &&& d.counterparty_approved
                &&& d.disputed == c.disputed && d.requester == c.requester
                &&& d.dispute_deadline == c.dispute_deadline
                &&& agreed->Ok_0.0.meta(id).status == m.status
            }
            &&& objected is Ok <==> caller == other && !c.disputed && env.timestamp
                < c.dispute_deadline
            &&& objected is Ok ==> {
                let post = objected->Ok_0.0;
                let d = post.book.cancellations[id];
                &&& d.disputed
                &&& d.counterparty_approved == c.counterparty_approved
                &&& d.requester == c.requester && d.dispute_deadline == c.dispute_deadline
                &&& post.meta(id).status == EscrowStatus::Disputed
                &&& post.meta(id).dispute_started_ledger == Some(env.sequence)
                &&& post.meta(id).dispute_start_ledger == Some(env.timestamp)
                &&& post.meta(id).remaining_balance == m.remaining_balance
            }
        }),
{
}

/// A cancellation that is carried out gives who asked for it nine tenths of what
/// is left, rounded up, and holds the tenth for the other party. It waits for the
/// end of the window or for the other party's word, and is not carried out where
/// that party objected.
#[verifier::rlimit(60)]
pub proof fn law_cancellation_does(env: LedgerView, id: u64)
    requires
        plain_parties(env, id),
        env.meta(id).remaining_balance >= 0,
        env.execute_cancellation(id) is Ok,
        env.book.cancellations[id].requester == env.meta(id).client
            || env.book.cancellations[id].requester == env.meta(id).freelancer,
        env.reputation(env.book.cancellations[id].requester).address
            == env.book.cancellations[id].requester,
        env.slash_fits(env.book.cancellations[id].requester, env.meta(id).remaining_balance as int),
    ensures
        ({
            let m = env.meta(id);
            let b = m.remaining_balance as int;
            let c = env.book.cancellations[id];
            let post = env.execute_cancellation(id)->Ok_0.0;
            let s = post.book.slashes[id];
            let other = if c.requester == m.client {
                m.freelancer
            } else {
                m.client
            };
            let (was, is) = (env.reputation(c.requester), post.reputation(c.requester));
            &&& c.counterparty_approved || env.timestamp >= c.dispute_deadline
            &&& !c.disputed
            &&& !env.book.slashes.contains_key(id)
            &&& post.book.slashes.contains_key(id)
            &&& s.amount == b / 10
            &&& s.slashed_user == c.requester && s.recipient == other && s.escrow_id == id
            &&& s.slashed_at == env.timestamp && !s.disputed
            &&& gains(env, post, id, c.requester) == b - b / 10
            &&& gains(env, post, id, other) == 0
            &&& post.meta(id).remaining_balance == 0
            &&& post.meta(id).status == EscrowStatus::Cancelled
            &&& !post.book.cancellations.contains_key(id)
            &&& is.slash_count == was.slash_count + 1
            &&& is.total_slashed == was.total_slashed + b / 10
            &&& is.total_score == if was.total_score < 10 {
                0
            } else {
                was.total_score - 10
            }
        }),
{
    broadcast use lemma_gained_push;

    let m = env.meta(id);
    lemma_slash_part(m.remaining_balance as int);
    lemma_access_gained(env, id, m.token, m.client);
    lemma_access_gained(env, id, m.token, m.freelancer);
}

/// Anybody can have a cancellation carried out once its window is over, or the
/// other party agreed, as long as nobody objected.
pub proof fn law_cancellation_due(env: LedgerView, id: u64)
    requires
        env.config.admin is Some,
        !env.config.paused,
        !env.config.reentrancy_lock,
        env.accessed(id) is Ok,
        env.book.cancellations.contains_key(id),
        !env.book.slashes.contains_key(id),
    ensures
        ({
            let c = env.book.cancellations[id];
            env.execute_cancellation(id) is Ok <==> !c.disputed && (c.counterparty_approved
                || env.timestamp >= c.dispute_deadline)
        }),
{
}

/// A held amount goes to its recipient once 51840 seconds have passed without an
/// objection, and not before.
pub proof fn law_slash_final(env: LedgerView, id: u64, who: Address)
    requires
        env.config.admin is Some,
        !env.config.paused,
        !env.config.reentrancy_lock,
        env.has_meta(id),
        who != env.contract,
        env.book.slashes.contains_key(id) ==> env.book.slashes[id].recipient != env.contract,
    ensures
        ({
            let s = env.book.slashes[id];
            let post = env.finalize(id)->Ok_0.0;
            &&& env.finalize(id) is Ok <==> env.book.slashes.contains_key(id) && !s.disputed
                && env.timestamp >= s.slashed_at + 51_840
            &&& env.finalize(id) is Ok ==> {
                &&& gains(env, post, id, who) == if who == s.recipient {
                    s.amount as int
                } else {
                    0
                }
                &&& !post.book.slashes.contains_key(id)
                &&& post.book.metas == env.book.metas
                &&& post.book.reputations == env.book.reputations
            }
        }),
{
    broadcast use lemma_gained_push;

}

/// Who an amount is held against can object to that once, within 51840 seconds,
/// and nobody else can.
pub proof fn law_slash_disputed(env: LedgerView, caller: Address, id: u64)
    requires
        !env.config.paused,
        env.authed(caller).accessed(id) is Ok,
        env.book.slashes.contains_key(id),
        env.book.slashes[id].escrow_id == id,
    ensures
        ({
            let s = env.book.slashes[id];
            let post = env.object_slash(caller, id)->Ok_0.0;
            &&& env.object_slash(caller, id) is Ok <==> caller == s.slashed_user && !s.disputed
                && env.timestamp < s.slashed_at + 51_840
            &&& env.object_slash(caller, id) is Ok ==> post.book.slashes[id] == (SlashView {
                disputed: true,
                ..s
            })
        }),
{
}

/// A disputed slash is decided by the escrow's arbiter, while it is allowed, or the
/// admin: the held amount goes to its recipient where it is upheld, and back where
/// it is not.
#[verifier::rlimit(40)]
pub proof fn law_slash_decided(
    env: LedgerView,
    caller: Address,
    id: u64,
    upheld: bool,
    who: Address,
)
    requires
        !env.config.paused,
        !env.config.reentrancy_lock,
        env.authed(caller).accessed(id) is Ok,
        env.meta(id).escrow_id == id,
        env.book.slashes.contains_key(id),
        outsider(env, who),
        env.book.slashes[id].recipient != env.contract,
        env.book.slashes[id].slashed_user != env.contract,
    ensures
        ({
            let s = env.book.slashes[id];
            let r = env.resolve_slash(caller, id, upheld);
            let to = if upheld {
                s.recipient
            } else {
                s.slashed_user
            };
            &&& r is Ok <==> s.disputed && if env.meta(id).arbiter == Some(caller) {
                env.is_allowed(caller)
            } else {
                env.config.admin == Some(caller)
            }
            &&& r is Ok ==> {
                &&& gains(env, r->Ok_0.0, id, who) == if who == to {
                    s.amount as int
                } else {
                    0
                }
                &&& !r->Ok_0.0.book.slashes.contains_key(id)
                &&& upheld ==> r->Ok_0.0.book.reputations == env.book.reputations
            }
        }),
{
    broadcast use lemma_gained_push;

    lemma_access_gained(env.authed(caller), id, env.meta(id).token, who);
}

} // verus!
