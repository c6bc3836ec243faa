//! How a dispute ends, and what each party gets of it.
use vstd::prelude::*;

use crate::disputes::{le_bytes, lemma_part_fits, oracle_message, rated};
use crate::errors::EscrowError;
use crate::events::EffectView;
use crate::funds::{gained, lemma_gained_push};
use crate::gains::{gains, lemma_access_gained, mere_party};
use crate::ledger::LedgerView;
use crate::types::{
    Address, EscrowStatus, Hash32, OracleResolutionPayload, ReputationRecord, MS_DISPUTED,
    MS_PENDING, MS_SUBMITTED,
};

verus! {

/// The parties of an escrow differ, and get nothing of it for a service.
pub open spec fn plain_parties(env: LedgerView, id: u64) -> bool {
    let m = env.meta(id);
    &&& env.has_meta(id)
    &&& m.escrow_id == id
    &&& m.client != m.freelancer
    &&& mere_party(env, id, m.client)
    &&& mere_party(env, id, m.freelancer)
}

/// A dispute is over: nothing is left of the balance, and no dispute is on record.
pub open spec fn settled_up(post: LedgerView, id: u64) -> bool {
    let m = post.meta(id);
    &&& m.status == EscrowStatus::Completed
    &&& m.remaining_balance == 0
    &&& m.dispute_started_ledger is None
    &&& m.dispute_start_ledger is None
}

/// A dispute that nobody decided in time gives each party half of what is left;
/// an odd one goes to the freelancer. A party claims it, and not before its time.
#[verifier::rlimit(40)]
pub proof fn law_timeout_does(env: LedgerView, caller: Address, id: u64)
    requires
        plain_parties(env, id),
        env.meta(id).remaining_balance >= 0,
        env.claim_timeout(caller, id) is Ok,
    ensures
        ({
            let m = env.meta(id);
            let post = env.claim_timeout(caller, id)->Ok_0.0;
            let b = m.remaining_balance as int;
            &&& caller == m.client || caller == m.freelancer
            &&& m.status == EscrowStatus::Disputed
            &&& m.dispute_started_ledger is Some && m.dispute_timeout_ledger is Some
            &&& m.dispute_started_ledger->Some_0 + m.dispute_timeout_ledger->Some_0 <= env.sequence
            &&& gains(env, post, id, m.client) == b / 2
            &&& gains(env, post, id, m.freelancer) == b - b / 2
            &&& settled_up(post, id)
        }),
{
    broadcast use lemma_gained_push;

    let m = env.meta(id);
    lemma_access_gained(env.authed(caller), id, m.token, m.client);
    lemma_access_gained(env.authed(caller), id, m.token, m.freelancer);
}

/// Once its time has come, and not before, a party can claim such a dispute.
#[verifier::rlimit(40)]
pub proof fn law_timeout_due(env: LedgerView, caller: Address, id: u64, started: u32, wait: u32)
    requires
        !env.config.paused,
        !env.is_frozen(id),
        !env.config.reentrancy_lock,
        env.authed(caller).accessed(id) is Ok,
        caller == env.meta(id).client || caller == env.meta(id).freelancer,
        env.meta(id).status == EscrowStatus::Disputed,
        env.meta(id).dispute_started_ledger == Some(started),
        env.meta(id).dispute_timeout_ledger == Some(wait),
        started + wait <= u32::MAX,
        env.meta(id).arbiter_fee_bps == 0,
        env.fee_snapshot(id).collected,
    ensures
        env.claim_timeout(caller, id) is Ok <==> started + wait <= env.sequence,
        env.sequence < started + wait ==> env.claim_timeout(caller, id) == Err::<
            (LedgerView, ()),
            EscrowError,
        >(EscrowError::E23),
{
}

/// A decision gives the parties what it says, which is all that is left. It is
/// made by the escrow's arbiter or the admin, a hundred ledgers after the dispute
/// was raised at the earliest, and costs both parties five points.
#[verifier::rlimit(60)]
pub proof fn law_decision_does(
    env: LedgerView,
    caller: Address,
    id: u64,
    client_amount: i128,
    freelancer_amount: i128,
)
    requires
        plain_parties(env, id),
        client_amount >= 0,
        freelancer_amount >= 0,
        env.resolve(caller, id, client_amount, freelancer_amount) is Ok,
        env.reputation(env.meta(id).client).address == env.meta(id).client,
        env.reputation(env.meta(id).freelancer).address == env.meta(id).freelancer,
        env.reputation(env.meta(id).client).disputed_escrows < u32::MAX,
        env.reputation(env.meta(id).freelancer).disputed_escrows < u32::MAX,
    ensures
        ({
            let m = env.meta(id);
            let post = env.resolve(caller, id, client_amount, freelancer_amount)->Ok_0.0;
            &&& m.status == EscrowStatus::Disputed
            &&& m.arbiter == Some(caller) || env.config.admin == Some(caller)
            &&& client_amount + freelancer_amount == m.remaining_balance
            &&& m.dispute_started_ledger is Some
            &&& m.dispute_started_ledger->Some_0 + 100 <= env.sequence
            &&& gains(env, post, id, m.client) == client_amount
            &&& gains(env, post, id, m.freelancer) == freelancer_amount
            &&& settled_up(post, id)
            &&& marked_down(env, post, m.client)
            &&& marked_down(env, post, m.freelancer)
        }),
{
    broadcast use lemma_gained_push;

    let m = env.meta(id);
    lemma_access_gained(env.authed(caller), id, m.token, m.client);
    lemma_access_gained(env.authed(caller), id, m.token, m.freelancer);
}

/// A record counts one dispute more, and has lost five points, or all it had.
pub open spec fn marked_down(env: LedgerView, post: LedgerView, who: Address) -> bool {
    let (was, is) = (env.reputation(who), post.reputation(who));
    &&& is.disputed_escrows == was.disputed_escrows + 1
    &&& is.total_score == if was.total_score < 5 {
        0
    } else {
        was.total_score - 5
    }
    &&& is.completed_escrows == was.completed_escrows
    &&& is.total_volume == was.total_volume
    &&& is.slash_count == was.slash_count
    &&& is.total_slashed == was.total_slashed
}

/// The admin's decision over all that is left stands, a hundred ledgers after the
/// dispute was raised and not before.
#[verifier::rlimit(40)]
pub proof fn law_decision_due(
    env: LedgerView,
    caller: Address,
    id: u64,
    client_amount: i128,
    freelancer_amount: i128,
    started: u32,
)
    requires
        !env.config.paused,
        !env.is_frozen(id),
        !env.config.reentrancy_lock,
        env.authed(caller).accessed(id) is Ok,
        env.config.admin == Some(caller),
        env.meta(id).arbiter != Some(caller),
        env.meta(id).status == EscrowStatus::Disputed,
        env.meta(id).dispute_started_ledger == Some(started),
        env.meta(id).arbiter_fee_bps == 0,
        env.fee_snapshot(id).collected,
    ensures
        env.resolve(caller, id, client_amount, freelancer_amount) is Ok <==> client_amount
            + freelancer_amount == env.meta(id).remaining_balance && started + 100 <= env.sequence,
{
}

/// A signed decision gives the client its basis points of what is left, rounded
/// down, and the freelancer the rest. It counts when the dispute has waited its
/// grace, before it expires, over the whole, and from the trusted key alone, whose
/// signature the host is asked to verify.
#[verifier::rlimit(60)]
pub proof fn law_oracle_decision_does(
    env: LedgerView,
    id: u64,
    p: OracleResolutionPayload,
    grace: u64,
)
    requires
        plain_parties(env, id),
        env.meta(id).remaining_balance >= 0,
        env.oracle_resolve(id, p, grace) is Ok,
    ensures
        ({
            let m = env.meta(id);
            let post = env.oracle_resolve(id, p, grace)->Ok_0.0;
            let part = m.remaining_balance * p.client_bps / 10_000;
            &&& m.status == EscrowStatus::Disputed
            &&& m.dispute_start_ledger is Some
            &&& m.dispute_start_ledger->Some_0 + grace <= env.timestamp || env.timestamp
                == u64::MAX
            &&& env.timestamp <= p.expires_at
            &&& p.client_bps + p.freelancer_bps == 10_000
            &&& env.config.trusted_oracle_key == Some(p.oracle_pubkey)
            &&& post.log.contains(EffectView::VerifySignature(p))
            &&& gains(env, post, id, m.client) == part
            &&& gains(env, post, id, m.freelancer) == m.remaining_balance - part
            &&& settled_up(post, id)
        }),
{
    broadcast use lemma_gained_push;

    let m0 = env.meta(id);
    lemma_access_gained(env, id, m0.token, m0.client);
    lemma_access_gained(env, id, m0.token, m0.freelancer);
    let (seen, m) = env.accessed(id)->Ok_0;
    lemma_part_fits(m.remaining_balance as int, p.client_bps as int);
    let (client_amount, freelancer_amount) = LedgerView::oracle_split(m, p);
    assert(m.remaining_balance * p.client_bps >= 0) by (nonlinear_arith)
        requires
            m.remaining_balance >= 0,
            p.client_bps >= 0,
    ;
    assert(client_amount == m.remaining_balance * p.client_bps / 10_000);
    let signed = seen.logged(EffectView::VerifySignature(p));
    let paid = signed.arbiter_paid(m, None)->Ok_0.0;
    assert(gained(paid.log, m.token, m.client) == gained(seen.log, m.token, m.client));
    assert(gained(paid.log, m.token, m.freelancer) == gained(seen.log, m.token, m.freelancer));
    let shared = paid.parties_paid(m, client_amount, freelancer_amount);
    assert(gained(shared.log, m.token, m.client) == gained(paid.log, m.token, m.client)
        + client_amount);
    assert(gained(shared.log, m.token, m.freelancer) == gained(paid.log, m.token, m.freelancer)
        + freelancer_amount);
    let post = env.oracle_resolve(id, p, grace)->Ok_0.0;
    let at = seen.log.len() as int;
    assert(signed.log[at] == EffectView::VerifySignature(p));
    assert(post.log[at] == EffectView::VerifySignature(p));
}

/// A decision that the trusted key signs stands from the end of the grace until it
/// expires, if it shares out the whole, and no other does.
#[verifier::rlimit(40)]
pub proof fn law_oracle_decision_due(
    env: LedgerView,
    id: u64,
    p: OracleResolutionPayload,
    grace: u64,
    started: u64,
)
    requires
        !env.config.paused,
        !env.config.reentrancy_lock,
        env.accessed(id) is Ok,
        env.meta(id).status == EscrowStatus::Disputed,
        env.meta(id).dispute_start_ledger == Some(started),
        started + grace <= u64::MAX,
        env.meta(id).arbiter_fee_bps == 0,
    ensures
        env.oracle_resolve(id, p, grace) is Ok <==> {
            &&& started + grace <= env.timestamp <= p.expires_at
            &&& p.client_bps + p.freelancer_bps == 10_000
            &&& env.config.trusted_oracle_key == Some(p.oracle_pubkey)
        },
{
}

proof fn lemma_bytes_len(x: int, n: nat)
    ensures
        le_bytes(x, n).len() == n,
    decreases n,
{
    if n > 0 {
        lemma_bytes_len(x / 256, (n - 1) as nat);
    }
}

/// Bytes tell numbers apart.
proof fn lemma_bytes_tell(x: int, y: int, n: nat)
    requires
        le_bytes(x, n) == le_bytes(y, n),
        0 <= x,
        0 <= y,
        n == 4 ==> x < 0x1_0000_0000 && y < 0x1_0000_0000,
        n == 3 ==> x < 0x100_0000 && y < 0x100_0000,
        n == 2 ==> x < 0x1_0000 && y < 0x1_0000,
        n == 1 ==> x < 0x100 && y < 0x100,
        n == 0 ==> x == 0 && y == 0,
        n == 8 ==> x < 0x1_0000_0000_0000_0000 && y < 0x1_0000_0000_0000_0000,
        n == 7 ==> x < 0x100_0000_0000_0000 && y < 0x100_0000_0000_0000,
        n == 6 ==> x < 0x1_0000_0000_0000 && y < 0x1_0000_0000_0000,
        n == 5 ==> x < 0x100_0000_0000 && y < 0x100_0000_0000,
        n <= 8,
    ensures
        x == y,
    decreases n,
{
    if n > 0 {
        let (a, b) = (le_bytes(x, n), le_bytes(y, n));
        let k = (n - 1) as nat;
        lemma_bytes_len(x / 256, k);
        lemma_bytes_len(y / 256, k);
        assert(a[0] == (x % 256) as u8);
        assert(b[0] == (y % 256) as u8);
        assert(a.skip(1) =~= le_bytes(x / 256, k));
        assert(b.skip(1) =~= le_bytes(y / 256, k));
        lemma_bytes_tell(x / 256, y / 256, k);
    }
}

/// The message that an oracle signs is twenty-four bytes long and tells two
/// decisions apart: their escrows, their parts and their expiry. Its first byte is
/// the lowest of the escrow's id.
pub proof fn law_message_tells(p: OracleResolutionPayload, q: OracleResolutionPayload)
    ensures
        oracle_message(p).len() == 24,
        oracle_message(p)[0] == p.escrow_id % 256,
        oracle_message(p) == oracle_message(q) ==> {
            &&& p.escrow_id == q.escrow_id
            &&& p.client_bps == q.client_bps
            &&& p.freelancer_bps == q.freelancer_bps
            &&& p.expires_at == q.expires_at
        },
{
    lemma_bytes_len(p.escrow_id as int, 8);
    lemma_bytes_len(p.client_bps as int, 4);
    lemma_bytes_len(p.freelancer_bps as int, 4);
    lemma_bytes_len(p.expires_at as int, 8);
    lemma_bytes_len(q.escrow_id as int, 8);
    lemma_bytes_len(q.client_bps as int, 4);
    lemma_bytes_len(q.freelancer_bps as int, 4);
    lemma_bytes_len(q.expires_at as int, 8);
    let (a, b) = (oracle_message(p), oracle_message(q));
    if a == b {
        assert(a.subrange(0, 8) =~= le_bytes(p.escrow_id as int, 8));
        assert(b.subrange(0, 8) =~= le_bytes(q.escrow_id as int, 8));
        assert(a.subrange(8, 12) =~= le_bytes(p.client_bps as int, 4));
        assert(b.subrange(8, 12) =~= le_bytes(q.client_bps as int, 4));
        assert(a.subrange(12, 16) =~= le_bytes(p.freelancer_bps as int, 4));
        assert(b.subrange(12, 16) =~= le_bytes(q.freelancer_bps as int, 4));
        assert(a.subrange(16, 24) =~= le_bytes(p.expires_at as int, 8));
        assert(b.subrange(16, 24) =~= le_bytes(q.expires_at as int, 8));
        lemma_bytes_tell(p.escrow_id as int, q.escrow_id as int, 8);
        lemma_bytes_tell(p.client_bps as int, q.client_bps as int, 4);
        lemma_bytes_tell(p.freelancer_bps as int, q.freelancer_bps as int, 4);
        lemma_bytes_tell(p.expires_at as int, q.expires_at as int, 8);
    }
}

/// A dispute is raised by a party of an active escrow, and starts now. A milestone
/// that it is over, and that is not settled, is disputed with it. Nobody gains
/// anything.
#[verifier::rlimit(40)]
pub proof fn law_dispute_does(
    env: LedgerView,
    caller: Address,
    id: u64,
    milestone: Option<u32>,
    who: Address,
)
    requires
        env.has_meta(id),
        env.meta(id).escrow_id == id,
        mere_party(env, id, who),
        env.raise(caller, id, milestone) is Ok,
        milestone matches Some(mid) ==> env.milestone(id, mid).id == mid,
    ensures
        ({
            let m = env.meta(id);
            let post = env.raise(caller, id, milestone)->Ok_0.0;
            &&& caller == m.client || caller == m.freelancer
            &&& m.status == EscrowStatus::Active
            &&& post.meta(id).status == EscrowStatus::Disputed
            &&& post.meta(id).dispute_started_ledger == Some(env.sequence)
            &&& post.meta(id).dispute_start_ledger == Some(env.timestamp)
            &&& post.meta(id).remaining_balance == m.remaining_balance
            &&& gains(env, post, id, who) == 0
            &&& milestone matches Some(mid) ==> {
                let was = env.milestone(id, mid);
                &&& env.has_milestone(id, mid)
                &&& post.milestone(id, mid).amount == was.amount
                &&& post.milestone(id, mid).status == if was.status == MS_SUBMITTED || was.status
                    == MS_PENDING {
                    MS_DISPUTED
                } else {
                    was.status
                }
            }
        }),
{
    broadcast use lemma_gained_push;

    lemma_access_gained(env.authed(caller), id, env.meta(id).token, who);
}

/// A party of an active escrow can always raise a dispute over the whole of it.
pub proof fn law_dispute_open(env: LedgerView, caller: Address, id: u64)
    requires
        !env.config.paused,
        !env.is_frozen(id),
        env.authed(caller).accessed(id) is Ok,
    ensures
        env.raise(caller, id, None) is Ok <==> (caller == env.meta(id).client || caller == env.meta(
            id,
        ).freelancer) && env.meta(id).status == EscrowStatus::Active,
{
}

/// Evidence is kept as it was put forward: by a party, on an escrow in dispute,
/// with a hash and a text of one to two hundred and fifty-six bytes.
pub proof fn law_evidence_does(
    env: LedgerView,
    caller: Address,
    id: u64,
    hash: Hash32,
    description: Seq<u8>,
)
    requires
        !env.config.paused,
        env.authed(caller).accessed(id) is Ok,
    ensures
        env.add_evidence(caller, id, hash, description) is Ok <==> {
            &&& env.meta(id).status == EscrowStatus::Disputed
            &&& caller == env.meta(id).client || caller == env.meta(id).freelancer
            &&& hash.hi != 0 || hash.lo != 0
            &&& 1 <= description.len() <= 256
        },
        env.add_evidence(caller, id, hash, description) is Ok ==> {
            let e = env.add_evidence(caller, id, hash, description)->Ok_0.0.evidence_on(id).last();
            &&& e.escrow_id == id
            &&& e.submitted_by == caller
            &&& e.evidence_hash == hash
            &&& e.submitted_at == env.timestamp
            &&& e.description == description
        },
{
}

/// Governance is asked to decide on what is left of a disputed escrow of at least
/// the high value, by a party, and to pay it to the contract.
pub proof fn law_escalation_asks(env: LedgerView, caller: Address, id: u64, proposal: u64)
    requires
        env.has_meta(id),
        env.escalation(caller, id) is Ok,
    ensures
        ({
            let m = env.meta(id);
            let call = env.escalation(caller, id)->Ok_0.1;
            &&& caller == m.client || caller == m.freelancer
            &&& m.status == EscrowStatus::Disputed
            &&& m.total_amount >= 10_000_000_000
            &&& env.config.governance_contract == Some(call.governance)
            &&& call.recipient == env.contract
            &&& call.token == m.token
            &&& call.amount == m.remaining_balance
            &&& env.escalate(caller, id, proposal) is Ok
            &&& env.escalate(caller, id, proposal)->Ok_0.1 == proposal
            &&& env.escalate(caller, id, proposal)->Ok_0.0.meta(id).status
                == EscrowStatus::Disputed
        }),
{
}

/// A completed escrow is worth ten points and one more for each whole thousand of
/// its volume, up to ten; a disputed one costs five. Each counts itself, and the
/// volume of completed ones adds up.
pub proof fn law_rating_exact(
    r: ReputationRecord,
    completed: bool,
    disputed: bool,
    volume: i128,
    now: u64,
)
    requires
        r.completed_escrows < u32::MAX,
        r.disputed_escrows < u32::MAX,
        r.total_score <= u64::MAX - 20,
        volume >= 0,
        i128::MIN <= r.total_volume + volume <= i128::MAX,
    ensures
        ({
            let is = rated(r, completed, disputed, volume, now);
            let thousands = volume as int / 1_000;
            let plus = if completed {
                10 + if thousands > 10 {
                    10
                } else {
                    thousands
                }
            } else {
                0
            };
            let up = r.total_score + plus;
            &&& is.total_score == if !disputed {
                up
            } else if up < 5 {
                0
            } else {
                up - 5
            }
            &&& is.completed_escrows == r.completed_escrows + if completed {
                1int
            } else {
                0
            }
            &&& is.disputed_escrows == r.disputed_escrows + if disputed {
                1int
            } else {
                0
            }
            &&& is.total_volume == r.total_volume + if completed {
                volume as int
            } else {
                0
            }
            &&& is.address == r.address
            &&& is.slash_count == r.slash_count
            &&& is.total_slashed == r.total_slashed
            &&& is.last_updated == now
        }),
{
}

} // verus!
