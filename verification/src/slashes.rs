//! What becomes of an amount that is held against somebody.
use vstd::prelude::*;

use crate::cancellation::{lemma_slash_part, restored, slash_part, slashed};
use crate::funds::{gained, lemma_gained_push};
use crate::gains::lemma_access_gained;
use crate::ledger::LedgerView;
use crate::types::{Address, ReputationRecord};

verus! {

/// The same state at another time.
pub open spec fn at(env: LedgerView, now: u64) -> LedgerView {
    LedgerView { timestamp: now, ..env }
}

/// Reversing a slash restores the record: the counters always, and the score
/// where it had ten points to lose.
pub proof fn law_reversal_restores(r: ReputationRecord, amount: i128, now: u64)
    requires
        r.slash_count < u32::MAX,
        i128::MIN <= r.total_slashed + amount <= i128::MAX,
    ensures
        restored(slashed(r, amount, now), amount).slash_count == r.slash_count,
        restored(slashed(r, amount, now), amount).total_slashed == r.total_slashed,
        r.total_score >= 10 ==> restored(slashed(r, amount, now), amount).total_score
            == r.total_score,
{
}

/// A cancellation that is carried out, disputed by who was slashed and reversed:
/// whoever asked for it has got the whole balance back, the other party nothing,
/// nothing is held any more, and the record is as it was, but for a score that
/// had less than ten points to lose. Neither party is the admin here, who is paid
/// the rent meanwhile.
#[verifier::rlimit(60)]
pub proof fn law_reversed_slash_undone(
    env: LedgerView,
    id: u64,
    judge: Address,
    later: u64,
    last: u64,
)
    requires
        env.has_meta(id),
        env.meta(id).escrow_id == id,
        env.meta(id).remaining_balance >= 0,
        env.meta(id).client != env.meta(id).freelancer,
        env.cancellation_fits(id),
        env.reputation(env.book.cancellations[id].requester).address
            == env.book.cancellations[id].requester,
        ({
            let user = env.book.cancellations[id].requester;
            let other = LedgerView::other_party(env.meta(id), user);
            &&& user != env.contract && other != env.contract
            &&& env.config.admin != Some(user) && env.config.admin != Some(other)
        }),
        env.execute_cancellation(id) is Ok,
        ({
            let user = env.book.cancellations[id].requester;
            let one = at(env.execute_cancellation(id)->Ok_0.0, later);
            &&& one.object_slash(user, id) is Ok
            &&& at(one.object_slash(user, id)->Ok_0.0, last).resolve_slash(judge, id, false) is Ok
        }),
    ensures
        ({
            let user = env.book.cancellations[id].requester;
            let other = LedgerView::other_party(env.meta(id), user);
            let token = env.meta(id).token;
            let held = slash_part(env.meta(id).remaining_balance as int);
            let one = env.execute_cancellation(id)->Ok_0.0;
            let two = at(one, later).object_slash(user, id)->Ok_0.0;
            let end = at(two, last).resolve_slash(judge, id, false)->Ok_0.0;
            let (was, is) = (env.reputation(user), end.reputation(user));
            &&& one.book.slashes.contains_key(id)
            &&& one.book.slashes[id].amount == held
            &&& one.reputation(user).slash_count == was.slash_count + 1
            &&& one.reputation(user).total_slashed == was.total_slashed + held
            &&& gained(one.log, token, user) - gained(env.log, token, user) == env.meta(
                id,
            ).remaining_balance - held
            &&& gained(end.log, token, user) - gained(one.log, token, user) == held
            &&& gained(end.log, token, other) == gained(env.log, token, other)
            &&& !end.book.slashes.contains_key(id)
            &&& is.slash_count == was.slash_count
            &&& is.total_slashed == was.total_slashed
            &&& was.total_score >= 10 ==> is.total_score == was.total_score
        }),
{
    broadcast use lemma_gained_push;

    let user = env.book.cancellations[id].requester;
    let other = LedgerView::other_party(env.meta(id), user);
    let token = env.meta(id).token;
    lemma_slash_part(env.meta(id).remaining_balance as int);
    lemma_access_gained(env, id, token, user);
    lemma_access_gained(env, id, token, other);
    let one = at(env.execute_cancellation(id)->Ok_0.0, later);
    lemma_access_gained(one.authed(user), id, token, user);
    lemma_access_gained(one.authed(user), id, token, other);
    let two = at(one.object_slash(user, id)->Ok_0.0, last);
    lemma_access_gained(two.authed(judge), id, token, user);
    lemma_access_gained(two.authed(judge), id, token, other);
}

} // verus!
