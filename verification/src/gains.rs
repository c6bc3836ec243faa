//! Who gains what while requests look escrows up and tell observers.
use vstd::prelude::*;

use crate::funds::{gained, lemma_gained_push};
use crate::ledger::LedgerView;
use crate::types::Address;

verus! {

/// Somebody who is neither the contract nor its admin, to whom rent goes.
pub open spec fn outsider(env: LedgerView, who: Address) -> bool {
    who != env.contract && env.config.admin != Some(who)
}

/// Somebody who, on top of that, gets no part of an escrow for a service: it is
/// neither the treasury nor the escrow's arbiter.
pub open spec fn mere_party(env: LedgerView, id: u64, who: Address) -> bool {
    outsider(env, who) && env.config.platform_treasury != Some(who) && env.meta(id).arbiter != Some(
        who,
    )
}

/// What a request, from one state to another, brings somebody of an escrow's token.
pub open spec fn gains(pre: LedgerView, post: LedgerView, id: u64, who: Address) -> int {
    gained(post.log, pre.meta(id).token, who) - gained(pre.log, pre.meta(id).token, who)
}

/// Looking an escrow up brings nobody but the admin anything.
pub proof fn lemma_access_gained(env: LedgerView, id: u64, token: Address, who: Address)
    requires
        env.accessed(id) is Ok,
        outsider(env, who),
    ensures
        gained(env.accessed(id)->Ok_0.0.log, token, who) == gained(env.log, token, who),
{
    broadcast use lemma_gained_push;

}

proof fn lemma_waiting_gained(
    env: LedgerView,
    id: u64,
    prereq: u32,
    n: nat,
    token: Address,
    who: Address,
)
    ensures
        gained(env.waiting_told(id, prereq, n).log, token, who) == gained(env.log, token, who),
    decreases n,
{
    broadcast use lemma_gained_push;

    if n > 0 {
        lemma_waiting_gained(env, id, prereq, (n - 1) as nat, token, who);
    }
}

/// Telling observers of dependents brings nobody but the admin anything.
pub proof fn lemma_dependents_gained(
    env: LedgerView,
    id: u64,
    prereq: u32,
    token: Address,
    who: Address,
)
    requires
        outsider(env, who),
    ensures
        gained(env.dependents_told(id, prereq).log, token, who) == gained(env.log, token, who),
        env.dependents_told(id, prereq).config == env.config,
        env.dependents_told(id, prereq).contract == env.contract,
{
    if env.accessed(id) is Ok {
        let (post, m) = env.accessed(id)->Ok_0;
        lemma_access_gained(env, id, token, who);
        lemma_waiting_gained(post, id, prereq, m.milestone_count as nat, token, who);
        crate::release::lemma_waiting_told(post, id, prereq, m.milestone_count as nat);
    }
}

} // verus!
