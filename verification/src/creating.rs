//! What a new escrow looks like, and what is asked of it.
use vstd::prelude::*;

use crate::creation::NewEscrow;
use crate::errors::EscrowError;
use crate::funds::{gained, lemma_gained_push};
use crate::ledger::LedgerView;
use crate::multisig::{policy_check, weight_sum};
use crate::storage::rent_periods;
use crate::types::{
    Address, EscrowStatus, Hash32, MetaView, MilestoneTemplateView, MilestoneView, MultisigView,
    Timelock, MS_PENDING,
};

verus! {

/// A hash that says something.
pub open spec fn given(hash: Hash32) -> bool {
    hash.hi != 0 || hash.lo != 0
}

/// A policy was asked for.
pub open spec fn has_policy(a: NewEscrow) -> bool {
    a.multisig matches Some(c) && (c.threshold > 0 || c.approvers.len() > 0)
}

/// A policy can be used: at most ten different approvers, each with a weight, who
/// together reach the threshold.
pub open spec fn usable_policy(c: MultisigView) -> bool {
    &&& c.approvers.len() <= 10
    &&& c.weights.len() == c.approvers.len()
    &&& forall|i: int, j: int|
        0 <= i < j < c.approvers.len() ==> (#[trigger] c.approvers[i]) != (
        #[trigger] c.approvers[j])
    &&& forall|i: int| 0 <= i < c.weights.len() ==> (#[trigger] c.weights[i]) > 0
    &&& 0 < c.threshold <= weight_sum(c.weights) <= u32::MAX
}

/// Nobody on a policy reaches its threshold alone.
pub open spec fn takes_several(c: MultisigView) -> bool {
    forall|i: int| 0 <= i < c.weights.len() ==> (#[trigger] c.weights[i]) < c.threshold
}

/// A policy passes the check exactly when it can be used, and the answer is whether
/// it takes several approvers.
pub proof fn law_policy_checked(c: MultisigView)
    ensures
        policy_check(c) is Ok <==> usable_policy(c),
        policy_check(c) is Ok ==> policy_check(c)->Ok_0 == takes_several(c),
        c.approvers.len() > 10 ==> policy_check(c) == Err::<bool, EscrowError>(
            EscrowError::MultisigTooManySigners,
        ),
{
}

/// Weights add up: none to nothing, and each one more by itself.
pub proof fn law_weight_sum(w: Seq<u32>, x: u32)
    ensures
        weight_sum(Seq::<u32>::empty()) == 0,
        weight_sum(w.push(x)) == weight_sum(w) + x,
{
    assert(w.push(x).drop_last() =~= w);
}

/// The amount from which an escrow takes several approvers.
pub open spec fn high_from(env: LedgerView) -> int {
    match env.config.high_value_threshold {
        Some(t) => t as int,
        None => 1_000_000_000_000,
    }
}

/// The score below which a known arbiter is not trusted.
pub open spec fn score_from(env: LedgerView) -> int {
    match env.config.min_arbiter_reputation {
        Some(s) => s as int,
        None => 100,
    }
}

/// What is asked of a new escrow.
pub open spec fn acceptable(env: LedgerView, a: NewEscrow) -> bool {
    &&& env.config.admin is Some
    &&& !env.config.paused
    &&& a.client != a.freelancer
    &&& 1 <= a.total_amount <= 100_000_000_000_000_000
    &&& a.deadline matches Some(d) ==> env.timestamp < d
    &&& a.lock_time matches Some(t) ==> env.timestamp < t
    &&& given(a.brief_hash)
    &&& a.terms_hash matches Some(h) ==> given(h)
    &&& a.timelock matches Some(t) ==> 1 <= t.duration_ledger <= 2_592_000
    &&& !env.barred.contains_key(a.token)
    &&& env.config.token_whitelist_enabled ==> env.config.approved_tokens.contains_key(a.token)
    &&& a.arbiter matches Some(x) ==> {
        let r = env.reputation(x);
        &&& x != a.client && x != a.freelancer
        &&& r.completed_escrows > 0 || r.total_score > 0 ==> r.total_score >= score_from(env)
        &&& env.is_allowed(x)
    }
    &&& has_policy(a) ==> usable_policy(a.multisig->Some_0)
    &&& a.total_amount >= high_from(env) ==> has_policy(a) && takes_several(a.multisig->Some_0)
}

/// A new escrow is accepted exactly when it is as asked.
#[verifier::rlimit(40)]
pub proof fn law_creation_accepts(env: LedgerView, a: NewEscrow, pays: bool)
    ensures
        env.created_from(a, pays) is Ok <==> acceptable(env, a),
{
    if has_policy(a) {
        law_policy_checked(a.multisig->Some_0);
    }
}

/// A header keeps everything that was asked for, and starts from nothing.
pub open spec fn kept_as_asked(m: MetaView, a: NewEscrow, now: u64) -> bool {
    &&& m.client == a.client
    &&& m.freelancer == a.freelancer
    &&& m.token == a.token
    &&& m.total_amount == a.total_amount
    &&& m.remaining_balance == a.total_amount
    &&& m.allotted_amount == a.total_amount
    &&& m.allocated_amount == 0
    &&& m.status == EscrowStatus::Active
    &&& m.milestone_count == 0
    &&& m.approved_count == 0
    &&& m.released_count == 0
    &&& m.submitted_count == 0
    &&& m.arbiter == a.arbiter
    &&& m.arbiter_fee_bps == 0
    &&& m.created_at == now
    &&& m.deadline == a.deadline
    &&& m.lock_time == a.lock_time
    &&& m.dispute_timeout_ledger == a.dispute_timeout_ledger
    &&& m.dispute_started_ledger is None
    &&& m.dispute_start_ledger is None
    &&& m.brief_hash == a.brief_hash
    &&& m.terms_hash == a.terms_hash
    &&& m.slippage_bps == 0
    &&& m.rent_balance == 30
    &&& m.last_rent_collection_at == now
    &&& match a.timelock {
        None => m.timelock is None,
        Some(t) => m.timelock == Some(
            Timelock { duration_ledger: t.duration_ledger, start_ledger: now },
        ),
    }
}

/// A new escrow is kept under the next number as it was asked for. Its client pays
/// the amount and thirty for the rent, or the rent alone where the contract holds
/// the amount already. The approvers are those of the policy, or else those named
/// and the client, each of whom is enough.
#[verifier::rlimit(40)]
pub proof fn law_created_as_asked(env: LedgerView, a: NewEscrow, pays: bool)
    requires
        env.created_from(a, pays) is Ok,
        env.config.escrow_counter < u64::MAX,
        a.client != env.contract,
    ensures
        ({
            let (post, id) = env.created_from(a, pays)->Ok_0;
            let m = post.meta(id);
            &&& id == env.config.escrow_counter
            &&& post.config.escrow_counter == env.config.escrow_counter + 1
            &&& post.has_meta(id)
            &&& m.escrow_id == id
            &&& kept_as_asked(m, a, env.timestamp)
            &&& has_policy(a) ==> {
                let c = a.multisig->Some_0;
                &&& m.buyer_signers == c.approvers
                &&& m.multisig_weights == c.weights
                &&& m.multisig_threshold == c.threshold
            }
            &&& !has_policy(a) ==> {
                &&& m.multisig_threshold == 0
                &&& m.multisig_weights.len() == 0
                &&& forall|who: u64|
                    #[trigger] m.buyer_signers.contains(who) <==> who == a.client.id || (
                    a.buyer_signers matches Some(s) && s.contains(who))
            }
            &&& gained(post.log, a.token, a.client) - gained(env.log, a.token, a.client) == -30 - if
            pays {
                a.total_amount as int
            } else {
                0
            }
        }),
{
    broadcast use lemma_gained_push;

    let (post, id) = env.created_from(a, pays)->Ok_0;
    let m = post.meta(id);
    if !has_policy(a) {
        let named = match a.buyer_signers {
            Some(s) => s,
            None => Seq::empty(),
        };
        let pushed = named.push(a.client.id);
        assert forall|who: u64| pushed.contains(who) <==> who == a.client.id || named.contains(
            who,
        ) by {
            if named.contains(who) {
                let i = choose|i: int| 0 <= i < named.len() && named[i] == who;
                assert(pushed[i] == who);
            }
            assert(pushed[named.len() as int] == a.client.id);
        }
    }
}

/// A gate lets nobody in who holds no item, and else creates what anybody would get.
pub proof fn law_gate_holds(
    env: LedgerView,
    collection: Address,
    item: u64,
    balance: i128,
    a: NewEscrow,
)
    ensures
        balance == 0 ==> env.nft_gated(collection, item, balance, a) is Err,
        balance != 0 ==> {
            &&& env.nft_gated(collection, item, balance, a) is Ok <==> acceptable(
                env.authed(a.client),
                a,
            )
            &&& env.nft_gated(collection, item, balance, a) is Ok ==> {
                let (post, id) = env.nft_gated(collection, item, balance, a)->Ok_0;
                id == env.config.escrow_counter && kept_as_asked(post.meta(id), a, env.timestamp)
            }
        },
{
    law_creation_accepts(env.authed(a.client), a, true);
}

/// A milestone as it was asked for, before anybody has worked on it.
pub open spec fn new_milestone(
    ms: MilestoneView,
    mid: int,
    title: Seq<u8>,
    hash: Hash32,
    amount: i128,
) -> bool {
    &&& ms.id == mid
    &&& ms.title == title
    &&& ms.description_hash == hash
    &&& ms.amount == amount
    &&& ms.status == MS_PENDING
    &&& ms.submitted_at is None
    &&& ms.resolved_at is None
    &&& ms.approvals.len() == 0
    &&& ms.rejection_reason is None
    &&& ms.depends_on is None
}

/// A milestone of an escrow is that of a template.
pub open spec fn follows(env: LedgerView, id: u64, t: MilestoneTemplateView, i: int) -> bool {
    env.has_milestone(id, i as u32) && new_milestone(
        env.milestone(id, i as u32),
        i,
        t.title,
        t.description_hash,
        t.amount,
    )
}

/// What the first `k` milestones of a template leave behind in a new escrow.
proof fn lemma_template_adds(
    env: LedgerView,
    client: Address,
    id: u64,
    ts: Seq<MilestoneTemplateView>,
    k: nat,
)
    requires
        env.template_added(client, id, ts, k) is Ok,
        env.has_meta(id),
        env.meta(id).escrow_id == id,
        env.meta(id).milestone_count == 0,
        rent_periods(env.timestamp, env.meta(id).last_rent_collection_at) == 0,
        k <= ts.len(),
    ensures
        ({
            let post = env.template_added(client, id, ts, k)->Ok_0.0;
            let m = post.meta(id);
            &&& post.has_meta(id)
            &&& post.timestamp == env.timestamp
            &&& m.escrow_id == id
            &&& m.milestone_count == k
            &&& m.rent_balance == env.meta(id).rent_balance + 30 * k
            &&& m == (MetaView {
                milestone_count: m.milestone_count,
                allocated_amount: m.allocated_amount,
                rent_balance: m.rent_balance,
                ..env.meta(id)
            })
            &&& forall|i: int| 0 <= i < k ==> follows(post, id, #[trigger] ts[i], i)
        }),
    decreases k,
{
    if k > 0 {
        lemma_template_adds(env, client, id, ts, (k - 1) as nat);
        let before = env.template_added(client, id, ts, (k - 1) as nat)->Ok_0.0;
        let post = env.template_added(client, id, ts, k)->Ok_0.0;
        let m = before.meta(id);
        assert(before.accessed(id)->Ok_0.1 == m);
        assert(m.milestone_count == k - 1);
        assert(follows(post, id, ts[k - 1], k - 1));
        assert forall|i: int| 0 <= i < k implies follows(post, id, #[trigger] ts[i], i) by {
            if i < k - 1 {
                assert(follows(before, id, ts[i], i));
                assert(i as u32 != (k - 1) as u32);
            }
        }
        assert(post.meta(id).milestone_count == k);
        assert(post.meta(id).rent_balance == m.rent_balance + 30);
        assert(post.meta(id).remaining_balance == m.remaining_balance);
        assert(post.meta(id).last_rent_collection_at == m.last_rent_collection_at);
    }
}

/// An escrow that is created from a template has the template's milestones, all of
/// them and in order, and is else what was asked for.
#[verifier::rlimit(40)]
pub proof fn law_template_used(
    env: LedgerView,
    caller: Address,
    template_id: u64,
    a: NewEscrow,
    i: int,
)
    requires
        env.from_template(caller, template_id, a) is Ok,
        env.config.escrow_counter < u64::MAX,
    ensures
        ({
            let (post, id) = env.from_template(caller, template_id, a)->Ok_0;
            let ts = env.book.templates[template_id].milestones;
            let m = post.meta(id);
            &&& caller == a.client
            &&& env.book.templates.contains_key(template_id)
            &&& id == env.config.escrow_counter
            &&& m.milestone_count == ts.len()
            &&& m.rent_balance == 30 + 30 * ts.len()
            &&& kept_as_asked(
                MetaView { milestone_count: 0, allocated_amount: 0, rent_balance: 30, ..m },
                a,
                env.timestamp,
            )
            &&& 0 <= i < ts.len() ==> follows(post, id, ts[i], i)
        }),
{
    let ts = env.book.templates[template_id].milestones;
    let made = env.authed(caller).created(a)->Ok_0.0;
    lemma_template_adds(made, a.client, env.config.escrow_counter, ts, ts.len());
}

/// A template is kept under the next number, as its maker gave it.
pub proof fn law_template_made(
    env: LedgerView,
    caller: Address,
    name: Seq<u8>,
    milestones: Seq<MilestoneTemplateView>,
)
    requires
        env.config.template_counter < u64::MAX,
    ensures
        env.template_created(caller, name, milestones) is Ok <==> env.config.admin is Some
            && !env.config.paused,
        env.template_created(caller, name, milestones) is Ok ==> {
            let (post, id) = env.template_created(caller, name, milestones)->Ok_0;
            let t = post.book.templates[id];
            &&& id == env.config.template_counter
            &&& post.config.template_counter == id + 1
            &&& post.book.templates.contains_key(id)
            &&& t.id == id
            &&& t.creator == caller
            &&& t.name == name
            &&& t.milestones == milestones
        },
{
}

/// An escrow that is asked for is kept as it was asked for, down to the last term.
#[verifier::rlimit(40)]
pub proof fn law_plain_as_asked(
    env: LedgerView,
    client: Address,
    freelancer: Address,
    token: Address,
    total_amount: i128,
    brief_hash: Hash32,
    arbiter: Option<Address>,
    deadline: Option<u64>,
    lock_time: Option<u64>,
    timelock: Option<Timelock>,
    multisig: MultisigView,
    terms_hash: Option<Hash32>,
)
    requires
        env.config.escrow_counter < u64::MAX,
    ensures
        ({
            let r = env.create_plain(
                client,
                freelancer,
                token,
                total_amount,
                brief_hash,
                arbiter,
                deadline,
                lock_time,
                timelock,
                multisig,
                terms_hash,
            );
            let a = NewEscrow {
                client,
                freelancer,
                token,
                total_amount,
                brief_hash,
                arbiter,
                deadline,
                lock_time,
                dispute_timeout_ledger: None,
                buyer_signers: None,
                multisig: Some(multisig),
                timelock,
                terms_hash,
            };
            let (post, id) = r->Ok_0;
            &&& r is Ok <==> acceptable(env, a)
            &&& r is Ok ==> id == env.config.escrow_counter && kept_as_asked(
                post.meta(id),
                a,
                env.timestamp,
            )
        }),
{
    let a = NewEscrow {
        client,
        freelancer,
        token,
        total_amount,
        brief_hash,
        arbiter,
        deadline,
        lock_time,
        dispute_timeout_ledger: None,
        buyer_signers: None,
        multisig: Some(multisig),
        timelock,
        terms_hash,
    };
    law_creation_accepts(env.authed(a.client), a, true);
}

/// So is one whose disputes can be claimed after a number of ledgers.
#[verifier::rlimit(40)]
pub proof fn law_timed_as_asked(
    env: LedgerView,
    client: Address,
    freelancer: Address,
    token: Address,
    total_amount: i128,
    brief_hash: Hash32,
    arbiter: Option<Address>,
    deadline: Option<u64>,
    lock_time: Option<u64>,
    ledgers: u32,
)
    requires
        env.config.escrow_counter < u64::MAX,
    ensures
        ({
            let r = env.create_timed(
                client,
                freelancer,
                token,
                total_amount,
                brief_hash,
                arbiter,
                deadline,
                lock_time,
                ledgers,
            );
            let a = NewEscrow {
                client,
                freelancer,
                token,
                total_amount,
                brief_hash,
                arbiter,
                deadline,
                lock_time,
                dispute_timeout_ledger: Some(ledgers),
                buyer_signers: None,
                multisig: None,
                timelock: None,
                terms_hash: None,
            };
            let (post, id) = r->Ok_0;
            &&& r is Ok <==> acceptable(env, a)
            &&& r is Ok ==> id == env.config.escrow_counter && kept_as_asked(
                post.meta(id),
                a,
                env.timestamp,
            )
        }),
{
    let a = NewEscrow {
        client,
        freelancer,
        token,
        total_amount,
        brief_hash,
        arbiter,
        deadline,
        lock_time,
        dispute_timeout_ledger: Some(ledgers),
        buyer_signers: None,
        multisig: None,
        timelock: None,
        terms_hash: None,
    };
    law_creation_accepts(env.authed(a.client), a, true);
}

/// So is one that any of up to ten signers approves.
#[verifier::rlimit(40)]
pub proof fn law_signed_as_asked(
    env: LedgerView,
    client: Address,
    freelancer: Address,
    token: Address,
    total_amount: i128,
    brief_hash: Hash32,
    arbiter: Option<Address>,
    deadline: Option<u64>,
    lock_time: Option<u64>,
    signers: Seq<u64>,
)
    requires
        env.config.escrow_counter < u64::MAX,
    ensures
        ({
            let r = env.create_signed(
                client,
                freelancer,
                token,
                total_amount,
                brief_hash,
                arbiter,
                deadline,
                lock_time,
                signers,
            );
            let a = NewEscrow {
                client,
                freelancer,
                token,
                total_amount,
                brief_hash,
                arbiter,
                deadline,
                lock_time,
                dispute_timeout_ledger: None,
                buyer_signers: Some(signers),
                multisig: None,
                timelock: None,
                terms_hash: None,
            };
            let (post, id) = r->Ok_0;
            &&& r is Ok <==> acceptable(env, a) && signers.len() <= 10
            &&& r is Ok ==> id == env.config.escrow_counter && kept_as_asked(
                post.meta(id),
                a,
                env.timestamp,
            )
        }),
{
    let a = NewEscrow {
        client,
        freelancer,
        token,
        total_amount,
        brief_hash,
        arbiter,
        deadline,
        lock_time,
        dispute_timeout_ledger: None,
        buyer_signers: Some(signers),
        multisig: None,
        timelock: None,
        terms_hash: None,
    };
    law_creation_accepts(env.authed(a.client), a, true);
}

/// So is one for somebody who holds an item of a collection.
#[verifier::rlimit(40)]
pub proof fn law_gated_as_asked(
    env: LedgerView,
    caller: Address,
    collection: Address,
    item: u64,
    balance: i128,
    freelancer: Address,
    token: Address,
    total_amount: i128,
    brief_hash: Hash32,
    arbiter: Option<Address>,
    deadline: Option<u64>,
    lock_time: Option<u64>,
)
    requires
        env.config.escrow_counter < u64::MAX,
    ensures
        ({
            let r = env.create_gated(
                caller,
                collection,
                item,
                balance,
                freelancer,
                token,
                total_amount,
                brief_hash,
                arbiter,
                deadline,
                lock_time,
            );
            let a = NewEscrow {
                client: caller,
                freelancer,
                token,
                total_amount,
                brief_hash,
                arbiter,
                deadline,
                lock_time,
                dispute_timeout_ledger: None,
                buyer_signers: None,
                multisig: None,
                timelock: None,
                terms_hash: None,
            };
            let (post, id) = r->Ok_0;
            &&& r is Ok <==> acceptable(env, a) && balance != 0
            &&& r is Ok ==> id == env.config.escrow_counter && kept_as_asked(
                post.meta(id),
                a,
                env.timestamp,
            )
        }),
{
    let a = NewEscrow {
        client: caller,
        freelancer,
        token,
        total_amount,
        brief_hash,
        arbiter,
        deadline,
        lock_time,
        dispute_timeout_ledger: None,
        buyer_signers: None,
        multisig: None,
        timelock: None,
        terms_hash: None,
    };
    law_creation_accepts(env.authed(a.client), a, true);
}

/// So is one that is created from a template, which sets the milestones only.
#[verifier::rlimit(40)]
pub proof fn law_template_as_asked(
    env: LedgerView,
    caller: Address,
    template_id: u64,
    client: Address,
    freelancer: Address,
    token: Address,
    total_amount: i128,
    brief_hash: Hash32,
    arbiter: Option<Address>,
    deadline: Option<u64>,
)
    requires
        env.config.escrow_counter < u64::MAX,
    ensures
        ({
            let r = env.create_from_template(
                caller,
                template_id,
                client,
                freelancer,
                token,
                total_amount,
                brief_hash,
                arbiter,
                deadline,
            );
            let (post, id) = r->Ok_0;
            let m = post.meta(id);
            r is Ok ==> {
                &&& caller == client
                &&& m.client == client && m.freelancer == freelancer && m.token == token
                &&& m.total_amount == total_amount && m.remaining_balance == total_amount
                &&& m.brief_hash == brief_hash && m.arbiter == arbiter && m.deadline == deadline
                &&& m.lock_time is None && m.timelock is None && m.terms_hash is None
                &&& m.dispute_timeout_ledger is None
                &&& m.milestone_count == env.book.templates[template_id].milestones.len()
            }
        }),
{
    let r = env.create_from_template(
        caller,
        template_id,
        client,
        freelancer,
        token,
        total_amount,
        brief_hash,
        arbiter,
        deadline,
    );
    if r is Ok {
        law_template_used(env, caller, template_id, NewEscrow {
            client,
            freelancer,
            token,
            total_amount,
            brief_hash,
            arbiter,
            deadline,
            lock_time: None,
            dispute_timeout_ledger: None,
            buyer_signers: None,
            multisig: None,
            timelock: None,
            terms_hash: None,
        }, 0);
    }
}

} // verus!
